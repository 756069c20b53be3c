//! Player traits: the batting traits (power, speed, contact, defense,
//! toughness) and the pitcher traits of Deadball.

use vstd::prelude::*;
use crate::text::str_eq;

verus! {

/// What every player trait offers: a number (positive for a good trait,
/// negative for a bad one, zero for none), its weight in the RBI score, and
/// the symbol it is written with.
pub trait PlayerTrait: Sized + Copy {
    spec fn value(&self) -> int;

    spec fn rbi_value(&self) -> int;

    spec fn symbol(&self) -> Seq<char>;

    fn to_int(&self) -> (r: i32)
        ensures
            r == self.value(),
    ;

    fn get_rbi_score(&self) -> (r: i32)
        ensures
            r == self.rbi_value(),
    ;

    fn to_display(&self) -> (r: String)
        ensures
            r@ == self.symbol(),
    ;
}

/// The text a trait is stored as: `None` for a trait written with no symbol.
pub fn trait_to_sql_text<T: PlayerTrait>(player_trait: &T) -> (r: Option<String>)
    ensures
        player_trait.symbol().len() == 0 ==> r is None,
        player_trait.symbol().len() != 0 ==> (r matches Some(s) && s@ == player_trait.symbol()),
{
    let trait_string = player_trait.to_display();
    if trait_string.as_str().unicode_len() == 0 {
        None
    } else {
        Some(trait_string)
    }
}

#[derive(Debug, Clone, Copy, PartialEq, Eq, Structural)]
pub enum Power {
    P2,
    P1,
    P0,
    PM1,
    PM2,
}

impl PlayerTrait for Power {
    open spec fn value(&self) -> int {
        match self {
            Power::P2 => 2,
            Power::P1 => 1,
            Power::P0 => 0,
            Power::PM1 => -1,
            Power::PM2 => -2,
        }
    }

    open spec fn rbi_value(&self) -> int {
        self.value() * 3
    }

    open spec fn symbol(&self) -> Seq<char> {
        match self {
            Power::P2 => "P++"@,
            Power::P1 => "P+"@,
            Power::P0 => ""@,
            Power::PM1 => "P-"@,
            Power::PM2 => "P--"@,
        }
    }

    fn to_int(&self) -> (r: i32) {
        match self {
            Power::P2 => 2,
            Power::P1 => 1,
            Power::P0 => 0,
            Power::PM1 => -1,
            Power::PM2 => -2,
        }
    }

    fn get_rbi_score(&self) -> (r: i32) {
        self.to_int() * 3
    }

    fn to_display(&self) -> (r: String) {
        String::from_str(
            match self {
                Power::P2 => "P++",
                Power::P1 => "P+",
                Power::P0 => "",
                Power::PM1 => "P-",
                Power::PM2 => "P--",
            },
        )
    }
}

impl Power {
    /// The power trait that a word names, if any.
    pub open spec fn named(w: Seq<char>) -> Option<Power> {
        if w == "P++"@ {
            Some(Power::P2)
        } else if w == "P+"@ {
            Some(Power::P1)
        } else if w == "P-"@ {
            Some(Power::PM1)
        } else if w == "P--"@ {
            Some(Power::PM2)
        } else {
            None
        }
    }

    pub fn from_name(w: &str) -> (r: Option<Power>)
        ensures
            r == Power::named(w@),
    {
        if str_eq(w, "P++") {
            Some(Power::P2)
        } else if str_eq(w, "P+") {
            Some(Power::P1)
        } else if str_eq(w, "P-") {
            Some(Power::PM1)
        } else if str_eq(w, "P--") {
            Some(Power::PM2)
        } else {
            None
        }
    }
}

#[derive(Debug, Clone, Copy, PartialEq, Eq, Structural)]
pub enum Speed {
    S2,
    S1,
    S0,
    SM1,
}

impl PlayerTrait for Speed {
    open spec fn value(&self) -> int {
        match self {
            Speed::S2 => 2,
            Speed::S1 => 1,
            Speed::S0 => 0,
            Speed::SM1 => -1,
        }
    }

    open spec fn rbi_value(&self) -> int {
        0
    }

    open spec fn symbol(&self) -> Seq<char> {
        match self {
            Speed::S2 => "S++"@,
            Speed::S1 => "S+"@,
            Speed::S0 => ""@,
            Speed::SM1 => "S-"@,
        }
    }

    fn to_int(&self) -> (r: i32) {
        match self {
            Speed::S2 => 2,
            Speed::S1 => 1,
            Speed::S0 => 0,
            Speed::SM1 => -1,
        }
    }

    fn get_rbi_score(&self) -> (r: i32) {
        0
    }

    fn to_display(&self) -> (r: String) {
        String::from_str(
            match self {
                Speed::S2 => "S++",
                Speed::S1 => "S+",
                Speed::S0 => "",
                Speed::SM1 => "S-",
            },
        )
    }
}

impl Speed {
    /// The speed trait that a word names, if any.
    pub open spec fn named(w: Seq<char>) -> Option<Speed> {
        if w == "S++"@ {
            Some(Speed::S2)
        } else if w == "S+"@ {
            Some(Speed::S1)
        } else if w == "S-"@ {
            Some(Speed::SM1)
        } else {
            None
        }
    }

    pub fn from_name(w: &str) -> (r: Option<Speed>)
        ensures
            r == Speed::named(w@),
    {
        if str_eq(w, "S++") {
            Some(Speed::S2)
        } else if str_eq(w, "S+") {
            Some(Speed::S1)
        } else if str_eq(w, "S-") {
            Some(Speed::SM1)
        } else {
            None
        }
    }
}

#[derive(Debug, Clone, Copy, PartialEq, Eq, Structural)]
pub enum Contact {
    C1,
    C0,
    CM1,
}

impl PlayerTrait for Contact {
    open spec fn value(&self) -> int {
        match self {
            Contact::C1 => 1,
            Contact::C0 => 0,
            Contact::CM1 => -1,
        }
    }

    open spec fn rbi_value(&self) -> int {
        self.value() * 2
    }

    open spec fn symbol(&self) -> Seq<char> {
        match self {
            Contact::C1 => "C+"@,
            Contact::C0 => ""@,
            Contact::CM1 => "C-"@,
        }
    }

    fn to_int(&self) -> (r: i32) {
        match self {
            Contact::C1 => 1,
            Contact::C0 => 0,
            Contact::CM1 => -1,
        }
    }

    fn get_rbi_score(&self) -> (r: i32) {
        self.to_int() * 2
    }

    fn to_display(&self) -> (r: String) {
        String::from_str(
            match self {
                Contact::C1 => "C+",
                Contact::C0 => "",
                Contact::CM1 => "C-",
            },
        )
    }
}

impl Contact {
    /// The contact trait that a word names, if any.
    pub open spec fn named(w: Seq<char>) -> Option<Contact> {
        if w == "C+"@ {
            Some(Contact::C1)
        } else if w == "C-"@ {
            Some(Contact::CM1)
        } else {
            None
        }
    }

    pub fn from_name(w: &str) -> (r: Option<Contact>)
        ensures
            r == Contact::named(w@),
    {
        if str_eq(w, "C+") {
            Some(Contact::C1)
        } else if str_eq(w, "C-") {
            Some(Contact::CM1)
        } else {
            None
        }
    }
}

#[derive(Debug, Clone, Copy, PartialEq, Eq, Structural)]
pub enum Defense {
    D1,
    D0,
    DM1,
}

impl PlayerTrait for Defense {
    open spec fn value(&self) -> int {
        match self {
            Defense::D1 => 1,
            Defense::D0 => 0,
            Defense::DM1 => -1,
        }
    }

    open spec fn rbi_value(&self) -> int {
        0
    }

    open spec fn symbol(&self) -> Seq<char> {
        match self {
            Defense::D1 => "D+"@,
            Defense::D0 => ""@,
            Defense::DM1 => "D-"@,
        }
    }

    fn to_int(&self) -> (r: i32) {
        match self {
            Defense::D1 => 1,
            Defense::D0 => 0,
            Defense::DM1 => -1,
        }
    }

    fn get_rbi_score(&self) -> (r: i32) {
        0
    }

    fn to_display(&self) -> (r: String) {
        String::from_str(
            match self {
                Defense::D1 => "D+",
                Defense::D0 => "",
                Defense::DM1 => "D-",
            },
        )
    }
}

impl Defense {
    /// The defense trait that a word names, if any.
    pub open spec fn named(w: Seq<char>) -> Option<Defense> {
        if w == "D+"@ {
            Some(Defense::D1)
        } else if w == "D-"@ {
            Some(Defense::DM1)
        } else {
            None
        }
    }

    pub fn from_name(w: &str) -> (r: Option<Defense>)
        ensures
            r == Defense::named(w@),
    {
        if str_eq(w, "D+") {
            Some(Defense::D1)
        } else if str_eq(w, "D-") {
            Some(Defense::DM1)
        } else {
            None
        }
    }
}

#[derive(Debug, Clone, Copy, PartialEq, Eq, Structural)]
pub enum Toughness {
    T1,
    T0,
}

impl PlayerTrait for Toughness {
    open spec fn value(&self) -> int {
        match self {
            Toughness::T1 => 1,
            Toughness::T0 => 0,
        }
    }

    open spec fn rbi_value(&self) -> int {
        0
    }

    open spec fn symbol(&self) -> Seq<char> {
        match self {
            Toughness::T1 => "T+"@,
            Toughness::T0 => ""@,
        }
    }

    fn to_int(&self) -> (r: i32) {
        match self {
            Toughness::T1 => 1,
            Toughness::T0 => 0,
        }
    }

    fn get_rbi_score(&self) -> (r: i32) {
        0
    }

    fn to_display(&self) -> (r: String) {
        String::from_str(
            match self {
                Toughness::T1 => "T+",
                Toughness::T0 => "",
            },
        )
    }
}

impl Toughness {
    /// The toughness trait that a word names, if any.
    pub open spec fn named(w: Seq<char>) -> Option<Toughness> {
        if w == "T+"@ {
            Some(Toughness::T1)
        } else {
            None
        }
    }

    pub fn from_name(w: &str) -> (r: Option<Toughness>)
        ensures
            r == Toughness::named(w@),
    {
        if str_eq(w, "T+") {
            Some(Toughness::T1)
        } else {
            None
        }
    }
}

#[derive(Debug, Clone, Copy, PartialEq, Eq, Structural)]
pub enum PitcherTrait {
    CNM,
    K,
    GB,
    CN,
    ST,
}

impl PlayerTrait for PitcherTrait {
    open spec fn value(&self) -> int {
        5
    }

    open spec fn rbi_value(&self) -> int {
        0
    }

    open spec fn symbol(&self) -> Seq<char> {
        match self {
            PitcherTrait::CNM => "CN-"@,
            PitcherTrait::K => "K+"@,
            PitcherTrait::GB => "GB"@,
            PitcherTrait::CN => "CN+"@,
            PitcherTrait::ST => "St+"@,
        }
    }

    fn to_int(&self) -> (r: i32) {
        5
    }

    fn get_rbi_score(&self) -> (r: i32) {
        0
    }

    fn to_display(&self) -> (r: String) {
        String::from_str(
            match self {
                PitcherTrait::CNM => "CN-",
                PitcherTrait::K => "K+",
                PitcherTrait::GB => "GB",
                PitcherTrait::CN => "CN+",
                PitcherTrait::ST => "St+",
            },
        )
    }
}

impl PitcherTrait {
    /// The name a pitcher trait is stored under.
    pub open spec fn name(&self) -> Seq<char> {
        match self {
            PitcherTrait::CNM => "CNM"@,
            PitcherTrait::K => "K"@,
            PitcherTrait::GB => "GB"@,
            PitcherTrait::CN => "CN"@,
            PitcherTrait::ST => "ST"@,
        }
    }

    pub fn to_name(&self) -> (r: &'static str)
        ensures
            r@ == self.name(),
    {
        match self {
            PitcherTrait::CNM => "CNM",
            PitcherTrait::K => "K",
            PitcherTrait::GB => "GB",
            PitcherTrait::CN => "CN",
            PitcherTrait::ST => "ST",
        }
    }

    /// The pitcher trait stored under a name, if any.
    pub fn from_name(w: &str) -> (r: Option<PitcherTrait>)
        ensures
            r matches Some(t) ==> t.name() == w@,
            r is None ==> forall|t: PitcherTrait| t.name() != w@,
    {
        proof {
            reveal_strlit("CNM");
            reveal_strlit("K");
            reveal_strlit("GB");
            reveal_strlit("CN");
            reveal_strlit("ST");
        }
        if str_eq(w, "CNM") {
            Some(PitcherTrait::CNM)
        } else if str_eq(w, "K") {
            Some(PitcherTrait::K)
        } else if str_eq(w, "GB") {
            Some(PitcherTrait::GB)
        } else if str_eq(w, "CN") {
            Some(PitcherTrait::CN)
        } else if str_eq(w, "ST") {
            Some(PitcherTrait::ST)
        } else {
            None
        }
    }
}

/// Every power trait but the neutral one is written with a symbol
/// that, read back, names the same trait.
pub proof fn law_power_symbol_names_it(x: Power)
    requires
        x != Power::P0,
    ensures
        Power::named(x.symbol()) == Some(x),
{
    reveal_strlit("P++");
    reveal_strlit("P+");
    reveal_strlit("P-");
    reveal_strlit("P--");
    assert("P+"@.len() != "P++"@.len());
    assert("P+"@ != "P++"@);
    assert("P-"@.len() != "P++"@.len());
    assert("P-"@ != "P++"@);
    assert("P-"@[1] != "P+"@[1]);
    assert("P-"@ != "P+"@);
    assert("P--"@[1] != "P++"@[1]);
    assert("P--"@ != "P++"@);
    assert("P--"@.len() != "P+"@.len());
    assert("P--"@ != "P+"@);
    assert("P--"@.len() != "P-"@.len());
    assert("P--"@ != "P-"@);
}

/// Every speed trait but the neutral one is written with a symbol
/// that, read back, names the same trait.
pub proof fn law_speed_symbol_names_it(x: Speed)
    requires
        x != Speed::S0,
    ensures
        Speed::named(x.symbol()) == Some(x),
{
    reveal_strlit("S++");
    reveal_strlit("S+");
    reveal_strlit("S-");
    assert("S+"@.len() != "S++"@.len());
    assert("S+"@ != "S++"@);
    assert("S-"@.len() != "S++"@.len());
    assert("S-"@ != "S++"@);
    assert("S-"@[1] != "S+"@[1]);
    assert("S-"@ != "S+"@);
}

/// Every contact trait but the neutral one is written with a symbol
/// that, read back, names the same trait.
pub proof fn law_contact_symbol_names_it(x: Contact)
    requires
        x != Contact::C0,
    ensures
        Contact::named(x.symbol()) == Some(x),
{
    reveal_strlit("C+");
    reveal_strlit("C-");
    assert("C-"@[1] != "C+"@[1]);
    assert("C-"@ != "C+"@);
}

/// Every defense trait but the neutral one is written with a symbol
/// that, read back, names the same trait.
pub proof fn law_defense_symbol_names_it(x: Defense)
    requires
        x != Defense::D0,
    ensures
        Defense::named(x.symbol()) == Some(x),
{
    reveal_strlit("D+");
    reveal_strlit("D-");
    assert("D-"@[1] != "D+"@[1]);
    assert("D-"@ != "D+"@);
}

/// Every toughness trait but the neutral one is written with a symbol
/// that, read back, names the same trait.
pub proof fn law_toughness_symbol_names_it(x: Toughness)
    requires
        x != Toughness::T0,
    ensures
        Toughness::named(x.symbol()) == Some(x),
{
    reveal_strlit("T+");
}

} // verus!
