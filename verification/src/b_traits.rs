//! The batting traits of a player, taken together.

use vstd::prelude::*;
use rand::rngs::ThreadRng;
use crate::dice::roll_two;
use crate::text::{is_white_space, white_space};
use crate::traits::{Contact, Defense, PlayerTrait, Power, Speed, Toughness};
use crate::traits::{law_power_symbol_names_it, law_contact_symbol_names_it, law_defense_symbol_names_it, law_speed_symbol_names_it, law_toughness_symbol_names_it};

verus! {

#[derive(PartialEq, Eq, PartialOrd, Ord, Copy, Clone, Debug)]
pub struct LineupInts {
    pub power: i32,
    pub contact: i32,
    pub speed: i32,
}

/// Every batting trait of a player.
#[derive(Debug, Clone, Copy, PartialEq, Eq, Structural)]
pub struct BTraits {
    pub contact: Contact,
    pub defense: Defense,
    pub power: Power,
    pub speed: Speed,
    pub toughness: Toughness,
}

/// For each batting trait, whether it is above average.
#[derive(Debug, Clone, Copy, PartialEq, Eq, Structural)]
pub struct BTraitAboveAverage {
    pub contact: bool,
    pub defense: bool,
    pub power: bool,
    pub speed: bool,
    pub toughness: bool,
}

/// The batting traits of a player with no trait.
pub open spec fn no_traits() -> BTraits {
    BTraits {
        contact: Contact::C0,
        defense: Defense::D0,
        power: Power::P0,
        speed: Speed::S0,
        toughness: Toughness::T0,
    }
}

impl Default for BTraits {
    fn default() -> (r: BTraits)
        ensures
            r == no_traits(),
    {
        BTraits {
            contact: Contact::C0,
            defense: Defense::D0,
            power: Power::P0,
            speed: Speed::S0,
            toughness: Toughness::T0,
        }
    }
}

/// A trait is above average when its number is positive.
fn above_average<T: PlayerTrait>(b_trait: T) -> (r: bool)
    ensures
        r == (b_trait.value() > 0),
{
    b_trait.to_int() > 0
}

/// Whether a new trait replaces an old one: any trait replaces no trait, and
/// otherwise only a trait of the same direction and greater size.
pub open spec fn stacks(current: int, new: int) -> bool {
    ||| (current == 0 && new != 0)
    ||| (current > 0 && new > current)
    ||| (current < 0 && new < current)
}

pub open spec fn stacked<T: PlayerTrait>(current: T, new: T) -> T {
    if stacks(current.value(), new.value()) {
        new
    } else {
        current
    }
}

/// Takes a current trait and a new trait. If the new trait is a valid
/// upgrade or downgrade, the new trait is returned.
fn trait_stack<T: PlayerTrait>(current: T, new: T) -> (r: T)
    ensures
        r == stacked(current, new),
{
    let current_num = current.to_int();
    let new_num = new.to_int();
    if (current_num == 0 && new_num != 0) || (current_num > 0 && new_num > current_num) || (
    current_num < 0 && new_num < current_num) {
        new
    } else {
        current
    }
}

/// Stacking a trait never weakens it: the result is at least as far from zero
/// as the current one, and a trait that had a direction keeps it.
pub proof fn law_stacking_never_weakens<T: PlayerTrait>(current: T, new: T)
    ensures
        ({
            let o = current.value();
            let r = stacked(current, new).value();
            &&& (if r < 0 { -r } else { r }) >= (if o < 0 { -o } else { o })
            &&& o > 0 ==> r > 0
            &&& o < 0 ==> r < 0
        }),
{
}

/// A trait is kept, or replaced by a good trait stronger than it.
pub open spec fn raised_or_kept<T: PlayerTrait>(before: T, after: T) -> bool {
    after == before || (after.value() > 0 && after.value() > before.value())
}

/// A trait is kept, or replaced by a bad trait weaker than it.
pub open spec fn lowered_or_kept<T: PlayerTrait>(before: T, after: T) -> bool {
    after == before || (after.value() < 0 && after.value() < before.value())
}

/// Whether a roll of two ten-sided dice gives a player a trait.
pub open spec fn roll_gives_trait(roll: int) -> bool {
    ||| 2 <= roll <= 6
    ||| 15 <= roll <= 20
}

/// The batting traits after a roll of two ten-sided dice: low rolls give bad
/// traits, high rolls good ones, stacked on the traits already there.
pub open spec fn rolled(b: BTraits, roll: int) -> BTraits {
    if roll == 2 {
        BTraits { power: stacked(b.power, Power::PM2), ..b }
    } else if roll == 3 {
        BTraits { power: stacked(b.power, Power::PM1), ..b }
    } else if roll == 4 {
        BTraits { speed: stacked(b.speed, Speed::SM1), ..b }
    } else if roll == 5 {
        BTraits { contact: stacked(b.contact, Contact::CM1), ..b }
    } else if roll == 6 {
        BTraits { defense: stacked(b.defense, Defense::DM1), ..b }
    } else if roll == 15 {
        BTraits { defense: stacked(b.defense, Defense::D1), ..b }
    } else if roll == 16 {
        BTraits { power: stacked(b.power, Power::P1), ..b }
    } else if roll == 17 {
        BTraits { contact: stacked(b.contact, Contact::C1), ..b }
    } else if roll == 18 {
        BTraits { speed: stacked(b.speed, Speed::S1), ..b }
    } else if roll == 19 {
        BTraits { toughness: stacked(b.toughness, Toughness::T1), ..b }
    } else if roll == 20 {
        BTraits { power: stacked(b.power, Power::P2), ..b }
    } else {
        b
    }
}

/// The position of the first comma at or after `pos`, or the end of the text.
pub open spec fn comma_at(s: Seq<char>, pos: int) -> int
    decreases s.len() - pos,
{
    if pos >= s.len() {
        s.len() as int
    } else if s[pos] == ',' {
        pos
    } else {
        comma_at(s, pos + 1)
    }
}

/// The first position of `a..b` that is not white space, or `b`.
pub open spec fn trim_front(s: Seq<char>, a: int, b: int) -> int
    decreases b - a,
{
    if a >= b {
        b
    } else if is_white_space(s[a]) {
        trim_front(s, a + 1, b)
    } else {
        a
    }
}

/// The end of `a..b` once the white space at its end is left out.
pub open spec fn trim_back(s: Seq<char>, a: int, b: int) -> int
    decreases b - a,
{
    if b <= a {
        a
    } else if is_white_space(s[b - 1]) {
        trim_back(s, a, b - 1)
    } else {
        b
    }
}

/// The word that starts at `pos`: the text up to the next comma, without the
/// white space around it.
pub open spec fn word_at(s: Seq<char>, pos: int) -> Seq<char> {
    let e = comma_at(s, pos);
    let a = trim_front(s, pos, e);
    s.subrange(a, trim_back(s, a, e))
}

/// The traits once a word has set the trait it names, if it names one.
pub open spec fn with_word(b: BTraits, w: Seq<char>) -> Option<BTraits> {
    if Power::named(w) is Some {
        Some(BTraits { power: Power::named(w)->0, ..b })
    } else if Contact::named(w) is Some {
        Some(BTraits { contact: Contact::named(w)->0, ..b })
    } else if Defense::named(w) is Some {
        Some(BTraits { defense: Defense::named(w)->0, ..b })
    } else if Speed::named(w) is Some {
        Some(BTraits { speed: Speed::named(w)->0, ..b })
    } else if Toughness::named(w) is Some {
        Some(BTraits { toughness: Toughness::named(w)->0, ..b })
    } else {
        None
    }
}

pub open spec fn invalid_word_message(w: Seq<char>) -> Seq<char> {
    "Warning: Attempted to parse invalid string '"@ + "\""@ + w + "\""@ + "' as a trait"@
}

pub proof fn lemma_comma_at(s: Seq<char>, pos: int)
    requires
        0 <= pos <= s.len(),
    ensures
        pos <= comma_at(s, pos) <= s.len(),
        comma_at(s, pos) < s.len() ==> s[comma_at(s, pos)] == ',',
        forall|k: int| pos <= k < comma_at(s, pos) ==> s[k] != ',',
    decreases s.len() - pos,
{
    if pos < s.len() && s[pos] != ',' {
        lemma_comma_at(s, pos + 1);
    }
}

pub proof fn lemma_trim_front(s: Seq<char>, a: int, b: int)
    requires
        a <= b,
    ensures
        a <= trim_front(s, a, b) <= b,
    decreases b - a,
{
    if a < b && is_white_space(s[a]) {
        lemma_trim_front(s, a + 1, b);
    }
}

pub proof fn lemma_trim_back(s: Seq<char>, a: int, b: int)
    requires
        a <= b,
    ensures
        a <= trim_back(s, a, b) <= b,
    decreases b - a,
{
    if a < b && is_white_space(s[b - 1]) {
        lemma_trim_back(s, a, b - 1);
    }
}

/// Reads the words of `s` from `pos` on, one after the other, each setting a
/// trait of `acc`; words left empty once trimmed are skipped, and the first
/// word that names no trait is an error.
pub open spec fn parse_words(s: Seq<char>, pos: int, acc: BTraits) -> Result<BTraits, Seq<char>>
    decreases s.len() - pos,
{
    if 0 <= pos <= s.len() {
        let e = comma_at(s, pos);
        let w = word_at(s, pos);
        if w.len() != 0 && with_word(acc, w) is None {
            Err(invalid_word_message(w))
        } else {
            let next = if w.len() == 0 { acc } else { with_word(acc, w)->0 };
            if e >= s.len() {
                Ok(next)
            } else {
                proof {
                    lemma_comma_at(s, pos);
                }
                parse_words(s, e + 1, next)
            }
        }
    } else {
        Ok(acc)
    }
}

/// A high roll (15 to 20) only ever gives or strengthens good traits, a low
/// roll (2 to 6) only ever gives or worsens bad ones, and any other roll
/// changes nothing.
pub proof fn law_roll_direction(b: BTraits, roll: int)
    ensures
        15 <= roll <= 20 ==> {
            let r = rolled(b, roll);
            &&& raised_or_kept(b.power, r.power)
            &&& raised_or_kept(b.contact, r.contact)
            &&& raised_or_kept(b.defense, r.defense)
            &&& raised_or_kept(b.speed, r.speed)
            &&& raised_or_kept(b.toughness, r.toughness)
        },
        2 <= roll <= 6 ==> {
            let r = rolled(b, roll);
            &&& lowered_or_kept(b.power, r.power)
            &&& lowered_or_kept(b.contact, r.contact)
            &&& lowered_or_kept(b.defense, r.defense)
            &&& lowered_or_kept(b.speed, r.speed)
            &&& lowered_or_kept(b.toughness, r.toughness)
        },
        !(2 <= roll <= 6 || 15 <= roll <= 20) ==> rolled(b, roll) == b,
{
}

/// The trait each roll gives a player without traits: 2 gives P--, 3 P-,
/// 4 S-, 5 C-, 6 D-, 15 D+, 16 P+, 17 C+, 18 S+, 19 T+ and 20 P++; the other
/// traits stay none.
pub proof fn law_roll_on_no_traits(roll: int)
    ensures
        roll == 2 ==> rolled(no_traits(), roll) == (BTraits { power: Power::PM2, ..no_traits() }),
        roll == 3 ==> rolled(no_traits(), roll) == (BTraits { power: Power::PM1, ..no_traits() }),
        roll == 4 ==> rolled(no_traits(), roll) == (BTraits { speed: Speed::SM1, ..no_traits() }),
        roll == 5 ==> rolled(no_traits(), roll) == (BTraits { contact: Contact::CM1, ..no_traits() }),
        roll == 6 ==> rolled(no_traits(), roll) == (BTraits { defense: Defense::DM1, ..no_traits() }),
        roll == 15 ==> rolled(no_traits(), roll) == (BTraits { defense: Defense::D1, ..no_traits() }),
        roll == 16 ==> rolled(no_traits(), roll) == (BTraits { power: Power::P1, ..no_traits() }),
        roll == 17 ==> rolled(no_traits(), roll) == (BTraits { contact: Contact::C1, ..no_traits() }),
        roll == 18 ==> rolled(no_traits(), roll) == (BTraits { speed: Speed::S1, ..no_traits() }),
        roll == 19 ==> rolled(no_traits(), roll) == (BTraits { toughness: Toughness::T1, ..no_traits() }),
        roll == 20 ==> rolled(no_traits(), roll) == (BTraits { power: Power::P2, ..no_traits() }),
{
}

impl BTraits {
    /// Takes a string, and creates the batting traits it lists. Traits are
    /// separated by commas; if the traits contradict each other then the later
    /// trait is used; any trait not specified is the default trait.
    pub fn from_string(input: &str) -> (r: Result<BTraits, String>)
        ensures
            match parse_words(input@, 0, no_traits()) {
                Ok(b) => r == Ok::<BTraits, String>(b),
                Err(m) => r matches Err(e) && e@ == m,
            },
    {
        let ghost s = input@;
        let n = input.unicode_len();
        let mut result = BTraits::default();
        let mut pos: usize = 0;
        loop
            invariant
                n == s.len(),
                s == input@,
                pos <= n,
                parse_words(s, 0, no_traits()) == parse_words(s, pos as int, result),
            decreases n - pos,
        {
            proof {
                lemma_comma_at(s, pos as int);
            }
            let mut e = pos;
            while e < n && input.get_char(e) != ','
                invariant
                    pos <= e <= n,
                    n == s.len(),
                    s == input@,
                    comma_at(s, pos as int) == comma_at(s, e as int),
                decreases n - e,
            {
                e = e + 1;
            }
            let mut a = pos;
            while a < e && white_space(input.get_char(a))
                invariant
                    pos <= a <= e <= n,
                    n == s.len(),
                    s == input@,
                    trim_front(s, pos as int, e as int) == trim_front(s, a as int, e as int),
                decreases e - a,
            {
                a = a + 1;
            }
            let mut b = e;
            while b > a && white_space(input.get_char(b - 1))
                invariant
                    a <= b <= e <= n,
                    n == s.len(),
                    s == input@,
                    trim_back(s, a as int, e as int) == trim_back(s, a as int, b as int),
                decreases b - a,
            {
                b = b - 1;
            }
            assert(word_at(s, pos as int) == s.subrange(a as int, b as int));
            if a < b {
                let word = input.substring_char(a, b);
                if let Some(power) = Power::from_name(word) {
                    result.power = power;
                } else if let Some(contact) = Contact::from_name(word) {
                    result.contact = contact;
                } else if let Some(defense) = Defense::from_name(word) {
                    result.defense = defense;
                } else if let Some(speed) = Speed::from_name(word) {
                    result.speed = speed;
                } else if let Some(toughness) = Toughness::from_name(word) {
                    result.toughness = toughness;
                } else {
                    let mut message = String::from_str("Warning: Attempted to parse invalid string '");
                    message.append("\"");
                    message.append(word);
                    message.append("\"");
                    message.append("' as a trait");
                    return Err(message);
                }
            }
            if e >= n {
                return Ok(result);
            }
            pos = e + 1;
        }
    }

    /// Which traits are above average.
    pub fn get_above_average(&self) -> (r: BTraitAboveAverage)
        ensures
            r == (BTraitAboveAverage {
                contact: self.contact.value() > 0,
                defense: self.defense.value() > 0,
                power: self.power.value() > 0,
                speed: self.speed.value() > 0,
                toughness: self.toughness.value() > 0,
            }),
    {
        BTraitAboveAverage {
            contact: above_average(self.contact),
            defense: above_average(self.defense),
            power: above_average(self.power),
            speed: above_average(self.speed),
            toughness: above_average(self.toughness),
        }
    }

    /// The sum of the numbers of the traits.
    pub open spec fn value(&self) -> int {
        self.contact.value() + self.defense.value() + self.power.value() + self.speed.value()
            + self.toughness.value()
    }

    /// The sum of the numbers of the traits.
    pub fn to_int(&self) -> (r: i32)
        ensures
            r == self.value(),
    {
        self.contact.to_int() + self.defense.to_int() + self.power.to_int() + self.speed.to_int()
            + self.toughness.to_int()
    }

    /// What the traits add to a player's trade value: five points per step.
    pub fn get_trade_value(&self) -> (r: i32)
        ensures
            r == self.value() * 5,
    {
        (self.contact.to_int() + self.defense.to_int() + self.power.to_int() + self.speed.to_int()
            + self.toughness.to_int()) * 5
    }

    /// What the contact and power traits add to a player's RBI score.
    pub fn get_rbi_score(&self) -> (r: i32)
        ensures
            r == self.contact.rbi_value() + self.power.rbi_value(),
    {
        self.contact.get_rbi_score() + self.power.get_rbi_score()
    }

    /// Applies a roll of two ten-sided dice; says whether it gave a trait.
    pub fn apply_roll(&mut self, roll: i32) -> (r: bool)
        ensures
            *final(self) == rolled(*old(self), roll as int),
            r == roll_gives_trait(roll as int),
    {
        if roll == 2 {
            self.power = trait_stack(self.power, Power::PM2);
            true
        } else if roll == 3 {
            self.power = trait_stack(self.power, Power::PM1);
            true
        } else if roll == 4 {
            self.speed = trait_stack(self.speed, Speed::SM1);
            true
        } else if roll == 5 {
            self.contact = trait_stack(self.contact, Contact::CM1);
            true
        } else if roll == 6 {
            self.defense = trait_stack(self.defense, Defense::DM1);
            true
        } else if roll == 15 {
            self.defense = trait_stack(self.defense, Defense::D1);
            true
        } else if roll == 16 {
            self.power = trait_stack(self.power, Power::P1);
            true
        } else if roll == 17 {
            self.contact = trait_stack(self.contact, Contact::C1);
            true
        } else if roll == 18 {
            self.speed = trait_stack(self.speed, Speed::S1);
            true
        } else if roll == 19 {
            self.toughness = trait_stack(self.toughness, Toughness::T1);
            true
        } else if roll == 20 {
            self.power = trait_stack(self.power, Power::P2);
            true
        } else {
            false
        }
    }

    /// Rolls two ten-sided dice and applies the roll; says whether it gave a trait.
    pub fn generate(&mut self, thread: &mut ThreadRng) -> (r: bool)
        ensures
            exists|roll: int|
                2 <= roll <= 20 && *final(self) == rolled(*old(self), roll) && r == roll_gives_trait(
                    roll,
                ),
    {
        let roll = roll_two(thread, 10);
        self.apply_roll(roll)
    }

    /// The symbols of the traits: contact, defense, power, speed, toughness.
    pub open spec fn symbols(&self) -> Seq<char> {
        self.contact.symbol() + self.defense.symbol() + self.power.symbol() + self.speed.symbol()
            + self.toughness.symbol()
    }

    /// The symbols of the traits: contact, defense, power, speed, toughness.
    pub fn to_display(&self) -> (r: String)
        ensures
            r@ == self.symbols(),
    {
        let mut s = self.contact.to_display();
        s.append(self.defense.to_display().as_str());
        s.append(self.power.to_display().as_str());
        s.append(self.speed.to_display().as_str());
        s.append(self.toughness.to_display().as_str());
        s
    }
}


/// A word without commas and without white space at its ends is read as
/// that one word.
proof fn lemma_single_word(w: Seq<char>, acc: BTraits)
    requires
        w.len() > 0,
        forall|k: int| 0 <= k < w.len() ==> w[k] != ',',
        !is_white_space(w[0]),
        !is_white_space(w[w.len() - 1]),
    ensures
        word_at(w, 0) == w,
        parse_words(w, 0, acc) == (match with_word(acc, w) {
            Some(b) => Ok::<BTraits, Seq<char>>(b),
            None => Err::<BTraits, Seq<char>>(invalid_word_message(w)),
        }),
{
    lemma_comma_at(w, 0);
    assert(comma_at(w, 0) == w.len());
    assert(trim_front(w, 0, w.len() as int) == 0);
    assert(trim_back(w, 0, w.len() as int) == w.len());
    assert(w.subrange(0, w.len() as int) =~= w);
}

/// Which kind of trait a word names, if any: 0 for power, 1 contact,
/// 2 defense, 3 speed, 4 toughness (in the order `with_word` tries them).
pub open spec fn trait_kind(w: Seq<char>) -> Option<int> {
    if Power::named(w) is Some {
        Some(0)
    } else if Contact::named(w) is Some {
        Some(1)
    } else if Defense::named(w) is Some {
        Some(2)
    } else if Speed::named(w) is Some {
        Some(3)
    } else if Toughness::named(w) is Some {
        Some(4)
    } else {
        None
    }
}

/// A word that names a trait is one word: no comma in it, and no white
/// space at its ends.
proof fn lemma_trait_word_shape(w: Seq<char>)
    requires
        trait_kind(w) is Some,
    ensures
        w.len() > 0,
        forall|k: int| 0 <= k < w.len() ==> w[k] != ',',
        !is_white_space(w[0]),
        !is_white_space(w[w.len() - 1]),
{
    reveal_strlit("P++");
    reveal_strlit("P+");
    reveal_strlit("P-");
    reveal_strlit("P--");
    reveal_strlit("C+");
    reveal_strlit("C-");
    reveal_strlit("D+");
    reveal_strlit("D-");
    reveal_strlit("S++");
    reveal_strlit("S+");
    reveal_strlit("S-");
    reveal_strlit("T+");
}

/// Of two contradicting traits the later one is used: reading two words that
/// name traits of the same kind, joined by a comma, gives what reading the
/// second word alone gives, the trait it names set and every other trait as it
/// was. With `acc` the default traits, this is `BTraits::from_string` of
/// `"a,b"` against `BTraits::from_string` of `"b"`: the traits not given stay
/// default.
pub proof fn law_from_string_later_trait_wins(a: Seq<char>, b: Seq<char>, acc: BTraits)
    requires
        trait_kind(a) is Some,
        trait_kind(a) == trait_kind(b),
    ensures
        parse_words(a + ","@ + b, 0, acc) == parse_words(b, 0, acc),
        parse_words(a + ","@ + b, 0, acc) == Ok::<BTraits, Seq<char>>(with_word(acc, b)->0),
        with_word(acc, b) is Some,
{
    reveal_strlit(",");
    lemma_trait_word_shape(a);
    lemma_trait_word_shape(b);
    let s = a + ","@ + b;
    let la = a.len() as int;
    assert(s.len() == la + 1 + b.len());
    assert forall|k: int| 0 <= k < la implies s[k] == a[k] by {}
    assert(s[la] == ',');
    assert forall|k: int| la + 1 <= k < s.len() implies s[k] == b[k - la - 1] by {}
    // The first word is `a`.
    lemma_comma_at(s, 0);
    assert(comma_at(s, 0) == la) by {
        if comma_at(s, 0) < la {
            assert(s[comma_at(s, 0)] == a[comma_at(s, 0)]);
        }
    }
    assert(trim_front(s, 0, la) == 0);
    assert(trim_back(s, 0, la) == la);
    assert(word_at(s, 0) =~= a);
    let next = with_word(acc, a)->0;
    // The second word is `b`, and it ends the text.
    lemma_comma_at(s, la + 1);
    assert(comma_at(s, la + 1) == s.len()) by {
        if comma_at(s, la + 1) < s.len() {
            assert(s[comma_at(s, la + 1)] == b[comma_at(s, la + 1) - la - 1]);
        }
    }
    assert(trim_front(s, la + 1, s.len() as int) == la + 1);
    assert(trim_back(s, la + 1, s.len() as int) == s.len());
    assert(word_at(s, la + 1) =~= b);
    assert(parse_words(s, la + 1, next) == Ok::<BTraits, Seq<char>>(with_word(next, b)->0));
    assert(parse_words(s, 0, acc) == parse_words(s, la + 1, next));
    lemma_single_word(b, acc);
    assert(with_word(next, b)->0 == with_word(acc, b)->0);
}

/// Reading the symbol of a power trait as traits gives that trait and
/// no other.
pub proof fn law_power_symbol_reads_back(x: Power)
    requires
        x != Power::P0,
    ensures
        parse_words(x.symbol(), 0, no_traits()) == Ok::<BTraits, Seq<char>>(BTraits { power: x, ..no_traits() }),
{
    reveal_strlit("P+");
    reveal_strlit("P++");
    reveal_strlit("P-");
    reveal_strlit("P--");
    law_power_symbol_names_it(x);
    let w = x.symbol();
    assert(w.len() > 0);
    assert forall|k: int| 0 <= k < w.len() implies w[k] != ',' by {}
    lemma_single_word(w, no_traits());
}

/// Reading the symbol of a contact trait as traits gives that trait and
/// no other.
pub proof fn law_contact_symbol_reads_back(x: Contact)
    requires
        x != Contact::C0,
    ensures
        parse_words(x.symbol(), 0, no_traits()) == Ok::<BTraits, Seq<char>>(BTraits { contact: x, ..no_traits() }),
{
    reveal_strlit("C+");
    reveal_strlit("C-");
    reveal_strlit("P+");
    reveal_strlit("P++");
    reveal_strlit("P-");
    reveal_strlit("P--");
    assert("C+"@.len() != "P++"@.len());
    assert("C+"@ != "P++"@);
    assert("C+"@[0] != "P+"@[0]);
    assert("C+"@ != "P+"@);
    assert("C+"@[0] != "P-"@[0]);
    assert("C+"@ != "P-"@);
    assert("C+"@.len() != "P--"@.len());
    assert("C+"@ != "P--"@);
    assert("C-"@.len() != "P++"@.len());
    assert("C-"@ != "P++"@);
    assert("C-"@[0] != "P+"@[0]);
    assert("C-"@ != "P+"@);
    assert("C-"@[0] != "P-"@[0]);
    assert("C-"@ != "P-"@);
    assert("C-"@.len() != "P--"@.len());
    assert("C-"@ != "P--"@);
    law_contact_symbol_names_it(x);
    let w = x.symbol();
    assert(w.len() > 0);
    assert forall|k: int| 0 <= k < w.len() implies w[k] != ',' by {}
    lemma_single_word(w, no_traits());
}

/// Reading the symbol of a defense trait as traits gives that trait and
/// no other.
pub proof fn law_defense_symbol_reads_back(x: Defense)
    requires
        x != Defense::D0,
    ensures
        parse_words(x.symbol(), 0, no_traits()) == Ok::<BTraits, Seq<char>>(BTraits { defense: x, ..no_traits() }),
{
    reveal_strlit("C+");
    reveal_strlit("C-");
    reveal_strlit("D+");
    reveal_strlit("D-");
    reveal_strlit("P+");
    reveal_strlit("P++");
    reveal_strlit("P-");
    reveal_strlit("P--");
    assert("D+"@.len() != "P++"@.len());
    assert("D+"@ != "P++"@);
    assert("D+"@[0] != "P+"@[0]);
    assert("D+"@ != "P+"@);
    assert("D+"@[0] != "P-"@[0]);
    assert("D+"@ != "P-"@);
    assert("D+"@.len() != "P--"@.len());
    assert("D+"@ != "P--"@);
    assert("D+"@[0] != "C+"@[0]);
    assert("D+"@ != "C+"@);
    assert("D+"@[0] != "C-"@[0]);
    assert("D+"@ != "C-"@);
    assert("D-"@.len() != "P++"@.len());
    assert("D-"@ != "P++"@);
    assert("D-"@[0] != "P+"@[0]);
    assert("D-"@ != "P+"@);
    assert("D-"@[0] != "P-"@[0]);
    assert("D-"@ != "P-"@);
    assert("D-"@.len() != "P--"@.len());
    assert("D-"@ != "P--"@);
    assert("D-"@[0] != "C+"@[0]);
    assert("D-"@ != "C+"@);
    assert("D-"@[0] != "C-"@[0]);
    assert("D-"@ != "C-"@);
    law_defense_symbol_names_it(x);
    let w = x.symbol();
    assert(w.len() > 0);
    assert forall|k: int| 0 <= k < w.len() implies w[k] != ',' by {}
    lemma_single_word(w, no_traits());
}

/// Reading the symbol of a speed trait as traits gives that trait and
/// no other.
pub proof fn law_speed_symbol_reads_back(x: Speed)
    requires
        x != Speed::S0,
    ensures
        parse_words(x.symbol(), 0, no_traits()) == Ok::<BTraits, Seq<char>>(BTraits { speed: x, ..no_traits() }),
{
    reveal_strlit("C+");
    reveal_strlit("C-");
    reveal_strlit("D+");
    reveal_strlit("D-");
    reveal_strlit("P+");
    reveal_strlit("P++");
    reveal_strlit("P-");
    reveal_strlit("P--");
    reveal_strlit("S+");
    reveal_strlit("S++");
    reveal_strlit("S-");
    assert("S++"@[0] != "P++"@[0]);
    assert("S++"@ != "P++"@);
    assert("S++"@.len() != "P+"@.len());
    assert("S++"@ != "P+"@);
    assert("S++"@.len() != "P-"@.len());
    assert("S++"@ != "P-"@);
    assert("S++"@[0] != "P--"@[0]);
    assert("S++"@ != "P--"@);
    assert("S++"@.len() != "C+"@.len());
    assert("S++"@ != "C+"@);
    assert("S++"@.len() != "C-"@.len());
    assert("S++"@ != "C-"@);
    assert("S++"@.len() != "D+"@.len());
    assert("S++"@ != "D+"@);
    assert("S++"@.len() != "D-"@.len());
    assert("S++"@ != "D-"@);
    assert("S+"@.len() != "P++"@.len());
    assert("S+"@ != "P++"@);
    assert("S+"@[0] != "P+"@[0]);
    assert("S+"@ != "P+"@);
    assert("S+"@[0] != "P-"@[0]);
    assert("S+"@ != "P-"@);
    assert("S+"@.len() != "P--"@.len());
    assert("S+"@ != "P--"@);
    assert("S+"@[0] != "C+"@[0]);
    assert("S+"@ != "C+"@);
    assert("S+"@[0] != "C-"@[0]);
    assert("S+"@ != "C-"@);
    assert("S+"@[0] != "D+"@[0]);
    assert("S+"@ != "D+"@);
    assert("S+"@[0] != "D-"@[0]);
    assert("S+"@ != "D-"@);
    assert("S-"@.len() != "P++"@.len());
    assert("S-"@ != "P++"@);
    assert("S-"@[0] != "P+"@[0]);
    assert("S-"@ != "P+"@);
    assert("S-"@[0] != "P-"@[0]);
    assert("S-"@ != "P-"@);
    assert("S-"@.len() != "P--"@.len());
    assert("S-"@ != "P--"@);
    assert("S-"@[0] != "C+"@[0]);
    assert("S-"@ != "C+"@);
    assert("S-"@[0] != "C-"@[0]);
    assert("S-"@ != "C-"@);
    assert("S-"@[0] != "D+"@[0]);
    assert("S-"@ != "D+"@);
    assert("S-"@[0] != "D-"@[0]);
    assert("S-"@ != "D-"@);
    law_speed_symbol_names_it(x);
    let w = x.symbol();
    assert(w.len() > 0);
    assert forall|k: int| 0 <= k < w.len() implies w[k] != ',' by {}
    lemma_single_word(w, no_traits());
}

/// Reading the symbol of a toughness trait as traits gives that trait and
/// no other.
pub proof fn law_toughness_symbol_reads_back(x: Toughness)
    requires
        x != Toughness::T0,
    ensures
        parse_words(x.symbol(), 0, no_traits()) == Ok::<BTraits, Seq<char>>(BTraits { toughness: x, ..no_traits() }),
{
    reveal_strlit("C+");
    reveal_strlit("C-");
    reveal_strlit("D+");
    reveal_strlit("D-");
    reveal_strlit("P+");
    reveal_strlit("P++");
    reveal_strlit("P-");
    reveal_strlit("P--");
    reveal_strlit("S+");
    reveal_strlit("S++");
    reveal_strlit("S-");
    reveal_strlit("T+");
    assert("T+"@.len() != "P++"@.len());
    assert("T+"@ != "P++"@);
    assert("T+"@[0] != "P+"@[0]);
    assert("T+"@ != "P+"@);
    assert("T+"@[0] != "P-"@[0]);
    assert("T+"@ != "P-"@);
    assert("T+"@.len() != "P--"@.len());
    assert("T+"@ != "P--"@);
    assert("T+"@[0] != "C+"@[0]);
    assert("T+"@ != "C+"@);
    assert("T+"@[0] != "C-"@[0]);
    assert("T+"@ != "C-"@);
    assert("T+"@[0] != "D+"@[0]);
    assert("T+"@ != "D+"@);
    assert("T+"@[0] != "D-"@[0]);
    assert("T+"@ != "D-"@);
    assert("T+"@.len() != "S++"@.len());
    assert("T+"@ != "S++"@);
    assert("T+"@[0] != "S+"@[0]);
    assert("T+"@ != "S+"@);
    assert("T+"@[0] != "S-"@[0]);
    assert("T+"@ != "S-"@);
    law_toughness_symbol_names_it(x);
    let w = x.symbol();
    assert(w.len() > 0);
    assert forall|k: int| 0 <= k < w.len() implies w[k] != ',' by {}
    lemma_single_word(w, no_traits());
}

} // verus!
