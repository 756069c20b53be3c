//! Fielding positions of players, and the categories they fall in.

use vstd::prelude::*;
use crate::era::Era;
use crate::text::str_eq;

verus! {

/// A two way player: what type of pitcher they are, and what position they field.
#[derive(Debug, PartialEq, Eq)]
pub struct TwoWayInfo {
    pitcher_type: PlayerPosition,
    fielder_type: PlayerPosition,
}

/// What type of position a player holds.
#[derive(Copy, Clone, Debug, PartialEq, Eq, Structural)]
pub enum PositionCategory {
    Pitcher,
    Infielder,
    Outfielder,
    Catcher,
}

/// The position that is assigned to a player.
#[derive(Debug, PartialEq, Eq)]
pub enum PlayerPosition {
    P,
    SP,
    RP,
    C,
    FirstBase,
    SecondBase,
    ThirdBase,
    SS,
    LF,
    CF,
    RF,
    OF,
    INF,
    UT,
    TwoWay(Box<TwoWayInfo>),
}

/// A copy of a position.
pub fn copy_position(p: &PlayerPosition) -> (r: PlayerPosition)
    ensures
        r == *p,
    decreases p,
{
    match p {
        PlayerPosition::P => PlayerPosition::P,
        PlayerPosition::SP => PlayerPosition::SP,
        PlayerPosition::RP => PlayerPosition::RP,
        PlayerPosition::C => PlayerPosition::C,
        PlayerPosition::FirstBase => PlayerPosition::FirstBase,
        PlayerPosition::SecondBase => PlayerPosition::SecondBase,
        PlayerPosition::ThirdBase => PlayerPosition::ThirdBase,
        PlayerPosition::SS => PlayerPosition::SS,
        PlayerPosition::LF => PlayerPosition::LF,
        PlayerPosition::CF => PlayerPosition::CF,
        PlayerPosition::RF => PlayerPosition::RF,
        PlayerPosition::OF => PlayerPosition::OF,
        PlayerPosition::INF => PlayerPosition::INF,
        PlayerPosition::UT => PlayerPosition::UT,
        PlayerPosition::TwoWay(info) => {
            let pitcher_type = copy_position(&info.pitcher_type);
            let fielder_type = copy_position(&info.fielder_type);
            PlayerPosition::TwoWay(Box::new(TwoWayInfo { pitcher_type, fielder_type }))
        },
    }
}

impl Clone for PlayerPosition {
    fn clone(&self) -> (r: PlayerPosition)
        ensures
            r == *self,
    {
        copy_position(self)
    }
}

impl Clone for TwoWayInfo {
    fn clone(&self) -> (r: TwoWayInfo)
        ensures
            r == *self,
    {
        TwoWayInfo { pitcher_type: copy_position(&self.pitcher_type), fielder_type: copy_position(&self.fielder_type) }
    }
}

impl Default for PlayerPosition {
    fn default() -> (r: PlayerPosition)
        ensures
            r == PlayerPosition::UT,
    {
        PlayerPosition::UT
    }
}

/// Whether a position falls in a category. A two way player is a pitcher, and
/// falls in the categories of the position they field.
pub open spec fn in_category(p: PlayerPosition, category: PositionCategory) -> bool
    decreases p,
{
    match p {
        PlayerPosition::TwoWay(info) => match category {
            PositionCategory::Pitcher => true,
            _ => in_category(info.fielder(), category),
        },
        _ => match category {
            PositionCategory::Outfielder => p is LF || p is CF || p is RF || p is OF || p is UT,
            PositionCategory::Catcher => p is C,
            PositionCategory::Infielder => p is FirstBase || p is SecondBase || p is ThirdBase
                || p is SS || p is INF || p is UT,
            PositionCategory::Pitcher => p is P || p is SP || p is RP,
        },
    }
}

/// The name of a position that is not a two way player's.
pub open spec fn position_name(p: PlayerPosition) -> Seq<char> {
    match p {
        PlayerPosition::P => "P"@,
        PlayerPosition::SP => "SP"@,
        PlayerPosition::RP => "RP"@,
        PlayerPosition::C => "C"@,
        PlayerPosition::FirstBase => "1B"@,
        PlayerPosition::SecondBase => "2B"@,
        PlayerPosition::ThirdBase => "3B"@,
        PlayerPosition::SS => "SS"@,
        PlayerPosition::LF => "LF"@,
        PlayerPosition::CF => "CF"@,
        PlayerPosition::RF => "RF"@,
        PlayerPosition::OF => "OF"@,
        PlayerPosition::INF => "INF"@,
        PlayerPosition::UT => "UT"@,
        PlayerPosition::TwoWay(_) => ""@,
    }
}

/// A position written in JSON: its name in quotes, or for a two way player a
/// record of the pitcher type and the fielder type.
pub open spec fn position_json(p: PlayerPosition) -> Seq<char>
    decreases p,
{
    match p {
        PlayerPosition::TwoWay(info) => "{\"TwoWay\":{\"pitcher_type\":"@ + position_json(
            info.pitcher(),
        ) + ",\"fielder_type\":"@ + position_json(info.fielder()) + "}}"@,
        _ => "\""@ + position_name(p) + "\""@,
    }
}

/// A two way player's types written out: the pitcher type, a slash, the fielder type.
pub open spec fn two_way_text(info: TwoWayInfo) -> Seq<char> {
    position_json(info.pitcher()) + "/"@ + position_json(info.fielder())
}

/// A position written out: a two way player's types, or the position's name in quotes.
pub open spec fn position_text(p: PlayerPosition) -> Seq<char> {
    match p {
        PlayerPosition::TwoWay(info) => two_way_text(*info),
        _ => position_json(p),
    }
}

pub open spec fn mixed_two_way_message() -> Seq<char> {
    "A two way player can not have its pitcher or fielder type be a two way player"@
}

pub open spec fn invalid_two_way_message() -> Seq<char> {
    "A two way player must have a valid pitcher and fielder type"@
}

/// What is wrong with a two way player's types, if anything: the pitcher type
/// must be a pitcher's and the fielder type not, and neither may be a two way
/// player's.
pub open spec fn two_way_problem(info: TwoWayInfo) -> Option<Seq<char>> {
    if in_category(info.pitcher(), PositionCategory::Pitcher) && !in_category(
        info.fielder(),
        PositionCategory::Pitcher,
    ) {
        if info.pitcher() is TwoWay || info.fielder() is TwoWay {
            Some(mixed_two_way_message())
        } else {
            None
        }
    } else {
        Some(invalid_two_way_message())
    }
}

impl TwoWayInfo {
    /// The pitcher type (see `new` and `get_pitcher_type`).
    pub closed spec fn pitcher(&self) -> PlayerPosition {
        self.pitcher_type
    }

    /// The fielder type (see `new` and `get_fielder_type`).
    pub closed spec fn fielder(&self) -> PlayerPosition {
        self.fielder_type
    }

    /// Checks the types of a two way player; the error names what is wrong,
    /// followed by the types.
    pub fn is_valid(&self) -> (r: Result<&TwoWayInfo, String>)
        ensures
            two_way_problem(*self) is None ==> r == Ok::<&TwoWayInfo, String>(self),
            two_way_problem(*self) matches Some(m) ==> (r matches Err(e) && e@ == m + "\n"@
                + two_way_text(*self)),
    {
        let p_category = PositionCategory::Pitcher;
        let error_str: Option<&str> = if self.pitcher_type.matches_cat(p_category)
            && !self.fielder_type.matches_cat(p_category) {
            if matches!(self.pitcher_type, PlayerPosition::TwoWay(_)) || matches!(self.fielder_type, PlayerPosition::TwoWay(_)) {
                Some("A two way player can not have its pitcher or fielder type be a two way player")
            } else {
                None
            }
        } else {
            Some("A two way player must have a valid pitcher and fielder type")
        };
        match error_str {
            Some(error_str) => {
                let mut error_message = String::from_str(error_str);
                error_message.append("\n");
                let text = self.to_display();
                error_message.append(text.as_str());
                Err(error_message)
            },
            None => Ok(self),
        }
    }

    /// The pitcher type of a valid two way player.
    pub fn get_pitcher_type(&self) -> (r: Result<&PlayerPosition, String>)
        ensures
            two_way_problem(*self) is None ==> (r matches Ok(p) && *p == self.pitcher()),
            two_way_problem(*self) matches Some(m) ==> (r matches Err(e) && e@ == m + "\n"@
                + two_way_text(*self)),
    {
        let self_ref = self.is_valid()?;
        Ok(&self_ref.pitcher_type)
    }

    /// The pitcher type as it is held, whether or not the player is valid.
    pub fn get_pitcher_position(&self) -> (r: &PlayerPosition)
        ensures
            *r == self.pitcher(),
    {
        &self.pitcher_type
    }

    /// The position the two way player fields.
    pub fn get_fielder_type(&self) -> (r: &PlayerPosition)
        ensures
            *r == self.fielder(),
    {
        &self.fielder_type
    }

    pub fn new(pitcher_type: PlayerPosition, fielder_type: PlayerPosition) -> (r: TwoWayInfo)
        ensures
            r.pitcher() == pitcher_type,
            r.fielder() == fielder_type,
    {
        TwoWayInfo { pitcher_type, fielder_type }
    }

    /// The types written out: the pitcher type, a slash, the fielder type.
    pub fn to_display(&self) -> (r: String)
        ensures
            r@ == two_way_text(*self),
    {
        let mut s = self.pitcher_type.to_json();
        s.append("/");
        let f = self.fielder_type.to_json();
        s.append(f.as_str());
        s
    }
}

impl PlayerPosition {
    /// A pitcher's type: a two way player's pitcher type, or the position itself
    /// for a pitcher.
    pub fn get_pitcher_type(&self) -> (r: Result<&PlayerPosition, String>)
        ensures
            match self {
                PlayerPosition::TwoWay(info) => match two_way_problem(**info) {
                    None => r matches Ok(p) && *p == info.pitcher(),
                    Some(m) => r matches Err(e) && e@ == m + "\n"@ + two_way_text(**info),
                },
                _ => if in_category(*self, PositionCategory::Pitcher) {
                    r == Ok::<&PlayerPosition, String>(self)
                } else {
                    r matches Err(e) && e@ == "Not a pitcher"@
                },
            },
    {
        match self {
            PlayerPosition::TwoWay(two_way_info) => two_way_info.get_pitcher_type(),
            _ => if self.matches_cat(PositionCategory::Pitcher) {
                Ok(self)
            } else {
                Err(String::from_str("Not a pitcher"))
            },
        }
    }

    /// Whether the position falls in a category.
    pub fn matches_cat(&self, category: PositionCategory) -> (r: bool)
        ensures
            r == in_category(*self, category),
        decreases self,
    {
        if let PlayerPosition::TwoWay(two_way_info) = self {
            match category {
                PositionCategory::Pitcher => true,
                _ => two_way_info.fielder_type.matches_cat(category),
            }
        } else {
            match category {
                PositionCategory::Outfielder => matches!(
                    self,
                    PlayerPosition::LF | PlayerPosition::CF | PlayerPosition::RF | PlayerPosition::OF
                        | PlayerPosition::UT
                ),
                PositionCategory::Catcher => matches!(self, PlayerPosition::C),
                PositionCategory::Infielder => matches!(
                    self,
                    PlayerPosition::FirstBase | PlayerPosition::SecondBase | PlayerPosition::ThirdBase
                        | PlayerPosition::SS | PlayerPosition::INF | PlayerPosition::UT
                ),
                PositionCategory::Pitcher => matches!(
                    self,
                    PlayerPosition::P | PlayerPosition::SP | PlayerPosition::RP
                ),
            }
        }
    }

    /// The positions of the batters of a team, in order.
    pub open spec fn batter_positions() -> Seq<PlayerPosition> {
        seq![
            PlayerPosition::C,
            PlayerPosition::FirstBase,
            PlayerPosition::SecondBase,
            PlayerPosition::ThirdBase,
            PlayerPosition::SS,
            PlayerPosition::INF,
            PlayerPosition::LF,
            PlayerPosition::CF,
            PlayerPosition::RF,
            PlayerPosition::OF,
            PlayerPosition::OF,
            PlayerPosition::INF,
        ]
    }

    pub fn get_all_batter_positions() -> (r: Vec<PlayerPosition>)
        ensures
            r@ == PlayerPosition::batter_positions(),
            forall|i: int| 0 <= i < r.len() ==> !in_category(#[trigger] r@[i], PositionCategory::Pitcher),
    {
        let r = vec![
            PlayerPosition::C,
            PlayerPosition::FirstBase,
            PlayerPosition::SecondBase,
            PlayerPosition::ThirdBase,
            PlayerPosition::SS,
            PlayerPosition::INF,
            PlayerPosition::LF,
            PlayerPosition::CF,
            PlayerPosition::RF,
            PlayerPosition::OF,
            PlayerPosition::OF,
            PlayerPosition::INF,
        ];
        assert(r@ =~= PlayerPosition::batter_positions());
        r
    }

    /// The positions a pitcher of an era can hold: P in the Ancient era, SP and
    /// RP in the Modern era.
    pub open spec fn pitcher_positions(era: Era) -> Seq<PlayerPosition> {
        match era {
            Era::Ancient => seq![PlayerPosition::P],
            Era::Modern => seq![PlayerPosition::SP, PlayerPosition::RP],
        }
    }

    pub fn get_all_pitcher_positions(era: Era) -> (r: Vec<PlayerPosition>)
        ensures
            r@ == PlayerPosition::pitcher_positions(era),
    {
        match era {
            Era::Ancient => {
                let r = vec![PlayerPosition::P];
                assert(r@ =~= PlayerPosition::pitcher_positions(era));
                r
            },
            Era::Modern => {
                let r = vec![PlayerPosition::SP, PlayerPosition::RP];
                assert(r@ =~= PlayerPosition::pitcher_positions(era));
                r
            },
        }
    }

    /// The position written in JSON.
    pub fn to_json(&self) -> (r: String)
        ensures
            r@ == position_json(*self),
        decreases self,
    {
        match self {
            PlayerPosition::TwoWay(info) => {
                let mut s = String::from_str("{\"TwoWay\":{\"pitcher_type\":");
                let p = info.pitcher_type.to_json();
                s.append(p.as_str());
                s.append(",\"fielder_type\":");
                let f = info.fielder_type.to_json();
                s.append(f.as_str());
                s.append("}}");
                s
            },
            _ => {
                let mut s = String::from_str("\"");
                s.append(self.name_str());
                s.append("\"");
                s
            },
        }
    }

    /// The name of a position (empty for a two way player's).
    pub fn name_str(&self) -> (r: &'static str)
        ensures
            r@ == position_name(*self),
    {
        match self {
            PlayerPosition::P => "P",
            PlayerPosition::SP => "SP",
            PlayerPosition::RP => "RP",
            PlayerPosition::C => "C",
            PlayerPosition::FirstBase => "1B",
            PlayerPosition::SecondBase => "2B",
            PlayerPosition::ThirdBase => "3B",
            PlayerPosition::SS => "SS",
            PlayerPosition::LF => "LF",
            PlayerPosition::CF => "CF",
            PlayerPosition::RF => "RF",
            PlayerPosition::OF => "OF",
            PlayerPosition::INF => "INF",
            PlayerPosition::UT => "UT",
            PlayerPosition::TwoWay(_) => "",
        }
    }

    /// The position written out.
    pub fn to_display(&self) -> (r: String)
        ensures
            r@ == position_text(*self),
    {
        match self {
            PlayerPosition::TwoWay(info) => info.to_display(),
            _ => self.to_json(),
        }
    }

    /// The position with a name, if any (two way players have none).

    /// The position with a name, if any.
    pub open spec fn named(w: Seq<char>) -> Option<PlayerPosition> {
        if w == "P"@ {
            Some(PlayerPosition::P)
        } else if w == "SP"@ {
            Some(PlayerPosition::SP)
        } else if w == "RP"@ {
            Some(PlayerPosition::RP)
        } else if w == "C"@ {
            Some(PlayerPosition::C)
        } else if w == "1B"@ {
            Some(PlayerPosition::FirstBase)
        } else if w == "2B"@ {
            Some(PlayerPosition::SecondBase)
        } else if w == "3B"@ {
            Some(PlayerPosition::ThirdBase)
        } else if w == "SS"@ {
            Some(PlayerPosition::SS)
        } else if w == "LF"@ {
            Some(PlayerPosition::LF)
        } else if w == "CF"@ {
            Some(PlayerPosition::CF)
        } else if w == "RF"@ {
            Some(PlayerPosition::RF)
        } else if w == "OF"@ {
            Some(PlayerPosition::OF)
        } else if w == "INF"@ {
            Some(PlayerPosition::INF)
        } else if w == "UT"@ {
            Some(PlayerPosition::UT)
        } else {
            None
        }
    }

    pub fn from_name(w: &str) -> (r: Option<PlayerPosition>)
        ensures
            r == PlayerPosition::named(w@),
    {
        if str_eq(w, "P") {
            Some(PlayerPosition::P)
        } else if str_eq(w, "SP") {
            Some(PlayerPosition::SP)
        } else if str_eq(w, "RP") {
            Some(PlayerPosition::RP)
        } else if str_eq(w, "C") {
            Some(PlayerPosition::C)
        } else if str_eq(w, "1B") {
            Some(PlayerPosition::FirstBase)
        } else if str_eq(w, "2B") {
            Some(PlayerPosition::SecondBase)
        } else if str_eq(w, "3B") {
            Some(PlayerPosition::ThirdBase)
        } else if str_eq(w, "SS") {
            Some(PlayerPosition::SS)
        } else if str_eq(w, "LF") {
            Some(PlayerPosition::LF)
        } else if str_eq(w, "CF") {
            Some(PlayerPosition::CF)
        } else if str_eq(w, "RF") {
            Some(PlayerPosition::RF)
        } else if str_eq(w, "OF") {
            Some(PlayerPosition::OF)
        } else if str_eq(w, "INF") {
            Some(PlayerPosition::INF)
        } else if str_eq(w, "UT") {
            Some(PlayerPosition::UT)
        } else {
            None
        }
    }
}

/// A position written by its name reads back as the same position; a two way player has no name.
pub proof fn law_position_name_round_trip(x: PlayerPosition)
    requires
        !(x is TwoWay),
    ensures
        PlayerPosition::named(position_name(x)) == Some(x),
{
    reveal_strlit("1B");
    reveal_strlit("2B");
    reveal_strlit("3B");
    reveal_strlit("C");
    reveal_strlit("CF");
    reveal_strlit("INF");
    reveal_strlit("LF");
    reveal_strlit("OF");
    reveal_strlit("P");
    reveal_strlit("RF");
    reveal_strlit("RP");
    reveal_strlit("SP");
    reveal_strlit("SS");
    reveal_strlit("UT");
    assert("SP"@.len() != "P"@.len());
    assert("SP"@ != "P"@);
    assert("RP"@.len() != "P"@.len());
    assert("RP"@ != "P"@);
    assert("RP"@[0] != "SP"@[0]);
    assert("RP"@ != "SP"@);
    assert("C"@[0] != "P"@[0]);
    assert("C"@ != "P"@);
    assert("C"@.len() != "SP"@.len());
    assert("C"@ != "SP"@);
    assert("C"@.len() != "RP"@.len());
    assert("C"@ != "RP"@);
    assert("1B"@.len() != "P"@.len());
    assert("1B"@ != "P"@);
    assert("1B"@[0] != "SP"@[0]);
    assert("1B"@ != "SP"@);
    assert("1B"@[0] != "RP"@[0]);
    assert("1B"@ != "RP"@);
    assert("1B"@.len() != "C"@.len());
    assert("1B"@ != "C"@);
    assert("2B"@.len() != "P"@.len());
    assert("2B"@ != "P"@);
    assert("2B"@[0] != "SP"@[0]);
    assert("2B"@ != "SP"@);
    assert("2B"@[0] != "RP"@[0]);
    assert("2B"@ != "RP"@);
    assert("2B"@.len() != "C"@.len());
    assert("2B"@ != "C"@);
    assert("2B"@[0] != "1B"@[0]);
    assert("2B"@ != "1B"@);
    assert("3B"@.len() != "P"@.len());
    assert("3B"@ != "P"@);
    assert("3B"@[0] != "SP"@[0]);
    assert("3B"@ != "SP"@);
    assert("3B"@[0] != "RP"@[0]);
    assert("3B"@ != "RP"@);
    assert("3B"@.len() != "C"@.len());
    assert("3B"@ != "C"@);
    assert("3B"@[0] != "1B"@[0]);
    assert("3B"@ != "1B"@);
    assert("3B"@[0] != "2B"@[0]);
    assert("3B"@ != "2B"@);
    assert("SS"@.len() != "P"@.len());
    assert("SS"@ != "P"@);
    assert("SS"@[1] != "SP"@[1]);
    assert("SS"@ != "SP"@);
    assert("SS"@[0] != "RP"@[0]);
    assert("SS"@ != "RP"@);
    assert("SS"@.len() != "C"@.len());
    assert("SS"@ != "C"@);
    assert("SS"@[0] != "1B"@[0]);
    assert("SS"@ != "1B"@);
    assert("SS"@[0] != "2B"@[0]);
    assert("SS"@ != "2B"@);
    assert("SS"@[0] != "3B"@[0]);
    assert("SS"@ != "3B"@);
    assert("LF"@.len() != "P"@.len());
    assert("LF"@ != "P"@);
    assert("LF"@[0] != "SP"@[0]);
    assert("LF"@ != "SP"@);
    assert("LF"@[0] != "RP"@[0]);
    assert("LF"@ != "RP"@);
    assert("LF"@.len() != "C"@.len());
    assert("LF"@ != "C"@);
    assert("LF"@[0] != "1B"@[0]);
    assert("LF"@ != "1B"@);
    assert("LF"@[0] != "2B"@[0]);
    assert("LF"@ != "2B"@);
    assert("LF"@[0] != "3B"@[0]);
    assert("LF"@ != "3B"@);
    assert("LF"@[0] != "SS"@[0]);
    assert("LF"@ != "SS"@);
    assert("CF"@.len() != "P"@.len());
    assert("CF"@ != "P"@);
    assert("CF"@[0] != "SP"@[0]);
    assert("CF"@ != "SP"@);
    assert("CF"@[0] != "RP"@[0]);
    assert("CF"@ != "RP"@);
    assert("CF"@.len() != "C"@.len());
    assert("CF"@ != "C"@);
    assert("CF"@[0] != "1B"@[0]);
    assert("CF"@ != "1B"@);
    assert("CF"@[0] != "2B"@[0]);
    assert("CF"@ != "2B"@);
    assert("CF"@[0] != "3B"@[0]);
    assert("CF"@ != "3B"@);
    assert("CF"@[0] != "SS"@[0]);
    assert("CF"@ != "SS"@);
    assert("CF"@[0] != "LF"@[0]);
    assert("CF"@ != "LF"@);
    assert("RF"@.len() != "P"@.len());
    assert("RF"@ != "P"@);
    assert("RF"@[0] != "SP"@[0]);
    assert("RF"@ != "SP"@);
    assert("RF"@[1] != "RP"@[1]);
    assert("RF"@ != "RP"@);
    assert("RF"@.len() != "C"@.len());
    assert("RF"@ != "C"@);
    assert("RF"@[0] != "1B"@[0]);
    assert("RF"@ != "1B"@);
    assert("RF"@[0] != "2B"@[0]);
    assert("RF"@ != "2B"@);
    assert("RF"@[0] != "3B"@[0]);
    assert("RF"@ != "3B"@);
    assert("RF"@[0] != "SS"@[0]);
    assert("RF"@ != "SS"@);
    assert("RF"@[0] != "LF"@[0]);
    assert("RF"@ != "LF"@);
    assert("RF"@[0] != "CF"@[0]);
    assert("RF"@ != "CF"@);
    assert("OF"@.len() != "P"@.len());
    assert("OF"@ != "P"@);
    assert("OF"@[0] != "SP"@[0]);
    assert("OF"@ != "SP"@);
    assert("OF"@[0] != "RP"@[0]);
    assert("OF"@ != "RP"@);
    assert("OF"@.len() != "C"@.len());
    assert("OF"@ != "C"@);
    assert("OF"@[0] != "1B"@[0]);
    assert("OF"@ != "1B"@);
    assert("OF"@[0] != "2B"@[0]);
    assert("OF"@ != "2B"@);
    assert("OF"@[0] != "3B"@[0]);
    assert("OF"@ != "3B"@);
    assert("OF"@[0] != "SS"@[0]);
    assert("OF"@ != "SS"@);
    assert("OF"@[0] != "LF"@[0]);
    assert("OF"@ != "LF"@);
    assert("OF"@[0] != "CF"@[0]);
    assert("OF"@ != "CF"@);
    assert("OF"@[0] != "RF"@[0]);
    assert("OF"@ != "RF"@);
    assert("INF"@.len() != "P"@.len());
    assert("INF"@ != "P"@);
    assert("INF"@.len() != "SP"@.len());
    assert("INF"@ != "SP"@);
    assert("INF"@.len() != "RP"@.len());
    assert("INF"@ != "RP"@);
    assert("INF"@.len() != "C"@.len());
    assert("INF"@ != "C"@);
    assert("INF"@.len() != "1B"@.len());
    assert("INF"@ != "1B"@);
    assert("INF"@.len() != "2B"@.len());
    assert("INF"@ != "2B"@);
    assert("INF"@.len() != "3B"@.len());
    assert("INF"@ != "3B"@);
    assert("INF"@.len() != "SS"@.len());
    assert("INF"@ != "SS"@);
    assert("INF"@.len() != "LF"@.len());
    assert("INF"@ != "LF"@);
    assert("INF"@.len() != "CF"@.len());
    assert("INF"@ != "CF"@);
    assert("INF"@.len() != "RF"@.len());
    assert("INF"@ != "RF"@);
    assert("INF"@.len() != "OF"@.len());
    assert("INF"@ != "OF"@);
    assert("UT"@.len() != "P"@.len());
    assert("UT"@ != "P"@);
    assert("UT"@[0] != "SP"@[0]);
    assert("UT"@ != "SP"@);
    assert("UT"@[0] != "RP"@[0]);
    assert("UT"@ != "RP"@);
    assert("UT"@.len() != "C"@.len());
    assert("UT"@ != "C"@);
    assert("UT"@[0] != "1B"@[0]);
    assert("UT"@ != "1B"@);
    assert("UT"@[0] != "2B"@[0]);
    assert("UT"@ != "2B"@);
    assert("UT"@[0] != "3B"@[0]);
    assert("UT"@ != "3B"@);
    assert("UT"@[0] != "SS"@[0]);
    assert("UT"@ != "SS"@);
    assert("UT"@[0] != "LF"@[0]);
    assert("UT"@ != "LF"@);
    assert("UT"@[0] != "CF"@[0]);
    assert("UT"@ != "CF"@);
    assert("UT"@[0] != "RF"@[0]);
    assert("UT"@ != "RF"@);
    assert("UT"@[0] != "OF"@[0]);
    assert("UT"@ != "OF"@);
    assert("UT"@.len() != "INF"@.len());
    assert("UT"@ != "INF"@);
}

} // verus!
