//! The pitch die of a pitcher.
//!
//! In Deadball, the biggest difference between pitchers is their pitch die,
//! which is rolled when the pitcher is used during a game; the number is
//! positive or negative as the die is. A pitcher with a pitch die of d12 rolls
//! a twelve-sided die and adds the number; one with -d4 rolls a four-sided die
//! and subtracts it.

use vstd::prelude::*;
use crate::text::{int_text, nat_to_string, str_eq};
use crate::tier::Tier;

verus! {

/// The pitch die.
#[derive(Copy, Clone, Debug, PartialEq, Eq, Structural)]
pub enum PD {
    D20,
    D12,
    D8,
    D6,
    D4,
    D0,
    DM4,
    DM6,
    DM8,
    DM12,
    DM20,
    Custom(i32),
}

struct PDInfo(i32, bool);

impl PD {
    /// The number of the die: the roll farthest from zero, with its sign.
    pub open spec fn value(&self) -> int {
        match self {
            PD::D20 => 20,
            PD::D12 => 12,
            PD::D8 => 8,
            PD::D6 => 6,
            PD::D4 => 4,
            PD::D0 => 0,
            PD::DM4 => -4,
            PD::DM6 => -6,
            PD::DM8 => -8,
            PD::DM12 => -12,
            PD::DM20 => -20,
            PD::Custom(value) => *value as int,
        }
    }

    /// Returns the max value possible for a pitch die.
    pub fn to_int(self) -> (r: i32)
        ensures
            r == self.value(),
    {
        match self {
            PD::D20 => 20,
            PD::D12 => 12,
            PD::D8 => 8,
            PD::D6 => 6,
            PD::D4 => 4,
            PD::D0 => 0,
            PD::DM4 => -4,
            PD::DM6 => -6,
            PD::DM8 => -8,
            PD::DM12 => -12,
            PD::DM20 => -20,
            PD::Custom(value) => value,
        }
    }

    fn get_info(&self) -> (r: PDInfo)
        ensures
            r.0 == self.value(),
            r.1 == (self.value() > 0),
    {
        let num = self.to_int();
        let is_positive = num > 0;
        PDInfo(num, is_positive)
    }

    /// Creates a new custom pitch die from an integer.
    pub fn new_custom_pd(num: i32) -> (r: PD)
        ensures
            r == PD::Custom(num),
    {
        PD::Custom(num)
    }

    /// The numbers a roll of the die can give: `1..=n` for a positive die,
    /// `n..0` for a negative one, nothing for a die of zero.
    pub open spec fn range(&self) -> Seq<i32> {
        let max = self.value();
        if max < 0 {
            Seq::new((-max) as nat, |i: int| (max + i) as i32)
        } else {
            Seq::new(max as nat, |i: int| (1 + i) as i32)
        }
    }

    /// Creates a range of all possible values that can be created by a pitch die.
    pub fn get_range(&self) -> (r: Vec<i32>)
        ensures
            r@ == self.range(),
    {
        let max = self.to_int();
        let mut r: Vec<i32> = Vec::new();
        if max < 0 {
            let mut v = max;
            while v < 0
                invariant
                    max <= v <= 0,
                    max < 0,
                    max == self.value(),
                    r@ == Seq::new((v - max) as nat, |i: int| (max + i) as i32),
                decreases -v,
            {
                r.push(v);
                v = v + 1;
                assert(r@ =~= Seq::new((v - max) as nat, |i: int| (max + i) as i32));
            }
        } else {
            let mut v: i32 = 0;
            while v < max
                invariant
                    0 <= v <= max,
                    max == self.value(),
                    r@ == Seq::new(v as nat, |i: int| (1 + i) as i32),
                decreases max - v,
            {
                v = v + 1;
                r.push(v);
                assert(r@ =~= Seq::new(v as nat, |i: int| (1 + i) as i32));
            }
        }
        r
    }

    /// The sum and the count of the numbers a roll can give; their quotient is
    /// the average roll of the die.
    pub fn get_average_parts(&self) -> (r: (i64, usize))
        ensures
            r.1 == self.range().len(),
            r.0 == range_sum(self.range()),
    {
        let range = self.get_range();
        let n = range.len();
        let mut sum: i64 = 0;
        for i in 0..n
            invariant
                n == range.len(),
                range@ == self.range(),
                sum == range_sum(range@.take(i as int)),
                -(i * 0x8000_0000) <= sum <= i * 0x8000_0000,
        {
            proof {
                assert(range@.take(i + 1).drop_last() =~= range@.take(i as int));
                assert(i * 0x8000_0000 + 0x8000_0000 == (i + 1) * 0x8000_0000) by (nonlinear_arith);
                assert((i + 1) * 0x8000_0000 <= 0x8000_0000 * 0x8000_0000) by (nonlinear_arith)
                    requires i + 1 <= 0x8000_0000;
            }
            sum = sum + range[i] as i64;
        }
        proof {
            assert(range@.take(n as int) =~= range@);
        }
        (sum, n)
    }

    /// The die written in dice notation: `d12`, `-d4`.
    pub open spec fn notation(&self) -> Seq<char> {
        let num = self.value();
        if num > 0 {
            "d"@ + int_text(num)
        } else {
            "-d"@ + int_text(if num < 0 { -num } else { num })
        }
    }

    /// The die written in dice notation.
    pub fn to_display(&self) -> (r: String)
        requires
            self.value() != i32::MIN,
        ensures
            r@ == self.notation(),
    {
        let PDInfo(num, is_positive) = self.get_info();
        let abs: u64 = if num < 0 { (-num) as u64 } else { num as u64 };
        let num_string = nat_to_string(abs);
        let mut chars = if is_positive { String::from_str("d") } else { String::from_str("-d") };
        chars.append(num_string.as_str());
        chars
    }

    /// The name a die is stored under (a custom die has none: it is stored as
    /// a record of its number).
    pub open spec fn stored_name(&self) -> Option<Seq<char>> {
        match self {
            PD::D20 => Some("d20"@),
            PD::D12 => Some("d12"@),
            PD::D8 => Some("d8"@),
            PD::D6 => Some("d6"@),
            PD::D4 => Some("d4"@),
            PD::D0 => Some("No dice"@),
            PD::DM4 => Some("-d4"@),
            PD::DM6 => Some("-d6"@),
            PD::DM8 => Some("-d8"@),
            PD::DM12 => Some("-d12"@),
            PD::DM20 => Some("d20"@),
            PD::Custom(_) => None,
        }
    }

    /// The name a die is stored under.
    pub fn to_stored_name(&self) -> (r: Option<&'static str>)
        ensures
            r is Some <==> self.stored_name() is Some,
            r matches Some(s) ==> s@ == self.stored_name()->0,
    {
        match self {
            PD::D20 => Some("d20"),
            PD::D12 => Some("d12"),
            PD::D8 => Some("d8"),
            PD::D6 => Some("d6"),
            PD::D4 => Some("d4"),
            PD::D0 => Some("No dice"),
            PD::DM4 => Some("-d4"),
            PD::DM6 => Some("-d6"),
            PD::DM8 => Some("-d8"),
            PD::DM12 => Some("-d12"),
            PD::DM20 => Some("d20"),
            PD::Custom(_) => None,
        }
    }

    /// The die stored under a name: the first die, in the order of the dice,
    /// with that name.

    /// The die stored under a name, if any: the first die, in the order of the dice, with that name.
    pub open spec fn stored_named(w: Seq<char>) -> Option<PD> {
        if w == "d20"@ {
            Some(PD::D20)
        } else if w == "d12"@ {
            Some(PD::D12)
        } else if w == "d8"@ {
            Some(PD::D8)
        } else if w == "d6"@ {
            Some(PD::D6)
        } else if w == "d4"@ {
            Some(PD::D4)
        } else if w == "No dice"@ {
            Some(PD::D0)
        } else if w == "-d4"@ {
            Some(PD::DM4)
        } else if w == "-d6"@ {
            Some(PD::DM6)
        } else if w == "-d8"@ {
            Some(PD::DM8)
        } else if w == "-d12"@ {
            Some(PD::DM12)
        } else {
            None
        }
    }

    pub fn from_stored_name(w: &str) -> (r: Option<PD>)
        ensures
            r == PD::stored_named(w@),
    {
        if str_eq(w, "d20") {
            Some(PD::D20)
        } else if str_eq(w, "d12") {
            Some(PD::D12)
        } else if str_eq(w, "d8") {
            Some(PD::D8)
        } else if str_eq(w, "d6") {
            Some(PD::D6)
        } else if str_eq(w, "d4") {
            Some(PD::D4)
        } else if str_eq(w, "No dice") {
            Some(PD::D0)
        } else if str_eq(w, "-d4") {
            Some(PD::DM4)
        } else if str_eq(w, "-d6") {
            Some(PD::DM6)
        } else if str_eq(w, "-d8") {
            Some(PD::DM8)
        } else if str_eq(w, "-d12") {
            Some(PD::DM12)
        } else {
            None
        }
    }

    /// The letter grade of a die: S for a d20 or better, A for a d12, B for a
    /// d8, C for a d6, D for a d4, F below.
    pub open spec fn tier(&self) -> Tier {
        let n = self.value();
        if n >= 20 {
            Tier::S(0)
        } else if n >= 12 {
            Tier::A(0)
        } else if n >= 8 {
            Tier::B(0)
        } else if n >= 6 {
            Tier::C(0)
        } else if n >= 4 {
            Tier::D(0)
        } else {
            Tier::F(0)
        }
    }

    /// The letter grade of a die.
    pub fn get_tier(&self) -> (r: Tier)
        ensures
            r == self.tier(),
    {
        let n = self.to_int();
        if n >= 20 {
            Tier::S(0)
        } else if n >= 12 {
            Tier::A(0)
        } else if n >= 8 {
            Tier::B(0)
        } else if n >= 6 {
            Tier::C(0)
        } else if n >= 4 {
            Tier::D(0)
        } else {
            Tier::F(0)
        }
    }
}

/// The sum of a sequence of numbers.
pub open spec fn range_sum(s: Seq<i32>) -> int
    decreases s.len(),
{
    if s.len() == 0 {
        0
    } else {
        range_sum(s.drop_last()) + s.last()
    }
}

/// A die stored by its name reads back as the same die; a custom die has no stored name, and the minus d20 is stored as a d20.
pub proof fn law_pd_stored_name_round_trip(x: PD)
    requires
        !(x is Custom) && x != PD::DM20,
    ensures
        PD::stored_named(x.stored_name()->0) == Some(x),
{
    reveal_strlit("-d12");
    reveal_strlit("-d4");
    reveal_strlit("-d6");
    reveal_strlit("-d8");
    reveal_strlit("No dice");
    reveal_strlit("d12");
    reveal_strlit("d20");
    reveal_strlit("d4");
    reveal_strlit("d6");
    reveal_strlit("d8");
    assert("d12"@[1] != "d20"@[1]);
    assert("d12"@ != "d20"@);
    assert("d8"@.len() != "d20"@.len());
    assert("d8"@ != "d20"@);
    assert("d8"@.len() != "d12"@.len());
    assert("d8"@ != "d12"@);
    assert("d6"@.len() != "d20"@.len());
    assert("d6"@ != "d20"@);
    assert("d6"@.len() != "d12"@.len());
    assert("d6"@ != "d12"@);
    assert("d6"@[1] != "d8"@[1]);
    assert("d6"@ != "d8"@);
    assert("d4"@.len() != "d20"@.len());
    assert("d4"@ != "d20"@);
    assert("d4"@.len() != "d12"@.len());
    assert("d4"@ != "d12"@);
    assert("d4"@[1] != "d8"@[1]);
    assert("d4"@ != "d8"@);
    assert("d4"@[1] != "d6"@[1]);
    assert("d4"@ != "d6"@);
    assert("No dice"@.len() != "d20"@.len());
    assert("No dice"@ != "d20"@);
    assert("No dice"@.len() != "d12"@.len());
    assert("No dice"@ != "d12"@);
    assert("No dice"@.len() != "d8"@.len());
    assert("No dice"@ != "d8"@);
    assert("No dice"@.len() != "d6"@.len());
    assert("No dice"@ != "d6"@);
    assert("No dice"@.len() != "d4"@.len());
    assert("No dice"@ != "d4"@);
    assert("-d4"@[0] != "d20"@[0]);
    assert("-d4"@ != "d20"@);
    assert("-d4"@[0] != "d12"@[0]);
    assert("-d4"@ != "d12"@);
    assert("-d4"@.len() != "d8"@.len());
    assert("-d4"@ != "d8"@);
    assert("-d4"@.len() != "d6"@.len());
    assert("-d4"@ != "d6"@);
    assert("-d4"@.len() != "d4"@.len());
    assert("-d4"@ != "d4"@);
    assert("-d4"@.len() != "No dice"@.len());
    assert("-d4"@ != "No dice"@);
    assert("-d6"@[0] != "d20"@[0]);
    assert("-d6"@ != "d20"@);
    assert("-d6"@[0] != "d12"@[0]);
    assert("-d6"@ != "d12"@);
    assert("-d6"@.len() != "d8"@.len());
    assert("-d6"@ != "d8"@);
    assert("-d6"@.len() != "d6"@.len());
    assert("-d6"@ != "d6"@);
    assert("-d6"@.len() != "d4"@.len());
    assert("-d6"@ != "d4"@);
    assert("-d6"@.len() != "No dice"@.len());
    assert("-d6"@ != "No dice"@);
    assert("-d6"@[2] != "-d4"@[2]);
    assert("-d6"@ != "-d4"@);
    assert("-d8"@[0] != "d20"@[0]);
    assert("-d8"@ != "d20"@);
    assert("-d8"@[0] != "d12"@[0]);
    assert("-d8"@ != "d12"@);
    assert("-d8"@.len() != "d8"@.len());
    assert("-d8"@ != "d8"@);
    assert("-d8"@.len() != "d6"@.len());
    assert("-d8"@ != "d6"@);
    assert("-d8"@.len() != "d4"@.len());
    assert("-d8"@ != "d4"@);
    assert("-d8"@.len() != "No dice"@.len());
    assert("-d8"@ != "No dice"@);
    assert("-d8"@[2] != "-d4"@[2]);
    assert("-d8"@ != "-d4"@);
    assert("-d8"@[2] != "-d6"@[2]);
    assert("-d8"@ != "-d6"@);
    assert("-d12"@.len() != "d20"@.len());
    assert("-d12"@ != "d20"@);
    assert("-d12"@.len() != "d12"@.len());
    assert("-d12"@ != "d12"@);
    assert("-d12"@.len() != "d8"@.len());
    assert("-d12"@ != "d8"@);
    assert("-d12"@.len() != "d6"@.len());
    assert("-d12"@ != "d6"@);
    assert("-d12"@.len() != "d4"@.len());
    assert("-d12"@ != "d4"@);
    assert("-d12"@.len() != "No dice"@.len());
    assert("-d12"@ != "No dice"@);
    assert("-d12"@.len() != "-d4"@.len());
    assert("-d12"@ != "-d4"@);
    assert("-d12"@.len() != "-d6"@.len());
    assert("-d12"@ != "-d6"@);
    assert("-d12"@.len() != "-d8"@.len());
    assert("-d12"@ != "-d8"@);
}

} // verus!
