//! Letter grades of players, from S down to F, each with a number of pluses or
//! minuses.

use vstd::prelude::*;

verus! {

#[derive(Debug, Clone, Copy, PartialEq, Eq, PartialOrd, Ord, Structural)]
pub enum Tier {
    F(i32),
    D(i32),
    C(i32),
    B(i32),
    A(i32),
    S(i32),
}

impl Tier {
    /// The number of pluses (positive) or minuses (negative) of a grade.
    pub open spec fn num(&self) -> int {
        match self {
            Tier::F(num) => *num as int,
            Tier::D(num) => *num as int,
            Tier::C(num) => *num as int,
            Tier::B(num) => *num as int,
            Tier::A(num) => *num as int,
            Tier::S(num) => *num as int,
        }
    }

    /// The same letter with another number.
    pub open spec fn with_num(&self, n: i32) -> Tier {
        match self {
            Tier::F(_) => Tier::F(n),
            Tier::D(_) => Tier::D(n),
            Tier::C(_) => Tier::C(n),
            Tier::B(_) => Tier::B(n),
            Tier::A(_) => Tier::A(n),
            Tier::S(_) => Tier::S(n),
        }
    }

    /// The letter of a grade.
    pub open spec fn letter(&self) -> Seq<char> {
        match self {
            Tier::F(_) => "F"@,
            Tier::D(_) => "D"@,
            Tier::C(_) => "C"@,
            Tier::B(_) => "B"@,
            Tier::A(_) => "A"@,
            Tier::S(_) => "S"@,
        }
    }

    fn get_num(&self) -> (r: i32)
        ensures
            r == self.num(),
    {
        match self {
            Tier::F(num) | Tier::D(num) | Tier::C(num) | Tier::B(num) | Tier::A(num) | Tier::S(
                num,
            ) => *num,
        }
    }

    /// The same letter, with `new_num` more pluses.
    pub fn add(&self, new_num: i32) -> (r: Tier)
        requires
            i32::MIN <= self.num() + new_num <= i32::MAX,
        ensures
            r == self.with_num((self.num() + new_num) as i32),
    {
        let sum = self.get_num() + new_num;
        match self {
            Tier::F(_) => Tier::F(sum),
            Tier::D(_) => Tier::D(sum),
            Tier::C(_) => Tier::C(sum),
            Tier::B(_) => Tier::B(sum),
            Tier::A(_) => Tier::A(sum),
            Tier::S(_) => Tier::S(sum),
        }
    }

    /// The letter and the number of a grade.
    pub fn get_letter_num(&self) -> (r: (&'static str, i32))
        ensures
            r.0@ == self.letter(),
            r.1 == self.num(),
    {
        match self {
            Tier::F(num) => ("F", *num),
            Tier::D(num) => ("D", *num),
            Tier::C(num) => ("C", *num),
            Tier::B(num) => ("B", *num),
            Tier::A(num) => ("A", *num),
            Tier::S(num) => ("S", *num),
        }
    }

    /// A grade written out: its letter, then one `+` per plus or one `-` per minus.
    pub open spec fn text(&self) -> Seq<char> {
        let n = self.num();
        if n < 0 {
            self.letter() + Seq::new((-n) as nat, |i: int| '-')
        } else {
            self.letter() + Seq::new(n as nat, |i: int| '+')
        }
    }

    /// A grade written out.
    pub fn to_display(&self) -> (r: String)
        ensures
            r@ == self.text(),
    {
        let (letter, num) = self.get_letter_num();
        let mut text = String::from_str(letter);
        let sign = if num < 0 { "-" } else { "+" };
        proof {
            reveal_strlit("-");
            reveal_strlit("+");
        }
        let count: i64 = if num < 0 { -(num as i64) } else { num as i64 };
        let mut i: i64 = 0;
        while i < count
            invariant
                0 <= i <= count,
                count == (if num < 0 { -num } else { num as int }),
                sign@ == (if num < 0 { seq!['-'] } else { seq!['+'] }),
                text@ == self.letter() + Seq::new(i as nat, |k: int| if num < 0 { '-' } else { '+' }),
            decreases count - i,
        {
            text.append(sign);
            i = i + 1;
            assert(text@ =~= self.letter() + Seq::new(i as nat, |k: int| if num < 0 { '-' } else { '+' }));
        }
        assert(text@ =~= self.text());
        text
    }
}

} // verus!
