//! Text helpers: decimal numbers, string comparison and white space.

use vstd::prelude::*;

verus! {

/// The decimal digit `d` (0 to 9) as text.
pub open spec fn digit_text(d: int) -> Seq<char> {
    if d == 0 {
        "0"@
    } else if d == 1 {
        "1"@
    } else if d == 2 {
        "2"@
    } else if d == 3 {
        "3"@
    } else if d == 4 {
        "4"@
    } else if d == 5 {
        "5"@
    } else if d == 6 {
        "6"@
    } else if d == 7 {
        "7"@
    } else if d == 8 {
        "8"@
    } else {
        "9"@
    }
}

/// The decimal notation of a natural number, without leading zeros.
pub open spec fn nat_text(n: nat) -> Seq<char>
    decreases n,
{
    if n < 10 {
        digit_text(n as int)
    } else {
        nat_text(n / 10) + digit_text((n % 10) as int)
    }
}

/// The decimal notation of an integer, as Rust's `to_string` gives it: a minus
/// sign before negative numbers.
pub open spec fn int_text(n: int) -> Seq<char> {
    if n < 0 {
        "-"@ + nat_text((-n) as nat)
    } else {
        nat_text(n as nat)
    }
}

fn digit_str(d: u64) -> (r: &'static str)
    requires
        d < 10,
    ensures
        r@ == digit_text(d as int),
{
    if d == 0 {
        "0"
    } else if d == 1 {
        "1"
    } else if d == 2 {
        "2"
    } else if d == 3 {
        "3"
    } else if d == 4 {
        "4"
    } else if d == 5 {
        "5"
    } else if d == 6 {
        "6"
    } else if d == 7 {
        "7"
    } else if d == 8 {
        "8"
    } else {
        "9"
    }
}

/// The decimal notation of a natural number.
pub fn nat_to_string(n: u64) -> (r: String)
    ensures
        r@ == nat_text(n as nat),
    decreases n,
{
    if n < 10 {
        String::from_str(digit_str(n))
    } else {
        let mut s = nat_to_string(n / 10);
        s.append(digit_str(n % 10));
        s
    }
}

/// The decimal notation of an integer, with a minus sign before negative numbers.
pub fn int_to_string(n: i64) -> (r: String)
    ensures
        r@ == int_text(n as int),
{
    if n < 0 {
        let m: u64 = (0i128 - n as i128) as u64;
        let mut s = String::from_str("-");
        let digits = nat_to_string(m);
        s.append(digits.as_str());
        s
    } else {
        nat_to_string(n as u64)
    }
}

/// Whether two strings hold the same characters.
pub fn str_eq(a: &str, b: &str) -> (r: bool)
    ensures
        r == (a@ == b@),
{
    let n = a.unicode_len();
    if n != b.unicode_len() {
        return false;
    }
    let mut i: usize = 0;
    while i < n
        invariant
            n == a@.len(),
            n == b@.len(),
            i <= n,
            forall|k: int| 0 <= k < i ==> a@[k] == b@[k],
        decreases n - i,
    {
        if a.get_char(i) != b.get_char(i) {
            return false;
        }
        i = i + 1;
    }
    assert(a@ =~= b@);
    true
}

/// The characters that Rust's `char::is_whitespace` counts as white space
/// (Unicode's `White_Space` property).
pub open spec fn is_white_space(c: char) -> bool {
    ||| c == ' '
    ||| ('\u{9}' <= c <= '\u{d}')
    ||| c == '\u{85}'
    ||| c == '\u{a0}'
    ||| c == '\u{1680}'
    ||| ('\u{2000}' <= c <= '\u{200a}')
    ||| c == '\u{2028}'
    ||| c == '\u{2029}'
    ||| c == '\u{202f}'
    ||| c == '\u{205f}'
    ||| c == '\u{3000}'
}

/// Whether a character is white space.
pub fn white_space(c: char) -> (r: bool)
    ensures
        r == is_white_space(c),
{
    c == ' ' || ('\u{9}' <= c && c <= '\u{d}') || c == '\u{85}' || c == '\u{a0}' || c == '\u{1680}'
        || ('\u{2000}' <= c && c <= '\u{200a}') || c == '\u{2028}' || c == '\u{2029}' || c
        == '\u{202f}' || c == '\u{205f}' || c == '\u{3000}'
}

/// Appends the text of `tail` to `s`.
pub fn push_str(s: &mut String, tail: &String)
    ensures
        final(s)@ == old(s)@ + tail@,
{
    s.append(tail.as_str());
}

/// Each digit has a text of its own, one character long.
pub proof fn lemma_digit_text(d: int, e: int)
    requires
        0 <= d < 10,
        0 <= e < 10,
    ensures
        digit_text(d).len() == 1,
        digit_text(d) == digit_text(e) ==> d == e,
{
    reveal_strlit("0");
    reveal_strlit("1");
    reveal_strlit("2");
    reveal_strlit("3");
    reveal_strlit("4");
    reveal_strlit("5");
    reveal_strlit("6");
    reveal_strlit("7");
    reveal_strlit("8");
    reveal_strlit("9");
    assert(digit_text(d)[0] == digit_text(e)[0] ==> d == e);
}

pub proof fn lemma_nat_text_len(n: nat)
    ensures
        nat_text(n).len() >= 1,
        n >= 10 ==> nat_text(n).len() >= 2,
    decreases n,
{
    lemma_digit_text((n % 10) as int, 0);
    if n >= 10 {
        lemma_nat_text_len(n / 10);
    }
}

/// Different numbers are written differently.
pub proof fn lemma_nat_text_injective(a: nat, b: nat)
    ensures
        nat_text(a) == nat_text(b) ==> a == b,
    decreases a,
{
    lemma_nat_text_len(a);
    lemma_nat_text_len(b);
    if nat_text(a) == nat_text(b) {
        if a < 10 && b < 10 {
            lemma_digit_text(a as int, b as int);
        } else if a >= 10 && b >= 10 {
            let ta = nat_text(a / 10);
            let tb = nat_text(b / 10);
            lemma_digit_text((a % 10) as int, (b % 10) as int);
            lemma_digit_text((b % 10) as int, (a % 10) as int);
            assert(nat_text(a).drop_last() =~= ta);
            assert(nat_text(b).drop_last() =~= tb);
            assert(nat_text(a).last() == digit_text((a % 10) as int)[0]);
            assert(nat_text(b).last() == digit_text((b % 10) as int)[0]);
            assert(digit_text((a % 10) as int) =~= seq![digit_text((a % 10) as int)[0]]);
            assert(digit_text((b % 10) as int) =~= seq![digit_text((b % 10) as int)[0]]);
            lemma_nat_text_injective(a / 10, b / 10);
        } else if a < 10 {
            lemma_digit_text(a as int, 0);
        } else {
            lemma_digit_text(b as int, 0);
        }
    }
}

pub proof fn lemma_nat_text_first(n: nat)
    ensures
        nat_text(n).len() >= 1,
        nat_text(n)[0] != '-',
    decreases n,
{
    lemma_nat_text_len(n);
    reveal_strlit("0");
    reveal_strlit("1");
    reveal_strlit("2");
    reveal_strlit("3");
    reveal_strlit("4");
    reveal_strlit("5");
    reveal_strlit("6");
    reveal_strlit("7");
    reveal_strlit("8");
    reveal_strlit("9");
    if n >= 10 {
        lemma_nat_text_first(n / 10);
        assert(nat_text(n)[0] == nat_text(n / 10)[0]);
    }
}

/// Different integers are written differently.
pub proof fn lemma_int_text_injective(a: int, b: int)
    ensures
        int_text(a) == int_text(b) ==> a == b,
{
    reveal_strlit("-");
    if int_text(a) == int_text(b) {
        if a >= 0 && b >= 0 {
            lemma_nat_text_injective(a as nat, b as nat);
        } else if a < 0 && b < 0 {
            assert(int_text(a).drop_first() =~= nat_text((-a) as nat));
            assert(int_text(b).drop_first() =~= nat_text((-b) as nat));
            lemma_nat_text_injective((-a) as nat, (-b) as nat);
        } else if a < 0 {
            lemma_nat_text_first(b as nat);
            assert(int_text(a)[0] == '-');
        } else {
            lemma_nat_text_first(a as nat);
            assert(int_text(b)[0] == '-');
        }
    }
}

} // verus!
