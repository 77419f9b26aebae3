//! Decimal notation of integers, as `Display` writes them: an optional
//! minus sign followed by the digits, with no leading zeros.
use vstd::prelude::*;

verus! {

/// The character of a decimal digit.
pub open spec fn digit_char(d: nat) -> char {
    if d == 0 {
        '0'
    } else if d == 1 {
        '1'
    } else if d == 2 {
        '2'
    } else if d == 3 {
        '3'
    } else if d == 4 {
        '4'
    } else if d == 5 {
        '5'
    } else if d == 6 {
        '6'
    } else if d == 7 {
        '7'
    } else if d == 8 {
        '8'
    } else {
        '9'
    }
}

/// The digits of `n`, most significant first; zero is written `0`.
pub open spec fn digits(n: nat) -> Seq<char>
    decreases n,
{
    if n < 10 {
        seq![digit_char(n)]
    } else {
        digits(n / 10).push(digit_char(n % 10))
    }
}

/// Whether `c` is an ASCII decimal digit.
pub open spec fn is_digit(c: char) -> bool {
    48 <= c as u32 <= 57
}

/// The value of the digits `s`, most significant first; 0 when empty.
pub open spec fn digits_value(s: Seq<char>) -> int
    decreases s.len(),
{
    if s.len() == 0 {
        0
    } else {
        digits_value(s.drop_last()) * 10 + (s.last() as u32 - 48)
    }
}

/// The value of `s` read as one or more ASCII digits.
pub open spec fn unsigned_value(s: Seq<char>) -> Option<int> {
    if s.len() > 0 && forall|i: int| 0 <= i < s.len() ==> is_digit(#[trigger] s[i]) {
        Option::Some(digits_value(s))
    } else {
        Option::None
    }
}

/// The value of `s` read as an optional `+` or `-` followed by one or more
/// ASCII digits.
pub open spec fn signed_value(s: Seq<char>) -> Option<int> {
    if s.len() > 0 && s[0] == '-' {
        match unsigned_value(s.drop_first()) {
            Option::Some(v) => Option::Some(-v),
            Option::None => Option::None,
        }
    } else if s.len() > 0 && s[0] == '+' {
        unsigned_value(s.drop_first())
    } else {
        unsigned_value(s)
    }
}

/// The `i32` that `s` denotes, if it is well formed and in range.
pub open spec fn i32_value(s: Seq<char>) -> Option<i32> {
    match signed_value(s) {
        Option::Some(v) => if i32::MIN <= v <= i32::MAX {
            Option::Some(v as i32)
        } else {
            Option::None
        },
        Option::None => Option::None,
    }
}

proof fn lemma_digits_read_back(n: nat)
    ensures
        digits(n).len() > 0,
        forall|i: int| 0 <= i < digits(n).len() ==> is_digit(#[trigger] digits(n)[i]),
        digits_value(digits(n)) == n,
    decreases n,
{
    let d = (n % 10) as nat;
    assert(digit_char(d) as u32 - 48 == d);
    if n >= 10 {
        lemma_digits_read_back(n / 10);
        assert(digits(n).drop_last() =~= digits(n / 10));
        assert(digits(n).last() == digit_char(d));
        assert((n / 10) * 10 + d == n);
    } else {
        assert(digits(n).drop_last() =~= Seq::<char>::empty());
        assert(digits_value(Seq::<char>::empty()) == 0);
    }
}

/// Decimal notation reads back as the number it was written from.
pub proof fn lemma_decimal_parses_back(x: i32)
    ensures
        i32_value(decimal(x as int)) == Option::Some(x),
{
    let s = decimal(x as int);
    if x < 0 {
        lemma_digits_read_back((-x) as nat);
        assert(s.drop_first() =~= digits((-x) as nat));
    } else {
        lemma_digits_read_back(x as nat);
        assert(is_digit(s[0]));
    }
}

/// Relies on `str::parse::<i32>` (the `FromStr` impl of `i32`), which
/// accepts an optional `+` or `-` followed by ASCII digits whose value fits
/// in an `i32`, and fails on anything else.
#[verifier::external_body]
pub(crate) fn parse_i32(s: &str) -> (r: Option<i32>)
    ensures
        r == i32_value(s@),
{
    s.parse::<i32>().ok()
}

/// `x` in decimal notation.
pub open spec fn decimal(x: int) -> Seq<char> {
    if x < 0 {
        seq!['-'] + digits((-x) as nat)
    } else {
        digits(x as nat)
    }
}

fn digit_str(d: u32) -> (s: &'static str)
    requires
        d < 10,
    ensures
        s@ == seq![digit_char(d as nat)],
{
    proof {
        reveal_strlit("0");
        reveal_strlit("1");
        reveal_strlit("2");
        reveal_strlit("3");
        reveal_strlit("4");
        reveal_strlit("5");
        reveal_strlit("6");
        reveal_strlit("7");
        reveal_strlit("8");
        reveal_strlit("9");
    }
    match d {
        0 => "0",
        1 => "1",
        2 => "2",
        3 => "3",
        4 => "4",
        5 => "5",
        6 => "6",
        7 => "7",
        8 => "8",
        _ => "9",
    }
}

fn push_digits(n: u32, s: &mut String)
    ensures
        final(s)@ == old(s)@ + digits(n as nat),
    decreases n,
{
    if n >= 10 {
        push_digits(n / 10, s);
    }
    s.append(digit_str(n % 10));
}

/// Writes `x` in decimal notation.
pub fn to_decimal(x: i32) -> (r: String)
    ensures
        r@ == decimal(x as int),
{
    let mut r = String::new();
    if x < 0 {
        proof {
            reveal_strlit("-");
        }
        r.append("-");
        let m: u32 = (-(x as i64)) as u32;
        push_digits(m, &mut r);
    } else {
        push_digits(x as u32, &mut r);
    }
    assert(r@ =~= decimal(x as int));
    r
}

} // verus!
