//! Pattern matching, `if let`, loops with `break`, and branching
//! expressions.
use vstd::prelude::*;

use crate::decimal::{decimal, to_decimal};

verus! {

/// How `classify` sorts a number.
#[derive(Debug, Clone, Copy, PartialEq, Eq, Structural)]
pub enum Verdict {
    Origin,
    All,
    BadLuck,
    Answer(i32),
    Common,
}

/// The verdict on `n`; arms are tried in order, so 1 is `All`, not `BadLuck`.
pub open spec fn verdict_of(n: i32) -> Verdict {
    if n == 0 {
        Verdict::Origin
    } else if 1 <= n <= 3 {
        Verdict::All
    } else if n == 5 || n == 7 || n == 13 {
        Verdict::BadLuck
    } else if n == 42 {
        Verdict::Answer(n)
    } else {
        Verdict::Common
    }
}

/// Sorts `n` with literal, range, alternative and binding patterns.
#[allow(unreachable_patterns)]
pub fn classify(n: i32) -> (r: Verdict)
    ensures
        r == verdict_of(n),
{
    match n {
        0 => Verdict::Origin,
        1..=3 => Verdict::All,
        1 | 5 | 7 | 13 => Verdict::BadLuck,
        m @ 42 => Verdict::Answer(m),
        _ => Verdict::Common,
    }
}

impl Verdict {
    pub open spec fn spec_message(self) -> Seq<char> {
        match self {
            Verdict::Origin => "Origin"@,
            Verdict::All => "All"@,
            Verdict::BadLuck => "Bad Luck"@,
            Verdict::Answer(m) => "Answer is "@ + decimal(m as int),
            Verdict::Common => "Common"@,
        }
    }

    /// The line that announces the verdict.
    pub fn message(&self) -> (r: String)
        ensures
            r@ == self.spec_message(),
    {
        match self {
            Verdict::Origin => "Origin".to_owned(),
            Verdict::All => "All".to_owned(),
            Verdict::BadLuck => "Bad Luck".to_owned(),
            Verdict::Answer(m) => {
                let mut r = "Answer is ".to_owned();
                let d = to_decimal(*m);
                r.append(d.as_str());
                r
            },
            Verdict::Common => "Common".to_owned(),
        }
    }
}

/// 1 for true and 0 for false, through `if let` on a boolean pattern.
pub fn binary_of(boolean: bool) -> (r: i32)
    ensures
        r == (if boolean {
            1i32
        } else {
            0i32
        }),
{
    let mut binary: i32 = 0;
    if let true = boolean {
        binary = 1;
    }
    binary
}

/// Pops `v` until it is empty and returns what came out, in that order:
/// the last element first.
pub fn pop_all(v: Vec<i32>) -> (r: Vec<i32>)
    ensures
        r@ == v@.reverse(),
{
    let mut v = v;
    let ghost orig = v@;
    let mut out: Vec<i32> = Vec::new();
    loop
        invariant
            orig == v@ + out@.reverse(),
        ensures
            v@.len() == 0,
            orig == v@ + out@.reverse(),
        decreases v.len(),
    {
        let ghost before = (v@, out@);
        match v.pop() {
            Option::Some(x) => {
                out.push(x);
                assert(out@.reverse() =~= seq![x] + before.1.reverse());
                assert(before.0 =~= v@.push(x));
                assert(orig =~= v@ + out@.reverse());
            },
            Option::None => break,
        }
    }
    assert(out@ =~= out@.reverse().reverse());
    assert(out@ =~= orig.reverse());
    out
}

/// `10 * n` for `n` strictly between -10 and 10, else `n / 2` rounded
/// toward zero.
pub fn big_n(n: i32) -> (r: i32)
    ensures
        r == (if -10 < n < 10 {
            10 * n
        } else if n >= 0 {
            n / 2
        } else {
            -((-n) / 2)
        }),
{
    if n < 10 && n > -10 {
        10 * n
    } else {
        n / 2
    }
}

/// A mutable borrow pushes through to the vector it borrows from.
pub fn reference() -> (r: Vec<i32>)
    ensures
        r@ == seq![1i32, 2, 3, 4],
{
    let a: [i32; 3] = [1, 2, 3];
    let b = &a;
    assert(b[0] == 1);
    let mut c: Vec<i32> = vec![1, 2, 3];
    let d = &mut c;
    d.push(4);
    let e = &42i32;
    assert(*e == 42);
    c
}

} // verus!
