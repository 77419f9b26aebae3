//! Bindings, arithmetic and functions passed around as values.
use vstd::prelude::*;

use crate::decimal::{decimal, to_decimal};

verus! {

/// Adds two integers; the sum must fit in an `i32`.
pub fn sum(a: i32, b: i32) -> (r: i32)
    requires
        i32::MIN <= a + b <= i32::MAX,
    ensures
        r == a + b,
{
    a + b
}

/// Multiplies two integers; the product must fit in an `i32`.
pub fn product(a: i32, b: i32) -> (r: i32)
    requires
        i32::MIN <= a * b <= i32::MAX,
    ensures
        r == a * b,
{
    a * b
}

/// A binding (`let a`) and a mutable binding (`let mut b`) feed `sum`;
/// the answer is proved to be 42.
pub fn answer() {
    let a: i32 = 40;
    let mut b: i32 = 2;
    let r = sum(a, b);
    assert(r == 42);
}

/// Applies a function value to two arguments.
pub fn math(op: impl Fn(i32, i32) -> i32, a: i32, b: i32) -> (r: i32)
    requires
        op.requires((a, b)),
    ensures
        op.ensures((a, b), r),
{
    op(a, b)
}

/// Always true.
pub fn is_true() -> (r: bool)
    ensures
        r,
{
    true
}

/// Hands out `is_true` as a function value.
pub fn true_maker() -> (f: impl Fn() -> bool)
    ensures
        f.requires(()),
        forall|r: bool| f.ensures((), r) ==> r,
{
    is_true
}

/// Calls a closure that takes no arguments.
pub fn closure_math<F: Fn() -> i32>(op: F) -> (r: i32)
    requires
        op.requires(()),
    ensures
        op.ensures((), r),
{
    op()
}

/// A closure that doubles its argument, with the factor moved into it.
pub fn two_times_impl() -> (f: impl Fn(i32) -> i32)
    ensures
        forall|j: i32| i32::MIN <= 2 * j <= i32::MAX ==> #[trigger] f.requires((j,)),
        forall|j: i32, r: i32| f.ensures((j,), r) ==> r == 2 * j,
{
    let i: i32 = 2;
    move |j: i32| -> (r: i32)
        requires
            i32::MIN <= 2 * j <= i32::MAX,
        ensures
            r == 2 * j,
        { j * i }
}

/// Twice `n`: the length of the arrays built from it.
pub fn init_len(n: usize) -> (r: usize)
    requires
        n * 2 <= usize::MAX,
    ensures
        r == n * 2,
{
    n * 2
}

/// Shadowing and lexical scope: an inner binding hides an outer one of the
/// same name only until its block ends.
pub fn lifetimes() {
    let v = "hello world!";
    assert(v@ == "hello world!"@);
    let v = "hello Rust!";
    assert(v@ == "hello Rust!"@);
    {
        let v = "hello world!";
        assert(v@ == "hello world!"@);
    }
    assert(v@ == "hello Rust!"@);
}

/// The fizz-buzz word for `x`: multiples of 15 are "fizzbuzz", other
/// multiples of 3 "fizz", other multiples of 5 "buzz", and any other
/// number is written in decimal.
pub open spec fn fizz_buzz_word(x: int) -> Seq<char> {
    if x % 15 == 0 {
        "fizzbuzz"@
    } else if x % 3 == 0 {
        "fizz"@
    } else if x % 5 == 0 {
        "buzz"@
    } else {
        decimal(x)
    }
}

/// The fizz-buzz word for `x`.
pub fn fizz_buzz(x: i32) -> (r: String)
    ensures
        r@ == fizz_buzz_word(x as int),
{
    if x % 15 == 0 {
        return "fizzbuzz".to_owned();
    }
    if x % 3 == 0 {
        return "fizz".to_owned();
    }
    if x % 5 == 0 {
        return "buzz".to_owned();
    }
    to_decimal(x)
}

} // verus!
