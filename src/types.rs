//! Sized, dynamically sized and zero-sized types, and the bottom type.
use vstd::prelude::*;

use crate::decimal::{digits_value, i32_value, parse_i32};

verus! {

/// A unit struct; it takes no bytes.
pub struct Foo;

/// A struct made only of zero-sized fields is zero-sized too.
pub struct Baz {
    pub foo: Foo,
    pub qux: (),
    pub bza: [u8; 0],
}

/// Writes 5, 4, 3, 2, 1 over the first five elements; the slice must hold
/// at least five.
pub fn reset(arr: &mut [u32])
    requires
        old(arr)@.len() >= 5,
    ensures
        final(arr)@.len() == old(arr)@.len(),
        forall|i: int| 0 <= i < 5 ==> #[trigger] final(arr)@[i] == 5 - i,
        forall|i: int| 5 <= i < old(arr)@.len() ==> #[trigger] final(arr)@[i] == old(arr)@[i],
{
    for i in 0..5
        invariant
            arr@.len() == old(arr)@.len(),
            old(arr)@.len() >= 5,
            forall|k: int| 0 <= k < i ==> #[trigger] arr@[k] == 5 - k,
            forall|k: int| i <= k < old(arr)@.len() ==> #[trigger] arr@[k] == old(arr)@[k],
    {
        arr[i] = (5 - i) as u32;
    }
}

/// A branch that never produces a value (here an early `return`) has the
/// bottom type, which fits any type; the other branch decides the value.
pub fn if_bang_type() -> (r: i32)
    ensures
        r == 100,
{
    let i: i32 = if false {
        return 0;
    } else {
        100
    };
    assert(i == 100);
    i
}

/// Reads the literal "1" as an `i32`, the target type named with the
/// turbofish (`parse::<i32>`); two reads of it agree, and give 1.
pub fn turbofish() -> (r: i32)
    ensures
        r == 1,
{
    let x = "1";
    proof {
        reveal_strlit("1");
        assert(x@.drop_last() =~= Seq::<char>::empty());
        assert(digits_value(x@.drop_last()) == 0);
        assert(x@.last() as u32 == 49);
        assert(digits_value(x@) == 1);
        assert(i32_value(x@) == Option::Some(1i32));
    }
    let int_x = parse_i32(x);
    let turbo_x = parse_i32(x);
    assert(int_x == turbo_x);
    match int_x {
        Option::Some(v) => v,
        Option::None => 0,
    }
}

} // verus!
