//! Generic functions and structs, and a trait used as a constructor
//! chosen by the caller's type.
use vstd::prelude::*;

verus! {

/// The identity function, for any type.
pub fn foo<T>(x: T) -> (r: T)
    ensures
        r == x,
{
    x
}

/// A point whose coordinates share one type.
#[derive(Debug, PartialEq)]
pub struct Point<T> {
    pub x: T,
    pub y: T,
}

impl<T> Point<T> {
    pub fn new(x: T, y: T) -> (r: Point<T>)
        ensures
            r.x == x,
            r.y == y,
    {
        Point { x, y }
    }
}

/// Types that can be built from one `i32`.
pub trait Inst: Sized {
    /// Whether `new(i)` is defined.
    spec fn builds_from(i: i32) -> bool;

    /// The value that `new(i)` builds.
    spec fn built_from(i: i32) -> Self;

    fn new(i: i32) -> (r: Self)
        requires
            Self::builds_from(i),
        ensures
            r == Self::built_from(i),
    ;
}

#[derive(Debug, Clone, Copy, PartialEq, Eq, Structural)]
pub struct Foo(pub i32);

#[derive(Debug, Clone, Copy, PartialEq, Eq, Structural)]
pub struct Bar(pub i32, pub i32);

impl Inst for Foo {
    open spec fn builds_from(i: i32) -> bool {
        true
    }

    open spec fn built_from(i: i32) -> Foo {
        Foo(i)
    }

    fn new(i: i32) -> (r: Foo) {
        Foo(i)
    }
}

impl Inst for Bar {
    open spec fn builds_from(i: i32) -> bool {
        i + 10 <= i32::MAX
    }

    open spec fn built_from(i: i32) -> Bar {
        Bar(i, (i + 10) as i32)
    }

    fn new(i: i32) -> (r: Bar) {
        Bar(i, i + 10)
    }
}

/// Builds a value of whatever type the caller asks for.
pub fn foobar<T: Inst>(i: i32) -> (r: T)
    requires
        T::builds_from(i),
    ensures
        r == T::built_from(i),
{
    T::new(i)
}

} // verus!
