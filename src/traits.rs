//! Traits as interfaces: generic parameters on a trait, default methods,
//! inheritance with a blanket impl, bounds on generic functions, and static
//! dispatch.
use vstd::prelude::*;
use vstd::std_specs::ops::AddSpec;

use crate::decimal::{decimal, to_decimal};

verus! {

/// Addition whose right operand and result types are chosen per impl.
pub trait Add<Rhs, Output>: Sized {
    /// Whether `self.add(rhs)` is defined.
    spec fn adds(self, rhs: Rhs) -> bool;

    /// What `self.add(rhs)` returns.
    spec fn added(self, rhs: Rhs) -> Output;

    fn add(self, rhs: Rhs) -> (r: Output)
        requires
            self.adds(rhs),
        ensures
            r == self.added(rhs),
    ;
}

impl Add<i32, i32> for i32 {
    open spec fn adds(self, rhs: i32) -> bool {
        i32::MIN <= self + rhs <= i32::MAX
    }

    open spec fn added(self, rhs: i32) -> i32 {
        (self + rhs) as i32
    }

    fn add(self, rhs: i32) -> (r: i32) {
        self + rhs
    }
}

/// The `u32` sum, reinterpreted as an `i32`.
impl Add<u32, i32> for u32 {
    open spec fn adds(self, rhs: u32) -> bool {
        self + rhs <= u32::MAX
    }

    open spec fn added(self, rhs: u32) -> i32 {
        ((self + rhs) as u32) as i32
    }

    fn add(self, rhs: u32) -> (r: i32) {
        #[verifier::truncate]
        ((self + rhs) as i32)
    }
}

/// A `u32` widened and added to a `u64`.
impl Add<u64, u64> for u32 {
    open spec fn adds(self, rhs: u64) -> bool {
        self + rhs <= u64::MAX
    }

    open spec fn added(self, rhs: u64) -> u64 {
        (self + rhs) as u64
    }

    fn add(self, rhs: u64) -> (r: u64) {
        (self as u64) + rhs
    }
}

/// Adds two values of any type whose `+` yields that same type.
pub fn sum<T>(a: T, b: T) -> (r: T) where T: std::ops::Add<T, Output = T>
    requires
        a.add_req(b),
    ensures
        T::obeys_add_spec() ==> r == a.add_spec(b),
{
    a + b
}

/// Paging with a default setting; each method returns the line it announces.
pub trait Page {
    fn set_page(&self, p: i32) -> (r: String)
        default_ensures
            r@ == "Page Default: 1"@,
    {
        "Page Default: 1".to_owned()
    }
}

/// Items per page with a default setting.
pub trait PerPage {
    fn set_perpage(&self, num: i32) -> (r: String)
        default_ensures
            r@ == "Per Page Default: 10"@,
    {
        "Per Page Default: 10".to_owned()
    }
}

/// Inherits `Page` and `PerPage` and adds skipping.
pub trait Paginate: Page + PerPage {
    fn set_skip_page(&self, num: i32) -> (r: String)
        default_ensures
            r@ == "Skip Page: "@ + decimal(num as int),
    {
        let mut r = "Skip Page: ".to_owned();
        let d = to_decimal(num);
        r.append(d.as_str());
        r
    }
}

/// Every type with `Page` and `PerPage` gets `Paginate`'s default methods.
impl<T: Page + PerPage> Paginate for T {

}

pub struct MyPaginate {
    pub page: i32,
}

impl Page for MyPaginate {

}

impl PerPage for MyPaginate {

}

/// Something that can describe itself.
pub trait Bar {
    /// The text that `baz` returns.
    spec fn described(&self) -> Seq<char>;

    fn baz(&self) -> (r: String)
        ensures
            r@ == self.described(),
    ;
}

#[derive(Debug)]
pub struct Foo;

impl Bar for Foo {
    open spec fn described(&self) -> Seq<char> {
        "Foo"@
    }

    fn baz(&self) -> (r: String) {
        "Foo".to_owned()
    }
}

/// Calls `baz` through a generic bound: resolved at compile time.
pub fn static_dispatch<T: Bar>(t: &T) -> (r: String)
    ensures
        r@ == t.described(),
{
    t.baz()
}

} // verus!
