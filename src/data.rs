//! Compound data: tuples, named-field, tuple-like and unit structs, and
//! enums with and without payloads.
use vstd::prelude::*;

verus! {

/// A named-field struct.
#[derive(Debug, PartialEq)]
pub struct People {
    pub name: &'static str,
    pub gender: u32,
}

impl People {
    pub fn new(name: &'static str, gender: u32) -> (r: People)
        ensures
            r.name == name,
            r.gender == gender,
    {
        People { name, gender }
    }

    pub fn name(&self) -> (r: &'static str)
        ensures
            r == self.name,
    {
        self.name
    }

    /// "boy" for gender code 1, "girl" for any other code.
    pub fn gender(&self) -> (r: &'static str)
        ensures
            r@ == (if self.gender == 1 {
                "boy"@
            } else {
                "girl"@
            }),
    {
        if self.gender == 1 {
            "boy"
        } else {
            "girl"
        }
    }
}

/// A tuple-like struct.
#[derive(Debug, Clone, Copy, PartialEq, Eq, Structural)]
pub struct Color(pub i32, pub i32, pub i32);

/// A tuple-like struct of one field: the newtype pattern.
#[derive(Debug, Clone, Copy, PartialEq, Eq, Structural)]
pub struct Integer(pub u32);

/// A type alias names the same type.
pub type Int = i32;

/// A unit struct: no fields, and no bytes at run time.
#[derive(Debug, Clone, Copy, PartialEq, Eq, Structural)]
pub struct Empty;

/// A struct with an empty field list is a unit struct too.
#[derive(Debug, Clone, Copy, PartialEq, Eq, Structural)]
pub struct Empty1 {}

/// A field-less enum.
#[derive(Debug, Clone, Copy, PartialEq, Eq, Structural)]
pub enum Number {
    Zero,
    One,
    Two,
}

/// A C-like enum whose variants stand for RGB values.
#[derive(Debug, Clone, Copy, PartialEq, Eq, Structural)]
pub enum Color1 {
    Red,
    Green,
    Blue,
}

impl Color1 {
    pub open spec fn spec_rgb(self) -> u32 {
        match self {
            Color1::Red => 0xff0000,
            Color1::Green => 0x00ff00,
            Color1::Blue => 0x0000ff,
        }
    }

    /// The RGB value of the variant.
    pub fn rgb(&self) -> (r: u32)
        ensures
            r == self.spec_rgb(),
    {
        match self {
            Color1::Red => 0xff0000,
            Color1::Green => 0x00ff00,
            Color1::Blue => 0x0000ff,
        }
    }
}

/// An enum whose variants carry data; each variant is also a constructor.
#[derive(Debug, PartialEq, Eq)]
pub enum IpAddr {
    V4(u8, u8, u8, u8),
    V6(String),
}

/// An optional `i32` spelled out by hand.
#[derive(Debug, Clone, Copy, PartialEq, Eq, Structural)]
pub enum OptionInt {
    Present(i32),
    Absent,
}

/// Moves a point one step along both axes.
pub fn move_coords(x: (i32, i32)) -> (r: (i32, i32))
    requires
        x.0 < i32::MAX,
        x.1 < i32::MAX,
    ensures
        r.0 == x.0 + 1,
        r.1 == x.1 + 1,
{
    (x.0 + 1, x.1 + 1)
}

/// Primitive and compound values, each fact proved rather than checked at
/// run time: boolean casts, integer, byte and character literals, arrays,
/// vectors, string length, tuples, structs and enums.
pub fn primitive() {
    let x = true;
    let y = false;
    let xi = x as i32;
    let yi = y as i32;
    assert(xi == 1 && yi == 0);

    let num: u32 = 42u32;
    assert(num == 0x2A);
    let num: i32 = 0o106;
    assert(num == 70);
    let num: i32 = 0b1101_1011;
    assert(num == 219);
    let star = '*' as u8;
    let quote = '\'' as u8;
    assert(star == 42 && quote == 39);
    assert('\x2A' == '*');
    let pct = '%' as u32;
    assert(pct == 37);

    let mut arr: [i32; 3] = [1, 2, 3];
    assert(arr[0] == 1);
    arr[0] = 3;
    assert(arr[0] == 3);
    let arr: [i32; 10] = [0; 10];
    assert(arr.len() == 10);
    assert(arr[5] == 0);
    let v: Vec<i32> = vec![1, 2, 3];
    assert(v@ == seq![1i32, 2, 3]);

    let truth: &'static str = "Rust is a graceful language";
    proof {
        reveal_strlit("Rust is a graceful language");
        broadcast use vstd::string::is_ascii_spec_bytes;
        assert(vstd::string::is_ascii(truth));
    }
    let len = truth.len();
    assert(len == 27);

    let num: Option<u32> = Option::Some(42u32);
    let n = match num {
        Option::Some(n) => n,
        Option::None => 0,
    };
    assert(n == 42);

    let tuple = ("hello", 5i32, 'c');
    assert(tuple.0@ == "hello"@ && tuple.1 == 5 && tuple.2 == 'c');
    let coords: (i32, i32) = (0, 1);
    let result = move_coords(coords);
    let (x, y) = result;
    assert(x == 1 && y == 2);

    let alex = People::new("Alex", 1);
    let name = alex.name();
    assert(name@ == "Alex"@);
    let gender = alex.gender();
    assert(gender@ == "boy"@);

    let color = Color(10, 20, 30);
    assert(color.0 == 10 && color.1 == 20 && color.2 == 30);
    let wrapped = Integer(10);
    assert(wrapped.0 == 10);
    let aliased: Int = 20;
    assert(aliased == 20);

    let x = Empty;
    let y = x;
    assert(y == Empty);

    let home = IpAddr::V4(127, 0, 0, 1);
    assert(home matches IpAddr::V4(127, 0, 0, 1));
}

} // verus!
