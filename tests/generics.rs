use essentials::generics::{foo, foobar, Bar, Foo, Point};

#[test]
fn generics_fn() {
    assert_eq!(foo(1), 1);
    assert_eq!(foo("hello"), "hello");
    println!("12")
}

#[test]
fn generics_struct() {
    let point1 = Point::new(1, 2);
    let point2 = Point::new("1", "2");
    assert_eq!(point1, Point::new(1, 2));
    assert_eq!(point2, Point::new("1", "2"));
}

#[test]
fn duck_type_generics() {
    let f: Foo = foobar(10);
    assert_eq!(f, Foo(10));
    let b: Bar = foobar(20);
    assert_eq!(b, Bar(20, 30));
    let f = foobar::<Foo>(10);
    assert_eq!(f, Foo(10));
    assert_eq!(foobar::<Bar>(10), Bar(10, 20));
}

#[test]
fn point_fields_keep_their_order() {
    let p = Point::new(-4, 9);
    assert_eq!(p.x, -4);
    assert_eq!(p.y, 9);
}

#[test]
fn bar_second_field_is_ten_more() {
    assert_eq!(foobar::<Bar>(-10), Bar(-10, 0));
    assert_eq!(foobar::<Bar>(i32::MAX - 10), Bar(i32::MAX - 10, i32::MAX));
    assert_eq!(foobar::<Foo>(i32::MIN), Foo(i32::MIN));
}
