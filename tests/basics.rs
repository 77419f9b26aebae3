use essentials::basics::{
    answer, closure_math, fizz_buzz, init_len, is_true, lifetimes, math, product, sum,
    true_maker, two_times_impl,
};
use essentials::decimal::to_decimal;

#[test]
fn answer_runs() {
    answer();
    assert_eq!(sum(40, 2), 42);
}

#[test]
fn sum_and_product_as_function_values() {
    let a = 2;
    let b = 3;
    assert_eq!(math(sum, a, b), 5);
    assert_eq!(math(product, a, b), 6);
    assert_eq!(math(sum, i32::MAX - 1, 1), i32::MAX);
    assert_eq!(math(product, -4, 5), -20);
}

#[test]
fn true_maker_hands_out_is_true() {
    assert!(is_true());
    assert_eq!(true_maker()(), true);
}

#[test]
fn init_len_doubles() {
    assert_eq!(init_len(3), 3 * 2);
    assert_eq!(init_len(6), 6 * 2);
    assert_eq!(init_len(0), 0);
    let arr = vec![0; init_len(3)];
    assert_eq!(arr.len(), 6);
}

#[test]
fn closures_capture_their_environment() {
    let (a, b) = (2, 3);
    assert_eq!(closure_math(|| a + b), 5);
    assert_eq!(closure_math(|| a * b), 6);
    let result = two_times_impl();
    assert_eq!(result(3), 6);
    assert_eq!(result(-21), -42);
}

#[test]
fn fizz_buzz_words() {
    assert_eq!(fizz_buzz(15), "fizzbuzz".to_string());
    assert_eq!(fizz_buzz(3), "fizz".to_string());
    assert_eq!(fizz_buzz(5), "buzz".to_string());
    assert_eq!(fizz_buzz(13), "13".to_string());
}

#[test]
fn fizz_buzz_edges() {
    assert_eq!(fizz_buzz(0), "fizzbuzz");
    assert_eq!(fizz_buzz(-30), "fizzbuzz");
    assert_eq!(fizz_buzz(-9), "fizz");
    assert_eq!(fizz_buzz(-7), "-7");
    assert_eq!(fizz_buzz(1), "1");
    assert_eq!(fizz_buzz(98), "98");
    assert_eq!(fizz_buzz(i32::MAX), "2147483647");
    assert_eq!(fizz_buzz(i32::MIN), "-2147483648");
}

#[test]
fn decimal_matches_display() {
    for x in [0, 7, 10, 99, 100, 1234567, -1, -10, -905, i32::MAX, i32::MIN] {
        assert_eq!(to_decimal(x), x.to_string());
    }
}

#[test]
fn shadowing_runs() {
    lifetimes();
}

#[test]
fn decimal_parses_back() {
    for x in [0, 5, -5, 42, 1000, -99999, i32::MAX, i32::MIN] {
        assert_eq!(to_decimal(x).parse::<i32>(), Ok(x));
    }
}
