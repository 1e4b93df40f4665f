use rython::runtime::{rython_add, rython_divide, rython_fibonacci, rython_minus, rython_multiply};

#[test]
fn arithmetic_builtins() {
    assert_eq!(rython_add(5, 3), 8);
    assert_eq!(rython_minus(10, 7), 3);
    assert_eq!(rython_multiply(6, 7), 42);
    assert_eq!(rython_divide(10, 5), 2);
    assert_eq!(rython_divide(7, 2), 3);
    assert_eq!(rython_divide(-7, 2), -3);
}

#[test]
fn division_by_zero_is_defined_as_zero() {
    assert_eq!(rython_divide(5, 0), 0);
    assert_eq!(rython_divide(-9223372036854775808, 0), 0);
}

#[test]
fn division_overflow_wraps() {
    assert_eq!(rython_divide(-9223372036854775808, -1), -9223372036854775808);
}

#[test]
fn addition_wraps_at_the_boundary() {
    assert_eq!(rython_add(9223372036854775807, 1), -9223372036854775808);
    assert_eq!(rython_minus(-9223372036854775808, 1), 9223372036854775807);
}

#[test]
fn fibonacci_small_values() {
    assert_eq!(rython_fibonacci(0), 0);
    assert_eq!(rython_fibonacci(1), 1);
    assert_eq!(rython_fibonacci(2), 1);
    assert_eq!(rython_fibonacci(10), 55);
    assert_eq!(rython_fibonacci(20), 6765);
}

#[test]
fn fibonacci_returns_small_arguments_unchanged() {
    assert_eq!(rython_fibonacci(-5), -5);
}

#[test]
fn fibonacci_wraps_past_the_ninety_second() {
    // The 92nd Fibonacci number is the last that fits in an i64; later
    // ones wrap instead of overflowing.
    assert_eq!(rython_fibonacci(92), 7540113804746346429);
    let _large = rython_fibonacci(150);
}
