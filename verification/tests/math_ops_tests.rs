use led_glyph::math_ops;

#[test]
fn should_add_two_numbers() {
    let result = math_ops::sum(2, 2);
    assert_eq!(result, 4);
}

#[test]
fn should_subtract_two_numbers() {
    let result = math_ops::sub(2, 2);
    assert_eq!(result, 0);
}

#[test]
fn should_multiply_two_numbers() {
    let result = math_ops::mul(2, 2);
    assert_eq!(result, 4);
}

#[test]
fn should_divide_two_numbers() {
    let result = math_ops::div(2, 2);
    assert_eq!(result, 1);
}
