//! Unit tests for addition and multiplication.

#[test]
fn test_add_positive_numbers() {
    assert_eq!(my_package::add(2, 3), 5);
}

#[test]
fn test_add_negative_numbers() {
    assert_eq!(my_package::add(-1, -2), -3);
}

#[test]
fn test_add_zero() {
    assert_eq!(my_package::add(5, 0), 5);
}

#[test]
fn test_add_large_numbers() {
    assert_eq!(my_package::add(1_000_000, 2_000_000), 3_000_000);
}

#[test]
fn test_multiply_positive_numbers() {
    assert_eq!(my_package::multiply(2, 3), 6);
}

#[test]
fn test_multiply_by_zero() {
    assert_eq!(my_package::multiply(5, 0), 0);
}

#[test]
fn test_multiply_negative_numbers() {
    assert_eq!(my_package::multiply(-2, 3), -6);
}

#[test]
fn test_multiply_two_negatives() {
    assert_eq!(my_package::multiply(-2, -3), 6);
}
