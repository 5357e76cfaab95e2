//! Integration tests exercising the public API from outside the crate.

#[test]
fn test_add_returns_correct_sum() {
    assert_eq!(my_package::add(10, 20), 30);
}

#[test]
fn test_add_handles_large_numbers() {
    assert_eq!(my_package::add(1_000_000_000, 2_000_000_000), 3_000_000_000);
}

#[test]
fn test_add_handles_negative_result() {
    assert_eq!(my_package::add(-100, 50), -50);
}

#[test]
fn test_multiply_returns_correct_product() {
    assert_eq!(my_package::multiply(10, 20), 200);
}

#[test]
fn test_multiply_handles_large_numbers() {
    assert_eq!(my_package::multiply(1_000, 1_000_000), 1_000_000_000);
}

#[test]
fn test_multiply_handles_negative_numbers() {
    assert_eq!(my_package::multiply(-10, -20), 200);
}

#[test]
fn test_version_is_not_empty() {
    assert!(!my_package::VERSION.is_empty());
}

#[test]
fn test_version_matches_cargo_toml() {
    // Version should match the one in Cargo.toml
    assert!(my_package::VERSION.starts_with("0."));
}
