use gamey::text::{decimal, join, str_equal};

#[test]
fn decimal_of_zero_is_one_digit() {
    assert_eq!(decimal(0), "0");
}

#[test]
fn decimal_has_no_leading_zeros() {
    assert_eq!(decimal(7), "7");
    assert_eq!(decimal(10), "10");
    assert_eq!(decimal(105), "105");
    assert_eq!(decimal(9000), "9000");
    assert_eq!(decimal(1234567890), "1234567890");
}

#[test]
fn decimal_agrees_with_the_standard_rendering() {
    for n in 0..2000usize {
        assert_eq!(decimal(n), format!("{}", n));
    }
    assert_eq!(decimal(usize::MAX), format!("{}", usize::MAX));
}

#[test]
fn join_puts_the_separator_between_neighbours() {
    let parts = vec!["a".to_string(), "bc".to_string(), "d".to_string()];
    assert_eq!(join(&parts, ", "), "a, bc, d");
}

#[test]
fn join_of_nothing_is_empty() {
    assert_eq!(join(&Vec::new(), ", "), "");
}

#[test]
fn join_of_one_part_is_that_part() {
    assert_eq!(join(&vec!["solo".to_string()], ", "), "solo");
}

#[test]
fn join_keeps_empty_parts() {
    let parts = vec!["".to_string(), "x".to_string(), "".to_string()];
    assert_eq!(join(&parts, "/"), "/x/");
}

#[test]
fn str_equal_compares_character_by_character() {
    assert!(str_equal("v1", "v1"));
    assert!(str_equal("", ""));
    assert!(!str_equal("v1", "v2"));
    assert!(!str_equal("v1", "v1 "));
    assert!(!str_equal("v1", "V1"));
    assert!(!str_equal("v1", ""));
}
