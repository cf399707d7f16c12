use ui_glue::text::{i32_to_string, join_with, u32_to_string};

#[test]
fn unsigned_decimal_renders_exactly() {
    assert_eq!(u32_to_string(0), "0");
    assert_eq!(u32_to_string(9), "9");
    assert_eq!(u32_to_string(10), "10");
    assert_eq!(u32_to_string(123), "123");
    assert_eq!(u32_to_string(100200), "100200");
    assert_eq!(u32_to_string(u32::MAX), "4294967295");
}

#[test]
fn signed_decimal_renders_exactly() {
    assert_eq!(i32_to_string(0), "0");
    assert_eq!(i32_to_string(7), "7");
    assert_eq!(i32_to_string(-1), "-1");
    assert_eq!(i32_to_string(-308), "-308");
    assert_eq!(i32_to_string(i32::MAX), "2147483647");
    assert_eq!(i32_to_string(i32::MIN), "-2147483648");
}

#[test]
fn decimal_matches_std_formatting() {
    for i in -30..30 {
        assert_eq!(i32_to_string(i), format!("{}", i));
    }
}

#[test]
fn join_of_empty_list_is_empty() {
    let parts: Vec<&'static str> = vec![];
    assert_eq!(join_with(&parts, ", "), "");
}

#[test]
fn join_of_one_part_has_no_separator() {
    let parts: Vec<&'static str> = vec!["alpha"];
    assert_eq!(join_with(&parts, ", "), "alpha");
}

#[test]
fn join_separates_consecutive_parts() {
    let parts: Vec<&'static str> = vec!["a", "b", "c"];
    assert_eq!(join_with(&parts, ", "), "a, b, c");
    assert_eq!(join_with(&parts, "\n"), "a\nb\nc");
    let empties: Vec<&'static str> = vec!["", ""];
    assert_eq!(join_with(&empties, "-"), "-");
}
