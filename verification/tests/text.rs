use rust_concepts::text::{i64_to_string, join, repeat, u64_to_string};

#[test]
fn unsigned_numbers_in_decimal() {
    assert_eq!(u64_to_string(0), "0");
    assert_eq!(u64_to_string(7), "7");
    assert_eq!(u64_to_string(10), "10");
    assert_eq!(u64_to_string(1234567890), "1234567890");
    assert_eq!(u64_to_string(u64::MAX), "18446744073709551615");
}

#[test]
fn signed_numbers_in_decimal() {
    assert_eq!(i64_to_string(0), "0");
    assert_eq!(i64_to_string(-1), "-1");
    assert_eq!(i64_to_string(42), "42");
    assert_eq!(i64_to_string(i64::MAX), "9223372036854775807");
    assert_eq!(i64_to_string(i64::MIN), "-9223372036854775808");
}

#[test]
fn decimal_agrees_with_std() {
    let mut n: i64 = -1000;
    while n <= 1000 {
        assert_eq!(i64_to_string(n), n.to_string());
        n += 1;
    }
}

#[test]
fn repeat_repeats() {
    assert_eq!(repeat("*", 0), "");
    assert_eq!(repeat("*", 3), "***");
    assert_eq!(repeat("ab", 2), "abab");
    assert_eq!(repeat("", 5), "");
}

#[test]
fn join_joins() {
    let none: Vec<String> = vec![];
    assert_eq!(join(&none, ", "), "");
    assert_eq!(join(&vec![String::from("a")], ", "), "a");
    assert_eq!(
        join(&vec![String::from("a"), String::from("b"), String::from("c")], "-"),
        "a-b-c"
    );
}
