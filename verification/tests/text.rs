use mediawiki::text::{i64_to_string, str_eq, u64_to_string};

#[test]
fn str_eq_compares_characters() {
    assert!(str_eq("", ""));
    assert!(str_eq("error", "error"));
    assert!(!str_eq("error", "errors"));
    assert!(!str_eq("error", "errOr"));
    assert!(!str_eq("a", ""));
    assert!(str_eq("caf\u{e9}", "caf\u{e9}"));
    assert!(!str_eq("caf\u{e9}", "cafe"));
}

#[test]
fn u64_to_string_prints_decimal_digits() {
    assert_eq!(u64_to_string(0), "0");
    assert_eq!(u64_to_string(7), "7");
    assert_eq!(u64_to_string(10), "10");
    assert_eq!(u64_to_string(5000), "5000");
    assert_eq!(u64_to_string(1234567890), "1234567890");
    assert_eq!(u64_to_string(u64::MAX), "18446744073709551615");
}

#[test]
fn i64_to_string_puts_a_minus_before_negative_numbers() {
    assert_eq!(i64_to_string(0), "0");
    assert_eq!(i64_to_string(42), "42");
    assert_eq!(i64_to_string(-1), "-1");
    assert_eq!(i64_to_string(-905), "-905");
    assert_eq!(i64_to_string(i64::MAX), "9223372036854775807");
    assert_eq!(i64_to_string(i64::MIN), "-9223372036854775808");
}

#[test]
fn decimal_text_agrees_with_the_standard_library() {
    for n in [0u64, 1, 9, 10, 11, 99, 100, 101, 65535, 4294967295] {
        assert_eq!(u64_to_string(n), n.to_string());
    }
    for n in [-100i64, -99, -10, -9, -1, 0, 1, 9, 10, 99, 100] {
        assert_eq!(i64_to_string(n), n.to_string());
    }
}

fn strings(items: &[&str]) -> Vec<String> {
    items.iter().map(|s| s.to_string()).collect()
}

#[test]
fn join_puts_the_separator_between_items() {
    let items = strings(&["a", "b", "c", "d"]);
    assert_eq!(mediawiki::text::join(&items, 0, 4, "|"), "a|b|c|d");
    assert_eq!(mediawiki::text::join(&items, 1, 3, ", "), "b, c");
    assert_eq!(mediawiki::text::join(&items, 2, 3, "|"), "c");
    assert_eq!(mediawiki::text::join(&items, 2, 2, "|"), "");
    assert_eq!(mediawiki::text::join(&items, 0, 4, ""), "abcd");
}

#[test]
fn batches_split_a_list_into_joined_groups() {
    let items = strings(&["1", "2", "3", "4", "5"]);
    assert_eq!(mediawiki::text::batches(&items, 2, "|"), strings(&["1|2", "3|4", "5"]));
    assert_eq!(mediawiki::text::batches(&items, 5, "|"), strings(&["1|2|3|4|5"]));
    assert_eq!(mediawiki::text::batches(&items, 6, "|"), strings(&["1|2|3|4|5"]));
    assert_eq!(mediawiki::text::batches(&items, 1, "|"), strings(&["1", "2", "3", "4", "5"]));
    assert_eq!(mediawiki::text::batches(&items, usize::MAX, "|"), strings(&["1|2|3|4|5"]));
    assert_eq!(mediawiki::text::batches(&Vec::new(), 3, "|"), Vec::<String>::new());
}

#[test]
fn batches_of_a_hundred_agree_with_chunks() {
    let items: Vec<String> = (0..250).map(|n| n.to_string()).collect();
    let expected: Vec<String> = items.chunks(100).map(|chunk| chunk.join("|")).collect();
    assert_eq!(mediawiki::text::batches(&items, 100, "|"), expected);
    assert_eq!(expected.len(), 3);
}
