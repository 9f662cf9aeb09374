use mediator::text::{
    appended, decimal, join, split_on, strip_leading, strip_trailing, trim,
};

#[test]
fn splitting_keeps_empty_pieces() {
    assert_eq!(split_on("a,b,,c", ','), vec!["a", "b", "", "c"]);
    assert_eq!(split_on("", ','), vec![""]);
    assert_eq!(split_on(",", ','), vec!["", ""]);
}

#[test]
fn trimming_removes_white_space_at_both_ends() {
    assert_eq!(trim(" \t a b \u{3000}\n"), "a b");
    assert_eq!(trim("   "), "");
    assert_eq!(trim(""), "");
}

#[test]
fn numbers_in_decimal() {
    assert_eq!(decimal(0), "0");
    assert_eq!(decimal(10), "10");
    assert_eq!(decimal(u64::MAX), "18446744073709551615");
}

#[test]
fn joining_puts_a_separator_between() {
    let parts: Vec<String> = vec!["a".to_string(), "".to_string(), "b".to_string()];
    assert_eq!(join(&parts, "\n"), "a\n\nb");
    assert_eq!(join(&vec![], "\n"), "");
    assert_eq!(appended("a", "b"), "ab");
}

#[test]
fn stripping_takes_every_repetition() {
    assert_eq!(strip_trailing("/a//", '/'), "/a");
    assert_eq!(strip_trailing("///", '/'), "");
    assert_eq!(strip_leading("http://http://x", "http://"), "x");
    assert_eq!(strip_leading("https://x", "http://"), "https://x");
    assert_eq!(strip_leading("x", ""), "x");
}
