use ankiconnect_rs::text::{
    chars_of, contains_char, find, has_prefix, join_strings, lower_char, lowercase_chars,
    matches_at, push_decimal, push_signed_decimal, rfind, string_of,
};

fn chars(s: &str) -> Vec<char> {
    s.chars().collect()
}

#[test]
fn characters_and_back() {
    assert_eq!(chars_of("aé漢"), vec!['a', 'é', '漢']);
    assert!(chars_of("").is_empty());
    let v = chars("hello");
    assert_eq!(string_of(&v, 0, 5), "hello");
    assert_eq!(string_of(&v, 1, 3), "el");
    assert_eq!(string_of(&v, 2, 2), "");
}

#[test]
fn decimal_numerals() {
    for (n, text) in [
        (0u64, "0"),
        (7, "7"),
        (10, "10"),
        (99, "99"),
        (100, "100"),
        (8765, "8765"),
        (u64::MAX, "18446744073709551615"),
    ] {
        let mut s = String::from("n=");
        push_decimal(&mut s, n);
        assert_eq!(s, format!("n={}", text));
    }
    for n in [0i32, 1, -1, 10, -10, 12345, -12345, i32::MAX, i32::MIN] {
        let mut s = String::new();
        push_signed_decimal(&mut s, n);
        assert_eq!(s, format!("{}", n));
    }
}

#[test]
fn joining() {
    let none: Vec<String> = vec![];
    assert_eq!(join_strings(&none, " "), "");
    assert_eq!(join_strings(&vec!["a".to_string()], " "), "a");
    assert_eq!(
        join_strings(&vec!["a".to_string(), "".to_string(), "b".to_string()], " "),
        "a  b"
    );
    assert_eq!(
        join_strings(&vec!["x".to_string(), "y".to_string()], ", "),
        "x, y"
    );
}

#[test]
fn prefixes() {
    let v = chars("deck was not found: X");
    assert!(has_prefix(&v, "deck was not found: "));
    assert!(has_prefix(&v, ""));
    assert!(has_prefix(&v, "deck was not found: X"));
    assert!(!has_prefix(&v, "deck was not found: XY"));
    assert!(!has_prefix(&v, "Deck"));
    assert!(!has_prefix(&chars(""), "a"));
}

#[test]
fn characters_in_texts() {
    assert!(contains_char("My Deck", ' '));
    assert!(!contains_char("MyDeck", ' '));
    assert!(!contains_char("", ' '));
    assert!(contains_char("漢 字", ' '));
}

#[test]
fn lower_case() {
    assert_eq!(lower_char('A'), 'a');
    assert_eq!(lower_char('Z'), 'z');
    assert_eq!(lower_char('a'), 'a');
    assert_eq!(lower_char('@'), '@');
    assert_eq!(lower_char('['), '[');
    assert_eq!(lower_char('É'), 'É');
    assert_eq!(lowercase_chars("FrOnT É 1"), chars("front É 1"));
}

#[test]
fn occurrences() {
    let s = chars("a::b::c");
    let sep = chars("::");
    assert_eq!(find(&s, &sep), Some(1));
    assert_eq!(rfind(&s, &sep), Some(4));
    assert!(matches_at(&s, &sep, 1));
    assert!(!matches_at(&s, &sep, 2));
    assert!(!matches_at(&s, &sep, 6));
    assert!(!matches_at(&s, &sep, 100));
    assert_eq!(find(&s, &chars("x")), None);
    assert_eq!(rfind(&s, &chars("x")), None);
    assert_eq!(find(&s, &chars("")), Some(0));
    assert_eq!(rfind(&s, &chars("")), Some(7));
    assert_eq!(find(&chars(""), &sep), None);
    assert_eq!(find(&chars(":::"), &sep), Some(0));
    assert_eq!(rfind(&chars(":::"), &sep), Some(1));
    assert_eq!(find(&s, &chars("a::b::c")), Some(0));
    assert_eq!(find(&s, &chars("a::b::cd")), None);
}
