use simnation::text::{chars_of, decimal_text, same_text, text_contains};

#[test]
fn chars_of_keeps_order() {
    assert_eq!(chars_of("aßc"), vec!['a', 'ß', 'c']);
    assert_eq!(chars_of(""), Vec::<char>::new());
}

#[test]
fn same_text_compares_characters() {
    assert!(same_text("main", "main"));
    assert!(!same_text("main", "mains"));
    assert!(!same_text("main", "Main"));
    assert!(same_text("", ""));
}

#[test]
fn text_contains_finds_substrings() {
    assert!(text_contains("eurotrucks2.exe", "eurotrucks2"));
    assert!(text_contains("xamtrucks", "amtrucks"));
    assert!(!text_contains("amtruck", "amtrucks"));
    assert!(text_contains("anything", ""));
    assert!(!text_contains("", "a"));
    assert!(text_contains("abab", "bab"));
}

#[test]
fn decimal_text_renders_numbers() {
    assert_eq!(decimal_text(0), "0");
    assert_eq!(decimal_text(7), "7");
    assert_eq!(decimal_text(10), "10");
    assert_eq!(decimal_text(1234), "1234");
    assert_eq!(decimal_text(u32::MAX), "4294967295");
}

#[test]
fn decimal_text_reads_back() {
    for n in [0u32, 1, 9, 10, 99, 100, 65535, 1_000_000, u32::MAX] {
        let t = decimal_text(n);
        assert!(t.chars().all(|c| c.is_ascii_digit()));
        assert_eq!(t.parse::<u32>().unwrap(), n);
    }
}
