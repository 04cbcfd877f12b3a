use supipi::text::{chars_of, decimal_string, find, has_substring, same_text};

#[test]
fn chars_of_keeps_every_character_in_order() {
    assert_eq!(chars_of("KB é"), vec!['K', 'B', ' ', 'é']);
    assert_eq!(chars_of(""), Vec::<char>::new());
}

#[test]
fn same_text_is_character_equality() {
    assert!(same_text("KB USB KB", "KB USB KB"));
    assert!(same_text("", ""));
    assert!(!same_text("KB USB KB", "KB USB KB "));
    assert!(!same_text("KB USB KB", "kb usb kb"));
    assert!(!same_text("KB USB KB", "KB USB KC"));
    assert!(!same_text("", "a"));
}

#[test]
fn has_substring_finds_the_needle_anywhere() {
    assert!(has_substring("KB USB KB Consumer Control", "KB USB KB"));
    assert!(has_substring("Generic KB USB KB", "KB USB KB"));
    assert!(has_substring("A KB USB KB B", "KB USB KB"));
    assert!(has_substring("KB USB KB", "KB USB KB"));
    assert!(has_substring("KB KB USB KB", "KB USB KB"));
}

#[test]
fn has_substring_rejects_what_is_not_there() {
    assert!(!has_substring("KB USB", "KB USB KB"));
    assert!(!has_substring("KB  USB KB", "KB USB KB"));
    assert!(!has_substring("kb usb kb", "KB USB KB"));
    assert!(!has_substring("", "KB USB KB"));
    assert!(!has_substring("KB USB K", "KB USB KB"));
}

#[test]
fn empty_needle_is_in_every_text() {
    assert!(has_substring("abc", ""));
    assert!(has_substring("", ""));
}

#[test]
fn has_substring_counts_characters_not_bytes() {
    assert!(has_substring("clé KB USB KB", "KB USB KB"));
    assert!(has_substring("日本語キーボード", "キー"));
    assert!(!has_substring("日本語", "キー"));
}

#[test]
fn find_gives_the_first_position() {
    let hay = chars_of("abcabc");
    assert_eq!(find(&hay, &chars_of("bc")), Some(1));
    assert_eq!(find(&hay, &chars_of("abc")), Some(0));
    assert_eq!(find(&hay, &chars_of("c")), Some(2));
    assert_eq!(find(&hay, &chars_of("")), Some(0));
    assert_eq!(find(&hay, &chars_of("cb")), None);
    assert_eq!(find(&hay, &chars_of("abcabca")), None);
    assert_eq!(find(&chars_of("éa"), &chars_of("a")), Some(1));
}

#[test]
fn decimal_string_writes_numbers_as_one_reads_them() {
    assert_eq!(decimal_string(0), "0");
    assert_eq!(decimal_string(7), "7");
    assert_eq!(decimal_string(10), "10");
    assert_eq!(decimal_string(31), "31");
    assert_eq!(decimal_string(109), "109");
    assert_eq!(decimal_string(1234567890), "1234567890");
    assert_eq!(decimal_string(usize::MAX), usize::MAX.to_string());
}
