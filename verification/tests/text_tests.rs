use dm_assistant::utils::text::{
    chars_of, concat2, concat3, contains, eq_ignore_ascii_case, fixed_width_text, i64_to_string,
    is_blank_text,
    same_text, trim, u64_to_string,
};

#[test]
fn decimal_text_of_unsigned_numbers() {
    assert_eq!(u64_to_string(0), "0");
    assert_eq!(u64_to_string(7), "7");
    assert_eq!(u64_to_string(10), "10");
    assert_eq!(u64_to_string(4294967295), "4294967295");
    assert_eq!(u64_to_string(u64::MAX), "18446744073709551615");
}

#[test]
fn decimal_text_of_signed_numbers() {
    assert_eq!(i64_to_string(0), "0");
    assert_eq!(i64_to_string(-1), "-1");
    assert_eq!(i64_to_string(120), "120");
    assert_eq!(i64_to_string(i64::MAX), "9223372036854775807");
    assert_eq!(i64_to_string(i64::MIN), "-9223372036854775808");
}

#[test]
fn trim_takes_whitespace_off_both_ends_only() {
    assert_eq!(trim(""), "");
    assert_eq!(trim("   "), "");
    assert_eq!(trim("a"), "a");
    assert_eq!(trim("  Aria  Stormwind \t\n"), "Aria  Stormwind");
    assert_eq!(trim("\u{a0}x\u{3000}"), "x");
    assert_eq!(trim(" può "), "può");
    for s in ["", " ", "a b", "  a", "b  ", "\t\tmid dle\n"] {
        assert_eq!(trim(s), s.trim());
        assert_eq!(trim(&trim(s)), trim(s));
    }
}

#[test]
fn blank_means_nothing_but_whitespace() {
    assert!(is_blank_text(""));
    assert!(is_blank_text(" \t\r\n"));
    assert!(!is_blank_text(" . "));
    for s in ["", " ", "a", " a ", "\u{2003}"] {
        assert_eq!(is_blank_text(s), s.trim().is_empty());
    }
}

#[test]
fn contains_finds_a_run_of_characters() {
    assert!(contains("Character with ID '1' not found", "Character"));
    assert!(contains("abc", ""));
    assert!(contains("", ""));
    assert!(!contains("", "a"));
    assert!(!contains("Charakter", "Character"));
    assert!(contains("xxNPC", "NPC"));
    assert!(!contains("NP", "NPC"));
    assert!(contains("aab", "ab"));
    for (h, n) in [("hello", "ll"), ("hello", "lo "), ("può darsi", "ò d"), ("aaa", "aaaa")] {
        assert_eq!(contains(h, n), h.contains(n));
    }
}

#[test]
fn comparison_without_regard_to_ascii_case() {
    assert!(eq_ignore_ascii_case("Lost Mines", "lost mines"));
    assert!(eq_ignore_ascii_case("", ""));
    assert!(!eq_ignore_ascii_case("Lost Mines", "Lost Mine"));
    assert!(!eq_ignore_ascii_case("à", "À"));
    assert!(!eq_ignore_ascii_case("[", "{"));
    assert!(!eq_ignore_ascii_case("@", "`"));
    for (a, b) in [("AbC", "aBc"), ("Z", "z"), ("a1", "A2")] {
        assert_eq!(eq_ignore_ascii_case(a, b), a.eq_ignore_ascii_case(b));
    }
}

#[test]
fn texts_are_the_same_when_their_characters_are() {
    assert!(same_text("dark", "dark"));
    assert!(!same_text("dark", "Dark"));
    assert!(!same_text("dark", "dar"));
    assert!(same_text("", ""));
}

#[test]
fn characters_and_joins() {
    assert_eq!(chars_of("può"), vec!['p', 'u', 'ò']);
    assert_eq!(concat2("a", "b"), "ab");
    assert_eq!(concat3("a", "", "c"), "ac");
}

#[test]
fn the_whitespace_of_ascii_is_the_space_and_tab_to_carriage_return() {
    for code in 0u32..=0x7f {
        let c = char::from_u32(code).unwrap();
        let expected = code == 0x20 || (0x09..=0x0d).contains(&code);
        assert_eq!(c.is_whitespace(), expected);
        let text = c.to_string();
        assert_eq!(is_blank_text(&text), expected);
        assert_eq!(trim(&text), if expected { String::new() } else { text.clone() });
    }
    assert!(is_blank_text("\u{a0}"));
    assert!(!is_blank_text("越"));
    assert!(is_blank_text("  "));
    assert!(!is_blank_text("Lost Mines"));
}

#[test]
fn numbers_at_a_fixed_width() {
    assert_eq!(fixed_width_text(7, 2), "07");
    assert_eq!(fixed_width_text(2024, 4), "2024");
    assert_eq!(fixed_width_text(0, 4), "0000");
    assert_eq!(fixed_width_text(12345, 2), "45");
    assert_eq!(fixed_width_text(9, 0), "");
}
