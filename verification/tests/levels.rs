use cheese_locator::levels::{level, spells_word, LEVEL_COUNT};

fn letters(text: &str) -> Vec<char> {
    text.chars().collect()
}

#[test]
fn there_are_three_levels() {
    assert_eq!(LEVEL_COUNT, 3);
}

#[test]
fn the_table_is_rat_tui_cheese() {
    let first = level(0).unwrap();
    assert_eq!(first.word, "rat");
    assert_eq!(first.base_steps, 5);
    let second = level(1).unwrap();
    assert_eq!(second.word, "tui");
    assert_eq!(second.base_steps, 10);
    let third = level(2).unwrap();
    assert_eq!(third.word, "cheese");
    assert_eq!(third.base_steps, 15);
}

#[test]
fn there_is_no_level_past_the_table() {
    assert!(level(3).is_none());
    assert!(level(4).is_none());
    assert!(level(usize::MAX).is_none());
}

#[test]
fn capital_letters_spell_a_lower_case_word() {
    assert!(spells_word(&letters("RAT"), "rat"));
    assert!(spells_word(&letters("TUI"), "tui"));
    assert!(spells_word(&letters("CHEESE"), "cheese"));
}

#[test]
fn case_does_not_matter() {
    assert!(spells_word(&letters("rat"), "rat"));
    assert!(spells_word(&letters("rAt"), "rat"));
    assert!(spells_word(&letters("rat"), "RAT"));
    assert!(spells_word(&letters("Z"), "z"));
    assert!(spells_word(&letters("a"), "A"));
}

#[test]
fn wrong_letters_do_not_spell() {
    assert!(!spells_word(&letters("RAM"), "rat"));
    assert!(!spells_word(&letters("CAT"), "rat"));
    assert!(!spells_word(&letters("R?T"), "rat"));
    assert!(!spells_word(&letters("TAR"), "rat"));
}

#[test]
fn a_different_length_does_not_spell() {
    assert!(!spells_word(&letters("RA"), "rat"));
    assert!(!spells_word(&letters("RATS"), "rat"));
    assert!(!spells_word(&letters("CHEES"), "cheese"));
}

#[test]
fn nothing_spells_nothing() {
    assert!(!spells_word(&letters(""), "rat"));
    assert!(!spells_word(&letters(""), ""));
    assert!(!spells_word(&letters("R"), ""));
}

#[test]
fn only_ascii_capitals_are_folded() {
    // '@' and '[' sit right beside 'A' and 'Z'; '`' and '{' beside 'a' and 'z'.
    assert!(!spells_word(&letters("@"), "`"));
    assert!(!spells_word(&letters("["), "{"));
    assert!(spells_word(&letters("?"), "?"));
    assert!(!spells_word(&letters("\u{c9}"), "\u{e9}"));
}
