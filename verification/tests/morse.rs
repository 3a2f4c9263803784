use cheese_locator::morse::{classify, decode_morse, DASH, DOT, DOT_DASH_MS, PLACEHOLDER};

fn marks(code: &str) -> Vec<char> {
    code.chars().collect()
}

#[test]
fn decodes_a() {
    assert_eq!(decode_morse(&marks(".-")), 'A');
}

#[test]
fn decodes_z() {
    assert_eq!(decode_morse(&marks("--..")), 'Z');
}

#[test]
fn decodes_every_letter_of_the_table() {
    let table = [
        (".-", 'A'),
        ("-...", 'B'),
        ("-.-.", 'C'),
        ("-..", 'D'),
        (".", 'E'),
        ("..-.", 'F'),
        ("--.", 'G'),
        ("....", 'H'),
        ("..", 'I'),
        (".---", 'J'),
        ("-.-", 'K'),
        (".-..", 'L'),
        ("--", 'M'),
        ("-.", 'N'),
        ("---", 'O'),
        (".--.", 'P'),
        ("--.-", 'Q'),
        (".-.", 'R'),
        ("...", 'S'),
        ("-", 'T'),
        ("..-", 'U'),
        ("...-", 'V'),
        (".--", 'W'),
        ("-..-", 'X'),
        ("-.--", 'Y'),
        ("--..", 'Z'),
    ];
    assert_eq!(table.len(), 26);
    for (code, letter) in table {
        assert_eq!(decode_morse(&marks(code)), letter);
    }
}

#[test]
fn unlisted_symbols_decode_to_the_placeholder() {
    assert_eq!(PLACEHOLDER, '?');
    assert_eq!(decode_morse(&marks("")), '?');
    assert_eq!(decode_morse(&marks("....-")), '?');
    assert_eq!(decode_morse(&marks(".-.-")), '?');
    assert_eq!(decode_morse(&marks("----")), '?');
    assert_eq!(decode_morse(&marks("..--")), '?');
    assert_eq!(decode_morse(&marks("---.")), '?');
    assert_eq!(decode_morse(&marks(".-.-.-")), '?');
}

#[test]
fn foreign_characters_never_match() {
    assert_eq!(decode_morse(&marks("x")), '?');
    assert_eq!(decode_morse(&marks(". -")), '?');
    assert_eq!(decode_morse(&marks("A")), '?');
    assert_eq!(decode_morse(&marks("._")), '?');
}

#[test]
fn a_prefix_of_a_code_is_another_symbol() {
    assert_eq!(decode_morse(&marks("-.-.")), 'C');
    assert_eq!(decode_morse(&marks("-.-")), 'K');
    assert_eq!(decode_morse(&marks("-.")), 'N');
    assert_eq!(decode_morse(&marks("-")), 'T');
}

#[test]
fn short_presses_are_dots() {
    assert_eq!(classify(0), DOT);
    assert_eq!(classify(1), '.');
    assert_eq!(classify(199), '.');
}

#[test]
fn the_boundary_is_a_dash() {
    assert_eq!(DOT_DASH_MS, 200);
    assert_eq!(classify(200), DASH);
    assert_eq!(classify(200), '-');
}

#[test]
fn long_presses_are_dashes() {
    assert_eq!(classify(201), '-');
    assert_eq!(classify(5_000), '-');
    assert_eq!(classify(u64::MAX), '-');
}

#[test]
fn classification_flips_exactly_at_the_boundary() {
    for held in 0..400u64 {
        assert_eq!(classify(held) == '.', held < 200);
        assert_eq!(classify(held) == '-', held >= 200);
    }
}
