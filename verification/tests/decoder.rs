use cheese_locator::decoder::{
    KeyEvent, MorseDecoder, DASH_TONE_MS, DOT_TONE_MS, LETTER_GAP_MS, WORD_GAP_MS,
};

/// Keys one mark: the button goes down at `at` and comes up `held` later.
fn key(decoder: &mut MorseDecoder, at: u64, held: u64) -> KeyEvent {
    assert_eq!(decoder.tick(at, true), KeyEvent::Pressed);
    decoder.tick(at + held, false)
}

/// Keys a whole code, one mark every 300 ms from `at` on, and returns the
/// time of the last release.
fn key_code(decoder: &mut MorseDecoder, at: u64, code: &str) -> u64 {
    let mut now = at;
    let mut released = at;
    for mark in code.chars() {
        let held = if mark == '.' { 80 } else { 220 };
        key(decoder, now, held);
        released = now + held;
        now += 300;
    }
    released
}

fn text(letters: &[char]) -> String {
    letters.iter().collect()
}

#[test]
fn the_decoder_constants_are_the_documented_ones() {
    assert_eq!(LETTER_GAP_MS, 500);
    assert_eq!(WORD_GAP_MS, 1_200);
    assert_eq!(DOT_TONE_MS, 60);
    assert_eq!(DASH_TONE_MS, 180);
}

#[test]
fn events_are_answered_by_their_tones() {
    assert_eq!(KeyEvent::Dot.tone(), Some(60));
    assert_eq!(KeyEvent::Dash.tone(), Some(180));
    assert_eq!(KeyEvent::Pressed.tone(), None);
    assert_eq!(KeyEvent::Idle.tone(), None);
}

#[test]
fn a_new_decoder_is_empty() {
    let decoder = MorseDecoder::new();
    assert!(decoder.symbol().is_empty());
    assert!(decoder.output().is_empty());
    assert!(!decoder.button_down());
    assert!(!decoder.clear_pending());
}

#[test]
fn a_press_alone_keys_nothing() {
    let mut decoder = MorseDecoder::new();
    assert_eq!(decoder.tick(1_000, true), KeyEvent::Pressed);
    assert!(decoder.button_down());
    assert_eq!(decoder.tick(1_050, true), KeyEvent::Idle);
    assert_eq!(decoder.tick(9_000, true), KeyEvent::Idle);
    assert!(decoder.symbol().is_empty());
    assert!(decoder.output().is_empty());
}

#[test]
fn a_short_press_keys_a_dot() {
    let mut decoder = MorseDecoder::new();
    assert_eq!(key(&mut decoder, 1_000, 199), KeyEvent::Dot);
    assert_eq!(decoder.symbol(), ['.']);
    assert!(!decoder.button_down());
}

#[test]
fn a_press_of_exactly_the_boundary_keys_a_dash() {
    let mut decoder = MorseDecoder::new();
    assert_eq!(key(&mut decoder, 1_000, 200), KeyEvent::Dash);
    assert_eq!(decoder.symbol(), ['-']);
}

#[test]
fn a_long_press_keys_a_dash() {
    let mut decoder = MorseDecoder::new();
    assert_eq!(key(&mut decoder, 1_000, 750), KeyEvent::Dash);
    assert_eq!(decoder.symbol(), ['-']);
}

#[test]
fn a_release_on_a_clock_that_ran_backwards_keys_a_dot() {
    let mut decoder = MorseDecoder::new();
    decoder.tick(5_000, true);
    assert_eq!(decoder.tick(10, false), KeyEvent::Dot);
    assert_eq!(decoder.symbol(), ['.']);
}

#[test]
fn marks_pile_up_until_the_letter_gap() {
    let mut decoder = MorseDecoder::new();
    let released = key_code(&mut decoder, 1_000, ".-.");
    assert_eq!(decoder.symbol(), ['.', '-', '.']);
    assert_eq!(decoder.tick(released + 499, false), KeyEvent::Idle);
    assert_eq!(decoder.symbol(), ['.', '-', '.']);
    assert!(decoder.output().is_empty());
}

#[test]
fn the_letter_gap_closes_the_symbol_into_a_letter() {
    let mut decoder = MorseDecoder::new();
    let released = key_code(&mut decoder, 1_000, ".-.");
    assert_eq!(decoder.tick(released + 500, false), KeyEvent::Idle);
    assert!(decoder.symbol().is_empty());
    assert_eq!(decoder.output(), ['R']);
}

#[test]
fn letters_are_appended_in_order() {
    let mut decoder = MorseDecoder::new();
    let mut released = key_code(&mut decoder, 1_000, ".-.");
    decoder.tick(released + 500, false);
    released = key_code(&mut decoder, released + 600, ".-");
    decoder.tick(released + 500, false);
    released = key_code(&mut decoder, released + 600, "-");
    decoder.tick(released + 500, false);
    assert_eq!(text(decoder.output()), "RAT");
    assert!(!decoder.clear_pending());
}

#[test]
fn an_unlisted_symbol_becomes_the_placeholder() {
    let mut decoder = MorseDecoder::new();
    let released = key_code(&mut decoder, 1_000, "......");
    decoder.tick(released + 500, false);
    assert_eq!(decoder.output(), ['?']);
    assert!(decoder.symbol().is_empty());
}

#[test]
fn a_held_button_stops_the_gaps() {
    let mut decoder = MorseDecoder::new();
    let released = key_code(&mut decoder, 1_000, ".");
    decoder.tick(released + 100, true);
    assert_eq!(decoder.tick(released + 5_000, true), KeyEvent::Idle);
    assert_eq!(decoder.symbol(), ['.']);
    assert!(decoder.output().is_empty());
}

#[test]
fn a_word_gap_without_output_arms_nothing() {
    let mut decoder = MorseDecoder::new();
    decoder.tick(5_000, false);
    assert!(!decoder.clear_pending());
}

#[test]
fn a_word_gap_after_a_letter_arms_the_flag() {
    let mut decoder = MorseDecoder::new();
    let released = key_code(&mut decoder, 1_000, ".-");
    decoder.tick(released + 500, false);
    decoder.tick(released + 1_199, false);
    assert!(!decoder.clear_pending());
    decoder.tick(released + 1_200, false);
    assert!(decoder.clear_pending());
    assert_eq!(decoder.output(), ['A']);
}

#[test]
fn the_next_letter_after_a_word_gap_replaces_the_output() {
    let mut decoder = MorseDecoder::new();
    let mut released = key_code(&mut decoder, 1_000, ".-");
    decoder.tick(released + 500, false);
    released = key_code(&mut decoder, released + 600, "-...");
    decoder.tick(released + 500, false);
    assert_eq!(text(decoder.output()), "AB");
    decoder.tick(released + 1_200, false);
    assert!(decoder.clear_pending());
    assert_eq!(text(decoder.output()), "AB");
    // The flag waits while the next symbol is keyed.
    released = key_code(&mut decoder, released + 2_000, "-.-.");
    assert!(decoder.clear_pending());
    assert_eq!(text(decoder.output()), "AB");
    decoder.tick(released + 500, false);
    assert_eq!(text(decoder.output()), "C");
    assert!(!decoder.clear_pending());
}

#[test]
fn the_flag_fires_on_the_next_letter_only() {
    let mut decoder = MorseDecoder::new();
    let mut released = key_code(&mut decoder, 1_000, ".-");
    decoder.tick(released + 500, false);
    decoder.tick(released + 1_200, false);
    released = key_code(&mut decoder, released + 2_000, "-...");
    decoder.tick(released + 500, false);
    assert_eq!(text(decoder.output()), "B");
    released = key_code(&mut decoder, released + 600, "-.-.");
    decoder.tick(released + 500, false);
    assert_eq!(text(decoder.output()), "BC");
}

#[test]
fn a_letter_that_completes_after_the_word_gap_arms_the_flag_at_once() {
    let mut decoder = MorseDecoder::new();
    let released = key_code(&mut decoder, 1_000, ".-");
    decoder.tick(released + 1_500, false);
    assert_eq!(decoder.output(), ['A']);
    assert!(decoder.clear_pending());
}

#[test]
fn drop_button_forgets_a_press_in_progress() {
    let mut decoder = MorseDecoder::new();
    decoder.tick(1_000, true);
    decoder.drop_button();
    assert!(!decoder.button_down());
    assert_eq!(decoder.tick(1_100, false), KeyEvent::Idle);
    assert!(decoder.symbol().is_empty());
}

#[test]
fn interrupt_drops_the_symbol_and_keeps_the_output() {
    let mut decoder = MorseDecoder::new();
    let released = key_code(&mut decoder, 1_000, ".-");
    decoder.tick(released + 500, false);
    key_code(&mut decoder, released + 600, "-.");
    decoder.tick(released + 1_300, true);
    decoder.interrupt();
    assert!(decoder.symbol().is_empty());
    assert!(!decoder.button_down());
    assert_eq!(decoder.output(), ['A']);
}

#[test]
fn clear_makes_ready_for_a_new_word() {
    let mut decoder = MorseDecoder::new();
    let released = key_code(&mut decoder, 1_000, ".-");
    decoder.tick(released + 1_500, false);
    key_code(&mut decoder, released + 2_000, "-");
    decoder.clear();
    assert!(decoder.symbol().is_empty());
    assert!(decoder.output().is_empty());
    assert!(!decoder.clear_pending());
}
