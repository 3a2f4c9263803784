use cheese_locator::game::{Hint, Stage};
use cheese_locator::mode::Mode;
use cheese_locator::motion::Accel;
use cheese_locator::App;

const PEAK: Accel = Accel { x: 2_000, y: 0, z: 0 };
const REST: Accel = Accel { x: 0, y: 0, z: 1_000 };

/// Presses and releases the menu button once; two ticks from `at` on.
fn press_menu(app: &mut App, at: u64) {
    app.tick(at, false, true, None);
    app.tick(at + 10, false, false, None);
}

/// Keys one letter from `at` on and waits out the letter gap; returns the
/// time of the tick that completed the letter.
fn key_letter(app: &mut App, at: u64, code: &str) -> u64 {
    let mut now = at;
    let mut released = at;
    for mark in code.chars() {
        let held = if mark == '.' { 80 } else { 220 };
        app.tick(now, true, false, None);
        app.tick(now + held, false, false, None);
        released = now + held;
        now += 300;
    }
    app.tick(released + 500, false, false, None);
    released + 500
}

/// Keys a word letter by letter and returns the time of the last tick.
fn key_word(app: &mut App, at: u64, codes: &[&str]) -> u64 {
    let mut now = at;
    for code in codes {
        now = key_letter(app, now + 100, code);
    }
    now
}

/// Feeds one qualifying peak per tick until the walk is over; returns the
/// time of the tick that ended it and the number of peaks fed.
fn walk(app: &mut App, at: u64) -> (u64, u32) {
    let mut now = at;
    let mut fed = 0;
    while app.stage() == Stage::Walk {
        now += 301;
        app.tick(now, false, false, Some(PEAK));
        fed += 1;
        assert!(fed < 1_000);
    }
    (now, fed)
}

/// Plays one level from the first tick of its Intro at `at` to the tick
/// that ends its Success stage; returns the time of that tick.
fn play_level(app: &mut App, at: u64, codes: &[&str]) -> u64 {
    app.tick(at, false, false, None);
    assert_eq!(app.stage(), Stage::Intro);
    app.tick(at + 3_000, false, false, None);
    assert_eq!(app.stage(), Stage::Walk);
    let (stopped, _) = walk(app, at + 3_000);
    assert_eq!(app.stage(), Stage::Stop);
    app.tick(stopped + 1_501, false, false, None);
    assert_eq!(app.stage(), Stage::Morse);
    let won = key_word(app, stopped + 1_600, codes);
    assert_eq!(app.stage(), Stage::Success);
    app.tick(won + 2_001, false, false, None);
    won + 2_001
}

fn text(letters: &[char]) -> String {
    letters.iter().collect()
}

const RAT: [&str; 3] = [".-.", ".-", "-"];
const TUI: [&str; 3] = ["-", "..-", ".."];
const CHEESE: [&str; 6] = ["-.-.", "....", ".", ".", "...", "."];

#[test]
fn a_new_engine_is_in_game_mode_at_rest() {
    let app = App::new();
    assert_eq!(app.mode(), Mode::Game);
    assert_eq!(app.stage(), Stage::Intro);
    assert_eq!(app.level(), 0);
    assert_eq!(app.target_word(), Some("rat"));
    assert_eq!(app.hint(), Hint::Straight);
    assert_eq!(app.steps(), 0);
    assert_eq!(app.steps_remaining(), 0);
    assert_eq!(app.accel(), Accel { x: 0, y: 0, z: 0 });
    assert_eq!(app.intro_elapsed_ms(), 0);
    assert!(!app.buzzer_on());
    assert!(app.symbol().is_empty());
    assert!(app.output().is_empty());
}

#[test]
fn the_menu_button_cycles_the_three_modes() {
    let mut app = App::new();
    press_menu(&mut app, 100);
    assert_eq!(app.mode(), Mode::Telemetry);
    press_menu(&mut app, 200);
    assert_eq!(app.mode(), Mode::FreeformMorse);
    press_menu(&mut app, 300);
    assert_eq!(app.mode(), Mode::Game);
    press_menu(&mut app, 400);
    assert_eq!(app.mode(), Mode::Telemetry);
}

#[test]
fn toggled_is_the_cycle() {
    assert_eq!(Mode::Game.toggled(), Mode::Telemetry);
    assert_eq!(Mode::Telemetry.toggled(), Mode::FreeformMorse);
    assert_eq!(Mode::FreeformMorse.toggled(), Mode::Game);
}

#[test]
fn a_held_menu_button_switches_once() {
    let mut app = App::new();
    for i in 0..20 {
        app.tick(100 + i * 50, false, true, None);
        assert_eq!(app.mode(), Mode::Telemetry);
    }
    app.tick(2_000, false, false, None);
    assert_eq!(app.mode(), Mode::Telemetry);
    app.tick(2_050, false, true, None);
    assert_eq!(app.mode(), Mode::FreeformMorse);
}

#[test]
fn a_mode_switch_ends_the_tone() {
    let mut app = App::with_seed(4);
    app.tick(1_000, false, false, None);
    assert!(app.buzzer_on());
    app.tick(1_010, false, true, None);
    assert_eq!(app.mode(), Mode::Telemetry);
    assert!(!app.buzzer_on());
}

#[test]
fn telemetry_keeps_the_buzzer_off_and_the_game_frozen() {
    let mut app = App::with_seed(4);
    app.tick(1_000, false, false, None);
    press_menu(&mut app, 1_100);
    for i in 0..100u64 {
        app.tick(2_000 + i * 100, i % 2 == 0, false, Some(REST));
        assert!(!app.buzzer_on());
        assert_eq!(app.stage(), Stage::Intro);
    }
    assert!(app.symbol().is_empty());
    assert!(app.output().is_empty());
    assert_eq!(app.level(), 0);
}

#[test]
fn telemetry_counts_steps_and_shows_the_sample() {
    let mut app = App::new();
    press_menu(&mut app, 100);
    app.tick(1_000, false, false, Some(PEAK));
    assert_eq!(app.steps(), 1);
    assert_eq!(app.accel(), PEAK);
    app.tick(1_200, false, false, Some(PEAK));
    assert_eq!(app.steps(), 1);
    app.tick(1_301, false, false, Some(PEAK));
    assert_eq!(app.steps(), 2);
    app.tick(2_000, false, false, Some(REST));
    assert_eq!(app.steps(), 2);
    assert_eq!(app.accel(), REST);
}

#[test]
fn a_tick_without_a_sample_changes_no_step_state() {
    let mut app = App::new();
    press_menu(&mut app, 100);
    app.tick(1_000, false, false, Some(PEAK));
    app.tick(5_000, false, false, None);
    assert_eq!(app.steps(), 1);
    assert_eq!(app.accel(), PEAK);
}

#[test]
fn steps_are_not_counted_in_the_game_outside_the_walk() {
    let mut app = App::with_seed(4);
    app.tick(1_000, false, false, Some(PEAK));
    app.tick(2_000, false, false, Some(PEAK));
    assert_eq!(app.stage(), Stage::Intro);
    assert_eq!(app.steps(), 0);
    assert_eq!(app.accel(), PEAK);
}

#[test]
fn steps_are_counted_during_the_walk_in_every_mode() {
    let mut app = App::with_seed(4);
    app.tick(1_000, false, false, None);
    app.tick(4_000, false, false, None);
    assert_eq!(app.stage(), Stage::Walk);
    app.tick(4_500, false, false, Some(PEAK));
    assert_eq!(app.steps(), 1);
    press_menu(&mut app, 4_600);
    press_menu(&mut app, 4_700);
    assert_eq!(app.mode(), Mode::FreeformMorse);
    app.tick(5_000, false, false, Some(PEAK));
    assert_eq!(app.steps(), 2);
    assert_eq!(app.stage(), Stage::Walk);
}

#[test]
fn free_practice_decodes_without_a_target() {
    let mut app = App::new();
    press_menu(&mut app, 100);
    press_menu(&mut app, 200);
    assert_eq!(app.mode(), Mode::FreeformMorse);
    let now = key_word(&mut app, 1_000, &RAT);
    assert_eq!(text(app.output()), "RAT");
    assert_eq!(app.stage(), Stage::Intro);
    assert_eq!(app.level(), 0);
    let now = key_word(&mut app, now, &["--.."]);
    assert_eq!(text(app.output()), "RATZ");
    let _ = now;
}

#[test]
fn free_practice_answers_marks_with_tones() {
    let mut app = App::new();
    press_menu(&mut app, 100);
    press_menu(&mut app, 200);
    app.tick(1_000, true, false, None);
    assert!(!app.buzzer_on());
    app.tick(1_100, false, false, None);
    assert!(app.buzzer_on());
    assert_eq!(app.symbol(), ['.']);
    app.tick(1_159, false, false, None);
    assert!(app.buzzer_on());
    app.tick(1_160, false, false, None);
    assert!(!app.buzzer_on());
    app.tick(1_200, true, false, None);
    app.tick(1_400, false, false, None);
    assert!(app.buzzer_on());
    assert_eq!(app.symbol(), ['.', '-']);
    app.tick(1_579, false, false, None);
    assert!(app.buzzer_on());
    app.tick(1_580, false, false, None);
    assert!(!app.buzzer_on());
}

#[test]
fn a_mode_switch_drops_the_symbol_in_progress_and_keeps_the_output() {
    let mut app = App::new();
    press_menu(&mut app, 100);
    press_menu(&mut app, 200);
    let now = key_word(&mut app, 1_000, &[".-"]);
    app.tick(now + 100, true, false, None);
    app.tick(now + 200, false, false, None);
    assert_eq!(app.symbol(), ['.']);
    press_menu(&mut app, now + 250);
    press_menu(&mut app, now + 300);
    press_menu(&mut app, now + 350);
    assert_eq!(app.mode(), Mode::FreeformMorse);
    assert!(app.symbol().is_empty());
    assert_eq!(text(app.output()), "A");
}

#[test]
fn practice_and_game_decode_apart() {
    let mut app = App::with_seed(4);
    press_menu(&mut app, 100);
    press_menu(&mut app, 200);
    key_word(&mut app, 1_000, &RAT);
    assert_eq!(text(app.output()), "RAT");
    press_menu(&mut app, 10_000);
    assert_eq!(app.mode(), Mode::Game);
    assert!(app.output().is_empty());
    assert_eq!(app.stage(), Stage::Intro);
}

#[test]
fn a_bonus_draw_of_three_on_level_zero_sets_the_target() {
    // Base steps 5, bonus 5 + 3.
    let mut app = App::with_seed(4);
    app.tick(1_000, false, false, None);
    app.tick(4_000, false, false, None);
    assert_eq!(app.stage(), Stage::Walk);
    assert_eq!(app.target_word(), Some("rat"));
    assert_eq!(app.steps_remaining(), 13);
}

#[test]
fn the_walk_ends_on_the_tick_of_the_last_step_and_the_stop_holds() {
    let mut app = App::with_seed(4);
    app.tick(1_000, false, false, None);
    app.tick(4_000, false, false, None);
    let mut now = 4_000;
    for step in 1..=12u32 {
        now += 301;
        app.tick(now, false, false, Some(PEAK));
        assert_eq!(app.stage(), Stage::Walk);
        assert_eq!(app.steps(), step);
        assert_eq!(app.steps_remaining(), 13 - step);
    }
    now += 301;
    app.tick(now, false, false, Some(PEAK));
    assert_eq!(app.steps(), 13);
    assert_eq!(app.stage(), Stage::Stop);
    assert_eq!(app.steps_remaining(), 0);
    app.tick(now + 1_500, false, false, Some(PEAK));
    assert_eq!(app.stage(), Stage::Stop);
    assert_eq!(app.steps(), 13);
    app.tick(now + 1_501, false, false, None);
    assert_eq!(app.stage(), Stage::Morse);
}

#[test]
fn peaks_within_the_debounce_window_do_not_shorten_the_walk() {
    let mut app = App::with_seed(4);
    app.tick(1_000, false, false, None);
    app.tick(4_000, false, false, None);
    let mut now = 4_000;
    for _ in 0..30 {
        now += 100;
        app.tick(now, false, false, Some(PEAK));
    }
    // One peak in four is counted: the one at 4_100, then one every 400 ms.
    assert_eq!(app.steps(), 8);
    assert_eq!(app.steps_remaining(), 5);
    assert_eq!(app.stage(), Stage::Walk);
}

#[test]
fn spelling_rat_wins_level_zero_and_leads_to_tui() {
    let mut app = App::with_seed(4);
    app.tick(1_000, false, false, None);
    app.tick(4_000, false, false, None);
    let (stopped, fed) = walk(&mut app, 4_000);
    assert_eq!(fed, 13);
    app.tick(stopped + 1_501, false, false, None);
    assert_eq!(app.stage(), Stage::Morse);
    let won = key_word(&mut app, stopped + 1_600, &RAT);
    assert_eq!(text(app.output()), "RAT");
    assert_eq!(app.stage(), Stage::Success);
    app.tick(won + 2_000, false, false, None);
    assert_eq!(app.stage(), Stage::Success);
    app.tick(won + 2_001, false, false, None);
    assert_eq!(app.stage(), Stage::Intro);
    assert_eq!(app.level(), 1);
    assert_eq!(app.target_word(), Some("tui"));
}

#[test]
fn completing_all_levels_ends_in_complete_with_the_buzzer_on() {
    let mut app = App::with_seed(4);
    let mut now = play_level(&mut app, 1_000, &RAT);
    assert_eq!((app.stage(), app.level()), (Stage::Intro, 1));
    now = play_level(&mut app, now + 50, &TUI);
    assert_eq!((app.stage(), app.level()), (Stage::Intro, 2));
    assert_eq!(app.target_word(), Some("cheese"));
    now = play_level(&mut app, now + 50, &CHEESE);
    assert_eq!(app.stage(), Stage::Complete);
    assert_eq!(app.level(), 3);
    assert_eq!(app.target_word(), None);
    for i in 1..200u64 {
        app.tick(now + i * 1_000, i % 3 == 0, false, Some(PEAK));
        assert_eq!(app.stage(), Stage::Complete);
        assert!(app.buzzer_on());
    }
    app.tick(u64::MAX - 1, false, false, None);
    assert!(app.buzzer_on());
    app.tick(u64::MAX, false, false, None);
    assert!(app.buzzer_on());
    assert_eq!(app.stage(), Stage::Complete);
}

#[test]
fn only_a_mode_switch_ends_the_final_tone() {
    let mut app = App::with_seed(4);
    let mut now = play_level(&mut app, 1_000, &RAT);
    now = play_level(&mut app, now + 50, &TUI);
    now = play_level(&mut app, now + 50, &CHEESE);
    app.tick(now + 50, false, false, None);
    assert!(app.buzzer_on());
    app.tick(now + 100, false, true, None);
    assert_eq!(app.mode(), Mode::Telemetry);
    assert!(!app.buzzer_on());
    assert_eq!(app.stage(), Stage::Complete);
    app.tick(now + 150, false, false, None);
    assert!(!app.buzzer_on());
    press_menu(&mut app, now + 200);
    assert_eq!(app.mode(), Mode::FreeformMorse);
    app.tick(now + 300, false, false, None);
    assert!(!app.buzzer_on());
    // Back in the game the terminal stage arms the tone again.
    app.tick(now + 400, false, true, None);
    assert_eq!(app.mode(), Mode::Game);
    assert_eq!(app.stage(), Stage::Complete);
    assert!(app.buzzer_on());
}

#[test]
fn every_level_adds_its_bonus_to_its_base() {
    let mut app = App::with_seed(4);
    app.tick(1_000, false, false, None);
    app.tick(4_000, false, false, None);
    assert_eq!(app.steps_remaining(), 13);
    assert_eq!(app.hint(), Hint::Straight);
    let (stopped, _) = walk(&mut app, 4_000);
    app.tick(stopped + 1_501, false, false, None);
    let won = key_word(&mut app, stopped + 1_600, &RAT);
    app.tick(won + 2_001, false, false, None);
    let entry = won + 2_100;
    app.tick(entry, false, false, None);
    app.tick(entry + 3_000, false, false, None);
    assert_eq!(app.stage(), Stage::Walk);
    assert_eq!(app.steps_remaining(), 18);
    assert_eq!(app.hint(), Hint::Left);
    let (stopped, fed) = walk(&mut app, entry + 3_000);
    assert_eq!(fed, 18);
    app.tick(stopped + 1_501, false, false, None);
    let won = key_word(&mut app, stopped + 1_600, &TUI);
    app.tick(won + 2_001, false, false, None);
    let entry = won + 2_100;
    app.tick(entry, false, false, None);
    app.tick(entry + 3_000, false, false, None);
    assert_eq!(app.steps_remaining(), 25);
    assert_eq!(app.hint(), Hint::Right);
}

#[test]
fn progress_survives_a_round_through_the_modes() {
    let mut app = App::with_seed(4);
    app.tick(1_000, false, false, None);
    app.tick(4_000, false, false, None);
    let (stopped, _) = walk(&mut app, 4_000);
    app.tick(stopped + 1_501, false, false, None);
    let now = key_word(&mut app, stopped + 1_600, &[".-.", ".-"]);
    assert_eq!(text(app.output()), "RA");
    press_menu(&mut app, now + 100);
    press_menu(&mut app, now + 200);
    press_menu(&mut app, now + 300);
    assert_eq!(app.mode(), Mode::Game);
    assert_eq!(app.stage(), Stage::Morse);
    assert_eq!(app.level(), 0);
    assert_eq!(app.steps(), 13);
    assert_eq!(text(app.output()), "RA");
}

#[test]
fn an_unseeded_engine_draws_from_the_time_of_its_first_tick() {
    let mut app = App::new();
    app.tick(1_000, false, false, None);
    app.tick(4_000, false, false, None);
    assert_eq!(app.stage(), Stage::Walk);
    assert_eq!(app.steps_remaining(), 10);
    assert_eq!(app.hint(), Hint::Right);
    let mut other = App::new();
    other.tick(77, false, false, None);
    other.tick(3_077, false, false, None);
    assert_eq!(other.steps_remaining(), 13);
    assert_eq!(other.hint(), Hint::Straight);
}

#[test]
fn a_wrong_full_length_guess_leaves_the_engine_in_the_morse_stage() {
    let mut app = App::with_seed(4);
    app.tick(1_000, false, false, None);
    app.tick(4_000, false, false, None);
    let (stopped, _) = walk(&mut app, 4_000);
    app.tick(stopped + 1_501, false, false, None);
    let now = key_word(&mut app, stopped + 1_600, &[".-.", ".-", "..."]);
    assert_eq!(text(app.output()), "RAS");
    assert_eq!(app.stage(), Stage::Morse);
    for i in 1..10u64 {
        app.tick(now + i * 100, false, false, None);
        assert_eq!(app.stage(), Stage::Morse);
        assert_eq!(text(app.output()), "RAS");
    }
    assert!(!app.buzzer_on());
    assert_eq!(app.level(), 0);
}

#[test]
fn the_intro_time_is_reported_while_the_intro_runs() {
    let mut app = App::with_seed(4);
    app.tick(500, false, false, None);
    assert_eq!(app.intro_elapsed_ms(), 0);
    app.tick(1_700, false, false, None);
    assert_eq!(app.intro_elapsed_ms(), 1_200);
    app.tick(400, false, false, None);
    assert_eq!(app.intro_elapsed_ms(), 0);
}

#[test]
fn a_fresh_engine_counts_two_early_peaks_as_one_step() {
    let mut app = App::new();
    press_menu(&mut app, 10);
    assert_eq!(app.mode(), Mode::Telemetry);
    app.tick(100, false, false, Some(PEAK));
    assert_eq!(app.steps(), 1);
    app.tick(250, false, false, Some(PEAK));
    assert_eq!(app.steps(), 1);
    app.tick(401, false, false, Some(PEAK));
    assert_eq!(app.steps(), 2);
}
