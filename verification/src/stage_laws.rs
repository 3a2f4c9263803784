//! Laws of the game stage machine, stated over its model and proved.

use crate::audio::BuzzerState;
use crate::clock::{elapsed, expiry};
use crate::decoder::KeyEvent;
use crate::game::{
    bonus_for, played, Cue, GameState, Stage, BONUS_MIN, BONUS_SPAN, INTRO_BEEP_COUNT,
    INTRO_BEEP_GAP_MS, INTRO_BEEP_MS, INTRO_MS, STOP_HOLD_MS, SUCCESS_HOLD_MS,
};
use crate::levels::{
    ascii_lower, lemma_level_words_lower_case, level_base_steps, level_words, spells, target_word,
    LEVEL_COUNT,
};
use crate::rng::lcg_next;
use vstd::prelude::*;

verus! {

/// Every level index short of the terminal stage is inside the level table.
pub open spec fn level_in_table(game: GameState) -> bool {
    game.stage != Stage::Complete ==> game.level < LEVEL_COUNT
}

/// A bonus is one of the six from the smallest up.
pub proof fn lemma_bonus_range(draw: u32)
    ensures
        BONUS_MIN <= bonus_for(draw) < BONUS_MIN + BONUS_SPAN,
{
}

/// A tick moves the stage along the fixed order or leaves it: Intro to Walk,
/// Walk to Stop, Stop to Morse, Morse to Success, Success to the next Intro
/// or to Complete. An Intro whose level is past the table falls to Complete.
pub proof fn lemma_stage_order(
    game: GameState,
    now_ms: u64,
    pressed: bool,
    steps: u32,
    buzzer_on: bool,
)
    ensures
        ({
            let before = game.stage;
            let after = game.ticked(now_ms, pressed, steps, buzzer_on).stage;
            match before {
                Stage::Intro => after == Stage::Intro || after == Stage::Walk || (after
                    == Stage::Complete && game.level >= LEVEL_COUNT),
                Stage::Walk => after == Stage::Walk || after == Stage::Stop,
                Stage::Stop => after == Stage::Stop || after == Stage::Morse,
                Stage::Morse => after == Stage::Morse || after == Stage::Success,
                Stage::Success => after == Stage::Success || after == Stage::Intro || after
                    == Stage::Complete,
                Stage::Complete => after == Stage::Complete,
            }
        }),
{
}

/// The level index stays inside the table up to the terminal stage: this
/// holds at start-up and every tick keeps it.
pub proof fn lemma_level_stays_in_table(
    game: GameState,
    now_ms: u64,
    pressed: bool,
    steps: u32,
    buzzer_on: bool,
    seed: Option<u32>,
)
    ensures
        level_in_table(GameState::initial(seed)),
        level_in_table(game) ==> level_in_table(game.ticked(now_ms, pressed, steps, buzzer_on)),
{
}

/// The level index never goes down, and it goes up only when a Success
/// stage ends.
pub proof fn lemma_level_progress(
    game: GameState,
    now_ms: u64,
    pressed: bool,
    steps: u32,
    buzzer_on: bool,
)
    ensures
        game.ticked(now_ms, pressed, steps, buzzer_on).level >= game.level,
        game.ticked(now_ms, pressed, steps, buzzer_on).level != game.level ==> game.stage
            == Stage::Success && elapsed(now_ms, game.success_time_ms) > SUCCESS_HOLD_MS,
{
}

/// The first tick of an Intro captures its entry time; the Intro ends on the
/// tick at which the time since entry has reached its length, and on no
/// earlier one.
pub proof fn lemma_intro_length(
    game: GameState,
    now_ms: u64,
    pressed: bool,
    steps: u32,
    buzzer_on: bool,
)
    requires
        game.stage == Stage::Intro,
        game.level < LEVEL_COUNT,
    ensures
        game.intro_entry_ms is None ==> game.ticked(now_ms, pressed, steps, buzzer_on).stage
            == Stage::Intro && game.ticked(now_ms, pressed, steps, buzzer_on).intro_entry_ms
            == Some(now_ms),
        game.intro_entry_ms matches Some(entry_ms) ==> (game.ticked(
            now_ms,
            pressed,
            steps,
            buzzer_on,
        ).stage == Stage::Walk <==> elapsed(now_ms, entry_ms) >= INTRO_MS),
{
}

/// Level setup: the target is the base count of the level plus a bonus
/// between five and ten, the walk is measured from the step count at setup,
/// and the generator has made exactly two draws.
pub proof fn lemma_setup_draws(game: GameState, steps: u32)
    requires
        game.level < LEVEL_COUNT,
    ensures
        game.set_up(steps).stage == Stage::Walk,
        game.set_up(steps).start_steps == steps,
        game.set_up(steps).target_steps == level_base_steps()[game.level as int] + bonus_for(
            lcg_next(game.seed()),
        ),
        level_base_steps()[game.level as int] + 5 <= game.set_up(steps).target_steps
            <= level_base_steps()[game.level as int] + 10,
        game.set_up(steps).rng == Some(lcg_next(lcg_next(game.seed()))),
        game.set_up(steps).level == game.level,
{
}

/// The generator is touched by level setup alone: a tick changes its state
/// only when it ends an Intro.
pub proof fn lemma_rng_changes_at_setup_only(
    game: GameState,
    now_ms: u64,
    pressed: bool,
    steps: u32,
    buzzer_on: bool,
)
    ensures
        game.ticked(now_ms, pressed, steps, buzzer_on).rng != game.rng ==> game.stage
            == Stage::Intro && game.ticked(now_ms, pressed, steps, buzzer_on).stage == Stage::Walk,
{
}

/// A generator that is seeded is never seeded again.
pub proof fn lemma_seeded_once(game: GameState, steps: u32)
    requires
        game.rng is Some,
    ensures
        game.seed() == game.rng->0,
        game.set_up(steps).rng is Some,
{
}

/// The walk ends on the very tick at which the steps walked since setup
/// reach the target, and that tick is recorded as the start of the Stop
/// stage.
pub proof fn lemma_walk_ends_at_target(
    game: GameState,
    now_ms: u64,
    pressed: bool,
    steps: u32,
    buzzer_on: bool,
)
    requires
        game.stage == Stage::Walk,
    ensures
        game.ticked(now_ms, pressed, steps, buzzer_on).stage == Stage::Stop <==> game.walked(steps)
            >= game.target_steps,
        game.walked(steps) >= game.target_steps ==> game.ticked(
            now_ms,
            pressed,
            steps,
            buzzer_on,
        ).stop_time_ms == now_ms,
        game.walked(steps) < game.target_steps ==> game.ticked(
            now_ms,
            pressed,
            steps,
            buzzer_on,
        ).stage == Stage::Walk && game.ticked(now_ms, pressed, steps, buzzer_on).steps_left(steps)
            > 0,
{
}

/// The Stop stage ends on the first tick that comes more than its hold after
/// its start, and the Morse stage begins with an empty decoder.
pub proof fn lemma_stop_hold(
    game: GameState,
    now_ms: u64,
    pressed: bool,
    steps: u32,
    buzzer_on: bool,
)
    requires
        game.stage == Stage::Stop,
    ensures
        game.ticked(now_ms, pressed, steps, buzzer_on).stage == Stage::Morse <==> elapsed(
            now_ms,
            game.stop_time_ms,
        ) > STOP_HOLD_MS,
        elapsed(now_ms, game.stop_time_ms) > STOP_HOLD_MS ==> game.ticked(
            now_ms,
            pressed,
            steps,
            buzzer_on,
        ).decoder == game.decoder.button_dropped().cleared(),
        elapsed(now_ms, game.stop_time_ms) > STOP_HOLD_MS ==> game.ticked(
            now_ms,
            pressed,
            steps,
            buzzer_on,
        ).decoder.output.len() == 0 && game.ticked(
            now_ms,
            pressed,
            steps,
            buzzer_on,
        ).decoder.symbol.len() == 0,
{
}

/// The Morse stage hands every tick to its decoder, and it ends in Success
/// exactly on a tick without a button edge after which the decoder holds the
/// word of the level: as many letters as the word has, equal to it up to
/// case, and no symbol in progress.
pub proof fn lemma_morse_success(
    game: GameState,
    now_ms: u64,
    pressed: bool,
    steps: u32,
    buzzer_on: bool,
)
    requires
        game.stage == Stage::Morse,
    ensures
        game.ticked(now_ms, pressed, steps, buzzer_on).decoder == game.decoder.ticked(
            now_ms,
            pressed,
        ),
        game.ticked(now_ms, pressed, steps, buzzer_on).stage == Stage::Success <==> (
        game.decoder.event(now_ms, pressed) == KeyEvent::Idle && game.decoder.ticked(
            now_ms,
            pressed,
        ).symbol.len() == 0 && (target_word(game.level) matches Some(word) && spells(
            game.decoder.ticked(now_ms, pressed).output,
            word,
        ))),
        game.ticked(now_ms, pressed, steps, buzzer_on).stage == Stage::Success ==> game.ticked(
            now_ms,
            pressed,
            steps,
            buzzer_on,
        ).success_time_ms == now_ms,
{
}

/// In the Morse stage the word is checked on every tick that changes the
/// output: such a tick sees no button edge, adds at most one letter, and
/// ends the stage if and only if the output then spells the word.
pub proof fn lemma_output_change_is_checked(
    game: GameState,
    now_ms: u64,
    pressed: bool,
    steps: u32,
    buzzer_on: bool,
)
    requires
        game.stage == Stage::Morse,
        game.ticked(now_ms, pressed, steps, buzzer_on).decoder.output != game.decoder.output,
    ensures
        game.decoder.event(now_ms, pressed) == KeyEvent::Idle,
        game.ticked(now_ms, pressed, steps, buzzer_on).decoder.output.len()
            <= game.decoder.output.len() + 1,
        game.ticked(now_ms, pressed, steps, buzzer_on).decoder.symbol.len() == 0,
        game.ticked(now_ms, pressed, steps, buzzer_on).stage == Stage::Success <==> (target_word(
            game.level,
        ) matches Some(word) && spells(
            game.ticked(now_ms, pressed, steps, buzzer_on).decoder.output,
            word,
        )),
{
}

/// A guess that does not spell the word leaves the game parked in the Morse
/// stage with the buffer intact, also where it is as long as the word: the
/// machine gives no sign of failure and resets nothing.
pub proof fn lemma_wrong_guess_parks(
    game: GameState,
    now_ms: u64,
    pressed: bool,
    steps: u32,
    buzzer_on: bool,
)
    requires
        game.stage == Stage::Morse,
        target_word(game.level) matches Some(word) ==> !spells(
            game.decoder.ticked(now_ms, pressed).output,
            word,
        ),
    ensures
        game.ticked(now_ms, pressed, steps, buzzer_on) == (GameState {
            decoder: game.decoder.ticked(now_ms, pressed),
            ..game
        }),
{
}

/// The Success stage ends on the first tick that comes more than its hold
/// after its start. It leads to the Intro of the next level, with a beep
/// owed and a fresh entry time to capture, or to the terminal stage after
/// the last level.
pub proof fn lemma_success_advances(
    game: GameState,
    now_ms: u64,
    pressed: bool,
    steps: u32,
    buzzer_on: bool,
)
    requires
        game.stage == Stage::Success,
    ensures
        elapsed(now_ms, game.success_time_ms) <= SUCCESS_HOLD_MS ==> game.ticked(
            now_ms,
            pressed,
            steps,
            buzzer_on,
        ).stage == Stage::Success,
        elapsed(now_ms, game.success_time_ms) > SUCCESS_HOLD_MS && game.level + 1 < LEVEL_COUNT
            ==> ({
            let next = game.ticked(now_ms, pressed, steps, buzzer_on);
            &&& next.stage == Stage::Intro
            &&& next.level == game.level + 1
            &&& next.transition_beep_pending
            &&& next.intro_entry_ms is None
        }),
        elapsed(now_ms, game.success_time_ms) > SUCCESS_HOLD_MS && game.level + 1 >= LEVEL_COUNT
            ==> game.ticked(now_ms, pressed, steps, buzzer_on).stage == Stage::Complete,
{
}

/// The terminal stage has no way out, and each of its ticks arms the tone
/// without end: whatever the buzzer held, it sounds after the tick.
pub proof fn lemma_complete_is_terminal(
    game: GameState,
    now_ms: u64,
    pressed: bool,
    steps: u32,
    buzzer: BuzzerState,
)
    requires
        game.stage == Stage::Complete,
    ensures
        game.ticked(now_ms, pressed, steps, buzzer.on) == game.button_dropped(),
        game.buzzer_ticked(now_ms, pressed, buzzer) == buzzer.held(),
        game.buzzer_ticked(now_ms, pressed, buzzer).on,
{
}

/// The intro sequence has a fixed number of beeps: the count of started
/// beeps never passes it.
pub proof fn lemma_intro_beeps_bounded(
    game: GameState,
    now_ms: u64,
    pressed: bool,
    steps: u32,
    buzzer_on: bool,
)
    requires
        game.intro_beeps_done <= INTRO_BEEP_COUNT,
    ensures
        game.ticked(now_ms, pressed, steps, buzzer_on).intro_beeps_done <= INTRO_BEEP_COUNT,
{
}

/// Intro beeps are spaced: after one was started at `now_ms`, none is
/// started before a beep and a gap have passed (or before the end of time,
/// where that comes first).
pub proof fn lemma_intro_beeps_spaced(game: GameState, now_ms: u64, buzzer_on: bool, later_ms: u64)
    requires
        game.cue(now_ms, buzzer_on) == Cue::IntroBeep,
        later_ms < expiry(now_ms, (INTRO_BEEP_MS + INTRO_BEEP_GAP_MS) as u64),
    ensures
        game.cued(now_ms, Cue::IntroBeep).cue(later_ms, buzzer_on) != Cue::IntroBeep,
        played(Cue::IntroBeep, now_ms, BuzzerState::silent()).until_ms == expiry(
            now_ms,
            INTRO_BEEP_MS,
        ),
{
}

/// The Intro stage ends by time alone: its transitions record the time since
/// entry, and once that has reached the length of the Intro they set the
/// level up and start the walk.
pub proof fn lemma_staged_intro(game: GameState, now_ms: u64, steps: u32)
    requires
        game.stage == Stage::Intro,
        game.level < LEVEL_COUNT,
    ensures
        game.staged(now_ms, steps).intro_elapsed_ms == game.intro_age_ms(now_ms),
        game.intro_age_ms(now_ms) < INTRO_MS ==> game.staged(now_ms, steps) == (GameState {
            intro_elapsed_ms: game.intro_age_ms(now_ms),
            ..game
        }),
        game.intro_age_ms(now_ms) >= INTRO_MS ==> ({
            let next = game.staged(now_ms, steps);
            &&& next.stage == Stage::Walk
            &&& next.level == game.level
            &&& next.start_steps == steps
            &&& next.target_steps == level_base_steps()[game.level as int] + bonus_for(
                lcg_next(game.seed()),
            )
            &&& next.decoder == game.decoder
        }),
{
}

/// Elapsed time alone never ends the Walk stage: short of the target its
/// transitions change nothing, whatever the clock reads. At the target they
/// move on to Stop and record the time, and change nothing else.
pub proof fn lemma_staged_walk(game: GameState, now_ms: u64, steps: u32)
    requires
        game.stage == Stage::Walk,
    ensures
        game.walked(steps) < game.target_steps ==> game.staged(now_ms, steps) == game,
        game.walked(steps) >= game.target_steps ==> game.staged(now_ms, steps) == (GameState {
            stage: Stage::Stop,
            stop_time_ms: now_ms,
            ..game
        }),
{
}

/// The Stop stage holds for its hold time: up to that time its transitions
/// change nothing. After more than that time they move on to Morse with
/// symbol and output empty and the flag down, and change nothing else but
/// the start of the idle gap.
pub proof fn lemma_staged_stop(game: GameState, now_ms: u64, steps: u32)
    requires
        game.stage == Stage::Stop,
    ensures
        elapsed(now_ms, game.stop_time_ms) <= STOP_HOLD_MS ==> game.staged(now_ms, steps) == game,
        elapsed(now_ms, game.stop_time_ms) > STOP_HOLD_MS ==> ({
            let next = game.staged(now_ms, steps);
            &&& next == (GameState { stage: Stage::Morse, decoder: game.decoder.cleared(), ..game })
            &&& next.decoder.symbol.len() == 0
            &&& next.decoder.output.len() == 0
            &&& !next.decoder.clear_on_next_letter
            &&& next.level == game.level
            &&& next.target_steps == game.target_steps
        }),
{
}

/// The Morse stage is won by the word alone: its transitions move on to
/// Success, and record the time, exactly if no symbol is in progress and the
/// output has as many letters as the word of the level, at least one, each
/// of which lower-cased is the letter of the word in its place. Otherwise
/// they change nothing. Output and level stay as they are either way.
pub proof fn lemma_staged_morse(game: GameState, now_ms: u64, steps: u32)
    requires
        game.stage == Stage::Morse,
        game.level < LEVEL_COUNT,
    ensures
        ({
            let word = level_words()[game.level as int];
            let output = game.decoder.output;
            let won = game.decoder.symbol.len() == 0 && output.len() > 0 && output.len()
                == word.len() && forall|i: int|
                0 <= i < output.len() ==> ascii_lower(#[trigger] output[i]) == word[i];
            &&& won ==> game.staged(now_ms, steps) == (GameState {
                stage: Stage::Success,
                success_time_ms: now_ms,
                ..game
            })
            &&& !won ==> game.staged(now_ms, steps) == game
        }),
{
    lemma_level_words_lower_case(game.level, game.decoder.output);
}

/// A Morse stage whose level is past the table cannot be won.
pub proof fn lemma_staged_morse_without_word(game: GameState, now_ms: u64, steps: u32)
    requires
        game.stage == Stage::Morse,
        game.level >= LEVEL_COUNT,
    ensures
        game.staged(now_ms, steps) == game,
{
}

/// The Success stage holds for its hold time: up to that time its
/// transitions change nothing. After more than that time they lead to the
/// Intro of the next level, whose word is the target at once, with a beep
/// owed and the entry time to be captured anew; after the last level they
/// lead to the terminal stage, with the level index one past the table.
pub proof fn lemma_staged_success(game: GameState, now_ms: u64, steps: u32)
    requires
        game.stage == Stage::Success,
        game.level < LEVEL_COUNT,
    ensures
        elapsed(now_ms, game.success_time_ms) <= SUCCESS_HOLD_MS ==> game.staged(now_ms, steps)
            == game,
        elapsed(now_ms, game.success_time_ms) > SUCCESS_HOLD_MS && game.level + 1 < LEVEL_COUNT
            ==> ({
            let next = game.staged(now_ms, steps);
            &&& next == (GameState {
                stage: Stage::Intro,
                level: (game.level + 1) as usize,
                intro_entry_ms: None,
                intro_elapsed_ms: 0,
                intro_beeps_done: 0,
                intro_next_beep_ms: 0,
                transition_beep_pending: true,
                ..game
            })
            &&& target_word(next.level) == Some(level_words()[game.level + 1])
        }),
        elapsed(now_ms, game.success_time_ms) > SUCCESS_HOLD_MS && game.level + 1 == LEVEL_COUNT
            ==> game.staged(now_ms, steps) == (GameState {
            stage: Stage::Complete,
            level: LEVEL_COUNT,
            ..game
        }),
{
}

/// The first level is followed by the second, whose word is "tui", and the
/// third level by the end of the game.
pub proof fn lemma_staged_success_by_level(game: GameState, now_ms: u64, steps: u32)
    requires
        game.stage == Stage::Success,
        elapsed(now_ms, game.success_time_ms) > SUCCESS_HOLD_MS,
    ensures
        game.level == 0 ==> game.staged(now_ms, steps).stage == Stage::Intro && game.staged(
            now_ms,
            steps,
        ).level == 1 && target_word(game.staged(now_ms, steps).level) == Some(
            seq!['t', 'u', 'i'],
        ),
        game.level == 2 ==> game.staged(now_ms, steps).stage == Stage::Complete && game.staged(
            now_ms,
            steps,
        ).level == 3 && target_word(game.staged(now_ms, steps).level) is None,
{
    assert(level_words()[1] =~= seq!['t', 'u', 'i']);
}

/// The transitions of the terminal stage change nothing.
pub proof fn lemma_staged_complete(game: GameState, now_ms: u64, steps: u32)
    requires
        game.stage == Stage::Complete,
    ensures
        game.staged(now_ms, steps) == game,
{
}

} // verus!
