//! The game stage machine.
//!
//! A level runs through the stages Intro, Walk, Stop, Morse and Success, and
//! the game ends in the terminal stage Complete. The machine is shown the
//! clock, the button and the step count once per tick; it owns the decoder
//! that the Morse stage keys into and the generator that varies each level,
//! and it drives the buzzer.

use crate::audio::{Buzzer, BuzzerState};
use crate::clock::{elapsed, expiry};
use crate::decoder::{DecoderState, KeyEvent, MorseDecoder};
use crate::levels::{level, level_base_steps, spells, spells_word, target_word, LEVEL_COUNT};
use crate::rng::{lcg_next, seed_from_timestamp, Lcg};
use vstd::prelude::*;

verus! {

/// Time that the Intro stage lasts.
pub const INTRO_MS: u64 = 3000;

/// Time that the player has to hold still in the Stop stage.
pub const STOP_HOLD_MS: u64 = 1500;

/// Time that the Success stage lasts.
pub const SUCCESS_HOLD_MS: u64 = 2000;

/// Number of beeps in the intro sequence.
pub const INTRO_BEEP_COUNT: u8 = 3;

/// Length of one intro beep.
pub const INTRO_BEEP_MS: u64 = 80;

/// Silence between two intro beeps.
pub const INTRO_BEEP_GAP_MS: u64 = 120;

/// Length of the beep that announces the next level.
pub const TRANSITION_BEEP_MS: u64 = 120;

/// Time over which the Intro stage reveals its title, letter by letter.
pub const INTRO_REVEAL_MS: u64 = 2000;

/// Smallest bonus added to the base step count of a level.
pub const BONUS_MIN: u32 = 5;

/// Number of different bonuses.
pub const BONUS_SPAN: u32 = 6;

/// The stages of a level, and the terminal stage.
#[derive(Clone, Copy, Debug, PartialEq, Eq, Structural)]
pub enum Stage {
    Intro,
    Walk,
    Stop,
    Morse,
    Success,
    Complete,
}

/// The direction that the Walk stage hints at.
#[derive(Clone, Copy, Debug, PartialEq, Eq, Structural)]
pub enum Hint {
    Straight,
    Left,
    Right,
}

/// What a stage asks of the buzzer in one tick.
#[derive(Clone, Copy, Debug, PartialEq, Eq, Structural)]
pub enum Cue {
    /// Nothing.
    Quiet,
    /// One beep of the intro sequence.
    IntroBeep,
    /// The beep that announces the next level.
    Transition,
    /// The tone without end of the terminal stage.
    Hold,
}

/// The bonus that a draw stands for: one of the six from the smallest up.
pub open spec fn bonus_for(draw: u32) -> u32 {
    (BONUS_MIN + draw % BONUS_SPAN) as u32
}

/// The hint that a draw stands for.
pub open spec fn hint_for(draw: u32) -> Hint {
    if draw % 3 == 0 {
        Hint::Straight
    } else if draw % 3 == 1 {
        Hint::Left
    } else {
        Hint::Right
    }
}

/// How many of the `title_len` characters of its title the Intro stage shows
/// after `elapsed_ms`: the title grows evenly and is whole when the reveal
/// time is over.
pub open spec fn revealed(elapsed_ms: u64, title_len: usize) -> int {
    let grown = if elapsed_ms * title_len > u64::MAX {
        u64::MAX as int
    } else {
        elapsed_ms * title_len
    };
    if grown / (INTRO_REVEAL_MS as int) < title_len {
        grown / (INTRO_REVEAL_MS as int)
    } else {
        title_len as int
    }
}

/// The buzzer after it has played a cue at `now_ms`.
pub open spec fn played(cue: Cue, now_ms: u64, buzzer: BuzzerState) -> BuzzerState {
    match cue {
        Cue::Quiet => buzzer,
        Cue::IntroBeep => buzzer.started(now_ms, INTRO_BEEP_MS),
        Cue::Transition => buzzer.started(now_ms, TRANSITION_BEEP_MS),
        Cue::Hold => buzzer.held(),
    }
}

/// Mathematical model of a [`Game`].
pub struct GameState {
    /// The active stage.
    pub stage: Stage,
    /// Index of the current level.
    pub level: usize,
    /// Steps to walk in this level: base plus bonus.
    pub target_steps: u32,
    /// Step count recorded when the walk began.
    pub start_steps: u32,
    /// Timestamp at which the Stop stage began.
    pub stop_time_ms: u64,
    /// Timestamp at which the Success stage began.
    pub success_time_ms: u64,
    /// Timestamp of the first tick of the Intro stage, once it has come.
    pub intro_entry_ms: Option<u64>,
    /// Time spent in the Intro stage at its last tick.
    pub intro_elapsed_ms: u64,
    /// State of the generator, once it is seeded.
    pub rng: Option<u32>,
    /// Direction that the Walk stage hints at.
    pub hint: Hint,
    /// Beeps of the intro sequence that were started.
    pub intro_beeps_done: u8,
    /// Earliest time of the next intro beep.
    pub intro_next_beep_ms: u64,
    /// A beep that announces the level is still owed.
    pub transition_beep_pending: bool,
    /// The decoder of the Morse stage.
    pub decoder: DecoderState,
}

impl GameState {
    /// The game at start-up: level 0, Intro stage, the generator seeded with
    /// `seed` or waiting to be seeded from the clock.
    pub open spec fn initial(seed: Option<u32>) -> GameState {
        GameState {
            stage: Stage::Intro,
            level: 0,
            target_steps: 0,
            start_steps: 0,
            stop_time_ms: 0,
            success_time_ms: 0,
            intro_entry_ms: None,
            intro_elapsed_ms: 0,
            rng: seed,
            hint: Hint::Straight,
            intro_beeps_done: 0,
            intro_next_beep_ms: 0,
            transition_beep_pending: false,
            decoder: DecoderState::initial(),
        }
    }

    /// Steps walked since the walk began, at a step count of `steps`.
    pub open spec fn walked(self, steps: u32) -> u32 {
        if steps >= self.start_steps {
            (steps - self.start_steps) as u32
        } else {
            0
        }
    }

    /// Steps still to walk, at a step count of `steps`.
    pub open spec fn steps_left(self, steps: u32) -> u32 {
        if self.target_steps >= self.walked(steps) {
            (self.target_steps - self.walked(steps)) as u32
        } else {
            0
        }
    }

    /// Time spent in the Intro stage at `now_ms`.
    pub open spec fn intro_age_ms(self, now_ms: u64) -> u64 {
        match self.intro_entry_ms {
            Some(entry_ms) => elapsed(now_ms, entry_ms),
            None => 0,
        }
    }

    /// The decoder holds the word of the level, complete and with no symbol
    /// in progress.
    pub open spec fn word_spelled(self) -> bool {
        &&& self.decoder.symbol.len() == 0
        &&& target_word(self.level) matches Some(word)
        &&& spells(self.decoder.output, word)
    }

    /// The game with the button of its decoder forgotten.
    pub open spec fn button_dropped(self) -> GameState {
        GameState { decoder: self.decoder.button_dropped(), ..self }
    }

    /// The game with the symbol in progress thrown away, as a change of mode
    /// leaves it; level and stage stay.
    pub open spec fn interrupted(self) -> GameState {
        GameState { decoder: self.decoder.interrupted(), ..self }
    }

    /// The game after the first tick of an Intro stage has been noted at
    /// `now_ms`: the entry time is captured and the intro sequence begins.
    /// Nothing changes on any other tick.
    pub open spec fn entered(self, now_ms: u64) -> GameState {
        if self.stage == Stage::Intro && self.intro_entry_ms is None {
            GameState {
                intro_entry_ms: Some(now_ms),
                intro_beeps_done: 0,
                intro_next_beep_ms: now_ms,
                ..self
            }
        } else {
            self
        }
    }

    /// What the stage asks of the buzzer at `now_ms`, given whether a tone
    /// sounds.
    pub open spec fn cue(self, now_ms: u64, buzzer_on: bool) -> Cue {
        if self.stage == Stage::Complete {
            Cue::Hold
        } else if self.transition_beep_pending && !buzzer_on {
            Cue::Transition
        } else if self.stage == Stage::Intro && self.intro_beeps_done < INTRO_BEEP_COUNT && now_ms
            >= self.intro_next_beep_ms {
            Cue::IntroBeep
        } else {
            Cue::Quiet
        }
    }

    /// The game after it has given `cue` at `now_ms`.
    pub open spec fn cued(self, now_ms: u64, cue: Cue) -> GameState {
        match cue {
            Cue::Transition => GameState { transition_beep_pending: false, ..self },
            Cue::IntroBeep => GameState {
                intro_beeps_done: (self.intro_beeps_done + 1) as u8,
                intro_next_beep_ms: expiry(now_ms, (INTRO_BEEP_MS + INTRO_BEEP_GAP_MS) as u64),
                ..self
            },
            _ => self,
        }
    }

    /// The state that the generator draws from when a level is set up: its
    /// own if it is seeded, else one made from the entry time of the Intro.
    pub open spec fn seed(self) -> u32 {
        match self.rng {
            Some(state) => state,
            None => seed_from_timestamp(
                match self.intro_entry_ms {
                    Some(entry_ms) => entry_ms,
                    None => 0,
                },
            ),
        }
    }

    /// The game after level setup at a step count of `steps`: the first draw
    /// gives the bonus, the second the hint, the walk starts from `steps`. A
    /// level index past the table ends the game instead.
    pub open spec fn set_up(self, steps: u32) -> GameState {
        if self.level >= LEVEL_COUNT {
            GameState { stage: Stage::Complete, ..self }
        } else {
            let first = lcg_next(self.seed());
            let second = lcg_next(first);
            GameState {
                stage: Stage::Walk,
                target_steps: (level_base_steps()[self.level as int] + bonus_for(first)) as u32,
                start_steps: steps,
                hint: hint_for(second),
                rng: Some(second),
                ..self
            }
        }
    }

    /// The level index that follows the current one.
    pub open spec fn next_level_index(self) -> usize {
        if self.level == usize::MAX {
            self.level
        } else {
            (self.level + 1) as usize
        }
    }

    /// The game after the level was won: the Intro of the next level with a
    /// beep owed, or the terminal stage where the table is exhausted.
    pub open spec fn advanced(self) -> GameState {
        if self.next_level_index() >= LEVEL_COUNT {
            GameState { stage: Stage::Complete, level: self.next_level_index(), ..self }
        } else {
            GameState {
                stage: Stage::Intro,
                level: self.next_level_index(),
                intro_entry_ms: None,
                intro_elapsed_ms: 0,
                intro_beeps_done: 0,
                intro_next_beep_ms: 0,
                transition_beep_pending: true,
                ..self
            }
        }
    }

    /// The game after the transitions of its stage were evaluated at `now_ms`
    /// with a step count of `steps`.
    pub open spec fn staged(self, now_ms: u64, steps: u32) -> GameState {
        match self.stage {
            Stage::Intro => {
                let aged = GameState { intro_elapsed_ms: self.intro_age_ms(now_ms), ..self };
                if self.intro_age_ms(now_ms) >= INTRO_MS {
                    aged.set_up(steps)
                } else {
                    aged
                }
            },
            Stage::Walk => {
                if self.walked(steps) >= self.target_steps {
                    GameState { stage: Stage::Stop, stop_time_ms: now_ms, ..self }
                } else {
                    self
                }
            },
            Stage::Stop => {
                if elapsed(now_ms, self.stop_time_ms) > STOP_HOLD_MS {
                    GameState { stage: Stage::Morse, decoder: self.decoder.cleared(), ..self }
                } else {
                    self
                }
            },
            Stage::Morse => {
                if self.word_spelled() {
                    GameState { stage: Stage::Success, success_time_ms: now_ms, ..self }
                } else {
                    self
                }
            },
            Stage::Success => {
                if elapsed(now_ms, self.success_time_ms) > SUCCESS_HOLD_MS {
                    self.advanced()
                } else {
                    self
                }
            },
            Stage::Complete => self,
        }
    }

    /// The game after a tick of the Morse stage: the decoder is shown the
    /// button, and the word is checked unless the tick saw an edge.
    pub open spec fn keyed(self, now_ms: u64, pressed: bool, steps: u32) -> GameState {
        let heard = GameState { decoder: self.decoder.ticked(now_ms, pressed), ..self };
        if self.decoder.event(now_ms, pressed) == KeyEvent::Idle {
            heard.staged(now_ms, steps)
        } else {
            heard
        }
    }

    /// The game as a tick of any stage but Morse finds it, once the button is
    /// forgotten and a first Intro tick is noted.
    pub open spec fn prepared(self, now_ms: u64) -> GameState {
        self.button_dropped().entered(now_ms)
    }

    /// The game after a tick at `now_ms` with the button reading `pressed`, a
    /// step count of `steps`, and the buzzer sounding or not.
    pub open spec fn ticked(self, now_ms: u64, pressed: bool, steps: u32, buzzer_on: bool)
        -> GameState {
        if self.stage == Stage::Morse {
            self.keyed(now_ms, pressed, steps)
        } else {
            let ready = self.prepared(now_ms);
            ready.cued(now_ms, ready.cue(now_ms, buzzer_on)).staged(now_ms, steps)
        }
    }

    /// The buzzer after that tick.
    pub open spec fn buzzer_ticked(self, now_ms: u64, pressed: bool, buzzer: BuzzerState)
        -> BuzzerState {
        if self.stage == Stage::Morse {
            match self.decoder.event(now_ms, pressed).tone_ms() {
                Some(tone_ms) => buzzer.started(now_ms, tone_ms),
                None => buzzer,
            }
        } else {
            played(self.prepared(now_ms).cue(now_ms, buzzer.on), now_ms, buzzer)
        }
    }
}

/// The game stage machine.
pub struct Game {
    stage: Stage,
    level: usize,
    target_steps: u32,
    start_steps: u32,
    stop_time_ms: u64,
    success_time_ms: u64,
    intro_entry_ms: Option<u64>,
    intro_elapsed_ms: u64,
    rng: Option<Lcg>,
    hint: Hint,
    intro_beeps_done: u8,
    intro_next_beep_ms: u64,
    transition_beep_pending: bool,
    decoder: MorseDecoder,
}

impl View for Game {
    type V = GameState;

    closed spec fn view(&self) -> GameState {
        GameState {
            stage: self.stage,
            level: self.level,
            target_steps: self.target_steps,
            start_steps: self.start_steps,
            stop_time_ms: self.stop_time_ms,
            success_time_ms: self.success_time_ms,
            intro_entry_ms: self.intro_entry_ms,
            intro_elapsed_ms: self.intro_elapsed_ms,
            rng: match self.rng {
                Some(rng) => Some(rng@),
                None => None,
            },
            hint: self.hint,
            intro_beeps_done: self.intro_beeps_done,
            intro_next_beep_ms: self.intro_next_beep_ms,
            transition_beep_pending: self.transition_beep_pending,
            decoder: self.decoder@,
        }
    }
}

/// How many characters of a title of `title_len` characters the Intro stage
/// shows after `elapsed_ms`.
pub fn intro_reveal(elapsed_ms: u64, title_len: usize) -> (shown: usize)
    ensures
        shown == revealed(elapsed_ms, title_len),
        shown <= title_len,
{
    let len: u64 = title_len as u64;
    let grown: u64 = match elapsed_ms.checked_mul(len) {
        Some(product) => product,
        None => u64::MAX,
    };
    let count: u64 = grown / INTRO_REVEAL_MS;
    if count < len {
        count as usize
    } else {
        title_len
    }
}

/// Picks the hint that a draw stands for.
fn pick_hint(draw: u32) -> (hint: Hint)
    ensures
        hint == hint_for(draw),
{
    let pick: u32 = draw % 3;
    if pick == 0 {
        Hint::Straight
    } else if pick == 1 {
        Hint::Left
    } else {
        Hint::Right
    }
}

impl Game {
    /// A game at level 0 in the Intro stage, with the generator in the state
    /// `rng` or, without one, waiting to be seeded from the clock.
    fn start(rng: Option<Lcg>) -> (game: Self)
        ensures
            game@ == GameState::initial(
                match rng {
                    Some(rng) => Some(rng@),
                    None => None,
                },
            ),
    {
        Game {
            stage: Stage::Intro,
            level: 0,
            target_steps: 0,
            start_steps: 0,
            stop_time_ms: 0,
            success_time_ms: 0,
            intro_entry_ms: None,
            intro_elapsed_ms: 0,
            rng,
            hint: Hint::Straight,
            intro_beeps_done: 0,
            intro_next_beep_ms: 0,
            transition_beep_pending: false,
            decoder: MorseDecoder::new(),
        }
    }

    /// A game at level 0 in the Intro stage. Its generator is seeded from the
    /// clock when the first level is set up.
    pub fn new() -> (game: Self)
        ensures
            game@ == GameState::initial(None),
    {
        Game::start(None)
    }

    /// A game at level 0 in the Intro stage whose generator starts in the
    /// state `seed`, so that its draws can be reproduced.
    pub fn with_seed(seed: u32) -> (game: Self)
        ensures
            game@ == GameState::initial(Some(seed)),
    {
        Game::start(Some(Lcg::new(seed)))
    }

    /// Notes the first tick of an Intro stage.
    fn enter(&mut self, now_ms: u64)
        ensures
            final(self)@ == old(self)@.entered(now_ms),
    {
        if self.stage == Stage::Intro && self.intro_entry_ms.is_none() {
            self.intro_entry_ms = Some(now_ms);
            self.intro_beeps_done = 0;
            self.intro_next_beep_ms = now_ms;
        }
    }

    /// Gives the cue of the stage to the buzzer.
    fn update_stage_beeps(&mut self, now_ms: u64, buzzer: &mut Buzzer)
        ensures
            final(self)@ == old(self)@.cued(now_ms, old(self)@.cue(now_ms, old(buzzer)@.on)),
            final(buzzer)@ == played(
                old(self)@.cue(now_ms, old(buzzer)@.on),
                now_ms,
                old(buzzer)@,
            ),
    {
        if self.stage == Stage::Complete {
            buzzer.hold();
            return ;
        }
        if self.transition_beep_pending && !buzzer.is_on() {
            buzzer.start(now_ms, TRANSITION_BEEP_MS);
            self.transition_beep_pending = false;
            return ;
        }
        if self.stage == Stage::Intro && self.intro_beeps_done < INTRO_BEEP_COUNT && now_ms
            >= self.intro_next_beep_ms {
            buzzer.start(now_ms, INTRO_BEEP_MS);
            self.intro_beeps_done = self.intro_beeps_done + 1;
            self.intro_next_beep_ms = now_ms.saturating_add(INTRO_BEEP_MS + INTRO_BEEP_GAP_MS);
        }
    }

    /// Sets the level up: draws the bonus and the hint and starts the walk.
    fn setup_level(&mut self, steps: u32)
        ensures
            final(self)@ == old(self)@.set_up(steps),
    {
        let base_steps = match level(self.level) {
            Some(row) => row.base_steps,
            None => {
                self.stage = Stage::Complete;
                return ;
            },
        };
        let mut rng = match self.rng {
            Some(rng) => rng,
            None => Lcg::from_timestamp(
                match self.intro_entry_ms {
                    Some(entry_ms) => entry_ms,
                    None => 0,
                },
            ),
        };
        let bonus: u32 = BONUS_MIN + rng.next_u32() % BONUS_SPAN;
        self.target_steps = base_steps + bonus;
        self.start_steps = steps;
        self.hint = pick_hint(rng.next_u32());
        self.rng = Some(rng);
        self.stage = Stage::Walk;
    }

    /// Whether the decoder holds as many letters as the word of the level
    /// has, at least one, and no symbol in progress.
    fn morse_complete(&self) -> (complete: bool)
        ensures
            complete == (self@.decoder.symbol.len() == 0 && self@.decoder.output.len() > 0 && (
            target_word(self@.level) matches Some(word) && self@.decoder.output.len()
                == word.len())),
    {
        if self.decoder.symbol().len() != 0 {
            return false;
        }
        if self.decoder.output().len() == 0 {
            return false;
        }
        match level(self.level) {
            Some(row) => self.decoder.output().len() == row.word.unicode_len(),
            None => false,
        }
    }

    /// Whether the decoded letters spell the word of the level.
    fn check_word(&self) -> (matched: bool)
        ensures
            matched == (target_word(self@.level) matches Some(word) && spells(
                self@.decoder.output,
                word,
            )),
    {
        match level(self.level) {
            Some(row) => spells_word(self.decoder.output(), row.word),
            None => false,
        }
    }

    /// Moves on to the next level, or ends the game after the last one.
    fn next_level(&mut self)
        ensures
            final(self)@ == old(self)@.advanced(),
    {
        self.level = self.level.saturating_add(1);
        if self.level >= LEVEL_COUNT {
            self.stage = Stage::Complete;
        } else {
            self.stage = Stage::Intro;
            self.intro_entry_ms = None;
            self.intro_elapsed_ms = 0;
            self.intro_beeps_done = 0;
            self.intro_next_beep_ms = 0;
            self.transition_beep_pending = true;
        }
    }

    /// Evaluates the transitions of the active stage at `now_ms` with a step
    /// count of `steps`, and nothing else: no beep is played and the button
    /// is not read. [`Game::tick`] does this once per tick.
    pub fn update_stage(&mut self, now_ms: u64, steps: u32)
        ensures
            final(self)@ == old(self)@.staged(now_ms, steps),
    {
        match self.stage {
            Stage::Intro => {
                let age_ms = match self.intro_entry_ms {
                    Some(entry_ms) => now_ms.saturating_sub(entry_ms),
                    None => 0,
                };
                self.intro_elapsed_ms = age_ms;
                if age_ms >= INTRO_MS {
                    self.setup_level(steps);
                }
            },
            Stage::Walk => {
                if steps.saturating_sub(self.start_steps) >= self.target_steps {
                    self.stage = Stage::Stop;
                    self.stop_time_ms = now_ms;
                }
            },
            Stage::Stop => {
                if now_ms.saturating_sub(self.stop_time_ms) > STOP_HOLD_MS {
                    self.stage = Stage::Morse;
                    self.decoder.clear();
                }
            },
            Stage::Morse => {
                if self.morse_complete() && self.check_word() {
                    self.stage = Stage::Success;
                    self.success_time_ms = now_ms;
                }
            },
            Stage::Success => {
                if now_ms.saturating_sub(self.success_time_ms) > SUCCESS_HOLD_MS {
                    self.next_level();
                }
            },
            Stage::Complete => {},
        }
    }

    /// Shows the game the clock, the button and the step count, once per
    /// frame, and lets it drive the buzzer.
    pub fn tick(&mut self, now_ms: u64, button_pressed: bool, steps: u32, buzzer: &mut Buzzer)
        ensures
            final(self)@ == old(self)@.ticked(now_ms, button_pressed, steps, old(buzzer)@.on),
            final(buzzer)@ == old(self)@.buzzer_ticked(now_ms, button_pressed, old(buzzer)@),
    {
        if self.stage != Stage::Morse {
            self.decoder.drop_button();
            self.enter(now_ms);
            self.update_stage_beeps(now_ms, buzzer);
            self.update_stage(now_ms, steps);
            return ;
        }
        let event = self.decoder.tick(now_ms, button_pressed);
        if let Some(tone_ms) = event.tone() {
            buzzer.start(now_ms, tone_ms);
        }
        if event == KeyEvent::Idle {
            self.update_stage(now_ms, steps);
        }
    }

    /// Throws away the symbol in progress, as a change of mode asks; level
    /// and stage stay.
    pub fn interrupt(&mut self)
        ensures
            final(self)@ == old(self)@.interrupted(),
    {
        self.decoder.interrupt();
    }

    /// The active stage.
    pub fn stage(&self) -> (stage: Stage)
        ensures
            stage == self@.stage,
    {
        self.stage
    }

    /// Index of the current level.
    pub fn level(&self) -> (level: usize)
        ensures
            level == self@.level,
    {
        self.level
    }

    /// The word of the current level, or nothing once the levels are
    /// exhausted.
    pub fn target_word(&self) -> (word: Option<&'static str>)
        ensures
            word is Some <==> self@.level < LEVEL_COUNT,
            word matches Some(text) ==> target_word(self@.level) == Some(text@),
    {
        match level(self.level) {
            Some(row) => Some(row.word),
            None => None,
        }
    }

    /// Direction that the Walk stage hints at.
    pub fn hint(&self) -> (hint: Hint)
        ensures
            hint == self@.hint,
    {
        self.hint
    }

    /// Steps to walk in this level.
    pub fn target_steps(&self) -> (target_steps: u32)
        ensures
            target_steps == self@.target_steps,
    {
        self.target_steps
    }

    /// Steps still to walk, at a step count of `steps`.
    pub fn steps_remaining(&self, steps: u32) -> (left: u32)
        ensures
            left == self@.steps_left(steps),
    {
        self.target_steps.saturating_sub(steps.saturating_sub(self.start_steps))
    }

    /// Time spent in the Intro stage at its last tick.
    pub fn intro_elapsed_ms(&self) -> (elapsed_ms: u64)
        ensures
            elapsed_ms == self@.intro_elapsed_ms,
    {
        self.intro_elapsed_ms
    }

    /// The decoder of the Morse stage.
    pub fn decoder(&self) -> (decoder: &MorseDecoder)
        ensures
            decoder@ == self@.decoder,
    {
        &self.decoder
    }
}

} // verus!
