//! The mode switch: the top of the engine.
//!
//! The switch owns the game, the step counter, a decoder for free Morse
//! practice and the buzzer. One tick per poll iteration takes the clock, the
//! two buttons and a fresh accelerometer sample if there is one, and reaches
//! only what the active mode needs. A press of the menu button moves on to
//! the next mode and resets what is transient: the symbols in progress and
//! the tone. What is persistent stays: the step count, the level and its
//! stage, the decoded output.

use crate::audio::{Buzzer, BuzzerState};
use crate::decoder::{DecoderState, MorseDecoder};
use crate::game::{Game, GameState, Hint, Stage};
use crate::levels::{target_word, LEVEL_COUNT};
use crate::motion::{Accel, StepCounter, StepState};
use vstd::prelude::*;

verus! {

/// What the device shows and listens to.
#[derive(Clone, Copy, Debug, PartialEq, Eq, Structural)]
pub enum Mode {
    /// The game.
    Game,
    /// Raw readings of the accelerometer and the step count.
    Telemetry,
    /// Morse practice without a target word.
    FreeformMorse,
}

impl Mode {
    /// The mode that a press of the menu button leads to.
    pub open spec fn next(self) -> Mode {
        match self {
            Mode::Game => Mode::Telemetry,
            Mode::Telemetry => Mode::FreeformMorse,
            Mode::FreeformMorse => Mode::Game,
        }
    }

    /// The mode that a press of the menu button leads to.
    pub fn toggled(self) -> (mode: Mode)
        ensures
            mode == self.next(),
    {
        match self {
            Mode::Game => Mode::Telemetry,
            Mode::Telemetry => Mode::FreeformMorse,
            Mode::FreeformMorse => Mode::Game,
        }
    }
}

/// Mathematical model of an [`App`].
pub struct AppState {
    /// The active mode.
    pub mode: Mode,
    /// The game stage machine.
    pub game: GameState,
    /// The step counter.
    pub motion: StepState,
    /// The decoder of free Morse practice.
    pub freeform: DecoderState,
    /// The buzzer.
    pub buzzer: BuzzerState,
    /// The menu button was down at the last tick.
    pub menu_button_down: bool,
    /// The last accelerometer sample.
    pub accel: Accel,
}

impl AppState {
    /// The engine at start-up: game mode, everything at rest, the generator
    /// of the game seeded with `seed` or waiting to be seeded from the clock.
    pub open spec fn initial(seed: Option<u32>) -> AppState {
        AppState {
            mode: Mode::Game,
            game: GameState::initial(seed),
            motion: StepState::initial(),
            freeform: DecoderState::initial(),
            buzzer: BuzzerState::silent(),
            menu_button_down: false,
            accel: Accel { x: 0, y: 0, z: 0 },
        }
    }

    /// The tick sees the menu button go down.
    pub open spec fn menu_edge(self, menu_pressed: bool) -> bool {
        menu_pressed && !self.menu_button_down
    }

    /// The engine after the menu button was read: on its way down the mode
    /// moves on, the tone ends and the symbols in progress are thrown away.
    pub open spec fn switched(self, menu_pressed: bool) -> AppState {
        if self.menu_edge(menu_pressed) {
            AppState {
                mode: self.mode.next(),
                game: self.game.interrupted(),
                freeform: self.freeform.interrupted(),
                buzzer: self.buzzer.silenced(),
                menu_button_down: true,
                ..self
            }
        } else {
            AppState { menu_button_down: menu_pressed, ..self }
        }
    }

    /// The step counter is listening: in telemetry mode, and whenever the
    /// game is in its Walk stage.
    pub open spec fn counting_steps(self) -> bool {
        self.mode == Mode::Telemetry || self.game.stage == Stage::Walk
    }

    /// The engine after the accelerometer was read at `now_ms`. Without a
    /// fresh sample nothing changes.
    pub open spec fn sampled(self, now_ms: u64, accel: Option<Accel>) -> AppState {
        match accel {
            Some(sample) => AppState {
                accel: sample,
                motion: if self.counting_steps() {
                    self.motion.observed(now_ms, sample)
                } else {
                    self.motion
                },
                ..self
            },
            None => self,
        }
    }

    /// The engine after the active mode was served at `now_ms` with the
    /// button reading `pressed`.
    pub open spec fn served(self, now_ms: u64, pressed: bool) -> AppState {
        match self.mode {
            Mode::Telemetry => AppState { buzzer: self.buzzer.silenced(), ..self },
            Mode::Game => AppState {
                game: self.game.ticked(
                    now_ms,
                    pressed,
                    self.motion.steps,
                    self.buzzer.ticked(now_ms).on,
                ),
                buzzer: self.game.buzzer_ticked(now_ms, pressed, self.buzzer.ticked(now_ms)),
                ..self
            },
            Mode::FreeformMorse => AppState {
                freeform: self.freeform.ticked(now_ms, pressed),
                buzzer: match self.freeform.event(now_ms, pressed).tone_ms() {
                    Some(tone_ms) => self.buzzer.ticked(now_ms).started(now_ms, tone_ms),
                    None => self.buzzer.ticked(now_ms),
                },
                ..self
            },
        }
    }

    /// The engine after one tick: the menu button first, then the
    /// accelerometer, then the active mode.
    pub open spec fn ticked(
        self,
        now_ms: u64,
        button_pressed: bool,
        menu_pressed: bool,
        accel: Option<Accel>,
    ) -> AppState {
        self.switched(menu_pressed).sampled(now_ms, accel).served(now_ms, button_pressed)
    }

    /// The decoder that the active mode shows: the one of free practice in
    /// that mode, the one of the game in the others.
    pub open spec fn shown_decoder(self) -> DecoderState {
        if self.mode == Mode::FreeformMorse {
            self.freeform
        } else {
            self.game.decoder
        }
    }
}

/// The engine.
pub struct App {
    mode: Mode,
    game: Game,
    motion: StepCounter,
    freeform: MorseDecoder,
    buzzer: Buzzer,
    menu_button_down: bool,
    accel: Accel,
}

impl View for App {
    type V = AppState;

    closed spec fn view(&self) -> AppState {
        AppState {
            mode: self.mode,
            game: self.game@,
            motion: self.motion@,
            freeform: self.freeform@,
            buzzer: self.buzzer@,
            menu_button_down: self.menu_button_down,
            accel: self.accel,
        }
    }
}

impl App {
    /// An engine around the given game.
    fn around(game: Game) -> (app: Self)
        ensures
            app@ == (AppState { game: game@, ..AppState::initial(None) }),
    {
        App {
            mode: Mode::Game,
            game,
            motion: StepCounter::new(),
            freeform: MorseDecoder::new(),
            buzzer: Buzzer::new(),
            menu_button_down: false,
            accel: Accel::new(0, 0, 0),
        }
    }

    /// An engine in game mode at level 0. The generator of the game is seeded
    /// from the clock when the first level is set up.
    pub fn new() -> (app: Self)
        ensures
            app@ == AppState::initial(None),
    {
        App::around(Game::new())
    }

    /// An engine in game mode at level 0 whose game draws from a generator in
    /// the state `seed`, so that a run can be reproduced.
    pub fn with_seed(seed: u32) -> (app: Self)
        ensures
            app@ == AppState::initial(Some(seed)),
    {
        App::around(Game::with_seed(seed))
    }

    /// Moves on to the next mode and resets what is transient.
    fn toggle_mode(&mut self)
        ensures
            final(self)@ == (AppState {
                mode: old(self)@.mode.next(),
                game: old(self)@.game.interrupted(),
                freeform: old(self)@.freeform.interrupted(),
                buzzer: old(self)@.buzzer.silenced(),
                ..old(self)@
            }),
    {
        self.mode = self.mode.toggled();
        self.game.interrupt();
        self.freeform.interrupt();
        self.buzzer.silence();
    }

    /// Shows the step counter a sample, if it is listening.
    fn update_steps(&mut self, now_ms: u64, sample: Accel)
        ensures
            final(self)@ == old(self)@.sampled(now_ms, Some(sample)),
    {
        self.accel = sample;
        if self.mode == Mode::Telemetry || self.game.stage() == Stage::Walk {
            self.motion.observe(now_ms, sample);
        }
    }

    /// One tick of the engine, called once per poll iteration: `now_ms` is
    /// the clock, `button_pressed` and `menu_pressed` are the two buttons, and
    /// `accel` is a fresh accelerometer sample if there is one.
    pub fn tick(
        &mut self,
        now_ms: u64,
        button_pressed: bool,
        menu_pressed: bool,
        accel: Option<Accel>,
    )
        ensures
            final(self)@ == old(self)@.ticked(now_ms, button_pressed, menu_pressed, accel),
    {
        if menu_pressed && !self.menu_button_down {
            self.menu_button_down = true;
            self.toggle_mode();
        } else if !menu_pressed {
            self.menu_button_down = false;
        }
        if let Some(sample) = accel {
            self.update_steps(now_ms, sample);
        }
        match self.mode {
            Mode::Telemetry => {
                self.buzzer.silence();
            },
            Mode::Game => {
                self.buzzer.tick(now_ms);
                let steps = self.motion.steps();
                self.game.tick(now_ms, button_pressed, steps, &mut self.buzzer);
            },
            Mode::FreeformMorse => {
                self.buzzer.tick(now_ms);
                let event = self.freeform.tick(now_ms, button_pressed);
                if let Some(tone_ms) = event.tone() {
                    self.buzzer.start(now_ms, tone_ms);
                }
            },
        }
    }

    /// Whether the tone sounds; the caller drives the tone output by it.
    pub fn buzzer_on(&self) -> (on: bool)
        ensures
            on == self@.buzzer.on,
    {
        self.buzzer.is_on()
    }

    /// The active mode.
    pub fn mode(&self) -> (mode: Mode)
        ensures
            mode == self@.mode,
    {
        self.mode
    }

    /// The active stage of the game.
    pub fn stage(&self) -> (stage: Stage)
        ensures
            stage == self@.game.stage,
    {
        self.game.stage()
    }

    /// Index of the current level of the game.
    pub fn level(&self) -> (level: usize)
        ensures
            level == self@.game.level,
    {
        self.game.level()
    }

    /// Marks keyed for the letter in progress, in the decoder that the
    /// active mode shows.
    pub fn symbol(&self) -> (symbol: &[char])
        ensures
            symbol@ == self@.shown_decoder().symbol,
    {
        if self.mode == Mode::FreeformMorse {
            self.freeform.symbol()
        } else {
            self.game.decoder().symbol()
        }
    }

    /// Letters decoded so far, in the decoder that the active mode shows.
    pub fn output(&self) -> (output: &[char])
        ensures
            output@ == self@.shown_decoder().output,
    {
        if self.mode == Mode::FreeformMorse {
            self.freeform.output()
        } else {
            self.game.decoder().output()
        }
    }

    /// The word of the current level, or nothing once the levels are
    /// exhausted.
    pub fn target_word(&self) -> (word: Option<&'static str>)
        ensures
            word is Some <==> self@.game.level < LEVEL_COUNT,
            word matches Some(text) ==> target_word(self@.game.level) == Some(text@),
    {
        self.game.target_word()
    }

    /// Direction that the Walk stage hints at.
    pub fn hint(&self) -> (hint: Hint)
        ensures
            hint == self@.game.hint,
    {
        self.game.hint()
    }

    /// Steps still to walk in the current level.
    pub fn steps_remaining(&self) -> (left: u32)
        ensures
            left == self@.game.steps_left(self@.motion.steps),
    {
        self.game.steps_remaining(self.motion.steps())
    }

    /// Steps counted so far.
    pub fn steps(&self) -> (steps: u32)
        ensures
            steps == self@.motion.steps,
    {
        self.motion.steps()
    }

    /// The last accelerometer sample.
    pub fn accel(&self) -> (accel: Accel)
        ensures
            accel == self@.accel,
    {
        self.accel
    }

    /// Time spent in the Intro stage at its last tick.
    pub fn intro_elapsed_ms(&self) -> (elapsed_ms: u64)
        ensures
            elapsed_ms == self@.game.intro_elapsed_ms,
    {
        self.game.intro_elapsed_ms()
    }
}

} // verus!
