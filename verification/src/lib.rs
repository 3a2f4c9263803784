//! Core of a handheld walking-and-Morse game: a real-time input decoder and a
//! game-stage engine driven by one non-blocking tick per poll iteration.
//!
//! The player walks a target number of steps, counted from accelerometer
//! samples, then spells a word in Morse code by holding a single button for
//! short and long presses. Nothing here blocks or touches hardware: the
//! caller polls, ticks the engine and drives the buzzer from what the engine
//! reports.
//!
//! - [`mode`]: the engine, [`App`], which switches between the game, raw
//!   telemetry and free Morse practice.
//! - [`game`]: the stage machine of a level.
//! - [`decoder`] and [`morse`]: from button timing to marks and letters.
//! - [`motion`]: step counting.
//! - [`audio`]: the single-slot buzzer.
//! - [`rng`], [`levels`], [`clock`]: the generator, the level table and
//!   clamped time arithmetic.
//! - [`decoder_laws`], [`stage_laws`], [`mode_laws`]: what holds of the
//!   models, proved.
//! - [`deck`] and [`font`]: vocabulary and font layout of the display.

pub mod audio;
pub mod clock;
pub mod deck;
pub mod decoder;
pub mod decoder_laws;
pub mod font;
pub mod game;
pub mod levels;
pub mod mode;
pub mod mode_laws;
pub mod morse;
pub mod motion;
pub mod rng;
pub mod stage_laws;

pub use mode::App;
