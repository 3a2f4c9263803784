//! The input classifier: from the timing of one push-button to marks, letters
//! and a buffer of decoded output.
//!
//! The decoder is shown the clock and the button once per frame. A press that
//! ends keys a dot or a dash by how long it was held. While the button is up,
//! a letter gap closes the symbol into a letter, and a word gap arms a flag
//! that makes the next letter wipe the output before it is appended.

use crate::clock::elapsed;
use crate::morse::{classify, decode, decode_morse, mark_for, DOT, DOT_DASH_MS};
use vstd::prelude::*;

verus! {

/// Idle time after a release that closes the symbol into a letter.
pub const LETTER_GAP_MS: u64 = 500;

/// Idle time after a release that marks the start of a new word.
pub const WORD_GAP_MS: u64 = 1200;

/// Length of the tone that answers a dot.
pub const DOT_TONE_MS: u64 = 60;

/// Length of the tone that answers a dash.
pub const DASH_TONE_MS: u64 = 180;

/// What the decoder saw of the button in one tick.
#[derive(Clone, Copy, Debug, PartialEq, Eq, Structural)]
pub enum KeyEvent {
    /// No edge: the button is still held, or still up.
    Idle,
    /// The button went down.
    Pressed,
    /// The button came up after a short press.
    Dot,
    /// The button came up after a long press.
    Dash,
}

impl KeyEvent {
    /// Length of the tone that answers the event, if it is answered by one.
    pub open spec fn tone_ms(self) -> Option<u64> {
        match self {
            KeyEvent::Dot => Some(DOT_TONE_MS),
            KeyEvent::Dash => Some(DASH_TONE_MS),
            _ => None,
        }
    }

    /// Length of the tone that answers the event, if it is answered by one.
    pub fn tone(&self) -> (tone: Option<u64>)
        ensures
            tone == self.tone_ms(),
    {
        match self {
            KeyEvent::Dot => Some(DOT_TONE_MS),
            KeyEvent::Dash => Some(DASH_TONE_MS),
            _ => None,
        }
    }
}

/// Mathematical model of a [`MorseDecoder`].
pub struct DecoderState {
    /// Marks keyed for the letter in progress.
    pub symbol: Seq<char>,
    /// Letters decoded so far, oldest first.
    pub output: Seq<char>,
    /// The button was down at the last tick.
    pub button_down: bool,
    /// Timestamp of the last press.
    pub last_press_ms: u64,
    /// Timestamp of the last release.
    pub last_release_ms: u64,
    /// The next completed letter wipes the output before it is appended.
    pub clear_on_next_letter: bool,
}

impl DecoderState {
    /// The decoder at start-up.
    pub open spec fn initial() -> DecoderState {
        DecoderState {
            symbol: Seq::empty(),
            output: Seq::empty(),
            button_down: false,
            last_press_ms: 0,
            last_release_ms: 0,
            clear_on_next_letter: false,
        }
    }

    /// How long the press that ends at `now_ms` was held.
    pub open spec fn held_ms(self, now_ms: u64) -> u64 {
        elapsed(now_ms, self.last_press_ms)
    }

    /// How long the button has been idle at `now_ms`.
    pub open spec fn gap_ms(self, now_ms: u64) -> u64 {
        elapsed(now_ms, self.last_release_ms)
    }

    /// What a tick at `now_ms` with the button reading `pressed` sees.
    pub open spec fn event(self, now_ms: u64, pressed: bool) -> KeyEvent {
        if pressed && !self.button_down {
            KeyEvent::Pressed
        } else if !pressed && self.button_down {
            if self.held_ms(now_ms) < DOT_DASH_MS {
                KeyEvent::Dot
            } else {
                KeyEvent::Dash
            }
        } else {
            KeyEvent::Idle
        }
    }

    /// The decoder after the button went down at `now_ms`.
    pub open spec fn after_press(self, now_ms: u64) -> DecoderState {
        DecoderState { button_down: true, last_press_ms: now_ms, ..self }
    }

    /// The decoder after the button came up at `now_ms`: the press is keyed
    /// as a mark and the idle gap starts.
    pub open spec fn after_release(self, now_ms: u64) -> DecoderState {
        DecoderState {
            symbol: self.symbol.push(mark_for(self.held_ms(now_ms))),
            button_down: false,
            last_release_ms: now_ms,
            ..self
        }
    }

    /// At `now_ms` the symbol in progress has waited out the letter gap.
    pub open spec fn letter_due(self, now_ms: u64) -> bool {
        !self.button_down && self.symbol.len() > 0 && self.gap_ms(now_ms) >= LETTER_GAP_MS
    }

    /// The decoder after the symbol was closed into a letter: the letter is
    /// appended to the output, or replaces it where the flag was armed.
    pub open spec fn after_letter(self) -> DecoderState {
        DecoderState {
            symbol: Seq::empty(),
            output: if self.clear_on_next_letter {
                seq![decode(self.symbol)]
            } else {
                self.output.push(decode(self.symbol))
            },
            clear_on_next_letter: false,
            ..self
        }
    }

    /// At `now_ms` the button has idled through the word gap with letters
    /// decoded and no symbol in progress.
    pub open spec fn word_due(self, now_ms: u64) -> bool {
        !self.button_down && self.symbol.len() == 0 && self.output.len() > 0 && self.gap_ms(now_ms)
            >= WORD_GAP_MS
    }

    /// The decoder after a tick at `now_ms` without an edge: first the letter
    /// gap is applied, then the word gap.
    pub open spec fn after_idle(self, now_ms: u64) -> DecoderState {
        let closed = if self.letter_due(now_ms) {
            self.after_letter()
        } else {
            self
        };
        if closed.word_due(now_ms) {
            DecoderState { clear_on_next_letter: true, ..closed }
        } else {
            closed
        }
    }

    /// The decoder after a tick at `now_ms` with the button reading `pressed`.
    pub open spec fn ticked(self, now_ms: u64, pressed: bool) -> DecoderState {
        match self.event(now_ms, pressed) {
            KeyEvent::Pressed => self.after_press(now_ms),
            KeyEvent::Dot => self.after_release(now_ms),
            KeyEvent::Dash => self.after_release(now_ms),
            KeyEvent::Idle => self.after_idle(now_ms),
        }
    }

    /// The decoder with the button forgotten: a press in progress keys nothing.
    pub open spec fn button_dropped(self) -> DecoderState {
        DecoderState { button_down: false, ..self }
    }

    /// The decoder with the symbol in progress thrown away and the button
    /// forgotten; the output stays.
    pub open spec fn interrupted(self) -> DecoderState {
        DecoderState { symbol: Seq::empty(), button_down: false, ..self }
    }

    /// The decoder made ready for a new word: no symbol, no output, flag down,
    /// idle gap counted from the start of time.
    pub open spec fn cleared(self) -> DecoderState {
        DecoderState {
            symbol: Seq::empty(),
            output: Seq::empty(),
            clear_on_next_letter: false,
            last_release_ms: 0,
            ..self
        }
    }
}

/// The input classifier.
pub struct MorseDecoder {
    symbol: Vec<char>,
    output: Vec<char>,
    button_down: bool,
    last_press_ms: u64,
    last_release_ms: u64,
    clear_on_next_letter: bool,
}

impl View for MorseDecoder {
    type V = DecoderState;

    closed spec fn view(&self) -> DecoderState {
        DecoderState {
            symbol: self.symbol@,
            output: self.output@,
            button_down: self.button_down,
            last_press_ms: self.last_press_ms,
            last_release_ms: self.last_release_ms,
            clear_on_next_letter: self.clear_on_next_letter,
        }
    }
}

impl MorseDecoder {
    /// A decoder with nothing keyed and nothing decoded.
    pub fn new() -> (decoder: Self)
        ensures
            decoder@ == DecoderState::initial(),
    {
        MorseDecoder {
            symbol: Vec::new(),
            output: Vec::new(),
            button_down: false,
            last_press_ms: 0,
            last_release_ms: 0,
            clear_on_next_letter: false,
        }
    }

    /// Shows the decoder the clock and the button, once per frame, and says
    /// what it saw of the button.
    pub fn tick(&mut self, now_ms: u64, button_pressed: bool) -> (event: KeyEvent)
        ensures
            event == old(self)@.event(now_ms, button_pressed),
            final(self)@ == old(self)@.ticked(now_ms, button_pressed),
    {
        if button_pressed && !self.button_down {
            self.button_down = true;
            self.last_press_ms = now_ms;
            return KeyEvent::Pressed;
        }
        if !button_pressed && self.button_down {
            self.button_down = false;
            let mark = classify(now_ms.saturating_sub(self.last_press_ms));
            self.symbol.push(mark);
            self.last_release_ms = now_ms;
            return if mark == DOT {
                KeyEvent::Dot
            } else {
                KeyEvent::Dash
            };
        }
        if !self.button_down {
            let gap_ms = now_ms.saturating_sub(self.last_release_ms);
            if self.symbol.len() > 0 && gap_ms >= LETTER_GAP_MS {
                let letter = decode_morse(self.symbol.as_slice());
                if self.clear_on_next_letter {
                    self.output.clear();
                    self.clear_on_next_letter = false;
                }
                self.output.push(letter);
                self.symbol.clear();
            }
            if self.symbol.len() == 0 && gap_ms >= WORD_GAP_MS {
                if self.output.len() > 0 {
                    self.clear_on_next_letter = true;
                }
            }
        }
        assert(self@ =~= old(self)@.ticked(now_ms, button_pressed));
        KeyEvent::Idle
    }

    /// Forgets the button: a press in progress will key nothing.
    pub fn drop_button(&mut self)
        ensures
            final(self)@ == old(self)@.button_dropped(),
    {
        self.button_down = false;
    }

    /// Throws away the symbol in progress and forgets the button; the output
    /// stays.
    pub fn interrupt(&mut self)
        ensures
            final(self)@ == old(self)@.interrupted(),
    {
        self.symbol.clear();
        self.button_down = false;
    }

    /// Makes the decoder ready for a new word.
    pub fn clear(&mut self)
        ensures
            final(self)@ == old(self)@.cleared(),
    {
        self.output.clear();
        self.symbol.clear();
        self.clear_on_next_letter = false;
        self.last_release_ms = 0;
    }

    /// Marks keyed for the letter in progress.
    pub fn symbol(&self) -> (symbol: &[char])
        ensures
            symbol@ == self@.symbol,
    {
        self.symbol.as_slice()
    }

    /// Letters decoded so far, oldest first.
    pub fn output(&self) -> (output: &[char])
        ensures
            output@ == self@.output,
    {
        self.output.as_slice()
    }

    /// Whether the button was down at the last tick.
    pub fn button_down(&self) -> (down: bool)
        ensures
            down == self@.button_down,
    {
        self.button_down
    }

    /// Whether the next completed letter wipes the output.
    pub fn clear_pending(&self) -> (pending: bool)
        ensures
            pending == self@.clear_on_next_letter,
    {
        self.clear_on_next_letter
    }
}

} // verus!
