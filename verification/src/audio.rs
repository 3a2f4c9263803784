//! Single-slot tone scheduler.
//!
//! The buzzer holds at most one tone at a time: a flag saying whether the tone
//! sounds and the timestamp at which it ends. Arming a tone while another one
//! sounds overwrites the expiry, so the last request wins and an overlapping
//! request can shorten a tone that is in progress.

use crate::clock::expiry;
use vstd::prelude::*;

verus! {

/// Mathematical model of a [`Buzzer`].
pub struct BuzzerState {
    /// The tone sounds.
    pub on: bool,
    /// The tone ends once the clock reaches this timestamp.
    pub until_ms: u64,
}

impl BuzzerState {
    /// The silent slot a buzzer starts with.
    pub open spec fn silent() -> BuzzerState {
        BuzzerState { on: false, until_ms: 0 }
    }

    /// The slot after a tone of `duration_ms` was armed at `now_ms`; what it
    /// held before is lost.
    pub open spec fn started(self, now_ms: u64, duration_ms: u64) -> BuzzerState {
        BuzzerState { on: true, until_ms: expiry(now_ms, duration_ms) }
    }

    /// The slot after the clock was shown to it: the tone ends once `now_ms`
    /// has reached its expiry.
    pub open spec fn ticked(self, now_ms: u64) -> BuzzerState {
        BuzzerState { on: self.on && now_ms < self.until_ms, until_ms: self.until_ms }
    }

    /// The slot forced off; the stale expiry stays.
    pub open spec fn silenced(self) -> BuzzerState {
        BuzzerState { on: false, until_ms: self.until_ms }
    }

    /// The slot holding a tone that has no natural end.
    pub open spec fn held(self) -> BuzzerState {
        BuzzerState { on: true, until_ms: u64::MAX }
    }
}

/// The single tone slot.
pub struct Buzzer {
    on: bool,
    until_ms: u64,
}

impl View for Buzzer {
    type V = BuzzerState;

    closed spec fn view(&self) -> BuzzerState {
        BuzzerState { on: self.on, until_ms: self.until_ms }
    }
}

impl Buzzer {
    /// A silent buzzer.
    pub fn new() -> (buzzer: Self)
        ensures
            buzzer@ == BuzzerState::silent(),
    {
        Buzzer { on: false, until_ms: 0 }
    }

    /// Arms a tone that lasts until `now_ms + duration_ms`, whatever sounded before.
    pub fn start(&mut self, now_ms: u64, duration_ms: u64)
        ensures
            final(self)@ == old(self)@.started(now_ms, duration_ms),
    {
        self.on = true;
        self.until_ms = now_ms.saturating_add(duration_ms);
    }

    /// Ends the tone once `now_ms` has reached its expiry.
    pub fn tick(&mut self, now_ms: u64)
        ensures
            final(self)@ == old(self)@.ticked(now_ms),
    {
        if self.on && now_ms >= self.until_ms {
            self.on = false;
        }
    }

    /// Forces the tone off at once.
    pub fn silence(&mut self)
        ensures
            final(self)@ == old(self)@.silenced(),
    {
        self.on = false;
    }

    /// Arms a tone without a natural end; only [`Buzzer::silence`] or a later
    /// [`Buzzer::start`] replaces it.
    pub fn hold(&mut self)
        ensures
            final(self)@ == old(self)@.held(),
    {
        self.on = true;
        self.until_ms = u64::MAX;
    }

    /// Whether the tone sounds.
    pub fn is_on(&self) -> (on: bool)
        ensures
            on == self@.on,
    {
        self.on
    }

    /// The timestamp at which the tone ends.
    pub fn until_ms(&self) -> (until_ms: u64)
        ensures
            until_ms == self@.until_ms,
    {
        self.until_ms
    }
}

/// Last write wins: a second request overwrites the first, so after two
/// `start` calls the slot is what the second call alone would have left.
pub proof fn lemma_last_start_wins(
    slot: BuzzerState,
    now1: u64,
    duration1: u64,
    now2: u64,
    duration2: u64,
)
    ensures
        slot.started(now1, duration1).started(now2, duration2) == slot.started(now2, duration2),
{
}

/// A tone armed at `now_ms` sounds at exactly the instants before its expiry:
/// before `now_ms + duration_ms`, or before the largest timestamp where that
/// sum does not fit.
pub proof fn lemma_tone_window(slot: BuzzerState, now_ms: u64, duration_ms: u64, later_ms: u64)
    ensures
        slot.started(now_ms, duration_ms).ticked(later_ms).on <==> later_ms < expiry(
            now_ms,
            duration_ms,
        ),
        now_ms + duration_ms <= u64::MAX ==> (slot.started(now_ms, duration_ms).ticked(later_ms).on
            <==> later_ms < now_ms + duration_ms),
{
}

/// Once a tick has ended a tone, no later tick brings it back.
pub proof fn lemma_ended_tone_stays_off(slot: BuzzerState, now1: u64, now2: u64)
    requires
        !slot.ticked(now1).on,
    ensures
        !slot.ticked(now1).ticked(now2).on,
{
}

/// A held tone survives every tick before the largest timestamp.
pub proof fn lemma_held_tone_persists(slot: BuzzerState, now_ms: u64)
    requires
        now_ms < u64::MAX,
    ensures
        slot.held().ticked(now_ms) == slot.held(),
{
}

} // verus!
