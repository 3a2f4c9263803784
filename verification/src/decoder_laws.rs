//! Laws of the input classifier, stated over its model and proved.

use crate::decoder::{DecoderState, KeyEvent, WORD_GAP_MS};
use crate::morse::{decode, mark_for, DASH, DOT, DOT_DASH_MS};
use vstd::prelude::*;

verus! {

/// A press that ends keys a dot if and only if it was held for less than the
/// boundary; a press held for exactly the boundary keys a dash.
pub proof fn lemma_release_keys_mark(decoder: DecoderState, now_ms: u64)
    requires
        decoder.button_down,
    ensures
        decoder.event(now_ms, false) == KeyEvent::Dot <==> decoder.held_ms(now_ms) < DOT_DASH_MS,
        decoder.event(now_ms, false) == KeyEvent::Dash <==> decoder.held_ms(now_ms) >= DOT_DASH_MS,
        decoder.held_ms(now_ms) < DOT_DASH_MS ==> decoder.ticked(now_ms, false).symbol
            == decoder.symbol.push(DOT),
        decoder.held_ms(now_ms) >= DOT_DASH_MS ==> decoder.ticked(now_ms, false).symbol
            == decoder.symbol.push(DASH),
        decoder.ticked(now_ms, false).output == decoder.output,
{
}

/// An idle gap that reaches the word gap, with letters decoded and no symbol
/// in progress, arms the flag and changes nothing else.
pub proof fn lemma_word_gap_arms_flag(decoder: DecoderState, now_ms: u64)
    requires
        !decoder.button_down,
        decoder.symbol.len() == 0,
        decoder.output.len() > 0,
        decoder.gap_ms(now_ms) >= WORD_GAP_MS,
    ensures
        decoder.ticked(now_ms, false) == (DecoderState { clear_on_next_letter: true, ..decoder }),
{
}

/// While the flag is armed, a tick either completes a letter, which then is
/// all of the output, or leaves the output as it was and the flag armed.
pub proof fn lemma_armed_letter_replaces(decoder: DecoderState, now_ms: u64, pressed: bool)
    requires
        decoder.clear_on_next_letter,
    ensures
        !pressed && decoder.letter_due(now_ms) ==> decoder.ticked(now_ms, pressed).output
            == seq![decode(decoder.symbol)],
        !(!pressed && decoder.letter_due(now_ms)) ==> decoder.ticked(now_ms, pressed).output
            == decoder.output && decoder.ticked(now_ms, pressed).clear_on_next_letter,
{
}

/// While the flag is down, a tick either completes a letter, which is
/// appended to the output, or leaves the output as it was.
pub proof fn lemma_unarmed_letter_appends(decoder: DecoderState, now_ms: u64, pressed: bool)
    requires
        !decoder.clear_on_next_letter,
    ensures
        !pressed && decoder.letter_due(now_ms) ==> decoder.ticked(now_ms, pressed).output
            == decoder.output.push(decode(decoder.symbol)),
        !(!pressed && decoder.letter_due(now_ms)) ==> decoder.ticked(now_ms, pressed).output
            == decoder.output,
{
}

/// A symbol never outlives its letter: the tick that completes a letter
/// leaves no symbol in progress, and any other tick that changes the symbol
/// appends one mark to it.
pub proof fn lemma_symbol_lifetime(decoder: DecoderState, now_ms: u64, pressed: bool)
    ensures
        !pressed && decoder.letter_due(now_ms) ==> decoder.ticked(now_ms, pressed).symbol.len()
            == 0,
        !(!pressed && decoder.letter_due(now_ms)) ==> decoder.ticked(now_ms, pressed).symbol
            == decoder.symbol || decoder.ticked(now_ms, pressed).symbol == decoder.symbol.push(
            mark_for(decoder.held_ms(now_ms)),
        ),
{
}

/// One frame of input: the clock and the button as one tick reads them.
pub struct Frame {
    pub now_ms: u64,
    pub pressed: bool,
}

/// The decoder after it was shown the frames one by one, oldest first.
pub open spec fn run(decoder: DecoderState, frames: Seq<Frame>) -> DecoderState
    decreases frames.len(),
{
    if frames.len() == 0 {
        decoder
    } else {
        run(decoder, frames.drop_last()).ticked(frames.last().now_ms, frames.last().pressed)
    }
}

/// The frame completes a letter of the decoder.
pub open spec fn completes_letter(decoder: DecoderState, frame: Frame) -> bool {
    !frame.pressed && decoder.letter_due(frame.now_ms)
}

/// None of the frames completes a letter when the decoder is shown them one
/// by one.
pub open spec fn completes_no_letter(decoder: DecoderState, frames: Seq<Frame>) -> bool {
    forall|i: int|
        0 <= i < frames.len() ==> !completes_letter(
            #[trigger] run(decoder, frames.take(i)),
            frames[i],
        )
}

/// As long as no letter is completed, an armed flag stays armed and the
/// output stays as it was, however many frames pass and whatever the button
/// does in them.
pub proof fn lemma_flag_waits_for_letter(decoder: DecoderState, frames: Seq<Frame>)
    requires
        decoder.clear_on_next_letter,
        completes_no_letter(decoder, frames),
    ensures
        run(decoder, frames).clear_on_next_letter,
        run(decoder, frames).output == decoder.output,
    decreases frames.len(),
{
    if frames.len() > 0 {
        let earlier = frames.drop_last();
        assert forall|i: int| 0 <= i < earlier.len() implies !completes_letter(
            #[trigger] run(decoder, earlier.take(i)),
            earlier[i],
        ) by {
            assert(earlier.take(i) == frames.take(i));
            assert(!completes_letter(run(decoder, frames.take(i)), frames[i]));
        }
        lemma_flag_waits_for_letter(decoder, earlier);
        let last = frames.len() - 1;
        assert(frames.take(last) == earlier);
        assert(!completes_letter(run(decoder, frames.take(last)), frames[last]));
        lemma_armed_letter_replaces(
            run(decoder, earlier),
            frames.last().now_ms,
            frames.last().pressed,
        );
    }
}

/// After a word gap, the next completed letter replaces the prior output
/// instead of being appended to it. Given letters decoded, no symbol in
/// progress and an idle gap that has reached the word gap at `idle_ms`: when
/// any frames follow that complete no letter, and then a frame that does,
/// the output after that frame is the one new letter alone.
pub proof fn lemma_next_letter_replaces_output(
    decoder: DecoderState,
    idle_ms: u64,
    frames: Seq<Frame>,
    closing: Frame,
)
    requires
        !decoder.button_down,
        decoder.symbol.len() == 0,
        decoder.output.len() > 0,
        decoder.gap_ms(idle_ms) >= WORD_GAP_MS,
        completes_no_letter(decoder.ticked(idle_ms, false), frames),
        completes_letter(run(decoder.ticked(idle_ms, false), frames), closing),
    ensures
        ({
            let before = run(decoder.ticked(idle_ms, false), frames);
            let after = before.ticked(closing.now_ms, closing.pressed);
            &&& before.output == decoder.output
            &&& after.output == seq![decode(before.symbol)]
            &&& after.symbol.len() == 0
        }),
{
    let armed = decoder.ticked(idle_ms, false);
    lemma_word_gap_arms_flag(decoder, idle_ms);
    lemma_flag_waits_for_letter(armed, frames);
    lemma_armed_letter_replaces(run(armed, frames), closing.now_ms, closing.pressed);
}

} // verus!
