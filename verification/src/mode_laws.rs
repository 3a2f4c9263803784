//! Laws of the mode switch, stated over its model and proved.

use crate::game::Stage;
use crate::mode::{AppState, Mode};
use crate::motion::Accel;
use crate::stage_laws::lemma_level_progress;
use vstd::prelude::*;

verus! {

/// The three modes form one cycle: game, telemetry, free practice, and back
/// to the game.
pub proof fn lemma_mode_cycle(mode: Mode)
    ensures
        mode.next() != mode,
        mode.next().next() != mode,
        mode.next().next().next() == mode,
        Mode::Game.next() == Mode::Telemetry,
        Mode::Telemetry.next() == Mode::FreeformMorse,
        Mode::FreeformMorse.next() == Mode::Game,
{
}

/// The mode changes on the way down of the menu button and at no other
/// time: a tick that sees the button go down moves on to the next mode, any
/// other tick keeps the mode.
pub proof fn lemma_menu_edge_switches(
    app: AppState,
    now_ms: u64,
    button_pressed: bool,
    menu_pressed: bool,
    accel: Option<Accel>,
)
    ensures
        app.ticked(now_ms, button_pressed, menu_pressed, accel).mode == if app.menu_edge(
            menu_pressed,
        ) {
            app.mode.next()
        } else {
            app.mode
        },
        app.ticked(now_ms, button_pressed, menu_pressed, accel).menu_button_down == menu_pressed,
{
}

/// A menu button that is held switches once: the second of two ticks that
/// both read it pressed keeps the mode.
pub proof fn lemma_held_menu_switches_once(
    app: AppState,
    first_ms: u64,
    second_ms: u64,
    button_first: bool,
    button_second: bool,
    accel_first: Option<Accel>,
    accel_second: Option<Accel>,
)
    ensures
        app.ticked(first_ms, button_first, true, accel_first).ticked(
            second_ms,
            button_second,
            true,
            accel_second,
        ).mode == app.ticked(first_ms, button_first, true, accel_first).mode,
{
}

/// A change of mode resets what is transient and keeps what is persistent:
/// the tone ends and the symbols in progress are gone, while the step count,
/// the level, its stage and the decoded output all stay.
pub proof fn lemma_switch_keeps_progress(app: AppState)
    requires
        !app.menu_button_down,
    ensures
        ({
            let after = app.switched(true);
            &&& !after.buzzer.on
            &&& after.game.decoder.symbol.len() == 0
            &&& after.freeform.symbol.len() == 0
            &&& after.motion == app.motion
            &&& after.game.level == app.game.level
            &&& after.game.stage == app.game.stage
            &&& after.game.target_steps == app.game.target_steps
            &&& after.game.rng == app.game.rng
            &&& after.game.decoder.output == app.game.decoder.output
            &&& after.freeform.output == app.freeform.output
        }),
{
}

/// In telemetry mode the game, the decoders and the tone are suppressed:
/// after a tick that ends in this mode the buzzer is off, and the game and
/// the decoders are as the menu button left them.
pub proof fn lemma_telemetry_suppresses(
    app: AppState,
    now_ms: u64,
    button_pressed: bool,
    menu_pressed: bool,
    accel: Option<Accel>,
)
    requires
        app.switched(menu_pressed).mode == Mode::Telemetry,
    ensures
        !app.ticked(now_ms, button_pressed, menu_pressed, accel).buzzer.on,
        app.ticked(now_ms, button_pressed, menu_pressed, accel).game == app.switched(
            menu_pressed,
        ).game,
        app.ticked(now_ms, button_pressed, menu_pressed, accel).freeform == app.switched(
            menu_pressed,
        ).freeform,
{
}

/// In telemetry mode the step counter keeps running: every fresh sample is
/// shown to it.
pub proof fn lemma_telemetry_counts_steps(
    app: AppState,
    now_ms: u64,
    button_pressed: bool,
    menu_pressed: bool,
    sample: Accel,
)
    requires
        app.switched(menu_pressed).mode == Mode::Telemetry,
    ensures
        app.ticked(now_ms, button_pressed, menu_pressed, Some(sample)).motion
            == app.motion.observed(now_ms, sample),
{
}

/// Free practice is pure decoding: a tick that ends in this mode shows the
/// button to the practice decoder and leaves the game without any stage
/// progression.
pub proof fn lemma_freeform_decodes_only(
    app: AppState,
    now_ms: u64,
    button_pressed: bool,
    menu_pressed: bool,
    accel: Option<Accel>,
)
    requires
        app.switched(menu_pressed).mode == Mode::FreeformMorse,
    ensures
        app.ticked(now_ms, button_pressed, menu_pressed, accel).game == app.switched(
            menu_pressed,
        ).game,
        app.ticked(now_ms, button_pressed, menu_pressed, accel).freeform == app.switched(
            menu_pressed,
        ).freeform.ticked(now_ms, button_pressed),
{
}

/// In game mode the practice decoder rests.
pub proof fn lemma_game_mode_rests_practice(
    app: AppState,
    now_ms: u64,
    button_pressed: bool,
    menu_pressed: bool,
    accel: Option<Accel>,
)
    requires
        app.switched(menu_pressed).mode == Mode::Game,
    ensures
        app.ticked(now_ms, button_pressed, menu_pressed, accel).freeform == app.switched(
            menu_pressed,
        ).freeform,
{
}

/// The step count never goes down, one tick raises it by at most one, and a
/// tick without a fresh sample leaves the step counter as it was.
pub proof fn lemma_steps_never_decrease(
    app: AppState,
    now_ms: u64,
    button_pressed: bool,
    menu_pressed: bool,
    accel: Option<Accel>,
)
    ensures
        app.motion.steps <= app.ticked(now_ms, button_pressed, menu_pressed, accel).motion.steps
            <= app.motion.steps + 1,
        accel is None ==> app.ticked(now_ms, button_pressed, menu_pressed, accel).motion
            == app.motion,
{
}

/// The walk ends on the same tick that counts its last step: in game mode,
/// a sample that brings the steps walked up to the target moves the stage
/// from Walk to Stop before the tick is over.
pub proof fn lemma_walk_ends_on_counting_tick(
    app: AppState,
    now_ms: u64,
    button_pressed: bool,
    accel: Option<Accel>,
)
    requires
        app.mode == Mode::Game,
        app.game.stage == Stage::Walk,
    ensures
        ({
            let steps = app.sampled(now_ms, accel).motion.steps;
            let after = app.ticked(now_ms, button_pressed, false, accel);
            &&& after.game.stage == if app.game.walked(steps) >= app.game.target_steps {
                Stage::Stop
            } else {
                Stage::Walk
            }
            &&& after.game.stage == Stage::Stop ==> after.game.stop_time_ms == now_ms
        }),
{
}

/// Once all levels are completed the buzzer sounds without end: in game
/// mode, a tick that starts in the terminal stage and sees no press of the
/// menu button stays in the terminal stage and leaves the buzzer on.
pub proof fn lemma_complete_keeps_buzzing(
    app: AppState,
    now_ms: u64,
    button_pressed: bool,
    menu_pressed: bool,
    accel: Option<Accel>,
)
    requires
        app.mode == Mode::Game,
        app.game.stage == Stage::Complete,
        !app.menu_edge(menu_pressed),
    ensures
        app.ticked(now_ms, button_pressed, menu_pressed, accel).mode == Mode::Game,
        app.ticked(now_ms, button_pressed, menu_pressed, accel).game.stage == Stage::Complete,
        app.ticked(now_ms, button_pressed, menu_pressed, accel).buzzer.on,
{
}

/// Only a change of mode ends the tone of the terminal stage: the tick that
/// sees the menu button go down leaves the game mode with the buzzer off and
/// the game still in its terminal stage.
pub proof fn lemma_mode_switch_ends_final_tone(
    app: AppState,
    now_ms: u64,
    button_pressed: bool,
    accel: Option<Accel>,
)
    requires
        app.mode == Mode::Game,
        app.game.stage == Stage::Complete,
        !app.menu_button_down,
    ensures
        app.ticked(now_ms, button_pressed, true, accel).mode == Mode::Telemetry,
        !app.ticked(now_ms, button_pressed, true, accel).buzzer.on,
        app.ticked(now_ms, button_pressed, true, accel).game.stage == Stage::Complete,
{
}

/// The stage of the game changes in game mode only.
pub proof fn lemma_stage_moves_in_game_mode_only(
    app: AppState,
    now_ms: u64,
    button_pressed: bool,
    menu_pressed: bool,
    accel: Option<Accel>,
)
    ensures
        app.ticked(now_ms, button_pressed, menu_pressed, accel).game.stage != app.game.stage
            ==> app.ticked(now_ms, button_pressed, menu_pressed, accel).mode == Mode::Game,
{
}

/// What one tick reads: the clock, the two buttons and the accelerometer.
pub struct Input {
    pub now_ms: u64,
    pub button_pressed: bool,
    pub menu_pressed: bool,
    pub accel: Option<Accel>,
}

/// The engine after it was ticked with the inputs one by one, oldest first.
pub open spec fn run(app: AppState, inputs: Seq<Input>) -> AppState
    decreases inputs.len(),
{
    if inputs.len() == 0 {
        app
    } else {
        run(app, inputs.drop_last()).ticked(
            inputs.last().now_ms,
            inputs.last().button_pressed,
            inputs.last().menu_pressed,
            inputs.last().accel,
        )
    }
}

/// None of the ticks sees the menu button go down.
pub open spec fn menu_stays_quiet(app: AppState, inputs: Seq<Input>) -> bool {
    forall|i: int|
        0 <= i < inputs.len() ==> !(#[trigger] run(app, inputs.take(i))).menu_edge(
            inputs[i].menu_pressed,
        )
}

/// Once all levels are completed the buzzer stays on for as long as no
/// change of mode occurs: from the terminal stage in game mode, after any
/// number of ticks of which none sees the menu button go down, whatever else
/// they read, the game is still in its terminal stage and the buzzer is on.
pub proof fn lemma_final_tone_lasts(app: AppState, inputs: Seq<Input>)
    requires
        app.mode == Mode::Game,
        app.game.stage == Stage::Complete,
        menu_stays_quiet(app, inputs),
    ensures
        run(app, inputs).mode == Mode::Game,
        run(app, inputs).game.stage == Stage::Complete,
        run(app, inputs).game.level == app.game.level,
        inputs.len() > 0 ==> run(app, inputs).buzzer.on,
    decreases inputs.len(),
{
    if inputs.len() > 0 {
        let earlier = inputs.drop_last();
        assert forall|i: int| 0 <= i < earlier.len() implies !(#[trigger] run(
            app,
            earlier.take(i),
        )).menu_edge(earlier[i].menu_pressed) by {
            assert(earlier.take(i) == inputs.take(i));
        }
        lemma_final_tone_lasts(app, earlier);
        let last = inputs.len() - 1;
        assert(inputs.take(last) == earlier);
        assert(!run(app, inputs.take(last)).menu_edge(inputs[last].menu_pressed));
        lemma_complete_keeps_buzzing(
            run(app, earlier),
            inputs.last().now_ms,
            inputs.last().button_pressed,
            inputs.last().menu_pressed,
            inputs.last().accel,
        );
    }
}

/// The step count never goes down over any run of ticks.
pub proof fn lemma_steps_monotonic_over_run(app: AppState, inputs: Seq<Input>)
    ensures
        run(app, inputs).motion.steps >= app.motion.steps,
        run(app, inputs).game.level >= app.game.level,
    decreases inputs.len(),
{
    if inputs.len() > 0 {
        lemma_steps_monotonic_over_run(app, inputs.drop_last());
        lemma_steps_never_decrease(
            run(app, inputs.drop_last()),
            inputs.last().now_ms,
            inputs.last().button_pressed,
            inputs.last().menu_pressed,
            inputs.last().accel,
        );
        let before = run(app, inputs.drop_last()).switched(inputs.last().menu_pressed).sampled(
            inputs.last().now_ms,
            inputs.last().accel,
        );
        lemma_level_progress(
            before.game,
            inputs.last().now_ms,
            inputs.last().button_pressed,
            before.motion.steps,
            before.buzzer.ticked(inputs.last().now_ms).on,
        );
    }
}

} // verus!
