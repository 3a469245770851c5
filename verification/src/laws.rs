//! Runs of the loop, and what holds of every run.

use vstd::prelude::*;
use crate::event::{AcquireOutcome, Action, LoopInput, OverlayResponse, PlatformEvent};
use crate::orchestrator::{run, LoopState};
use crate::surface::{clamp_extent, SurfaceConfig, SurfaceState};

verus! {

/// How many of the actions ask for a frame to be acquired.
pub open spec fn acquisitions(actions: Seq<Action>) -> nat
    decreases actions.len(),
{
    if actions.len() == 0 {
        0
    } else {
        acquisitions(actions.drop_last()) + if actions.last() is AcquireFrame {
            1nat
        } else {
            0nat
        }
    }
}

/// How many of the actions let the application draw.
pub open spec fn draws(actions: Seq<Action>) -> nat
    decreases actions.len(),
{
    if actions.len() == 0 {
        0
    } else {
        draws(actions.drop_last()) + if actions.last() is ApplicationDraw {
            1nat
        } else {
            0nat
        }
    }
}

/// How many of the inputs are the event that closes a tick.
pub open spec fn drained_ticks(inputs: Seq<LoopInput>) -> nat
    decreases inputs.len(),
{
    if inputs.len() == 0 {
        0
    } else {
        drained_ticks(inputs.drop_last()) + if inputs.last() matches LoopInput::Event(
            PlatformEvent::EventsDrained,
            _,
        ) {
            1nat
        } else {
            0nat
        }
    }
}

/// Every input is a resize or a scale change that the overlay left alone.
pub open spec fn all_resizes(inputs: Seq<LoopInput>) -> bool {
    forall|k: int|
        0 <= k < inputs.len() ==> (#[trigger] inputs[k] matches LoopInput::Event(event, response)
            && event.is_resize() && !response.consumed)
}

/// The extent that the last of a run of resizes asks for.
pub open spec fn last_requested_extent(inputs: Seq<LoopInput>) -> (u32, u32)
    recommends
        inputs.len() > 0,
        all_resizes(inputs),
{
    match inputs.last() {
        LoopInput::Event(event, _) => event.requested_extent().unwrap(),
        _ => (0, 0),
    }
}

/// The surface after a sequence of resize requests.
pub open spec fn resize_all(surface: SurfaceState, sizes: Seq<(u32, u32)>) -> SurfaceState
    decreases sizes.len(),
{
    if sizes.len() == 0 {
        surface
    } else {
        resize_all(surface, sizes.drop_last()).resized(sizes.last().0, sizes.last().1)
    }
}

proof fn lemma_acquisitions_add(a: Seq<Action>, b: Seq<Action>)
    ensures
        acquisitions(a + b) == acquisitions(a) + acquisitions(b),
    decreases b.len(),
{
    if b.len() == 0 {
        assert(a + b =~= a);
    } else {
        assert((a + b).drop_last() =~= a + b.drop_last());
        lemma_acquisitions_add(a, b.drop_last());
    }
}

proof fn lemma_draws_add(a: Seq<Action>, b: Seq<Action>)
    ensures
        draws(a + b) == draws(a) + draws(b),
    decreases b.len(),
{
    if b.len() == 0 {
        assert(a + b =~= a);
    } else {
        assert((a + b).drop_last() =~= a + b.drop_last());
        lemma_draws_add(a, b.drop_last());
    }
}

proof fn lemma_count_one(a: Action)
    ensures
        acquisitions(seq![a]) == (if a is AcquireFrame { 1nat } else { 0nat }),
        draws(seq![a]) == (if a is ApplicationDraw { 1nat } else { 0nat }),
        acquisitions(Seq::<Action>::empty()) == 0,
        draws(Seq::<Action>::empty()) == 0,
{
    reveal_with_fuel(acquisitions, 2);
    reveal_with_fuel(draws, 2);
    assert(seq![a].drop_last() =~= Seq::<Action>::empty());
    assert(seq![a].last() == a);
}

/// A run over one input is the step taken on it.
pub proof fn lemma_run_one(state: LoopState, input: LoopInput)
    ensures
        run(state, seq![input]).state == state.step(input).state,
        run(state, seq![input]).actions == state.step(input).actions,
{
    reveal_with_fuel(run, 2);
    assert(seq![input].drop_last() =~= Seq::<LoopInput>::empty());
    assert(seq![input].last() == input);
    assert(Seq::<Action>::empty() + state.step(input).actions =~= state.step(input).actions);
}

/// What one step asks for, counted: a frame is acquired at most once, and
/// only on the event that closes a tick, in a loop that runs, has no frame
/// outstanding and whose overlay left the event alone; the application draws
/// at most once, and only into a frame that was asked for and acquired.
pub proof fn lemma_step_counts(state: LoopState, input: LoopInput)
    ensures
        acquisitions(state.step(input).actions) == (if input matches LoopInput::Event(
            PlatformEvent::EventsDrained,
            response,
        ) && !state.halted && !state.overlay_consumes(response) && !state.frame_outstanding {
            1nat
        } else {
            0nat
        }),
        draws(state.step(input).actions) == (if input == LoopInput::Frame(AcquireOutcome::Acquired)
            && state.frame_outstanding {
            1nat
        } else {
            0nat
        }),
{
    let empty = Seq::<Action>::empty();
    lemma_count_one(Action::RequestRedraw);
    lemma_count_one(Action::ForwardEvent);
    lemma_count_one(Action::AcquireFrame);
    lemma_count_one(Action::Exit);
    lemma_count_one(Action::ApplicationDraw);
    lemma_count_one(Action::RepaintDirty);
    lemma_count_one(Action::OverlayDraw);
    lemma_count_one(Action::SubmitAndPresent);
    lemma_count_one(Action::ReportOutOfMemory);
    match input {
        LoopInput::Event(event, response) => {
            let prefix = state.repaint_actions(response);
            assert(acquisitions(prefix) == 0 && draws(prefix) == 0);
            if !state.halted && !state.overlay_consumes(response) {
                match event {
                    PlatformEvent::Resized { width, height }
                    | PlatformEvent::ScaleChanged { width, height } => {
                        let surface = state.surface.resized(width, height);
                        let first = Action::ConfigureSurface(surface.config);
                        let second = Action::ApplicationResize {
                            width: surface.config.width,
                            height: surface.config.height,
                        };
                        lemma_count_one(first);
                        lemma_count_one(second);
                        assert(seq![first, second] =~= seq![first] + seq![second]);
                        lemma_acquisitions_add(seq![first], seq![second]);
                        lemma_draws_add(seq![first], seq![second]);
                        lemma_acquisitions_add(prefix, seq![first, second]);
                        lemma_draws_add(prefix, seq![first, second]);
                    },
                    PlatformEvent::CloseRequested | PlatformEvent::Destroyed => {
                        lemma_acquisitions_add(prefix, seq![Action::Exit]);
                        lemma_draws_add(prefix, seq![Action::Exit]);
                    },
                    PlatformEvent::RedrawRequested => {},
                    PlatformEvent::EventsDrained => {
                        let tail = if state.frame_outstanding {
                            empty
                        } else {
                            seq![Action::AcquireFrame]
                        };
                        lemma_acquisitions_add(prefix, seq![Action::ForwardEvent]);
                        lemma_draws_add(prefix, seq![Action::ForwardEvent]);
                        lemma_acquisitions_add(prefix + seq![Action::ForwardEvent], tail);
                        lemma_draws_add(prefix + seq![Action::ForwardEvent], tail);
                    },
                    PlatformEvent::Other => {
                        lemma_acquisitions_add(prefix, seq![Action::ForwardEvent]);
                        lemma_draws_add(prefix, seq![Action::ForwardEvent]);
                    },
                }
            }
        },
        LoopInput::Frame(outcome) => {
            if state.frame_outstanding {
                match outcome {
                    AcquireOutcome::Acquired => {
                        let dirty = if state.redraw.system_requested_redraw {
                            seq![Action::RepaintDirty]
                        } else {
                            empty
                        };
                        let overlay = if state.overlay {
                            seq![Action::OverlayDraw]
                        } else {
                            empty
                        };
                        let a = seq![Action::ApplicationDraw];
                        let z = seq![Action::SubmitAndPresent];
                        lemma_acquisitions_add(a, dirty);
                        lemma_draws_add(a, dirty);
                        lemma_acquisitions_add(a + dirty, overlay);
                        lemma_draws_add(a + dirty, overlay);
                        lemma_acquisitions_add(a + dirty + overlay, z);
                        lemma_draws_add(a + dirty + overlay, z);
                    },
                    AcquireOutcome::Outdated => {},
                    AcquireOutcome::Lost => {
                        lemma_count_one(Action::ConfigureSurface(state.surface.config));
                    },
                    AcquireOutcome::OutOfMemory => {
                        let a = seq![Action::ReportOutOfMemory];
                        let z = seq![Action::Exit];
                        assert(seq![Action::ReportOutOfMemory, Action::Exit] =~= a + z);
                        lemma_acquisitions_add(a, z);
                        lemma_draws_add(a, z);
                    },
                    AcquireOutcome::Other(detail) => {
                        lemma_count_one(Action::ReportDroppedFrame(detail));
                    },
                }
            }
        },
        LoopInput::Reply(keep_running) => {},
    }
}

/// Every step keeps the state well formed: the surface never holds a zero
/// extent, and no frame request is left unserved.
pub proof fn lemma_step_preserves_wf(state: LoopState, input: LoopInput)
    requires
        state.wf(),
    ensures
        state.step(input).state.wf(),
{
}

/// Every run keeps the state well formed: whatever the loop is told, the
/// surface never holds a zero extent.
pub proof fn lemma_run_preserves_wf(state: LoopState, inputs: Seq<LoopInput>)
    requires
        state.wf(),
    ensures
        run(state, inputs).state.wf(),
        run(state, inputs).state.surface.config.width >= 1,
        run(state, inputs).state.surface.config.height >= 1,
    decreases inputs.len(),
{
    if inputs.len() > 0 {
        lemma_run_preserves_wf(state, inputs.drop_last());
        lemma_step_preserves_wf(run(state, inputs.drop_last()).state, inputs.last());
    }
}

/// A run over two sequences of inputs, one after the other, is the run over
/// the first followed by the run over the second from where the first ended.
pub proof fn lemma_run_concat(state: LoopState, first: Seq<LoopInput>, second: Seq<LoopInput>)
    ensures
        run(state, first + second).state == run(run(state, first).state, second).state,
        run(state, first + second).actions == run(state, first).actions + run(
            run(state, first).state,
            second,
        ).actions,
    decreases second.len(),
{
    if second.len() == 0 {
        assert(first + second =~= first);
        assert(run(state, first).actions + Seq::<Action>::empty() =~= run(state, first).actions);
    } else {
        assert((first + second).drop_last() =~= first + second.drop_last());
        assert((first + second).last() == second.last());
        lemma_run_concat(state, first, second.drop_last());
        let middle = run(state, first).state;
        let before = run(middle, second.drop_last());
        let last = before.state.step(second.last());
        assert(run(state, first + second).actions =~= run(state, first).actions + (before.actions
            + last.actions));
    }
}

/// After any sequence of resize requests the surface holds the last request,
/// each side raised to at least one, and has been configured with it.
pub proof fn lemma_resizes_end_at_last_request(surface: SurfaceState, sizes: Seq<(u32, u32)>)
    requires
        surface.wf(),
    ensures
        resize_all(surface, sizes).wf(),
        resize_all(surface, sizes).config.present_mode == surface.config.present_mode,
        sizes.len() > 0 ==> resize_all(surface, sizes).config == (SurfaceConfig {
            width: clamp_extent(sizes.last().0),
            height: clamp_extent(sizes.last().1),
            present_mode: surface.config.present_mode,
        }),
        sizes.len() > 0 ==> resize_all(surface, sizes).applied == resize_all(
            surface,
            sizes,
        ).config,
    decreases sizes.len(),
{
    if sizes.len() > 0 {
        lemma_resizes_end_at_last_request(surface, sizes.drop_last());
    }
}

/// A running loop that is told of nothing but resizes, none of them kept by
/// the overlay, ends with the surface holding the last request, each side
/// raised to at least one; the other fields of its state stay as they were.
pub proof fn lemma_resize_events_end_at_last_request(state: LoopState, inputs: Seq<LoopInput>)
    requires
        state.wf(),
        !state.halted,
        all_resizes(inputs),
    ensures
        !run(state, inputs).state.halted,
        run(state, inputs).state.overlay == state.overlay,
        run(state, inputs).state.redraw == state.redraw,
        run(state, inputs).state.frame_outstanding == state.frame_outstanding,
        run(state, inputs).state.surface.config.present_mode == state.surface.config.present_mode,
        inputs.len() > 0 ==> run(state, inputs).state.surface.config == (SurfaceConfig {
            width: clamp_extent(last_requested_extent(inputs).0),
            height: clamp_extent(last_requested_extent(inputs).1),
            present_mode: state.surface.config.present_mode,
        }),
        inputs.len() == 0 ==> run(state, inputs).state == state,
    decreases inputs.len(),
{
    if inputs.len() > 0 {
        let earlier = inputs.drop_last();
        assert forall|k: int| 0 <= k < earlier.len() implies (#[trigger] earlier[k] matches LoopInput::Event(
            event,
            response,
        ) && event.is_resize() && !response.consumed) by {
            assert(earlier[k] == inputs[k]);
        }
        lemma_resize_events_end_at_last_request(state, earlier);
        assert(inputs.last() == inputs[inputs.len() - 1]);
    }
}

/// Frames are asked for at most once per drained tick: over any run, the
/// number of acquisitions asked for is at most the number of tick-closing
/// events among the inputs.
pub proof fn lemma_acquisitions_bounded_by_drained_ticks(state: LoopState, inputs: Seq<LoopInput>)
    ensures
        acquisitions(run(state, inputs).actions) <= drained_ticks(inputs),
    decreases inputs.len(),
{
    if inputs.len() > 0 {
        let before = run(state, inputs.drop_last());
        lemma_acquisitions_bounded_by_drained_ticks(state, inputs.drop_last());
        lemma_step_counts(before.state, inputs.last());
        lemma_acquisitions_add(before.actions, before.state.step(inputs.last()).actions);
    }
}

/// At most one frame is outstanding, and the application draws only into a
/// frame that was asked for: over any run, the draws, and the frame still
/// outstanding at its end, are covered by the acquisitions asked for and the
/// frame outstanding at its start.
pub proof fn lemma_draws_bounded_by_acquisitions(state: LoopState, inputs: Seq<LoopInput>)
    ensures
        draws(run(state, inputs).actions) + (if run(state, inputs).state.frame_outstanding {
            1nat
        } else {
            0nat
        }) <= acquisitions(run(state, inputs).actions) + (if state.frame_outstanding {
            1nat
        } else {
            0nat
        }),
    decreases inputs.len(),
{
    if inputs.len() > 0 {
        let before = run(state, inputs.drop_last());
        lemma_draws_bounded_by_acquisitions(state, inputs.drop_last());
        lemma_step_counts(before.state, inputs.last());
        lemma_acquisitions_add(before.actions, before.state.step(inputs.last()).actions);
        lemma_draws_add(before.actions, before.state.step(inputs.last()).actions);
    }
}

/// A lost surface costs exactly one reconfiguration and no draw: the step
/// that is told of it asks for the surface to be configured with what it
/// holds, and for nothing else, and leaves no frame outstanding. In every run
/// that goes on from there, that reconfiguration stands first, before any
/// further acquisition.
pub proof fn lemma_lost_surface_reconfigures_once(state: LoopState, rest: Seq<LoopInput>)
    requires
        state.frame_outstanding,
    ensures
        state.step(LoopInput::Frame(AcquireOutcome::Lost)).actions == seq![
            Action::ConfigureSurface(state.surface.config),
        ],
        state.step(LoopInput::Frame(AcquireOutcome::Lost)).state == (LoopState {
            surface: state.surface.reapplied(),
            frame_outstanding: false,
            ..state
        }),
        acquisitions(state.step(LoopInput::Frame(AcquireOutcome::Lost)).actions) == 0,
        draws(state.step(LoopInput::Frame(AcquireOutcome::Lost)).actions) == 0,
        run(state, seq![LoopInput::Frame(AcquireOutcome::Lost)] + rest).actions.len() >= 1,
        run(state, seq![LoopInput::Frame(AcquireOutcome::Lost)] + rest).actions[0]
            == Action::ConfigureSurface(state.surface.config),
        acquisitions(run(state, seq![LoopInput::Frame(AcquireOutcome::Lost)] + rest).actions)
            == acquisitions(
            run(state.step(LoopInput::Frame(AcquireOutcome::Lost)).state, rest).actions,
        ),
{
    let lost = LoopInput::Frame(AcquireOutcome::Lost);
    let first = seq![lost];
    lemma_step_counts(state, lost);
    lemma_run_one(state, lost);
    lemma_run_concat(state, first, rest);
    lemma_acquisitions_add(run(state, first).actions, run(run(state, first).state, rest).actions);
}

/// A halted loop stays halted and asks for no further frame, whatever it is
/// told.
pub proof fn lemma_halted_loop_acquires_nothing(state: LoopState, inputs: Seq<LoopInput>)
    requires
        state.halted,
    ensures
        run(state, inputs).state.halted,
        acquisitions(run(state, inputs).actions) == 0,
    decreases inputs.len(),
{
    if inputs.len() > 0 {
        let before = run(state, inputs.drop_last());
        lemma_halted_loop_acquires_nothing(state, inputs.drop_last());
        lemma_step_counts(before.state, inputs.last());
        lemma_acquisitions_add(before.actions, before.state.step(inputs.last()).actions);
    }
}

/// Exhausted memory ends the loop: the step that is told of it reports it
/// and asks to exit, without a draw, and no run that goes on from there asks
/// for a frame again.
pub proof fn lemma_out_of_memory_halts(state: LoopState, rest: Seq<LoopInput>)
    requires
        state.frame_outstanding,
    ensures
        state.step(LoopInput::Frame(AcquireOutcome::OutOfMemory)).actions == seq![
            Action::ReportOutOfMemory,
            Action::Exit,
        ],
        state.step(LoopInput::Frame(AcquireOutcome::OutOfMemory)).state.halted,
        !state.step(LoopInput::Frame(AcquireOutcome::OutOfMemory)).state.frame_outstanding,
        run(state.step(LoopInput::Frame(AcquireOutcome::OutOfMemory)).state, rest).state.halted,
        acquisitions(
            run(state.step(LoopInput::Frame(AcquireOutcome::OutOfMemory)).state, rest).actions,
        ) == 0,
        acquisitions(
            run(state, seq![LoopInput::Frame(AcquireOutcome::OutOfMemory)] + rest).actions,
        ) == 0,
{
    let oom = LoopInput::Frame(AcquireOutcome::OutOfMemory);
    let first = seq![oom];
    lemma_step_counts(state, oom);
    lemma_halted_loop_acquires_nothing(state.step(oom).state, rest);
    lemma_run_one(state, oom);
    lemma_run_concat(state, first, rest);
    lemma_acquisitions_add(run(state, first).actions, run(run(state, first).state, rest).actions);
}

/// An event that the overlay keeps changes nothing and reaches nobody else:
/// the state stays as it was, and the only action there can be is the
/// repaint that the overlay itself asked for.
pub proof fn lemma_consumed_event_stays_with_overlay(
    state: LoopState,
    event: PlatformEvent,
    response: OverlayResponse,
)
    requires
        state.overlay,
        response.consumed,
    ensures
        state.on_event(event, response).state == state,
        state.on_event(event, response).actions == (if response.repaint && !state.halted {
            seq![Action::RequestRedraw]
        } else {
            Seq::<Action>::empty()
        }),
        acquisitions(state.on_event(event, response).actions) == 0,
        forall|k: int|
            0 <= k < state.on_event(event, response).actions.len() ==> !(
            #[trigger] state.on_event(event, response).actions[k] is ForwardEvent),
{
    lemma_step_counts(state, LoopInput::Event(event, response));
}

} // verus!
