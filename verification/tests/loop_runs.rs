use rine::event::{AcquireOutcome, Action, LoopInput, OverlayResponse, PlatformEvent};
use rine::orchestrator::Orchestrator;
use rine::surface::{PresentPolicy, RineWindowClient, SurfaceConfig};

const QUIET: OverlayResponse = OverlayResponse { consumed: false, repaint: false };
const KEPT: OverlayResponse = OverlayResponse { consumed: true, repaint: false };

fn started(overlay: bool) -> Orchestrator {
    Orchestrator::new(RineWindowClient::new(320, 200, PresentPolicy::AutoVsync), overlay)
}

fn event(event: PlatformEvent) -> LoopInput {
    LoopInput::Event(event, QUIET)
}

fn resized(width: u32, height: u32) -> LoopInput {
    event(PlatformEvent::Resized { width, height })
}

fn occurrences(actions: &[Action], wanted: &Action) -> usize {
    actions.iter().filter(|action| *action == wanted).count()
}

fn drained_ticks(inputs: &[LoopInput]) -> usize {
    inputs
        .iter()
        .filter(|input| matches!(input, LoopInput::Event(PlatformEvent::EventsDrained, _)))
        .count()
}

#[test]
fn empty_run_changes_nothing() {
    let mut orchestrator = started(true);
    let before = orchestrator;
    assert_eq!(orchestrator.run(&vec![]), vec![]);
    assert_eq!(orchestrator, before);
}

#[test]
fn run_is_the_steps_one_after_the_other() {
    let inputs = vec![
        resized(0, 7),
        event(PlatformEvent::RedrawRequested),
        event(PlatformEvent::EventsDrained),
        LoopInput::Reply(true),
        LoopInput::Frame(AcquireOutcome::Acquired),
        event(PlatformEvent::CloseRequested),
    ];
    let mut stepped = started(true);
    let mut expected = Vec::new();
    for input in &inputs {
        expected.extend(stepped.step(input.clone()));
    }
    let mut ran = started(true);
    assert_eq!(ran.run(&inputs), expected);
    assert_eq!(ran, stepped);
    assert_eq!(
        expected,
        vec![
            Action::ConfigureSurface(SurfaceConfig {
                width: 1,
                height: 7,
                present_mode: PresentPolicy::AutoVsync,
            }),
            Action::ApplicationResize { width: 1, height: 7 },
            Action::ForwardEvent,
            Action::AcquireFrame,
            Action::ApplicationDraw,
            Action::RepaintDirty,
            Action::OverlayDraw,
            Action::SubmitAndPresent,
            Action::Exit,
        ]
    );
}

#[test]
fn resize_run_ends_at_the_last_request_clamped() {
    let mut orchestrator = started(false);
    let inputs = vec![
        resized(0, 0),
        resized(1024, 0),
        event(PlatformEvent::ScaleChanged { width: 0, height: 768 }),
        resized(0, 0),
        resized(1920, 1080),
        event(PlatformEvent::ScaleChanged { width: 0, height: 5 }),
    ];
    orchestrator.run(&inputs);
    assert_eq!(
        *orchestrator.surface().config(),
        SurfaceConfig { width: 1, height: 5, present_mode: PresentPolicy::AutoVsync }
    );
    assert_eq!(orchestrator.surface().applied(), orchestrator.surface().config());
}

#[test]
fn surface_never_holds_a_zero_extent() {
    let mut orchestrator = started(true);
    let inputs = [
        resized(0, 0),
        event(PlatformEvent::EventsDrained),
        LoopInput::Frame(AcquireOutcome::Lost),
        resized(0, 3),
        LoopInput::Event(PlatformEvent::Resized { width: 0, height: 0 }, KEPT),
        event(PlatformEvent::EventsDrained),
        LoopInput::Frame(AcquireOutcome::OutOfMemory),
        resized(0, 0),
    ];
    for input in inputs {
        orchestrator.step(input);
        let surface = orchestrator.surface();
        assert!(surface.config().width >= 1 && surface.config().height >= 1);
        assert!(surface.applied().width >= 1 && surface.applied().height >= 1);
    }
}

#[test]
fn acquisitions_never_exceed_drained_ticks() {
    let inputs = vec![
        event(PlatformEvent::Other),
        event(PlatformEvent::EventsDrained),
        event(PlatformEvent::EventsDrained),
        LoopInput::Frame(AcquireOutcome::Outdated),
        LoopInput::Event(PlatformEvent::EventsDrained, KEPT),
        event(PlatformEvent::Other),
        event(PlatformEvent::RedrawRequested),
        event(PlatformEvent::EventsDrained),
        LoopInput::Frame(AcquireOutcome::Acquired),
        LoopInput::Frame(AcquireOutcome::Acquired),
        event(PlatformEvent::EventsDrained),
        LoopInput::Frame(AcquireOutcome::Other("busy".to_string())),
    ];
    let mut orchestrator = started(true);
    let actions = orchestrator.run(&inputs);
    assert_eq!(drained_ticks(&inputs), 5);
    assert_eq!(occurrences(&actions, &Action::AcquireFrame), 3);
    assert_eq!(occurrences(&actions, &Action::ApplicationDraw), 1);
    assert_eq!(occurrences(&actions, &Action::SubmitAndPresent), 1);
}

#[test]
fn raw_events_alone_produce_no_frame() {
    let inputs = vec![
        event(PlatformEvent::Other),
        resized(5, 5),
        event(PlatformEvent::RedrawRequested),
        event(PlatformEvent::Other),
        LoopInput::Reply(true),
        LoopInput::Frame(AcquireOutcome::Acquired),
    ];
    let mut orchestrator = started(true);
    let actions = orchestrator.run(&inputs);
    assert_eq!(occurrences(&actions, &Action::AcquireFrame), 0);
    assert_eq!(occurrences(&actions, &Action::ApplicationDraw), 0);
    assert_eq!(occurrences(&actions, &Action::SubmitAndPresent), 0);
}

#[test]
fn lost_surface_is_reconfigured_before_the_next_acquisition() {
    let inputs = vec![
        event(PlatformEvent::EventsDrained),
        LoopInput::Frame(AcquireOutcome::Lost),
        event(PlatformEvent::Other),
        event(PlatformEvent::EventsDrained),
        LoopInput::Frame(AcquireOutcome::Acquired),
    ];
    let mut orchestrator = started(false);
    let actions = orchestrator.run(&inputs);
    let held = SurfaceConfig { width: 320, height: 200, present_mode: PresentPolicy::AutoVsync };
    assert_eq!(
        actions,
        vec![
            Action::ForwardEvent,
            Action::AcquireFrame,
            Action::ConfigureSurface(held),
            Action::ForwardEvent,
            Action::ForwardEvent,
            Action::AcquireFrame,
            Action::ApplicationDraw,
            Action::SubmitAndPresent,
        ]
    );
}

#[test]
fn nothing_is_acquired_after_memory_ran_out() {
    let mut orchestrator = started(true);
    orchestrator.run(&vec![
        event(PlatformEvent::EventsDrained),
        LoopInput::Frame(AcquireOutcome::OutOfMemory),
    ]);
    assert!(orchestrator.is_halted());
    let later = vec![
        event(PlatformEvent::EventsDrained),
        LoopInput::Frame(AcquireOutcome::Acquired),
        resized(9, 9),
        LoopInput::Reply(true),
        event(PlatformEvent::RedrawRequested),
        event(PlatformEvent::EventsDrained),
        LoopInput::Frame(AcquireOutcome::Lost),
    ];
    assert_eq!(orchestrator.run(&later), vec![]);
    assert!(orchestrator.is_halted());
}

#[test]
fn consumed_events_leave_the_loop_as_it_was() {
    let inputs = vec![
        LoopInput::Event(PlatformEvent::Other, KEPT),
        LoopInput::Event(PlatformEvent::EventsDrained, KEPT),
        LoopInput::Event(PlatformEvent::CloseRequested, KEPT),
        LoopInput::Event(PlatformEvent::Resized { width: 1, height: 1 }, KEPT),
    ];
    let mut orchestrator = started(true);
    let before = orchestrator;
    assert_eq!(orchestrator.run(&inputs), vec![]);
    assert_eq!(orchestrator, before);
}

#[test]
fn cloned_values_equal_their_source() {
    let outcome = AcquireOutcome::Other("detail".to_string());
    assert_eq!(outcome.clone(), outcome);
    let action = Action::ReportDroppedFrame("detail".to_string());
    assert_eq!(action.clone(), action);
    let input = LoopInput::Frame(AcquireOutcome::Other("detail".to_string()));
    assert_eq!(input.clone(), input);
    for action in [
        Action::RequestRedraw,
        Action::ApplicationResize { width: 3, height: 4 },
        Action::ForwardEvent,
        Action::AcquireFrame,
        Action::ApplicationDraw,
        Action::RepaintDirty,
        Action::OverlayDraw,
        Action::SubmitAndPresent,
        Action::ReportOutOfMemory,
        Action::Exit,
    ] {
        assert_eq!(action.clone(), action);
    }
    for input in [LoopInput::Reply(false), resized(3, 4)] {
        assert_eq!(input.clone(), input);
    }
}
