//! The loop's state machine: from what the loop is told to what is to be
//! done, one step at a time.

use vstd::prelude::*;
use crate::event::{AcquireOutcome, Action, LoopInput, OverlayResponse, PlatformEvent, RedrawState};
use crate::surface::{mode_for_vsync, RineWindowClient, SurfaceState};

verus! {

/// What an orchestrator stands for between two steps.
pub struct LoopState {
    /// The surface's configuration.
    pub surface: SurfaceState,
    /// The redraw flags.
    pub redraw: RedrawState,
    /// Whether an overlay takes part in events and frames.
    pub overlay: bool,
    /// A frame was asked for and its acquisition has not been reported yet.
    pub frame_outstanding: bool,
    /// The loop was told to end.
    pub halted: bool,
}

/// A step's result: the state it leaves and the actions it asks for.
pub struct Step {
    pub state: LoopState,
    pub actions: Seq<Action>,
}

impl LoopState {
    /// Between steps the surface holds no zero extent and no frame request
    /// is left unserved.
    pub open spec fn wf(self) -> bool {
        self.surface.wf() && !self.redraw.gpu_redraw_pending
    }

    /// The state a loop starts in.
    pub open spec fn initial(surface: SurfaceState, overlay: bool) -> LoopState {
        LoopState {
            surface,
            redraw: RedrawState::idle(),
            overlay,
            frame_outstanding: false,
            halted: false,
        }
    }

    /// The overlay asks for a repaint on this event.
    pub open spec fn overlay_repaints(self, response: OverlayResponse) -> bool {
        self.overlay && response.repaint
    }

    /// The overlay keeps this event to itself.
    pub open spec fn overlay_consumes(self, response: OverlayResponse) -> bool {
        self.overlay && response.consumed
    }

    /// What the overlay's wish for a repaint adds in front of an event's
    /// actions.
    pub open spec fn repaint_actions(self, response: OverlayResponse) -> Seq<Action> {
        if self.overlay_repaints(response) {
            seq![Action::RequestRedraw]
        } else {
            Seq::empty()
        }
    }

    /// The step taken on a platform event.
    ///
    /// A halted loop does nothing. An event that the overlay consumed reaches
    /// neither the surface nor the application and opens no frame. Otherwise
    /// a resize configures the surface and then tells the application; a
    /// close halts the loop; the platform's redraw request is recorded; and
    /// every other event goes to the application, the drained tick opening a
    /// frame after it unless one is still outstanding.
    pub open spec fn on_event(self, event: PlatformEvent, response: OverlayResponse) -> Step {
        if self.halted {
            Step { state: self, actions: Seq::empty() }
        } else if self.overlay_consumes(response) {
            Step { state: self, actions: self.repaint_actions(response) }
        } else {
            match event {
                PlatformEvent::Resized { width, height }
                | PlatformEvent::ScaleChanged { width, height } => {
                    let surface = self.surface.resized(width, height);
                    Step {
                        state: LoopState { surface, ..self },
                        actions: self.repaint_actions(response) + seq![
                            Action::ConfigureSurface(surface.config),
                            Action::ApplicationResize {
                                width: surface.config.width,
                                height: surface.config.height,
                            },
                        ],
                    }
                },
                PlatformEvent::CloseRequested | PlatformEvent::Destroyed => Step {
                    state: LoopState { halted: true, ..self },
                    actions: self.repaint_actions(response) + seq![Action::Exit],
                },
                PlatformEvent::RedrawRequested => Step {
                    state: LoopState {
                        redraw: RedrawState {
                            system_requested_redraw: true,
                            gpu_redraw_pending: false,
                        },
                        ..self
                    },
                    actions: self.repaint_actions(response),
                },
                PlatformEvent::EventsDrained => Step {
                    state: LoopState {
                        redraw: RedrawState {
                            system_requested_redraw: self.redraw.system_requested_redraw,
                            gpu_redraw_pending: false,
                        },
                        frame_outstanding: true,
                        ..self
                    },
                    actions: self.repaint_actions(response) + seq![Action::ForwardEvent] + (
                    if self.frame_outstanding {
                        Seq::empty()
                    } else {
                        seq![Action::AcquireFrame]
                    }),
                },
                PlatformEvent::Other => Step {
                    state: self,
                    actions: self.repaint_actions(response) + seq![Action::ForwardEvent],
                },
            }
        }
    }

    /// The actions that draw into an acquired frame and present it: the
    /// application first, then the repaint of what the platform's request
    /// made dirty if such a request stood, then the overlay if there is one,
    /// and the submission last.
    pub open spec fn frame_actions(self) -> Seq<Action> {
        seq![Action::ApplicationDraw] + (if self.redraw.system_requested_redraw {
            seq![Action::RepaintDirty]
        } else {
            Seq::empty()
        }) + (if self.overlay {
            seq![Action::OverlayDraw]
        } else {
            Seq::empty()
        }) + seq![Action::SubmitAndPresent]
    }

    /// The step taken when an acquisition is reported.
    ///
    /// A report that no frame request stands for is dropped. Otherwise the
    /// request is served: an acquired frame is drawn and presented and takes
    /// the platform's redraw request with it; a stale surface costs this
    /// frame and nothing else; a lost surface is configured again as it was;
    /// exhausted memory halts the loop; any other failure is reported.
    pub open spec fn on_frame(self, outcome: AcquireOutcome) -> Step {
        if !self.frame_outstanding {
            Step { state: self, actions: Seq::empty() }
        } else {
            let served = LoopState { frame_outstanding: false, ..self };
            match outcome {
                AcquireOutcome::Acquired => Step {
                    state: LoopState {
                        redraw: RedrawState {
                            system_requested_redraw: false,
                            gpu_redraw_pending: self.redraw.gpu_redraw_pending,
                        },
                        ..served
                    },
                    actions: self.frame_actions(),
                },
                AcquireOutcome::Outdated => Step { state: served, actions: Seq::empty() },
                AcquireOutcome::Lost => Step {
                    state: LoopState { surface: self.surface.reapplied(), ..served },
                    actions: seq![Action::ConfigureSurface(self.surface.config)],
                },
                AcquireOutcome::OutOfMemory => Step {
                    state: LoopState { halted: true, ..served },
                    actions: seq![Action::ReportOutOfMemory, Action::Exit],
                },
                AcquireOutcome::Other(detail) => Step {
                    state: served,
                    actions: seq![Action::ReportDroppedFrame(detail)],
                },
            }
        }
    }

    /// The step taken when the application's event handler has returned:
    /// its wish to end the loop halts a loop that still runs.
    pub open spec fn on_reply(self, keep_running: bool) -> Step {
        if keep_running || self.halted {
            Step { state: self, actions: Seq::empty() }
        } else {
            Step { state: LoopState { halted: true, ..self }, actions: seq![Action::Exit] }
        }
    }

    /// The step taken on any input.
    pub open spec fn step(self, input: LoopInput) -> Step {
        match input {
            LoopInput::Event(event, response) => self.on_event(event, response),
            LoopInput::Frame(outcome) => self.on_frame(outcome),
            LoopInput::Reply(keep_running) => self.on_reply(keep_running),
        }
    }
}

/// The loop run over a sequence of inputs: the state it ends in, and every
/// action it asked for on the way, in order.
pub open spec fn run(state: LoopState, inputs: Seq<LoopInput>) -> Step
    decreases inputs.len(),
{
    if inputs.len() == 0 {
        Step { state, actions: Seq::empty() }
    } else {
        let before = run(state, inputs.drop_last());
        let last = before.state.step(inputs.last());
        Step { state: last.state, actions: before.actions + last.actions }
    }
}

/// The render loop's decisions. It owns the surface's configuration and the
/// redraw flags, and answers every input with the actions to carry out.
#[derive(Clone, Copy, Debug, PartialEq, Eq)]
pub struct Orchestrator {
    surface: RineWindowClient,
    redraw: RedrawState,
    overlay: bool,
    frame_outstanding: bool,
    halted: bool,
}

impl View for Orchestrator {
    type V = LoopState;

    closed spec fn view(&self) -> LoopState {
        LoopState {
            surface: self.surface@,
            redraw: self.redraw,
            overlay: self.overlay,
            frame_outstanding: self.frame_outstanding,
            halted: self.halted,
        }
    }
}

impl Orchestrator {
    #[verifier::type_invariant]
    pub open spec fn inv(&self) -> bool {
        self@.wf()
    }

    /// A loop at its start, around a surface that is configured already.
    pub fn new(surface: RineWindowClient, overlay: bool) -> (orchestrator: Orchestrator)
        ensures
            orchestrator@ == LoopState::initial(surface@, overlay),
            orchestrator@.wf(),
    {
        proof {
            use_type_invariant(&surface);
        }
        Orchestrator {
            surface,
            redraw: RedrawState::new(),
            overlay,
            frame_outstanding: false,
            halted: false,
        }
    }

    /// The surface's configuration.
    pub fn surface(&self) -> (surface: &RineWindowClient)
        ensures
            surface@ == self@.surface,
            self@.wf(),
    {
        proof {
            use_type_invariant(self);
        }
        &self.surface
    }

    /// The redraw flags.
    pub fn redraw_state(&self) -> (redraw: RedrawState)
        ensures
            redraw == self@.redraw,
            !redraw.gpu_redraw_pending,
    {
        proof {
            use_type_invariant(self);
        }
        self.redraw
    }

    /// Whether an overlay takes part.
    pub fn has_overlay(&self) -> (overlay: bool)
        ensures
            overlay == self@.overlay,
    {
        self.overlay
    }

    /// Whether a frame was asked for whose acquisition is not reported yet.
    pub fn frame_outstanding(&self) -> (outstanding: bool)
        ensures
            outstanding == self@.frame_outstanding,
    {
        self.frame_outstanding
    }

    /// Whether the loop was told to end.
    pub fn is_halted(&self) -> (halted: bool)
        ensures
            halted == self@.halted,
    {
        self.halted
    }

    /// Takes a platform event together with what the overlay made of it.
    pub fn handle_event(
        &mut self,
        event: PlatformEvent,
        response: OverlayResponse,
    ) -> (actions: Vec<Action>)
        ensures
            final(self)@ == old(self)@.on_event(event, response).state,
            actions@ == old(self)@.on_event(event, response).actions,
            final(self)@.wf(),
    {
        proof {
            use_type_invariant(&*self);
        }
        let mut actions: Vec<Action> = Vec::new();
        if self.halted {
            return actions;
        }
        if self.overlay && response.repaint {
            actions.push(Action::RequestRedraw);
        }
        if self.overlay && response.consumed {
            return actions;
        }
        let mut redraw = self.redraw;
        match event {
            PlatformEvent::Resized { width, height }
            | PlatformEvent::ScaleChanged { width, height } => {
                let mut surface = self.surface;
                surface.resize_surface((width, height));
                let config = *surface.config();
                self.surface = surface;
                actions.push(Action::ConfigureSurface(config));
                actions.push(
                    Action::ApplicationResize { width: config.width, height: config.height },
                );
            },
            PlatformEvent::CloseRequested | PlatformEvent::Destroyed => {
                self.halted = true;
                actions.push(Action::Exit);
            },
            PlatformEvent::RedrawRequested => {
                redraw.request_system_redraw();
                self.redraw = redraw;
            },
            PlatformEvent::EventsDrained => {
                redraw.mark_events_drained();
                actions.push(Action::ForwardEvent);
            },
            PlatformEvent::Other => {
                actions.push(Action::ForwardEvent);
            },
        }
        if redraw.take_frame_request() {
            if !self.frame_outstanding {
                self.frame_outstanding = true;
                actions.push(Action::AcquireFrame);
            }
        }
        assert(actions@ =~= old(self)@.on_event(event, response).actions);
        actions
    }

    /// Takes the end of an attempt to acquire a frame.
    pub fn frame_acquired(&mut self, outcome: AcquireOutcome) -> (actions: Vec<Action>)
        ensures
            final(self)@ == old(self)@.on_frame(outcome).state,
            actions@ == old(self)@.on_frame(outcome).actions,
            final(self)@.wf(),
    {
        proof {
            use_type_invariant(&*self);
        }
        let mut actions: Vec<Action> = Vec::new();
        if !self.frame_outstanding {
            return actions;
        }
        self.frame_outstanding = false;
        match outcome {
            AcquireOutcome::Acquired => {
                actions.push(Action::ApplicationDraw);
                let mut redraw = self.redraw;
                if redraw.take_system_request() {
                    actions.push(Action::RepaintDirty);
                }
                self.redraw = redraw;
                if self.overlay {
                    actions.push(Action::OverlayDraw);
                }
                actions.push(Action::SubmitAndPresent);
            },
            AcquireOutcome::Outdated => {},
            AcquireOutcome::Lost => {
                let mut surface = self.surface;
                surface.resize_in_place();
                let config = *surface.config();
                self.surface = surface;
                actions.push(Action::ConfigureSurface(config));
            },
            AcquireOutcome::OutOfMemory => {
                self.halted = true;
                actions.push(Action::ReportOutOfMemory);
                actions.push(Action::Exit);
            },
            AcquireOutcome::Other(detail) => {
                actions.push(Action::ReportDroppedFrame(detail));
            },
        }
        assert(actions@ =~= old(self)@.on_frame(outcome).actions);
        actions
    }

    /// Takes what the application's event handler returned.
    pub fn application_replied(&mut self, keep_running: bool) -> (actions: Vec<Action>)
        ensures
            final(self)@ == old(self)@.on_reply(keep_running).state,
            actions@ == old(self)@.on_reply(keep_running).actions,
            final(self)@.wf(),
    {
        proof {
            use_type_invariant(&*self);
        }
        let mut actions: Vec<Action> = Vec::new();
        if !keep_running && !self.halted {
            self.halted = true;
            actions.push(Action::Exit);
        }
        assert(actions@ =~= old(self)@.on_reply(keep_running).actions);
        actions
    }

    /// Takes any input and answers with the actions to carry out, in order.
    pub fn step(&mut self, input: LoopInput) -> (actions: Vec<Action>)
        ensures
            final(self)@ == old(self)@.step(input).state,
            actions@ == old(self)@.step(input).actions,
            final(self)@.wf(),
    {
        match input {
            LoopInput::Event(event, response) => self.handle_event(event, response),
            LoopInput::Frame(outcome) => self.frame_acquired(outcome),
            LoopInput::Reply(keep_running) => self.application_replied(keep_running),
        }
    }

    /// Takes a sequence of inputs, one after the other, and answers with all
    /// the actions they call for, in order.
    pub fn run(&mut self, inputs: &Vec<LoopInput>) -> (actions: Vec<Action>)
        ensures
            final(self)@ == run(old(self)@, inputs@).state,
            actions@ == run(old(self)@, inputs@).actions,
            final(self)@.wf(),
    {
        proof {
            use_type_invariant(&*self);
        }
        let mut actions: Vec<Action> = Vec::new();
        let mut taken: usize = 0;
        while taken < inputs.len()
            invariant
                taken <= inputs.len(),
                self@ == run(old(self)@, inputs@.take(taken as int)).state,
                actions@ == run(old(self)@, inputs@.take(taken as int)).actions,
                self@.wf(),
            decreases inputs.len() - taken,
        {
            let mut more = self.step(inputs[taken].clone());
            proof {
                let longer = inputs@.take(taken + 1);
                assert(longer.drop_last() =~= inputs@.take(taken as int));
                assert(longer.last() == inputs@[taken as int]);
            }
            actions.append(&mut more);
            taken = taken + 1;
        }
        assert(inputs@.take(taken as int) =~= inputs@);
        actions
    }

    /// Switches vsync on or off; the surface learns of it when it is next
    /// configured.
    pub fn set_vsync(&mut self, vsync: bool)
        ensures
            final(self)@ == (LoopState {
                surface: old(self)@.surface.with_present_mode(mode_for_vsync(vsync)),
                ..old(self)@
            }),
            final(self)@.wf(),
    {
        proof {
            use_type_invariant(&*self);
        }
        let mut surface = self.surface;
        surface.set_vsync(vsync);
        self.surface = surface;
    }

    /// Switches vsync on where it was off, and off where it was on; the
    /// surface learns of it when it is next configured.
    pub fn toggle_vsync(&mut self)
        ensures
            final(self)@ == (LoopState {
                surface: old(self)@.surface.with_present_mode(
                    mode_for_vsync(!old(self)@.surface.vsync()),
                ),
                ..old(self)@
            }),
            final(self)@.surface.vsync() == !old(self)@.surface.vsync(),
            final(self)@.wf(),
    {
        proof {
            use_type_invariant(&*self);
        }
        let mut surface = self.surface;
        surface.toggle_vsync();
        self.surface = surface;
    }

    /// Takes a new extent that no event brought: clamps and stores it, and
    /// asks for the surface to be configured with the result. The redraw
    /// flags, an outstanding frame and a halt stay as they are.
    pub fn resize(&mut self, new_size: (u32, u32)) -> (actions: Vec<Action>)
        ensures
            final(self)@ == (LoopState {
                surface: old(self)@.surface.resized(new_size.0, new_size.1),
                ..old(self)@
            }),
            actions@ == seq![
                Action::ConfigureSurface(old(self)@.surface.resized(new_size.0, new_size.1).config),
            ],
            final(self)@.wf(),
    {
        proof {
            use_type_invariant(&*self);
        }
        let mut surface = self.surface;
        surface.resize_surface(new_size);
        let config = *surface.config();
        self.surface = surface;
        let mut actions: Vec<Action> = Vec::new();
        actions.push(Action::ConfigureSurface(config));
        assert(actions@ =~= seq![Action::ConfigureSurface(config)]);
        actions
    }

    /// Asks for the surface to be configured again with what is held, as it
    /// is: this is how a change of vsync reaches the surface without a
    /// resize. Nothing else of the loop's state changes.
    pub fn reconfigure(&mut self) -> (actions: Vec<Action>)
        ensures
            final(self)@ == (LoopState {
                surface: old(self)@.surface.reapplied(),
                ..old(self)@
            }),
            actions@ == seq![Action::ConfigureSurface(old(self)@.surface.config)],
            final(self)@.wf(),
    {
        proof {
            use_type_invariant(&*self);
        }
        let mut surface = self.surface;
        surface.resize_in_place();
        let config = *surface.config();
        self.surface = surface;
        let mut actions: Vec<Action> = Vec::new();
        actions.push(Action::ConfigureSurface(config));
        assert(actions@ =~= seq![Action::ConfigureSurface(config)]);
        actions
    }
}

} // verus!
