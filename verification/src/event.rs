//! What the loop is told, and what it answers with.

use vstd::prelude::*;
use crate::surface::SurfaceConfig;

verus! {

/// A platform event, reduced to what the loop decides on.
#[derive(Clone, Copy, Debug, PartialEq, Eq, Structural)]
pub enum PlatformEvent {
    /// The window took a new inner size.
    Resized { width: u32, height: u32 },
    /// The scale factor changed, and with it the inner size.
    ScaleChanged { width: u32, height: u32 },
    /// The user asked for the window to close.
    CloseRequested,
    /// The window is gone.
    Destroyed,
    /// The platform asks for a repaint.
    RedrawRequested,
    /// Every pending event of this tick has been delivered.
    EventsDrained,
    /// Anything else; the driver keeps the event itself.
    Other,
}

impl PlatformEvent {
    /// The extent that a resize or scale change asks for.
    pub open spec fn requested_extent(self) -> Option<(u32, u32)> {
        match self {
            PlatformEvent::Resized { width, height } => Some((width, height)),
            PlatformEvent::ScaleChanged { width, height } => Some((width, height)),
            _ => None,
        }
    }

    /// The event asks for a new extent.
    pub open spec fn is_resize(self) -> bool {
        self.requested_extent() is Some
    }
}

/// What the overlay made of an event it was offered.
#[derive(Clone, Copy, Debug, PartialEq, Eq, Structural)]
pub struct OverlayResponse {
    /// The overlay keeps the event to itself.
    pub consumed: bool,
    /// The overlay wants to be painted again.
    pub repaint: bool,
}

impl OverlayResponse {
    /// The response that stands for an event the overlay was not offered.
    pub open spec fn untouched() -> OverlayResponse {
        OverlayResponse { consumed: false, repaint: false }
    }

    /// The response for an event that the overlay was not offered.
    pub fn ignored() -> (response: OverlayResponse)
        ensures
            response == OverlayResponse::untouched(),
    {
        OverlayResponse { consumed: false, repaint: false }
    }
}

/// How an attempt to acquire the next frame ended.
#[derive(Debug, PartialEq, Eq)]
pub enum AcquireOutcome {
    /// A frame was handed out.
    Acquired,
    /// The surface is stale; the next attempt may succeed.
    Outdated,
    /// The surface was lost and has to be configured again.
    Lost,
    /// No memory is left for a frame.
    OutOfMemory,
    /// Any other failure, with its description.
    Other(String),
}

/// One thing the driver is asked to do. Actions are carried out in the order
/// in which they are handed out.
#[derive(Debug, PartialEq, Eq)]
pub enum Action {
    /// Ask the window for a repaint.
    RequestRedraw,
    /// Configure the surface with exactly this configuration.
    ConfigureSurface(SurfaceConfig),
    /// Tell the application that the surface has this extent now.
    ApplicationResize { width: u32, height: u32 },
    /// Hand the event to the application's event handler.
    ForwardEvent,
    /// Try to acquire the next frame, and report how that ended.
    AcquireFrame,
    /// Let the application record its pass into the frame.
    ApplicationDraw,
    /// Let the application repaint what the platform's request made dirty.
    RepaintDirty,
    /// Let the overlay append its pass to the frame.
    OverlayDraw,
    /// Submit what was recorded, then present the frame.
    SubmitAndPresent,
    /// Report that a frame was dropped, with the failure's description.
    ReportDroppedFrame(String),
    /// Report that no memory was left for a frame.
    ReportOutOfMemory,
    /// Leave the loop once this iteration is over.
    Exit,
}

/// One thing the loop is told.
#[derive(Debug, PartialEq, Eq)]
pub enum LoopInput {
    /// A platform event, with what the overlay made of it.
    Event(PlatformEvent, OverlayResponse),
    /// The end of an attempt to acquire a frame.
    Frame(AcquireOutcome),
    /// The application's event handler returned; `false` asks for the loop to
    /// end.
    Reply(bool),
}

impl Clone for AcquireOutcome {
    fn clone(&self) -> (cloned: AcquireOutcome)
        ensures
            cloned == *self,
    {
        match self {
            AcquireOutcome::Acquired => AcquireOutcome::Acquired,
            AcquireOutcome::Outdated => AcquireOutcome::Outdated,
            AcquireOutcome::Lost => AcquireOutcome::Lost,
            AcquireOutcome::OutOfMemory => AcquireOutcome::OutOfMemory,
            AcquireOutcome::Other(detail) => AcquireOutcome::Other(detail.clone()),
        }
    }
}

impl Clone for Action {
    fn clone(&self) -> (cloned: Action)
        ensures
            cloned == *self,
    {
        match self {
            Action::RequestRedraw => Action::RequestRedraw,
            Action::ConfigureSurface(config) => Action::ConfigureSurface(*config),
            Action::ApplicationResize { width, height } => Action::ApplicationResize {
                width: *width,
                height: *height,
            },
            Action::ForwardEvent => Action::ForwardEvent,
            Action::AcquireFrame => Action::AcquireFrame,
            Action::ApplicationDraw => Action::ApplicationDraw,
            Action::RepaintDirty => Action::RepaintDirty,
            Action::OverlayDraw => Action::OverlayDraw,
            Action::SubmitAndPresent => Action::SubmitAndPresent,
            Action::ReportDroppedFrame(detail) => Action::ReportDroppedFrame(detail.clone()),
            Action::ReportOutOfMemory => Action::ReportOutOfMemory,
            Action::Exit => Action::Exit,
        }
    }
}

impl Clone for LoopInput {
    fn clone(&self) -> (cloned: LoopInput)
        ensures
            cloned == *self,
    {
        match self {
            LoopInput::Event(event, response) => LoopInput::Event(*event, *response),
            LoopInput::Frame(outcome) => LoopInput::Frame(outcome.clone()),
            LoopInput::Reply(keep_running) => LoopInput::Reply(*keep_running),
        }
    }
}

/// The two redraw flags, threaded through the iterations of the loop.
#[derive(Clone, Copy, Debug, PartialEq, Eq, Structural)]
pub struct RedrawState {
    /// The platform asked for a repaint that no frame has served yet.
    pub system_requested_redraw: bool,
    /// The events of this tick are drained and no frame was begun for it yet.
    pub gpu_redraw_pending: bool,
}

impl RedrawState {
    pub open spec fn idle() -> RedrawState {
        RedrawState { system_requested_redraw: false, gpu_redraw_pending: false }
    }

    /// Both flags down.
    pub fn new() -> (state: RedrawState)
        ensures
            state == RedrawState::idle(),
    {
        RedrawState { system_requested_redraw: false, gpu_redraw_pending: false }
    }

    /// Records the platform's request for a repaint.
    pub fn request_system_redraw(&mut self)
        ensures
            final(self).system_requested_redraw,
            final(self).gpu_redraw_pending == old(self).gpu_redraw_pending,
    {
        self.system_requested_redraw = true;
    }

    /// Records that the events of this tick are drained.
    pub fn mark_events_drained(&mut self)
        ensures
            final(self).gpu_redraw_pending,
            final(self).system_requested_redraw == old(self).system_requested_redraw,
    {
        self.gpu_redraw_pending = true;
    }

    /// Says whether a frame is due now that the tick is drained, and
    /// takes the request down so that it is served once.
    pub fn take_frame_request(&mut self) -> (due: bool)
        ensures
            due == old(self).gpu_redraw_pending,
            !final(self).gpu_redraw_pending,
            final(self).system_requested_redraw == old(self).system_requested_redraw,
    {
        let due = self.gpu_redraw_pending;
        self.gpu_redraw_pending = false;
        due
    }

    /// Takes the platform's request down, and says whether it stood.
    pub fn take_system_request(&mut self) -> (stood: bool)
        ensures
            stood == old(self).system_requested_redraw,
            !final(self).system_requested_redraw,
            final(self).gpu_redraw_pending == old(self).gpu_redraw_pending,
    {
        let stood = self.system_requested_redraw;
        self.system_requested_redraw = false;
        stood
    }
}

} // verus!
