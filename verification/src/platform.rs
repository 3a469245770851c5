//! The windowing and graphics crates' values, turned into the loop's own.

use vstd::prelude::*;
use crate::event::{AcquireOutcome, Action, OverlayResponse, PlatformEvent};
use crate::orchestrator::Orchestrator;
use crate::surface::PresentPolicy;
use winit::event::{Event, WindowEvent};

verus! {

/// `wgpu::SurfaceError`: why no frame could be acquired. Read with its
/// variants.
#[verifier::external_type_specification]
pub struct ExSurfaceError(wgpu::SurfaceError);

/// `wgpu::PresentMode`. Read with its variants.
#[verifier::external_type_specification]
pub struct ExPresentMode(wgpu::PresentMode);

/// `egui_winit::EventResponse`: what the overlay made of a window event.
/// Read with its two fields.
#[verifier::external_type_specification]
pub struct ExEventResponse(egui_winit::EventResponse);

/// `winit::event::Event`. Carried through unread.
#[verifier::external_type_specification]
#[verifier::external_body]
#[verifier::reject_recursive_types(T)]
pub struct ExEvent<'a, T: 'static>(winit::event::Event<'a, T>);

/// The policy that a present mode of the graphics crate stands for.
pub open spec fn policy_of(mode: wgpu::PresentMode) -> PresentPolicy {
    match mode {
        wgpu::PresentMode::AutoVsync => PresentPolicy::AutoVsync,
        wgpu::PresentMode::AutoNoVsync => PresentPolicy::AutoNoVsync,
        wgpu::PresentMode::Fifo => PresentPolicy::Fifo,
        wgpu::PresentMode::FifoRelaxed => PresentPolicy::FifoRelaxed,
        wgpu::PresentMode::Immediate => PresentPolicy::Immediate,
        wgpu::PresentMode::Mailbox => PresentPolicy::Mailbox,
    }
}

/// The present mode of the graphics crate that a policy asks for.
pub open spec fn mode_of(policy: PresentPolicy) -> wgpu::PresentMode {
    match policy {
        PresentPolicy::AutoVsync => wgpu::PresentMode::AutoVsync,
        PresentPolicy::AutoNoVsync => wgpu::PresentMode::AutoNoVsync,
        PresentPolicy::Fifo => wgpu::PresentMode::Fifo,
        PresentPolicy::FifoRelaxed => wgpu::PresentMode::FifoRelaxed,
        PresentPolicy::Immediate => wgpu::PresentMode::Immediate,
        PresentPolicy::Mailbox => wgpu::PresentMode::Mailbox,
    }
}

/// Reads a present mode of the graphics crate.
pub fn present_policy(mode: wgpu::PresentMode) -> (policy: PresentPolicy)
    ensures
        policy == policy_of(mode),
        mode_of(policy) == mode,
{
    match mode {
        wgpu::PresentMode::AutoVsync => PresentPolicy::AutoVsync,
        wgpu::PresentMode::AutoNoVsync => PresentPolicy::AutoNoVsync,
        wgpu::PresentMode::Fifo => PresentPolicy::Fifo,
        wgpu::PresentMode::FifoRelaxed => PresentPolicy::FifoRelaxed,
        wgpu::PresentMode::Immediate => PresentPolicy::Immediate,
        wgpu::PresentMode::Mailbox => PresentPolicy::Mailbox,
    }
}

/// Writes a policy as a present mode of the graphics crate.
pub fn present_mode(policy: PresentPolicy) -> (mode: wgpu::PresentMode)
    ensures
        mode == mode_of(policy),
        policy_of(mode) == policy,
{
    match policy {
        PresentPolicy::AutoVsync => wgpu::PresentMode::AutoVsync,
        PresentPolicy::AutoNoVsync => wgpu::PresentMode::AutoNoVsync,
        PresentPolicy::Fifo => wgpu::PresentMode::Fifo,
        PresentPolicy::FifoRelaxed => wgpu::PresentMode::FifoRelaxed,
        PresentPolicy::Immediate => wgpu::PresentMode::Immediate,
        PresentPolicy::Mailbox => wgpu::PresentMode::Mailbox,
    }
}

/// Reads what the overlay's event handling answered.
pub fn overlay_response(response: &egui_winit::EventResponse) -> (read: OverlayResponse)
    ensures
        read == (OverlayResponse { consumed: response.consumed, repaint: response.repaint }),
{
    OverlayResponse { consumed: response.consumed, repaint: response.repaint }
}

/// The description that the graphics crate gives of a failed acquisition.
pub open spec fn failure_text(error: wgpu::SurfaceError) -> Seq<char> {
    match error {
        wgpu::SurfaceError::Timeout =>
            "A timeout was encountered while trying to acquire the next frame"@,
        wgpu::SurfaceError::Outdated =>
            "The underlying surface has changed, and therefore the swap chain must be updated"@,
        wgpu::SurfaceError::Lost => "The swap chain has been lost and needs to be recreated"@,
        wgpu::SurfaceError::OutOfMemory =>
            "There is no more memory left to allocate a new frame"@,
    }
}

/// `wgpu::SurfaceError`'s `Display`, through `to_string`: each of the four
/// errors is written as one fixed sentence, the one `failure_text` gives.
#[verifier::external_body]
fn surface_error_text(error: &wgpu::SurfaceError) -> (text: String)
    ensures
        text@ == failure_text(*error),
{
    error.to_string()
}

/// Whether an outcome is the one that a failed acquisition is classed as: a
/// stale surface, a lost one and exhausted memory each have their own, and
/// only what is left, a timeout, goes by its description.
pub open spec fn classes_failure(error: wgpu::SurfaceError, outcome: AcquireOutcome) -> bool {
    match error {
        wgpu::SurfaceError::Outdated => outcome == AcquireOutcome::Outdated,
        wgpu::SurfaceError::Lost => outcome == AcquireOutcome::Lost,
        wgpu::SurfaceError::OutOfMemory => outcome == AcquireOutcome::OutOfMemory,
        wgpu::SurfaceError::Timeout => outcome matches AcquireOutcome::Other(detail) && detail@
            == failure_text(error),
    }
}

/// Classes a failed acquisition.
pub fn acquire_failure(error: wgpu::SurfaceError) -> (outcome: AcquireOutcome)
    ensures
        classes_failure(error, outcome),
{
    match error {
        wgpu::SurfaceError::Outdated => AcquireOutcome::Outdated,
        wgpu::SurfaceError::Lost => AcquireOutcome::Lost,
        wgpu::SurfaceError::OutOfMemory => AcquireOutcome::OutOfMemory,
        wgpu::SurfaceError::Timeout => AcquireOutcome::Other(surface_error_text(&error)),
    }
}

/// Parts the end of an acquisition into the frame, if there is one, and the
/// outcome that the loop is told.
pub fn classify_acquisition<F>(
    result: Result<F, wgpu::SurfaceError>,
) -> (classified: (Option<F>, AcquireOutcome))
    ensures
        match result {
            Ok(frame) => classified.0 == Some(frame) && classified.1 == AcquireOutcome::Acquired,
            Err(error) => classified.0 is None && classes_failure(error, classified.1),
        },
{
    match result {
        Ok(frame) => (Some(frame), AcquireOutcome::Acquired),
        Err(error) => (None, acquire_failure(error)),
    }
}

/// Tells the variants of `winit::event::Event` apart, and those of the
/// `WindowEvent` inside it: a new inner size comes out with its width and
/// height, whether the window was resized or its scale factor changed; the
/// close request, the window's destruction, the redraw request and the
/// cleared main events come out as themselves; the rest as `Other`.
#[verifier::external_body]
fn event_kind<T>(event: &winit::event::Event<'_, T>) -> (kind: PlatformEvent) {
    match event {
        Event::WindowEvent { event: WindowEvent::Resized(size), .. } => PlatformEvent::Resized {
            width: size.width,
            height: size.height,
        },
        Event::WindowEvent { event: WindowEvent::ScaleFactorChanged { new_inner_size, .. }, .. } =>
            PlatformEvent::ScaleChanged { width: new_inner_size.width, height: new_inner_size.height },
        Event::WindowEvent { event: WindowEvent::CloseRequested, .. } => PlatformEvent::CloseRequested,
        Event::WindowEvent { event: WindowEvent::Destroyed, .. } => PlatformEvent::Destroyed,
        Event::RedrawRequested(_) => PlatformEvent::RedrawRequested,
        Event::MainEventsCleared => PlatformEvent::EventsDrained,
        _ => PlatformEvent::Other,
    }
}

impl Orchestrator {
    /// Takes an event of the windowing crate together with what the overlay
    /// made of it: says what the event was read as, and takes the step that
    /// such an event calls for. The event itself cannot be looked into here,
    /// so how it is read is not proved; the step on what it was read as is.
    pub fn handle_platform_event<T>(
        &mut self,
        event: &winit::event::Event<'_, T>,
        response: OverlayResponse,
    ) -> (taken: (PlatformEvent, Vec<Action>))
        ensures
            final(self)@ == old(self)@.on_event(taken.0, response).state,
            taken.1@ == old(self)@.on_event(taken.0, response).actions,
            final(self)@.wf(),
    {
        let kind = event_kind(event);
        let actions = self.handle_event(kind, response);
        (kind, actions)
    }
}

} // verus!
