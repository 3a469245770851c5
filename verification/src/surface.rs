//! The presentation configuration of the output surface.

use vstd::prelude::*;

verus! {

/// How finished frames are handed to the display.
#[derive(Clone, Copy, Debug, PartialEq, Eq, Structural)]
pub enum PresentPolicy {
    AutoVsync,
    AutoNoVsync,
    Fifo,
    FifoRelaxed,
    Immediate,
    Mailbox,
}

/// The smallest extent a surface may be configured with.
pub const MIN_EXTENT: u32 = 1;

/// A requested extent, raised to the smallest one a surface accepts.
pub open spec fn clamp_extent(requested: u32) -> u32 {
    if requested < MIN_EXTENT {
        MIN_EXTENT
    } else {
        requested
    }
}

/// The present mode that stands for vsync switched on or off.
pub open spec fn mode_for_vsync(vsync: bool) -> PresentPolicy {
    if vsync {
        PresentPolicy::AutoVsync
    } else {
        PresentPolicy::AutoNoVsync
    }
}

/// The fields of a surface configuration that the loop decides on.
#[derive(Clone, Copy, Debug, PartialEq, Eq, Structural)]
pub struct SurfaceConfig {
    pub width: u32,
    pub height: u32,
    pub present_mode: PresentPolicy,
}

impl SurfaceConfig {
    /// Neither extent is zero.
    pub open spec fn is_valid(self) -> bool {
        self.width >= MIN_EXTENT && self.height >= MIN_EXTENT
    }
}

/// What a window client stands for: the configuration it holds, and the one
/// the surface was last configured with.
pub struct SurfaceState {
    pub config: SurfaceConfig,
    pub applied: SurfaceConfig,
}

impl SurfaceState {
    pub open spec fn wf(self) -> bool {
        self.config.is_valid() && self.applied.is_valid()
    }

    /// The state after a resize request: both extents clamped, the present
    /// mode kept, and the whole configuration applied to the surface.
    pub open spec fn resized(self, width: u32, height: u32) -> SurfaceState {
        let config = SurfaceConfig {
            width: clamp_extent(width),
            height: clamp_extent(height),
            present_mode: self.config.present_mode,
        };
        SurfaceState { config, applied: config }
    }

    /// The state after the held configuration was applied again as it is.
    pub open spec fn reapplied(self) -> SurfaceState {
        SurfaceState { config: self.config, applied: self.config }
    }

    /// The state after the present mode was chosen; the surface is not
    /// touched.
    pub open spec fn with_present_mode(self, mode: PresentPolicy) -> SurfaceState {
        SurfaceState {
            config: SurfaceConfig {
                width: self.config.width,
                height: self.config.height,
                present_mode: mode,
            },
            applied: self.applied,
        }
    }

    pub open spec fn vsync(self) -> bool {
        self.config.present_mode == PresentPolicy::AutoVsync
    }
}

/// Raises a requested extent to the smallest one a surface accepts.
pub fn clamp_dimension(requested: u32) -> (extent: u32)
    ensures
        extent == clamp_extent(requested),
        extent >= MIN_EXTENT,
{
    if requested < MIN_EXTENT {
        MIN_EXTENT
    } else {
        requested
    }
}

/// The surface side of the loop: the presentation configuration, and a record
/// of what the surface was last configured with.
#[derive(Clone, Copy, Debug, PartialEq, Eq)]
pub struct RineWindowClient {
    config: SurfaceConfig,
    applied: SurfaceConfig,
}

impl View for RineWindowClient {
    type V = SurfaceState;

    closed spec fn view(&self) -> SurfaceState {
        SurfaceState { config: self.config, applied: self.applied }
    }
}

impl RineWindowClient {
    #[verifier::type_invariant]
    pub open spec fn inv(&self) -> bool {
        self@.wf()
    }

    /// A client whose surface has just been configured for the given extent
    /// and present mode.
    pub fn new(width: u32, height: u32, present_mode: PresentPolicy) -> (client: RineWindowClient)
        ensures
            client@.wf(),
            client@.config == (SurfaceConfig {
                width: clamp_extent(width),
                height: clamp_extent(height),
                present_mode,
            }),
            client@.applied == client@.config,
    {
        let config = SurfaceConfig {
            width: clamp_dimension(width),
            height: clamp_dimension(height),
            present_mode,
        };
        RineWindowClient { config, applied: config }
    }

    /// The configuration held now.
    pub fn config(&self) -> (config: &SurfaceConfig)
        ensures
            *config == self@.config,
            config.is_valid(),
            self@.wf(),
    {
        proof {
            use_type_invariant(self);
        }
        &self.config
    }

    /// The configuration the surface was last configured with.
    pub fn applied(&self) -> (applied: &SurfaceConfig)
        ensures
            *applied == self@.applied,
            applied.is_valid(),
            self@.wf(),
    {
        proof {
            use_type_invariant(self);
        }
        &self.applied
    }

    /// Takes a new extent: clamps both sides, stores them, and marks the
    /// configuration as applied to the surface, whatever was asked for. A
    /// request of zero by zero, as a minimized window makes it, is clamped
    /// like any other.
    pub fn resize_surface(&mut self, new_size: (u32, u32))
        ensures
            final(self)@ == old(self)@.resized(new_size.0, new_size.1),
            final(self)@.wf(),
    {
        let config = SurfaceConfig {
            width: clamp_dimension(new_size.0),
            height: clamp_dimension(new_size.1),
            present_mode: self.config.present_mode,
        };
        *self = RineWindowClient { config, applied: config };
    }

    /// Applies the held configuration again without changing it.
    pub fn resize_in_place(&mut self)
        ensures
            final(self)@ == old(self)@.reapplied(),
            final(self)@.config == old(self)@.config,
            final(self)@.wf(),
    {
        proof {
            use_type_invariant(&*self);
        }
        let size = (self.config.width, self.config.height);
        self.resize_surface(size);
    }

    /// Whether vsync is switched on in the held configuration.
    pub fn get_vsync(&self) -> (vsync: bool)
        ensures
            vsync == self@.vsync(),
    {
        match self.config.present_mode {
            PresentPolicy::AutoVsync => true,
            _ => false,
        }
    }

    /// Switches vsync on or off in the held configuration. The surface keeps
    /// what it was configured with until the configuration is next applied.
    pub fn set_vsync(&mut self, vsync: bool)
        ensures
            final(self)@ == old(self)@.with_present_mode(mode_for_vsync(vsync)),
            final(self)@.wf(),
    {
        proof {
            use_type_invariant(&*self);
        }
        let mode = if vsync {
            PresentPolicy::AutoVsync
        } else {
            PresentPolicy::AutoNoVsync
        };
        self.config = SurfaceConfig {
            width: self.config.width,
            height: self.config.height,
            present_mode: mode,
        };
    }

    /// Switches vsync on where it was off, whatever mode stood for off, and
    /// off where it was on. The surface keeps what it was configured with
    /// until the configuration is next applied.
    pub fn toggle_vsync(&mut self)
        ensures
            final(self)@ == old(self)@.with_present_mode(mode_for_vsync(!old(self)@.vsync())),
            final(self)@.vsync() == !old(self)@.vsync(),
            final(self)@.wf(),
    {
        let enable = !self.get_vsync();
        self.set_vsync(enable);
    }
}

/// Switching vsync over turns it into its opposite from every present mode,
/// touches neither the extent nor what the surface was configured with, and
/// done twice ends in the mode that stands for where vsync began.
pub proof fn lemma_toggle_flips_vsync(state: SurfaceState)
    ensures
        state.with_present_mode(mode_for_vsync(!state.vsync())).vsync() == !state.vsync(),
        state.with_present_mode(mode_for_vsync(!state.vsync())).config.width == state.config.width,
        state.with_present_mode(mode_for_vsync(!state.vsync())).config.height
            == state.config.height,
        state.with_present_mode(mode_for_vsync(!state.vsync())).applied == state.applied,
        state.with_present_mode(mode_for_vsync(!state.vsync())).with_present_mode(
            mode_for_vsync(state.vsync()),
        ) == state.with_present_mode(mode_for_vsync(state.vsync())),
{
}

} // verus!
