//! The exchange between session and shell within one tick: what the
//! session asks for, what the shell reports back, and where a tick stands.

use crate::capture::Failure;
use crate::effects::BindPlan;
use crate::geometry::{Extent, FrameLayout};
use crate::resources::Provisioning;
use vstd::prelude::*;

verus! {

/// Number of vertices of the full-screen quad, drawn as a triangle strip.
pub const QUAD_VERTICES: u32 = 4;

/// Vertical blanks to wait for at presentation.
pub const SYNC_INTERVAL: u32 = 1;

/// A colour of eight bits a channel.
#[derive(Clone, Copy, Debug, PartialEq, Eq, Structural)]
pub struct Color {
    pub red: u8,
    pub green: u8,
    pub blue: u8,
    pub alpha: u8,
}

/// Black that lets nothing through.
pub open spec fn opaque_black() -> Color {
    Color { red: 0, green: 0, blue: 0, alpha: 255 }
}

/// Everything the shell needs to render one frame once the resources exist.
#[derive(Clone, Copy, Debug, PartialEq, Eq, Structural)]
pub struct RenderPlan {
    /// Sizes, the box to copy into the staging surface, and the parameters
    /// and dispatch size of the extend pass.
    pub layout: FrameLayout,
    /// Index of the effect whose program is bound.
    pub shader: usize,
    /// The inputs and uniforms of that effect.
    pub bind: BindPlan,
    /// The viewport: the full client area.
    pub viewport: Extent,
    /// The colour the render target is cleared to.
    pub clear: Color,
    /// Vertices to draw, as a triangle strip.
    pub vertex_count: u32,
    /// Vertical blanks to wait for at presentation.
    pub sync_interval: u32,
}

/// How a tick ended.
#[derive(Clone, Copy, Debug, PartialEq, Eq, Structural)]
pub enum TickOutcome {
    /// The session is paused: nothing was captured.
    Paused,
    /// A frame was composited and presented.
    Presented,
    /// No new frame since the last acquisition.
    NoNewFrame,
    /// A frame came without new content; it was released unused.
    NothingNew,
    /// The frame was given up and released: a paint or a resize overtook it.
    Abandoned,
    /// The extended surface for this placement cannot be expressed.
    TooLarge,
    /// A step failed with this result code. `lost` says that the code
    /// reports a lost device: the duplication handle and every
    /// size-dependent resource are to be dropped.
    Failed { code: i32, lost: bool },
    /// The event reported did not answer the action that was asked for.
    OutOfTurn,
}

impl TickOutcome {
    /// The outcome of a step that failed with result code `code`.
    pub open spec fn failed(code: i32) -> TickOutcome {
        TickOutcome::Failed { code, lost: Failure::of(code) is AccessLost }
    }

    /// Whether the outcome reports a lost device.
    pub open spec fn lost(self) -> bool {
        self matches TickOutcome::Failed { lost, .. } && lost
    }

    /// Whether a failure says of its own code what the code means.
    pub open spec fn honest(self) -> bool {
        self matches TickOutcome::Failed { code, lost } ==> lost == (Failure::of(code)
            is AccessLost)
    }
}

/// What the session asks the shell to do next within a tick.
#[derive(Clone, Copy, Debug, PartialEq, Eq, Structural)]
pub enum FrameAction {
    /// The tick is over.
    Rest(TickOutcome),
    /// Duplicate the primary output of the adapter that the device is bound to.
    OpenDuplication,
    /// Poll for the next frame with this timeout.
    AcquireFrame { timeout_ms: u32 },
    /// Report the current client size and the size of the frame's surface.
    Measure,
    /// Allocate these resources.
    Provision(Provisioning),
    /// Copy, extend, draw and present as the plan says.
    Render(RenderPlan),
    /// Release the acquired frame.
    ReleaseFrame,
}

/// The outcome of the action that the shell was asked for.
#[derive(Clone, Copy, Debug, PartialEq, Eq, Structural)]
pub enum FrameEvent {
    DuplicationOpened,
    /// A frame was acquired; `present_time` is zero when nothing new was
    /// presented, `has_surface` says whether the frame carries a surface.
    FrameAcquired { present_time: i64, has_surface: bool },
    /// The current client size and the size of the frame's surface.
    Measured { client: Extent, screen: Extent },
    Provisioned,
    Rendered,
    FrameReleased,
    /// The action failed with this result code.
    Failed { code: i32 },
}

/// Where a tick stands.
#[derive(Clone, Copy, Debug, PartialEq, Eq, Structural)]
pub enum Phase {
    /// Between ticks.
    Idle,
    /// Waiting for the duplication handle.
    Opening,
    /// Waiting for a frame.
    Acquiring,
    /// A frame is held; waiting for the sizes.
    Measuring,
    /// A frame is held; waiting for the resources this plan needs.
    Provisioning(RenderPlan),
    /// A frame is held; waiting for the frame to be rendered.
    Rendering,
    /// The release was asked for; the tick ends with this outcome.
    Releasing(TickOutcome),
}

impl Phase {
    /// Whether a frame is held whose release has not been asked for yet.
    pub open spec fn holding(self) -> bool {
        self is Measuring || self is Provisioning || self is Rendering
    }

    /// Whether the outcome that a release waits with is an honest one.
    pub open spec fn honest(self) -> bool {
        self matches Phase::Releasing(outcome) ==> outcome.honest()
    }

    /// Whether `event` answers the action that is outstanding in this
    /// phase: its success, or its failure.
    pub open spec fn expects(self, event: FrameEvent) -> bool {
        match self {
            Phase::Idle => false,
            Phase::Opening => event is DuplicationOpened || event is Failed,
            Phase::Acquiring => event is FrameAcquired || event is Failed,
            Phase::Measuring => event is Measured || event is Failed,
            Phase::Provisioning(_) => event is Provisioned || event is Failed,
            Phase::Rendering => event is Rendered || event is Failed,
            Phase::Releasing(_) => event is FrameReleased || event is Failed,
        }
    }

    /// Number of actions that a tick in this phase has still to see
    /// answered, at most.
    pub open spec fn rank(self) -> nat {
        match self {
            Phase::Idle => 0,
            Phase::Releasing(_) => 1,
            Phase::Rendering => 2,
            Phase::Provisioning(_) => 3,
            Phase::Measuring => 4,
            Phase::Acquiring => 5,
            Phase::Opening => 6,
        }
    }
}

} // verus!
