//! The window's side: its messages, the events they stand for, and what
//! the shell does in answer.

use crate::frame::FrameAction;
use crate::geometry::Extent;
use vstd::prelude::*;

verus! {

/// Window message number: the window is being destroyed.
pub const WM_DESTROY: u32 = 2;

/// Window message number: the window was moved.
pub const WM_MOVE: u32 = 3;

/// Window message number: the window changed size.
pub const WM_SIZE: u32 = 5;

/// Window message number: the window is asked to paint.
pub const WM_PAINT: u32 = 15;

/// Window message number: the cursor moved within the window.
pub const WM_SETCURSOR: u32 = 32;

/// Window message number: a command was given.
pub const WM_COMMAND: u32 = 273;

/// Hit-test value of the client area.
pub const HTCLIENT: u32 = 1;

/// What a window message is about.
#[derive(Clone, Copy, Debug, PartialEq, Eq, Structural)]
pub enum MessageKind {
    Destroy,
    Move,
    Size,
    Paint,
    SetCursor,
    Command,
    Other,
}

impl MessageKind {
    pub open spec fn of(message: u32) -> MessageKind {
        if message == WM_DESTROY {
            MessageKind::Destroy
        } else if message == WM_MOVE {
            MessageKind::Move
        } else if message == WM_SIZE {
            MessageKind::Size
        } else if message == WM_PAINT {
            MessageKind::Paint
        } else if message == WM_SETCURSOR {
            MessageKind::SetCursor
        } else if message == WM_COMMAND {
            MessageKind::Command
        } else {
            MessageKind::Other
        }
    }

    /// Tells the messages that the session takes from all others.
    pub fn classify(message: u32) -> (kind: MessageKind)
        ensures
            kind == MessageKind::of(message),
    {
        if message == WM_DESTROY {
            MessageKind::Destroy
        } else if message == WM_MOVE {
            MessageKind::Move
        } else if message == WM_SIZE {
            MessageKind::Size
        } else if message == WM_PAINT {
            MessageKind::Paint
        } else if message == WM_SETCURSOR {
            MessageKind::SetCursor
        } else if message == WM_COMMAND {
            MessageKind::Command
        } else {
            MessageKind::Other
        }
    }
}

/// The low 16 bits of a message parameter: the command identifier of a
/// command message, the hit-test value of a cursor message.
pub open spec fn low_word(param: u64) -> u16 {
    (param & 0xffff) as u16
}

/// The low 16 bits of a message parameter.
pub fn low_word_of(param: u64) -> (w: u16)
    ensures
        w == low_word(param),
        w == param % 0x1_0000,
{
    assert(param & 0xffff == param % 0x1_0000) by (bit_vector);
    (param & 0xffff) as u16
}

/// An event of the window.
#[derive(Clone, Copy, Debug, PartialEq, Eq, Structural)]
pub enum WindowEvent {
    Destroy,
    /// The client area has a new size; its origin on the screen and its
    /// size are given.
    Size { origin_x: i32, origin_y: i32, client: Extent },
    /// The window has a new place; the origin of the client area on the
    /// screen and its size are given.
    Move { origin_x: i32, origin_y: i32, client: Extent },
    /// The cursor is over the part of the window that `hit_test` names.
    SetCursor { hit_test: u32 },
    Paint,
    /// The command with identifier `id` was given.
    Command { id: u16 },
    /// Any other message.
    Other,
}

/// What the shell does in answer to a window event.
#[derive(Clone, Copy, Debug, PartialEq, Eq, Structural)]
pub enum Reaction {
    /// Leave the message to the default window procedure.
    Default,
    /// Nothing: the message is handled.
    Done,
    /// Post the quit message.
    Quit,
    /// Let go of every size-dependent resource and resize the swap chain's
    /// buffers to this size.
    ResizeSwapChain(Extent),
    /// Show the arrow cursor.
    ShowArrowCursor,
    /// Start a tick with this action.
    Capture(FrameAction),
    /// Save the composited frame to a file.
    SaveScreenshot,
    /// Put the window above all others, or back among them.
    SetTopmost(bool),
    /// Exclude the window from capture, or reveal it to capture.
    SetCaptureExcluded(bool),
    /// The effect at this index is now the active one.
    EffectSwitched(usize),
}

impl Reaction {
    /// The result the window procedure returns; `None` where the default
    /// window procedure decides.
    pub open spec fn result(self) -> Option<isize> {
        match self {
            Reaction::Default => None,
            Reaction::ShowArrowCursor => Some(1isize),
            _ => Some(0isize),
        }
    }

    /// The reaction to a window event while no session exists yet: the
    /// window can be destroyed and shows its cursor, everything that needs
    /// a session is passed over.
    pub open spec fn unattended(event: WindowEvent) -> Reaction {
        match event {
            WindowEvent::Destroy => Reaction::Quit,
            WindowEvent::SetCursor { hit_test } => if hit_test == HTCLIENT {
                Reaction::ShowArrowCursor
            } else {
                Reaction::Default
            },
            WindowEvent::Other => Reaction::Default,
            _ => Reaction::Done,
        }
    }

    /// The reaction to a window event while no session exists yet.
    pub fn without_session(event: WindowEvent) -> (reaction: Reaction)
        ensures
            reaction == Reaction::unattended(event),
    {
        match event {
            WindowEvent::Destroy => Reaction::Quit,
            WindowEvent::SetCursor { hit_test } => {
                if hit_test == HTCLIENT {
                    Reaction::ShowArrowCursor
                } else {
                    Reaction::Default
                }
            },
            WindowEvent::Other => Reaction::Default,
            _ => Reaction::Done,
        }
    }

    /// The result the window procedure returns; `None` where the default
    /// window procedure decides.
    pub fn lresult(&self) -> (r: Option<isize>)
        ensures
            r == self.result(),
    {
        match self {
            Reaction::Default => None,
            Reaction::ShowArrowCursor => Some(1),
            _ => Some(0),
        }
    }
}

} // verus!
