//! The keyboard surface: which key gives which command.

use vstd::prelude::*;

verus! {

/// Command identifier: save the composited frame.
pub const ID_SAVE: u16 = 1001;

/// Command identifier: toggle "always on top".
pub const ID_ALWAYS_ON_TOP: u16 = 1002;

/// Command identifier: toggle "pause and reveal".
pub const ID_TOGGLE_PAUSE: u16 = 1003;

/// Command identifier of the first effect; the others follow it.
pub const ID_SHADER_BASE: u16 = 2000;

/// One past the last command identifier that selects an effect.
pub const ID_SHADER_END: u16 = 2010;

/// Virtual key code of the Pause key.
pub const VK_PAUSE: u16 = 19;

/// Virtual key code of the digit `1`; the digits follow each other.
pub const VK_1: u16 = 49;

/// Virtual key code of the digit `9`.
pub const VK_9: u16 = 57;

/// Virtual key code of the letter `A`.
pub const VK_A: u16 = 65;

/// Virtual key code of the letter `S`.
pub const VK_S: u16 = 83;

/// Number of key bindings.
pub const BINDINGS: usize = 12;

/// What the user can ask for.
#[derive(Clone, Copy, Debug, PartialEq, Eq, Structural)]
pub enum Command {
    /// Save the composited frame to a file.
    Save,
    ToggleAlwaysOnTop,
    TogglePause,
    /// Make the effect at this index of the roster the active one.
    SelectShader(usize),
}

impl Command {
    /// The command that identifier `id` stands for, if any.
    pub open spec fn of_id(id: u16) -> Option<Command> {
        if id == ID_SAVE {
            Some(Command::Save)
        } else if id == ID_ALWAYS_ON_TOP {
            Some(Command::ToggleAlwaysOnTop)
        } else if id == ID_TOGGLE_PAUSE {
            Some(Command::TogglePause)
        } else if ID_SHADER_BASE <= id < ID_SHADER_END {
            Some(Command::SelectShader((id - ID_SHADER_BASE) as usize))
        } else {
            None
        }
    }

    /// The command that a key gives, if any. A binding asks for the Control
    /// key to be exactly as stated: held for the letters, not held for the
    /// digits and the Pause key. Digit `n` selects the `n`th effect.
    pub open spec fn of_key(code: u16, ctrl_held: bool) -> Option<Command> {
        if ctrl_held {
            if code == VK_S {
                Some(Command::Save)
            } else if code == VK_A {
                Some(Command::ToggleAlwaysOnTop)
            } else {
                None
            }
        } else {
            if code == VK_PAUSE {
                Some(Command::TogglePause)
            } else if VK_1 <= code <= VK_9 {
                Some(Command::SelectShader((code - VK_1) as usize))
            } else {
                None
            }
        }
    }

    /// Decodes a command identifier.
    pub fn from_id(id: u16) -> (c: Option<Command>)
        ensures
            c == Command::of_id(id),
    {
        if id == ID_SAVE {
            Some(Command::Save)
        } else if id == ID_ALWAYS_ON_TOP {
            Some(Command::ToggleAlwaysOnTop)
        } else if id == ID_TOGGLE_PAUSE {
            Some(Command::TogglePause)
        } else if ID_SHADER_BASE <= id && id < ID_SHADER_END {
            Some(Command::SelectShader((id - ID_SHADER_BASE) as usize))
        } else {
            None
        }
    }

    /// The command that a key gives, if any.
    pub fn from_key(code: u16, ctrl_held: bool) -> (c: Option<Command>)
        ensures
            c == Command::of_key(code, ctrl_held),
    {
        if ctrl_held {
            if code == VK_S {
                Some(Command::Save)
            } else if code == VK_A {
                Some(Command::ToggleAlwaysOnTop)
            } else {
                None
            }
        } else {
            if code == VK_PAUSE {
                Some(Command::TogglePause)
            } else if VK_1 <= code && code <= VK_9 {
                Some(Command::SelectShader((code - VK_1) as usize))
            } else {
                None
            }
        }
    }
}

/// One key binding: a virtual key, whether Control has to be held with it,
/// and the identifier of the command it gives.
#[derive(Clone, Copy, Debug, PartialEq, Eq, Structural)]
pub struct Accelerator {
    pub ctrl: bool,
    pub key: u16,
    pub cmd: u16,
}

/// The binding at `index` of the binding table.
pub open spec fn binding(index: int) -> Accelerator {
    if index == 0 {
        Accelerator { ctrl: true, key: VK_S, cmd: ID_SAVE }
    } else if index == 1 {
        Accelerator { ctrl: true, key: VK_A, cmd: ID_ALWAYS_ON_TOP }
    } else if index == 2 {
        Accelerator { ctrl: false, key: VK_PAUSE, cmd: ID_TOGGLE_PAUSE }
    } else {
        Accelerator {
            ctrl: false,
            key: (VK_1 + (index - 3)) as u16,
            cmd: (ID_SHADER_BASE + (index - 3)) as u16,
        }
    }
}

/// The binding table: Control+S, Control+A, Pause, and the digits 1 to 9.
pub fn create_accelerators() -> (table: Vec<Accelerator>)
    ensures
        table@.len() == BINDINGS,
        forall|i: int| 0 <= i < BINDINGS ==> #[trigger] table@[i] == binding(i),
{
    let mut table: Vec<Accelerator> = Vec::new();
    table.push(Accelerator { ctrl: true, key: VK_S, cmd: ID_SAVE });
    table.push(Accelerator { ctrl: true, key: VK_A, cmd: ID_ALWAYS_ON_TOP });
    table.push(Accelerator { ctrl: false, key: VK_PAUSE, cmd: ID_TOGGLE_PAUSE });
    let mut digit: u16 = 0;
    while digit < 9
        invariant
            0 <= digit <= 9,
            table@.len() == 3 + digit,
            forall|i: int| 0 <= i < table@.len() ==> #[trigger] table@[i] == binding(i),
        decreases 9 - digit,
    {
        table.push(Accelerator { ctrl: false, key: VK_1 + digit, cmd: ID_SHADER_BASE + digit });
        digit = digit + 1;
    }
    table
}

/// The table and the key map agree: every binding of the table gives, by
/// its identifier, the command that its key gives; and no two bindings
/// share a key or an identifier.
pub proof fn lemma_bindings_agree(i: int, j: int)
    requires
        0 <= i < BINDINGS,
        0 <= j < BINDINGS,
    ensures
        Command::of_id(binding(i).cmd) is Some,
        Command::of_id(binding(i).cmd) == Command::of_key(binding(i).key, binding(i).ctrl),
        i >= 3 ==> Command::of_id(binding(i).cmd) == Some(Command::SelectShader((i - 3) as usize)),
        i != j ==> binding(i).cmd != binding(j).cmd,
        i != j ==> binding(i).key != binding(j).key,
{
}

} // verus!
