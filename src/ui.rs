//! Logical actions of the touch regions, and the machine state record.
use vstd::prelude::*;

verus! {

/// The logical action that a touch region stands for.
#[derive(Clone, Copy, Debug, PartialEq, Eq, Structural)]
pub enum Ids {
    /// A digit key; the keypad places 0 to 9.
    Key(u8),
    Clear,
    DecimalPoint,
    Enter,
    Half,
    PlusMinus,
    XButton,
    X0Button,
    YButton,
    Y0Button,
    ZButton,
    Z0Button,
    X(u32),
    Y(u32),
    Z(u32),
    Working(u32),
    Empty,
}

/// Whether the machine works in absolute or relative coordinates.
#[derive(Clone, Copy, Debug, PartialEq, Eq, Structural)]
pub enum MachineMode {
    Absolute,
    Relative,
}

/// Whether the interface rests or takes a number.
#[derive(Clone, Copy, Debug, PartialEq, Eq, Structural)]
pub enum UIMode {
    Resting,
    NumberEntry,
}

/// Whether the machine is running, and how.
#[derive(Clone, Copy, Debug, PartialEq, Eq, Structural)]
pub enum Running {
    Yes,
    No,
    Jog,
}

/// The state of the machine as a whole.
#[derive(Clone, Copy, Debug)]
pub struct State {
    pub ui: UIMode,
    pub entry: Option<i32>,
    pub x: i32,
    pub y: i32,
    pub z: i32,
    pub running: Running,
    pub error: bool,
    pub machine: MachineMode,
}

impl State {
    /// A resting machine at the origin, stopped, in absolute mode.
    pub fn new() -> (s: State)
        ensures
            s.ui == UIMode::Resting,
            s.entry is None,
            s.x == 0 && s.y == 0 && s.z == 0,
            s.running == Running::No,
            !s.error,
            s.machine == MachineMode::Absolute,
    {
        State {
            ui: UIMode::Resting,
            entry: None,
            x: 0,
            y: 0,
            z: 0,
            running: Running::No,
            error: false,
            machine: MachineMode::Absolute,
        }
    }
}

/// An update message; it carries nothing yet.
#[derive(Clone, Copy, Debug)]
pub struct Update {}

impl Update {
    pub fn new() -> (u: Update)
        ensures
            u == (Update {}),
    {
        Update {}
    }
}

} // verus!
