//! The record that one report of the device decodes to.

use vstd::prelude::*;

verus! {

/// The kind of switch wired to the Arduino.
#[derive(Clone, Copy, Debug, PartialEq, Eq, Structural)]
pub enum SwitchKind {
    /// An on/off switch, such as a tact switch or a toggle switch.
    Digital,
    /// A switch with a range of values, such as a potentiometer or an analog joystick.
    Analog,
}

impl Default for SwitchKind {
    fn default() -> (kind: Self)
        ensures
            kind == SwitchKind::Digital,
    {
        SwitchKind::Digital
    }
}

/// What the device reported of one switch.
#[derive(Clone, Copy, Debug, PartialEq, Eq, Structural)]
pub struct SwitchInfo {
    /// The kind of the switch.
    pub kind: SwitchKind,
    /// The pin of the Arduino that the switch is wired to.
    pub pin: u8,
    /// The value the switch was read at.
    pub state: u16,
    /// When the value was read.
    pub timestamp: i64,
}

impl Default for SwitchInfo {
    fn default() -> (info: Self)
        ensures
            info == (SwitchInfo { kind: SwitchKind::Digital, pin: 0, state: 0, timestamp: 0 }),
    {
        SwitchInfo { kind: SwitchKind::Digital, pin: 0, state: 0, timestamp: 0 }
    }
}

} // verus!
