//! Typed values decoded from the controller's registers, and the two-slot
//! touch snapshot that the lifecycle tracker maintains.

use vstd::prelude::*;

verus! {

/// Device operating mode, held in bits 4-6 of the device mode register.
#[derive(Debug, Clone, Copy, PartialEq, Eq, Structural)]
pub enum DeviceMode {
    /// Normal operation.
    Working,
    /// Calibration and factory testing.
    Factory,
}

impl DeviceMode {
    /// Decode the mode from the low three bits of a register value.
    /// Values other than the two defined modes have no typed mapping.
    pub fn from_register(val: u8) -> (r: Option<DeviceMode>)
        ensures
            (val & 7) == 0 ==> r == Some(DeviceMode::Working),
            (val & 7) == 4 ==> r == Some(DeviceMode::Factory),
            ((val & 7) != 0 && (val & 7) != 4) ==> r is None,
    {
        let bits = val & 7;
        if bits == 0 {
            Some(DeviceMode::Working)
        } else if bits == 4 {
            Some(DeviceMode::Factory)
        } else {
            None
        }
    }

    /// Encode the mode into its register representation (bits 4-6).
    pub fn to_register(self) -> (r: u8)
        ensures
            self is Working ==> r == 0x00,
            self is Factory ==> r == 0x40,
    {
        match self {
            DeviceMode::Working => 0x00,
            DeviceMode::Factory => 0x40,
        }
    }
}

/// Power-management control mode.
#[derive(Debug, Clone, Copy, PartialEq, Eq, Structural)]
pub enum CtrlMode {
    /// Keep the device in active mode.
    KeepActive,
    /// Switch to the lower-power monitor mode after a quiet period.
    SwitchToMonitor,
}

impl CtrlMode {
    /// Decode the control mode from a raw register value.
    pub fn from_register(val: u8) -> (r: Option<CtrlMode>)
        ensures
            val == 0 ==> r == Some(CtrlMode::KeepActive),
            val == 1 ==> r == Some(CtrlMode::SwitchToMonitor),
            val >= 2 ==> r is None,
    {
        if val == 0 {
            Some(CtrlMode::KeepActive)
        } else if val == 1 {
            Some(CtrlMode::SwitchToMonitor)
        } else {
            None
        }
    }

    /// Encode the mode into its register representation.
    pub fn to_register(self) -> (r: u8)
        ensures
            self is KeepActive ==> r == 0,
            self is SwitchToMonitor ==> r == 1,
    {
        match self {
            CtrlMode::KeepActive => 0,
            CtrlMode::SwitchToMonitor => 1,
        }
    }
}

/// Interrupt configuration: polling or interrupt-driven operation.
#[derive(Debug, Clone, Copy, PartialEq, Eq, Structural)]
pub enum GestureMode {
    /// Polling mode, no interrupts.
    Polling,
    /// Trigger mode, interrupts on touch events.
    Trigger,
}

impl GestureMode {
    /// Decode the gesture mode from a raw register value.
    pub fn from_register(val: u8) -> (r: Option<GestureMode>)
        ensures
            val == 0 ==> r == Some(GestureMode::Polling),
            val == 1 ==> r == Some(GestureMode::Trigger),
            val >= 2 ==> r is None,
    {
        if val == 0 {
            Some(GestureMode::Polling)
        } else if val == 1 {
            Some(GestureMode::Trigger)
        } else {
            None
        }
    }

    /// Encode the mode into its register representation.
    pub fn to_register(self) -> (r: u8)
        ensures
            self is Polling ==> r == 0,
            self is Trigger ==> r == 1,
    {
        match self {
            GestureMode::Polling => 0,
            GestureMode::Trigger => 1,
        }
    }
}

/// Lifecycle state of one touch slot.
#[derive(Debug, Clone, Copy, PartialEq, Eq, Structural)]
pub enum TouchStatus {
    /// New contact this scan.
    Touch,
    /// Continuing contact.
    Stream,
    /// No contact.
    Release,
}

/// One touch slot: lifecycle state and the last coordinates read for it.
///
/// A slot whose status is `Release` keeps whatever coordinates it last held;
/// they are only guaranteed to be zero right after construction.
#[derive(Debug, Clone, Copy, PartialEq, Eq, Structural)]
pub struct TouchPoint {
    /// Lifecycle state of this slot.
    pub status: TouchStatus,
    /// X coordinate, a 12-bit value (0-4095).
    pub x: u16,
    /// Y coordinate, a 12-bit value (0-4095).
    pub y: u16,
}

impl Default for TouchPoint {
    /// A released slot with zeroed coordinates.
    fn default() -> (r: Self)
        ensures
            r == (TouchPoint { status: TouchStatus::Release, x: 0, y: 0 }),
    {
        TouchPoint { status: TouchStatus::Release, x: 0, y: 0 }
    }
}

/// A full scan snapshot: the raw touch count and the two tracked slots.
///
/// The slot index is the hardware-reported point id (0 or 1), not the order
/// in which points appear in a report.
#[derive(Debug, Clone, Copy)]
pub struct TouchData {
    /// Raw decoded touch count from the status register.
    pub touch_count: u8,
    /// The two touch slots, indexed by hardware point id.
    pub points: [TouchPoint; 2],
}

impl Default for TouchData {
    /// The initial snapshot: count zero, both slots released at the origin.
    fn default() -> (r: Self)
        ensures
            r.touch_count == 0,
            r.points[0] == (TouchPoint { status: TouchStatus::Release, x: 0, y: 0 }),
            r.points[1] == (TouchPoint { status: TouchStatus::Release, x: 0, y: 0 }),
    {
        TouchData {
            touch_count: 0,
            points: [
                TouchPoint { status: TouchStatus::Release, x: 0, y: 0 },
                TouchPoint { status: TouchStatus::Release, x: 0, y: 0 },
            ],
        }
    }
}

} // verus!
