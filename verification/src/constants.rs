//! Bus address and register map of the FT6336U.

use vstd::prelude::*;

verus! {

/// Fixed 7-bit bus address of the controller.
pub const I2C_ADDR: u8 = 0x38;

/// Touch press down flag.
pub const PRES_DOWN: u8 = 0x02;

/// Coordinate up/down flag.
pub const COORD_UD: u8 = 0x01;

/// Device mode register.
pub const ADDR_DEVICE_MODE: u8 = 0x00;

/// Gesture id register.
pub const ADDR_GESTURE_ID: u8 = 0x01;

/// Touch detection status register; its low nibble is the touch count.
pub const ADDR_TD_STATUS: u8 = 0x02;

/// First-point event byte (high bits of the X field).
pub const ADDR_TOUCH1_EVENT: u8 = 0x03;

/// First-point id byte (high bits of the Y field).
pub const ADDR_TOUCH1_ID: u8 = 0x05;

/// First-point X coordinate, two bytes.
pub const ADDR_TOUCH1_X: u8 = 0x03;

/// First-point Y coordinate, two bytes.
pub const ADDR_TOUCH1_Y: u8 = 0x05;

/// First-point weight register.
pub const ADDR_TOUCH1_WEIGHT: u8 = 0x07;

/// First-point miscellaneous data register.
pub const ADDR_TOUCH1_MISC: u8 = 0x08;

/// Second-point event byte (high bits of the X field).
pub const ADDR_TOUCH2_EVENT: u8 = 0x09;

/// Second-point id byte (high bits of the Y field).
pub const ADDR_TOUCH2_ID: u8 = 0x0B;

/// Second-point X coordinate, two bytes.
pub const ADDR_TOUCH2_X: u8 = 0x09;

/// Second-point Y coordinate, two bytes.
pub const ADDR_TOUCH2_Y: u8 = 0x0B;

/// Second-point weight register.
pub const ADDR_TOUCH2_WEIGHT: u8 = 0x0D;

/// Second-point miscellaneous data register.
pub const ADDR_TOUCH2_MISC: u8 = 0x0E;

/// Touch detection threshold register.
pub const ADDR_THRESHOLD: u8 = 0x80;

/// Filter coefficient register.
pub const ADDR_FILTER_COE: u8 = 0x85;

/// Control mode register.
pub const ADDR_CTRL: u8 = 0x86;

/// Time to enter monitor mode register.
pub const ADDR_TIME_ENTER_MONITOR: u8 = 0x87;

/// Active mode report rate register.
pub const ADDR_ACTIVE_MODE_RATE: u8 = 0x88;

/// Monitor mode report rate register.
pub const ADDR_MONITOR_MODE_RATE: u8 = 0x89;

/// Gesture radian value register.
pub const ADDR_RADIAN_VALUE: u8 = 0x91;

/// Gesture offset left/right register.
pub const ADDR_OFFSET_LEFT_RIGHT: u8 = 0x92;

/// Gesture offset up/down register.
pub const ADDR_OFFSET_UP_DOWN: u8 = 0x93;

/// Gesture distance left/right register.
pub const ADDR_DISTANCE_LEFT_RIGHT: u8 = 0x94;

/// Gesture distance up/down register.
pub const ADDR_DISTANCE_UP_DOWN: u8 = 0x95;

/// Gesture distance zoom register.
pub const ADDR_DISTANCE_ZOOM: u8 = 0x96;

/// Library version high byte register.
pub const ADDR_LIBRARY_VERSION_H: u8 = 0xA1;

/// Library version low byte register.
pub const ADDR_LIBRARY_VERSION_L: u8 = 0xA2;

/// Chip id register.
pub const ADDR_CHIP_ID: u8 = 0xA3;

/// Gesture mode register.
pub const ADDR_G_MODE: u8 = 0xA4;

/// Power mode register.
pub const ADDR_POWER_MODE: u8 = 0xA5;

/// Firmware id register.
pub const ADDR_FIRMWARE_ID: u8 = 0xA6;

/// Focaltech id register.
pub const ADDR_FOCALTECH_ID: u8 = 0xA8;

/// Release code id register.
pub const ADDR_RELEASE_CODE_ID: u8 = 0xAF;

/// Device state register.
pub const ADDR_STATE: u8 = 0xBC;

} // verus!
