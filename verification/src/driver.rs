//! The FT6336U driver: register accessors and the scan entry point, all
//! speaking through an abstract [`RegisterBus`].

use vstd::prelude::*;

use crate::bus::RegisterBus;
use crate::codec::{decode_coord, decode_event, decode_mode_bits, decode_point_id,
    decode_touch_count};
use crate::constants::{ADDR_ACTIVE_MODE_RATE, ADDR_CHIP_ID, ADDR_CTRL, ADDR_DEVICE_MODE,
    ADDR_DISTANCE_LEFT_RIGHT, ADDR_DISTANCE_UP_DOWN, ADDR_DISTANCE_ZOOM, ADDR_FILTER_COE,
    ADDR_FIRMWARE_ID, ADDR_FOCALTECH_ID, ADDR_GESTURE_ID, ADDR_G_MODE, ADDR_LIBRARY_VERSION_H,
    ADDR_MONITOR_MODE_RATE, ADDR_OFFSET_LEFT_RIGHT, ADDR_OFFSET_UP_DOWN, ADDR_POWER_MODE,
    ADDR_RADIAN_VALUE, ADDR_RELEASE_CODE_ID, ADDR_STATE, ADDR_TD_STATUS, ADDR_THRESHOLD,
    ADDR_TIME_ENTER_MONITOR, ADDR_TOUCH1_EVENT, ADDR_TOUCH1_ID, ADDR_TOUCH1_MISC,
    ADDR_TOUCH1_WEIGHT, ADDR_TOUCH1_X, ADDR_TOUCH1_Y, ADDR_TOUCH2_EVENT, ADDR_TOUCH2_ID,
    ADDR_TOUCH2_MISC, ADDR_TOUCH2_WEIGHT, ADDR_TOUCH2_X, ADDR_TOUCH2_Y};
use crate::error::Error;
use crate::tracker::{scan_rel, valid_report, PointReport, ScanReport};
use crate::types::{CtrlMode, DeviceMode, GestureMode, TouchData, TouchPoint, TouchStatus};

verus! {

/// FT6336U capacitive touch controller driver over an abstract register
/// bus.
///
/// Besides the flat register accessors, the driver holds the tracker's one
/// piece of state: the snapshot of the previous scan, consulted on the next
/// [`FT6336U::scan`] to tell a new touch from a continuing one.
pub struct FT6336U<B> {
    /// Transport used for every register exchange.
    bus: B,
    /// Cached snapshot from the last scan.
    touch_data: TouchData,
}

impl<B: RegisterBus> FT6336U<B> {
    /// The cached snapshot of the previous scan, as contracts speak of it.
    pub closed spec fn cached(&self) -> TouchData {
        self.touch_data
    }

    /// Create a driver instance over the given bus. The snapshot starts
    /// with both slots released and coordinates zero.
    pub fn new(bus: B) -> (r: Self)
        ensures
            r.cached().touch_count == 0,
            r.cached().points[0] == (TouchPoint { status: TouchStatus::Release, x: 0, y: 0 }),
            r.cached().points[1] == (TouchPoint { status: TouchStatus::Release, x: 0, y: 0 }),
    {
        FT6336U { bus, touch_data: TouchData::default() }
    }

    /// Read a single byte from a register, wrapping any bus failure.
    fn read_byte(&mut self, addr: u8) -> (r: Result<u8, Error<B::BusError>>)
        ensures
            final(self).cached() == old(self).cached(),
            r matches Err(e) ==> e is I2c,
    {
        match self.bus.read_reg(addr) {
            Ok(v) => Ok(v),
            Err(e) => Err(Error::I2c(e)),
        }
    }

    /// Read two consecutive bytes from a register, wrapping any bus
    /// failure.
    fn read_pair(&mut self, addr: u8) -> (r: Result<(u8, u8), Error<B::BusError>>)
        ensures
            final(self).cached() == old(self).cached(),
            r matches Err(e) ==> e is I2c,
    {
        match self.bus.read_reg_pair(addr) {
            Ok(v) => Ok(v),
            Err(e) => Err(Error::I2c(e)),
        }
    }

    /// Write a single byte to a register, wrapping any bus failure.
    fn write_byte(&mut self, addr: u8, data: u8) -> (r: Result<(), Error<B::BusError>>)
        ensures
            final(self).cached() == old(self).cached(),
            r matches Err(e) ==> e is I2c,
    {
        match self.bus.write_reg(addr, data) {
            Ok(v) => Ok(v),
            Err(e) => Err(Error::I2c(e)),
        }
    }

    /// Read the device operating mode bits (0 = working, 4 = factory).
    pub fn read_device_mode(&mut self) -> (r: Result<u8, Error<B::BusError>>)
        ensures
            final(self).cached() == old(self).cached(),
            r matches Ok(v) ==> v <= 7,
            r matches Err(e) ==> e is I2c,
    {
        let val = match self.read_byte(ADDR_DEVICE_MODE) {
            Ok(v) => v,
            Err(e) => return Err(e),
        };
        Ok(decode_mode_bits(val))
    }

    /// Write the device operating mode.
    pub fn write_device_mode(&mut self, mode: DeviceMode) -> (r: Result<(), Error<B::BusError>>)
        ensures
            final(self).cached() == old(self).cached(),
            r matches Err(e) ==> e is I2c,
    {
        self.write_byte(ADDR_DEVICE_MODE, mode.to_register())
    }

    /// Read the raw gesture id register.
    pub fn read_gesture_id(&mut self) -> (r: Result<u8, Error<B::BusError>>)
        ensures
            final(self).cached() == old(self).cached(),
            r matches Err(e) ==> e is I2c,
    {
        self.read_byte(ADDR_GESTURE_ID)
    }

    /// Read the raw touch detection status register.
    pub fn read_td_status(&mut self) -> (r: Result<u8, Error<B::BusError>>)
        ensures
            final(self).cached() == old(self).cached(),
            r matches Err(e) ==> e is I2c,
    {
        self.read_byte(ADDR_TD_STATUS)
    }

    /// Read the number of detected touch points: the low nibble of the
    /// status register, uninterpreted beyond that.
    pub fn read_touch_number(&mut self) -> (r: Result<u8, Error<B::BusError>>)
        ensures
            final(self).cached() == old(self).cached(),
            r matches Ok(v) ==> v <= 15,
            r matches Err(e) ==> e is I2c,
    {
        let val = match self.read_byte(ADDR_TD_STATUS) {
            Ok(v) => v,
            Err(e) => return Err(e),
        };
        Ok(decode_touch_count(val))
    }

    /// Read the first point's X coordinate (12-bit).
    pub fn read_touch1_x(&mut self) -> (r: Result<u16, Error<B::BusError>>)
        ensures
            final(self).cached() == old(self).cached(),
            r matches Ok(v) ==> v <= 4095,
            r matches Err(e) ==> e is I2c,
    {
        let (hi, lo) = match self.read_pair(ADDR_TOUCH1_X) {
            Ok(v) => v,
            Err(e) => return Err(e),
        };
        Ok(decode_coord(hi, lo))
    }

    /// Read the first point's Y coordinate (12-bit).
    pub fn read_touch1_y(&mut self) -> (r: Result<u16, Error<B::BusError>>)
        ensures
            final(self).cached() == old(self).cached(),
            r matches Ok(v) ==> v <= 4095,
            r matches Err(e) ==> e is I2c,
    {
        let (hi, lo) = match self.read_pair(ADDR_TOUCH1_Y) {
            Ok(v) => v,
            Err(e) => return Err(e),
        };
        Ok(decode_coord(hi, lo))
    }

    /// Read the first point's event code (top two bits of its event byte).
    pub fn read_touch1_event(&mut self) -> (r: Result<u8, Error<B::BusError>>)
        ensures
            final(self).cached() == old(self).cached(),
            r matches Ok(v) ==> v <= 3,
            r matches Err(e) ==> e is I2c,
    {
        let val = match self.read_byte(ADDR_TOUCH1_EVENT) {
            Ok(v) => v,
            Err(e) => return Err(e),
        };
        Ok(decode_event(val))
    }

    /// Read the first point's id (top nibble of its id byte).
    pub fn read_touch1_id(&mut self) -> (r: Result<u8, Error<B::BusError>>)
        ensures
            final(self).cached() == old(self).cached(),
            r matches Ok(v) ==> v <= 15,
            r matches Err(e) ==> e is I2c,
    {
        let val = match self.read_byte(ADDR_TOUCH1_ID) {
            Ok(v) => v,
            Err(e) => return Err(e),
        };
        Ok(decode_point_id(val))
    }

    /// Read the first point's weight (pressure) register.
    pub fn read_touch1_weight(&mut self) -> (r: Result<u8, Error<B::BusError>>)
        ensures
            final(self).cached() == old(self).cached(),
            r matches Err(e) ==> e is I2c,
    {
        self.read_byte(ADDR_TOUCH1_WEIGHT)
    }

    /// Read the first point's miscellaneous data (top nibble).
    pub fn read_touch1_misc(&mut self) -> (r: Result<u8, Error<B::BusError>>)
        ensures
            final(self).cached() == old(self).cached(),
            r matches Ok(v) ==> v <= 15,
            r matches Err(e) ==> e is I2c,
    {
        let val = match self.read_byte(ADDR_TOUCH1_MISC) {
            Ok(v) => v,
            Err(e) => return Err(e),
        };
        Ok(decode_point_id(val))
    }

    /// Read the second point's X coordinate (12-bit).
    pub fn read_touch2_x(&mut self) -> (r: Result<u16, Error<B::BusError>>)
        ensures
            final(self).cached() == old(self).cached(),
            r matches Ok(v) ==> v <= 4095,
            r matches Err(e) ==> e is I2c,
    {
        let (hi, lo) = match self.read_pair(ADDR_TOUCH2_X) {
            Ok(v) => v,
            Err(e) => return Err(e),
        };
        Ok(decode_coord(hi, lo))
    }

    /// Read the second point's Y coordinate (12-bit).
    pub fn read_touch2_y(&mut self) -> (r: Result<u16, Error<B::BusError>>)
        ensures
            final(self).cached() == old(self).cached(),
            r matches Ok(v) ==> v <= 4095,
            r matches Err(e) ==> e is I2c,
    {
        let (hi, lo) = match self.read_pair(ADDR_TOUCH2_Y) {
            Ok(v) => v,
            Err(e) => return Err(e),
        };
        Ok(decode_coord(hi, lo))
    }

    /// Read the second point's event code (top two bits of its event byte).
    pub fn read_touch2_event(&mut self) -> (r: Result<u8, Error<B::BusError>>)
        ensures
            final(self).cached() == old(self).cached(),
            r matches Ok(v) ==> v <= 3,
            r matches Err(e) ==> e is I2c,
    {
        let val = match self.read_byte(ADDR_TOUCH2_EVENT) {
            Ok(v) => v,
            Err(e) => return Err(e),
        };
        Ok(decode_event(val))
    }

    /// Read the second point's id (top nibble of its id byte).
    pub fn read_touch2_id(&mut self) -> (r: Result<u8, Error<B::BusError>>)
        ensures
            final(self).cached() == old(self).cached(),
            r matches Ok(v) ==> v <= 15,
            r matches Err(e) ==> e is I2c,
    {
        let val = match self.read_byte(ADDR_TOUCH2_ID) {
            Ok(v) => v,
            Err(e) => return Err(e),
        };
        Ok(decode_point_id(val))
    }

    /// Read the second point's weight (pressure) register.
    pub fn read_touch2_weight(&mut self) -> (r: Result<u8, Error<B::BusError>>)
        ensures
            final(self).cached() == old(self).cached(),
            r matches Err(e) ==> e is I2c,
    {
        self.read_byte(ADDR_TOUCH2_WEIGHT)
    }

    /// Read the second point's miscellaneous data (top nibble).
    pub fn read_touch2_misc(&mut self) -> (r: Result<u8, Error<B::BusError>>)
        ensures
            final(self).cached() == old(self).cached(),
            r matches Ok(v) ==> v <= 15,
            r matches Err(e) ==> e is I2c,
    {
        let val = match self.read_byte(ADDR_TOUCH2_MISC) {
            Ok(v) => v,
            Err(e) => return Err(e),
        };
        Ok(decode_point_id(val))
    }

    /// Read the touch detection threshold (lower is more sensitive).
    pub fn read_touch_threshold(&mut self) -> (r: Result<u8, Error<B::BusError>>)
        ensures
            final(self).cached() == old(self).cached(),
            r matches Err(e) ==> e is I2c,
    {
        self.read_byte(ADDR_THRESHOLD)
    }

    /// Read the filter coefficient.
    pub fn read_filter_coefficient(&mut self) -> (r: Result<u8, Error<B::BusError>>)
        ensures
            final(self).cached() == old(self).cached(),
            r matches Err(e) ==> e is I2c,
    {
        self.read_byte(ADDR_FILTER_COE)
    }

    /// Read the raw control mode register.
    pub fn read_ctrl_mode(&mut self) -> (r: Result<u8, Error<B::BusError>>)
        ensures
            final(self).cached() == old(self).cached(),
            r matches Err(e) ==> e is I2c,
    {
        self.read_byte(ADDR_CTRL)
    }

    /// Write the control mode.
    pub fn write_ctrl_mode(&mut self, mode: CtrlMode) -> (r: Result<(), Error<B::BusError>>)
        ensures
            final(self).cached() == old(self).cached(),
            r matches Err(e) ==> e is I2c,
    {
        self.write_byte(ADDR_CTRL, mode.to_register())
    }

    /// Read the time period before the device enters monitor mode.
    pub fn read_time_period_enter_monitor(&mut self) -> (r: Result<u8, Error<B::BusError>>)
        ensures
            final(self).cached() == old(self).cached(),
            r matches Err(e) ==> e is I2c,
    {
        self.read_byte(ADDR_TIME_ENTER_MONITOR)
    }

    /// Read the active mode report rate.
    pub fn read_active_rate(&mut self) -> (r: Result<u8, Error<B::BusError>>)
        ensures
            final(self).cached() == old(self).cached(),
            r matches Err(e) ==> e is I2c,
    {
        self.read_byte(ADDR_ACTIVE_MODE_RATE)
    }

    /// Read the monitor mode report rate.
    pub fn read_monitor_rate(&mut self) -> (r: Result<u8, Error<B::BusError>>)
        ensures
            final(self).cached() == old(self).cached(),
            r matches Err(e) ==> e is I2c,
    {
        self.read_byte(ADDR_MONITOR_MODE_RATE)
    }

    /// Read the radian value for gesture detection.
    pub fn read_radian_value(&mut self) -> (r: Result<u8, Error<B::BusError>>)
        ensures
            final(self).cached() == old(self).cached(),
            r matches Err(e) ==> e is I2c,
    {
        self.read_byte(ADDR_RADIAN_VALUE)
    }

    /// Write the radian value for gesture detection.
    pub fn write_radian_value(&mut self, val: u8) -> (r: Result<(), Error<B::BusError>>)
        ensures
            final(self).cached() == old(self).cached(),
            r matches Err(e) ==> e is I2c,
    {
        self.write_byte(ADDR_RADIAN_VALUE, val)
    }

    /// Read the left/right gesture offset.
    pub fn read_offset_left_right(&mut self) -> (r: Result<u8, Error<B::BusError>>)
        ensures
            final(self).cached() == old(self).cached(),
            r matches Err(e) ==> e is I2c,
    {
        self.read_byte(ADDR_OFFSET_LEFT_RIGHT)
    }

    /// Write the left/right gesture offset.
    pub fn write_offset_left_right(&mut self, val: u8) -> (r: Result<(), Error<B::BusError>>)
        ensures
            final(self).cached() == old(self).cached(),
            r matches Err(e) ==> e is I2c,
    {
        self.write_byte(ADDR_OFFSET_LEFT_RIGHT, val)
    }

    /// Read the up/down gesture offset.
    pub fn read_offset_up_down(&mut self) -> (r: Result<u8, Error<B::BusError>>)
        ensures
            final(self).cached() == old(self).cached(),
            r matches Err(e) ==> e is I2c,
    {
        self.read_byte(ADDR_OFFSET_UP_DOWN)
    }

    /// Write the up/down gesture offset.
    pub fn write_offset_up_down(&mut self, val: u8) -> (r: Result<(), Error<B::BusError>>)
        ensures
            final(self).cached() == old(self).cached(),
            r matches Err(e) ==> e is I2c,
    {
        self.write_byte(ADDR_OFFSET_UP_DOWN, val)
    }

    /// Read the left/right gesture distance.
    pub fn read_distance_left_right(&mut self) -> (r: Result<u8, Error<B::BusError>>)
        ensures
            final(self).cached() == old(self).cached(),
            r matches Err(e) ==> e is I2c,
    {
        self.read_byte(ADDR_DISTANCE_LEFT_RIGHT)
    }

    /// Write the left/right gesture distance.
    pub fn write_distance_left_right(&mut self, val: u8) -> (r: Result<(), Error<B::BusError>>)
        ensures
            final(self).cached() == old(self).cached(),
            r matches Err(e) ==> e is I2c,
    {
        self.write_byte(ADDR_DISTANCE_LEFT_RIGHT, val)
    }

    /// Read the up/down gesture distance.
    pub fn read_distance_up_down(&mut self) -> (r: Result<u8, Error<B::BusError>>)
        ensures
            final(self).cached() == old(self).cached(),
            r matches Err(e) ==> e is I2c,
    {
        self.read_byte(ADDR_DISTANCE_UP_DOWN)
    }

    /// Write the up/down gesture distance.
    pub fn write_distance_up_down(&mut self, val: u8) -> (r: Result<(), Error<B::BusError>>)
        ensures
            final(self).cached() == old(self).cached(),
            r matches Err(e) ==> e is I2c,
    {
        self.write_byte(ADDR_DISTANCE_UP_DOWN, val)
    }

    /// Read the zoom gesture distance.
    pub fn read_distance_zoom(&mut self) -> (r: Result<u8, Error<B::BusError>>)
        ensures
            final(self).cached() == old(self).cached(),
            r matches Err(e) ==> e is I2c,
    {
        self.read_byte(ADDR_DISTANCE_ZOOM)
    }

    /// Write the zoom gesture distance.
    pub fn write_distance_zoom(&mut self, val: u8) -> (r: Result<(), Error<B::BusError>>)
        ensures
            final(self).cached() == old(self).cached(),
            r matches Err(e) ==> e is I2c,
    {
        self.write_byte(ADDR_DISTANCE_ZOOM, val)
    }

    /// Read the device's library version (12-bit, packed like a
    /// coordinate).
    pub fn read_library_version(&mut self) -> (r: Result<u16, Error<B::BusError>>)
        ensures
            final(self).cached() == old(self).cached(),
            r matches Ok(v) ==> v <= 4095,
            r matches Err(e) ==> e is I2c,
    {
        let (hi, lo) = match self.read_pair(ADDR_LIBRARY_VERSION_H) {
            Ok(v) => v,
            Err(e) => return Err(e),
        };
        Ok(decode_coord(hi, lo))
    }

    /// Read the chip id (0x64 on this part).
    pub fn read_chip_id(&mut self) -> (r: Result<u8, Error<B::BusError>>)
        ensures
            final(self).cached() == old(self).cached(),
            r matches Err(e) ==> e is I2c,
    {
        self.read_byte(ADDR_CHIP_ID)
    }

    /// Read the gesture/interrupt mode register.
    pub fn read_g_mode(&mut self) -> (r: Result<u8, Error<B::BusError>>)
        ensures
            final(self).cached() == old(self).cached(),
            r matches Err(e) ==> e is I2c,
    {
        self.read_byte(ADDR_G_MODE)
    }

    /// Write the gesture/interrupt mode.
    pub fn write_g_mode(&mut self, mode: GestureMode) -> (r: Result<(), Error<B::BusError>>)
        ensures
            final(self).cached() == old(self).cached(),
            r matches Err(e) ==> e is I2c,
    {
        self.write_byte(ADDR_G_MODE, mode.to_register())
    }

    /// Read the power mode register.
    pub fn read_pwrmode(&mut self) -> (r: Result<u8, Error<B::BusError>>)
        ensures
            final(self).cached() == old(self).cached(),
            r matches Err(e) ==> e is I2c,
    {
        self.read_byte(ADDR_POWER_MODE)
    }

    /// Read the firmware id register.
    pub fn read_firmware_id(&mut self) -> (r: Result<u8, Error<B::BusError>>)
        ensures
            final(self).cached() == old(self).cached(),
            r matches Err(e) ==> e is I2c,
    {
        self.read_byte(ADDR_FIRMWARE_ID)
    }

    /// Read the Focaltech id register.
    pub fn read_focaltech_id(&mut self) -> (r: Result<u8, Error<B::BusError>>)
        ensures
            final(self).cached() == old(self).cached(),
            r matches Err(e) ==> e is I2c,
    {
        self.read_byte(ADDR_FOCALTECH_ID)
    }

    /// Read the release code id register.
    pub fn read_release_code_id(&mut self) -> (r: Result<u8, Error<B::BusError>>)
        ensures
            final(self).cached() == old(self).cached(),
            r matches Err(e) ==> e is I2c,
    {
        self.read_byte(ADDR_RELEASE_CODE_ID)
    }

    /// Read the device state register.
    pub fn read_state(&mut self) -> (r: Result<u8, Error<B::BusError>>)
        ensures
            final(self).cached() == old(self).cached(),
            r matches Err(e) ==> e is I2c,
    {
        self.read_byte(ADDR_STATE)
    }

    /// Scan for touch events: read the count and per-point registers,
    /// fold them into the cached snapshot, and return the new snapshot.
    ///
    /// On success the new snapshot is exactly the previous one rewritten
    /// by some decoded report, as [`scan_rel`] with all seven mutation
    /// steps applied describes. A bus failure aborts the scan at once and
    /// surfaces the transport's error; the reads being sequential, the
    /// snapshot is then left at whichever intermediate step the failure
    /// hit (`scan_rel` with fewer steps), so a failed scan can leave an
    /// earlier point's slot already rewritten.
    pub fn scan(&mut self) -> (r: Result<TouchData, Error<B::BusError>>)
        ensures
            r matches Ok(d) ==> d == final(self).cached() && exists|rep: ScanReport|
                valid_report(rep) && #[trigger] scan_rel(
                    old(self).cached(),
                    rep,
                    7,
                    final(self).cached(),
                ),
            r matches Err(e) ==> e is I2c && exists|rep: ScanReport, k: int|
                valid_report(rep) && 0 <= k < 7 && #[trigger] scan_rel(
                    old(self).cached(),
                    rep,
                    k,
                    final(self).cached(),
                ),
    {
        let ghost prev = self.touch_data;
        let ghost zero_point = PointReport { id: 0, x: 0, y: 0 };

        let touch_count: u8 = match self.read_touch_number() {
            Ok(v) => v,
            Err(e) => {
                proof {
                    let rep = ScanReport { count: 0, a: zero_point, b: zero_point };
                    assert(valid_report(rep) && scan_rel(prev, rep, 0, self.touch_data));
                }
                return Err(e);
            },
        };
        self.touch_data.touch_count = touch_count;

        if touch_count == 0 {
            self.touch_data.mark_released(0);
            self.touch_data.mark_released(1);
            proof {
                let rep = ScanReport { count: touch_count, a: zero_point, b: zero_point };
                assert(valid_report(rep) && scan_rel(prev, rep, 7, self.touch_data));
            }
        } else if touch_count == 1 {
            let id1: u8 = match self.read_touch1_id() {
                Ok(v) => v,
                Err(e) => {
                    proof {
                        let rep = ScanReport { count: touch_count, a: zero_point, b: zero_point };
                        assert(valid_report(rep) && scan_rel(prev, rep, 1, self.touch_data));
                    }
                    return Err(e);
                },
            };
            if id1 < 2 {
                let idx: usize = id1 as usize;
                self.touch_data.mark_present(idx);
                let x: u16 = match self.read_touch1_x() {
                    Ok(v) => v,
                    Err(e) => {
                        proof {
                            let rep = ScanReport {
                                count: touch_count,
                                a: PointReport { id: id1, x: 0, y: 0 },
                                b: zero_point,
                            };
                            assert(valid_report(rep) && scan_rel(prev, rep, 2, self.touch_data));
                        }
                        return Err(e);
                    },
                };
                self.touch_data.set_x(idx, x);
                let y: u16 = match self.read_touch1_y() {
                    Ok(v) => v,
                    Err(e) => {
                        proof {
                            let rep = ScanReport {
                                count: touch_count,
                                a: PointReport { id: id1, x: x, y: 0 },
                                b: zero_point,
                            };
                            assert(valid_report(rep) && scan_rel(prev, rep, 3, self.touch_data));
                        }
                        return Err(e);
                    },
                };
                self.touch_data.set_y(idx, y);
                self.touch_data.mark_released(1 - idx);
                proof {
                    let rep = ScanReport {
                        count: touch_count,
                        a: PointReport { id: id1, x: x, y: y },
                        b: zero_point,
                    };
                    assert(valid_report(rep) && scan_rel(prev, rep, 7, self.touch_data));
                }
            } else {
                proof {
                    let rep = ScanReport {
                        count: touch_count,
                        a: PointReport { id: id1, x: 0, y: 0 },
                        b: zero_point,
                    };
                    assert(valid_report(rep) && scan_rel(prev, rep, 7, self.touch_data));
                }
            }
        } else {
            let id1: u8 = match self.read_touch1_id() {
                Ok(v) => v,
                Err(e) => {
                    proof {
                        let rep = ScanReport { count: touch_count, a: zero_point, b: zero_point };
                        assert(valid_report(rep) && scan_rel(prev, rep, 1, self.touch_data));
                    }
                    return Err(e);
                },
            };
            let ghost mut point_a = PointReport { id: id1, x: 0, y: 0 };
            if id1 < 2 {
                let idx: usize = id1 as usize;
                self.touch_data.mark_present(idx);
                let x: u16 = match self.read_touch1_x() {
                    Ok(v) => v,
                    Err(e) => {
                        proof {
                            let rep = ScanReport { count: touch_count, a: point_a, b: zero_point };
                            assert(valid_report(rep) && scan_rel(prev, rep, 2, self.touch_data));
                        }
                        return Err(e);
                    },
                };
                self.touch_data.set_x(idx, x);
                let y: u16 = match self.read_touch1_y() {
                    Ok(v) => v,
                    Err(e) => {
                        proof {
                            point_a = PointReport { id: id1, x: x, y: 0 };
                            let rep = ScanReport { count: touch_count, a: point_a, b: zero_point };
                            assert(valid_report(rep) && scan_rel(prev, rep, 3, self.touch_data));
                        }
                        return Err(e);
                    },
                };
                self.touch_data.set_y(idx, y);
                proof {
                    point_a = PointReport { id: id1, x: x, y: y };
                }
            }
            let id2: u8 = match self.read_touch2_id() {
                Ok(v) => v,
                Err(e) => {
                    proof {
                        let rep = ScanReport { count: touch_count, a: point_a, b: zero_point };
                        assert(valid_report(rep) && scan_rel(prev, rep, 4, self.touch_data));
                    }
                    return Err(e);
                },
            };
            if id2 < 2 {
                let idx2: usize = id2 as usize;
                self.touch_data.mark_present(idx2);
                let x2: u16 = match self.read_touch2_x() {
                    Ok(v) => v,
                    Err(e) => {
                        proof {
                            let rep = ScanReport {
                                count: touch_count,
                                a: point_a,
                                b: PointReport { id: id2, x: 0, y: 0 },
                            };
                            assert(valid_report(rep) && scan_rel(prev, rep, 5, self.touch_data));
                        }
                        return Err(e);
                    },
                };
                self.touch_data.set_x(idx2, x2);
                let y2: u16 = match self.read_touch2_y() {
                    Ok(v) => v,
                    Err(e) => {
                        proof {
                            let rep = ScanReport {
                                count: touch_count,
                                a: point_a,
                                b: PointReport { id: id2, x: x2, y: 0 },
                            };
                            assert(valid_report(rep) && scan_rel(prev, rep, 6, self.touch_data));
                        }
                        return Err(e);
                    },
                };
                self.touch_data.set_y(idx2, y2);
                proof {
                    let rep = ScanReport {
                        count: touch_count,
                        a: point_a,
                        b: PointReport { id: id2, x: x2, y: y2 },
                    };
                    assert(valid_report(rep) && scan_rel(prev, rep, 7, self.touch_data));
                }
            } else {
                proof {
                    let rep = ScanReport {
                        count: touch_count,
                        a: point_a,
                        b: PointReport { id: id2, x: 0, y: 0 },
                    };
                    assert(valid_report(rep) && scan_rel(prev, rep, 7, self.touch_data));
                }
            }
        }

        proof {
            assert(exists|rep: ScanReport|
                valid_report(rep) && #[trigger] scan_rel(prev, rep, 7, self.touch_data));
        }
        Ok(self.touch_data)
    }
}

} // verus!
