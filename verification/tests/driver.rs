//! The driver against scripted buses: the scan lifecycle, register
//! accessors, and failure propagation.

use std::cell::RefCell;
use std::rc::Rc;

use ft6336u_driver::{
    CtrlMode, DeviceMode, Error, GestureMode, RegisterBus, TouchStatus, FT6336U,
};

/// A bus backed by a shared flat register image; never fails, records
/// writes. The test keeps its own handles to reprogram the image between
/// scans.
struct MemBus {
    regs: Rc<RefCell<[u8; 256]>>,
    writes: Rc<RefCell<Vec<(u8, u8)>>>,
}

fn mem_bus() -> (MemBus, Rc<RefCell<[u8; 256]>>, Rc<RefCell<Vec<(u8, u8)>>>) {
    let regs = Rc::new(RefCell::new([0u8; 256]));
    let writes = Rc::new(RefCell::new(Vec::new()));
    let bus = MemBus { regs: regs.clone(), writes: writes.clone() };
    (bus, regs, writes)
}

impl RegisterBus for MemBus {
    type BusError = u8;

    fn read_reg(&mut self, reg: u8) -> Result<u8, u8> {
        Ok(self.regs.borrow()[reg as usize])
    }

    fn read_reg_pair(&mut self, reg: u8) -> Result<(u8, u8), u8> {
        let regs = self.regs.borrow();
        Ok((regs[reg as usize], regs[reg as usize + 1]))
    }

    fn write_reg(&mut self, reg: u8, value: u8) -> Result<(), u8> {
        self.writes.borrow_mut().push((reg, value));
        self.regs.borrow_mut()[reg as usize] = value;
        Ok(())
    }
}

/// A bus that fails every exchange once an operation budget runs out.
struct FlakyBus {
    regs: Rc<RefCell<[u8; 256]>>,
    budget: Rc<RefCell<usize>>,
}

impl FlakyBus {
    fn check(&mut self) -> Result<(), u8> {
        let mut budget = self.budget.borrow_mut();
        if *budget == 0 {
            Err(77)
        } else {
            *budget -= 1;
            Ok(())
        }
    }
}

fn flaky_bus(ops_before_failure: usize) -> (FlakyBus, Rc<RefCell<[u8; 256]>>, Rc<RefCell<usize>>) {
    let regs = Rc::new(RefCell::new([0u8; 256]));
    let budget = Rc::new(RefCell::new(ops_before_failure));
    let bus = FlakyBus { regs: regs.clone(), budget: budget.clone() };
    (bus, regs, budget)
}

impl RegisterBus for FlakyBus {
    type BusError = u8;

    fn read_reg(&mut self, reg: u8) -> Result<u8, u8> {
        self.check()?;
        Ok(self.regs.borrow()[reg as usize])
    }

    fn read_reg_pair(&mut self, reg: u8) -> Result<(u8, u8), u8> {
        self.check()?;
        let regs = self.regs.borrow();
        Ok((regs[reg as usize], regs[reg as usize + 1]))
    }

    fn write_reg(&mut self, reg: u8, value: u8) -> Result<(), u8> {
        self.check()?;
        self.regs.borrow_mut()[reg as usize] = value;
        Ok(())
    }
}

/// Store one touch point in the register image, id and coordinates packed
/// as the hardware packs them. `base` is 0x03 for the first point and 0x09
/// for the second.
fn set_point(regs: &Rc<RefCell<[u8; 256]>>, base: usize, id: u8, x: u16, y: u16) {
    let mut regs = regs.borrow_mut();
    regs[base] = (x >> 8) as u8;
    regs[base + 1] = (x & 0xFF) as u8;
    regs[base + 2] = (id << 4) | ((y >> 8) as u8);
    regs[base + 3] = (y & 0xFF) as u8;
}

#[test]
fn scan_lifecycle_touch_stream_release() {
    let (bus, regs, _) = mem_bus();
    regs.borrow_mut()[0x02] = 1;
    set_point(&regs, 0x03, 0, 100, 200);
    let mut touch = FT6336U::new(bus);

    let d1 = touch.scan().unwrap();
    assert_eq!(d1.touch_count, 1);
    assert_eq!(d1.points[0].status, TouchStatus::Touch);
    assert_eq!((d1.points[0].x, d1.points[0].y), (100, 200));
    assert_eq!(d1.points[1].status, TouchStatus::Release);
    assert_eq!((d1.points[1].x, d1.points[1].y), (0, 0));

    // Same point still down on the next scan: streaming.
    set_point(&regs, 0x03, 0, 105, 205);
    let d2 = touch.scan().unwrap();
    assert_eq!(d2.points[0].status, TouchStatus::Stream);
    assert_eq!((d2.points[0].x, d2.points[0].y), (105, 205));

    // Contact gone: released, stale coordinates kept.
    regs.borrow_mut()[0x02] = 0;
    let d3 = touch.scan().unwrap();
    assert_eq!(d3.touch_count, 0);
    assert_eq!(d3.points[0].status, TouchStatus::Release);
    assert_eq!((d3.points[0].x, d3.points[0].y), (105, 205));
    assert_eq!(d3.points[1].status, TouchStatus::Release);
}

#[test]
fn scan_two_points_by_hardware_id() {
    let (bus, regs, _) = mem_bus();
    regs.borrow_mut()[0x02] = 2;
    set_point(&regs, 0x03, 1, 11, 22);
    set_point(&regs, 0x09, 0, 33, 44);
    let mut touch = FT6336U::new(bus);

    let d = touch.scan().unwrap();
    assert_eq!(d.touch_count, 2);
    // Slots are addressed by the reported id, not by report order.
    assert_eq!(d.points[1].status, TouchStatus::Touch);
    assert_eq!((d.points[1].x, d.points[1].y), (11, 22));
    assert_eq!(d.points[0].status, TouchStatus::Touch);
    assert_eq!((d.points[0].x, d.points[0].y), (33, 44));
}

#[test]
fn scan_ignores_out_of_range_id() {
    let (bus, regs, _) = mem_bus();
    regs.borrow_mut()[0x02] = 1;
    set_point(&regs, 0x03, 9, 123, 231);
    let mut touch = FT6336U::new(bus);

    let d = touch.scan().unwrap();
    assert_eq!(d.touch_count, 1);
    assert_eq!(d.points[0].status, TouchStatus::Release);
    assert_eq!((d.points[0].x, d.points[0].y), (0, 0));
    assert_eq!(d.points[1].status, TouchStatus::Release);
}

#[test]
fn scan_surfaces_bus_failure() {
    let (bus, _, _) = flaky_bus(0);
    let mut touch = FT6336U::new(bus);
    assert!(matches!(touch.scan(), Err(Error::I2c(77))));
}

#[test]
fn failed_scan_leaves_partial_snapshot() {
    // Point 0 is down; the scan dies on the coordinate read, after the
    // slot's status was already advanced to Touch.
    let (bus, regs, budget) = flaky_bus(2);
    regs.borrow_mut()[0x02] = 1;
    set_point(&regs, 0x03, 0, 100, 200);
    let mut touch = FT6336U::new(bus);
    assert!(matches!(touch.scan(), Err(Error::I2c(77))));

    // The next successful scan therefore sees the slot as already held
    // and reports Stream, not Touch.
    *budget.borrow_mut() = usize::MAX;
    let d = touch.scan().unwrap();
    assert_eq!(d.points[0].status, TouchStatus::Stream);
    assert_eq!((d.points[0].x, d.points[0].y), (100, 200));
}

#[test]
fn failure_on_second_point_leaves_first_committed() {
    // Two points are down; the scan dies on the second point's coordinate
    // read, after the first point's slot was fully committed and the
    // second's status already advanced.
    let (bus, regs, budget) = flaky_bus(5);
    regs.borrow_mut()[0x02] = 2;
    set_point(&regs, 0x03, 0, 100, 200);
    set_point(&regs, 0x09, 1, 300, 400);
    let mut touch = FT6336U::new(bus);
    assert!(matches!(touch.scan(), Err(Error::I2c(77))));

    // The next successful scan sees both slots as already held.
    *budget.borrow_mut() = usize::MAX;
    let d = touch.scan().unwrap();
    assert_eq!(d.points[0].status, TouchStatus::Stream);
    assert_eq!((d.points[0].x, d.points[0].y), (100, 200));
    assert_eq!(d.points[1].status, TouchStatus::Stream);
    assert_eq!((d.points[1].x, d.points[1].y), (300, 400));
}

#[test]
fn register_reads_decode_their_fields() {
    let (bus, regs, _) = mem_bus();
    {
        let mut regs = regs.borrow_mut();
        regs[0x00] = 0x75;
        regs[0x01] = 0x48;
        regs[0x02] = 0xA2;
        regs[0x03] = 0x8F;
        regs[0x05] = 0x1C;
        regs[0x07] = 33;
        regs[0x08] = 0x5A;
        regs[0x80] = 21;
        regs[0xA1] = 0x02;
        regs[0xA2] = 0x34;
        regs[0xA3] = 0x64;
        regs[0xBC] = 3;
    }
    let mut touch = FT6336U::new(bus);

    assert_eq!(touch.read_device_mode().unwrap(), 7);
    assert_eq!(touch.read_gesture_id().unwrap(), 0x48);
    assert_eq!(touch.read_td_status().unwrap(), 0xA2);
    assert_eq!(touch.read_touch_number().unwrap(), 2);
    assert_eq!(touch.read_touch1_event().unwrap(), 2);
    assert_eq!(touch.read_touch1_id().unwrap(), 1);
    assert_eq!(touch.read_touch1_weight().unwrap(), 33);
    assert_eq!(touch.read_touch1_misc().unwrap(), 5);
    assert_eq!(touch.read_touch_threshold().unwrap(), 21);
    assert_eq!(touch.read_library_version().unwrap(), 0x234);
    assert_eq!(touch.read_chip_id().unwrap(), 0x64);
    assert_eq!(touch.read_state().unwrap(), 3);
}

#[test]
fn coordinate_reads_mask_the_high_nibble() {
    let (bus, regs, _) = mem_bus();
    {
        let mut regs = regs.borrow_mut();
        regs[0x03] = 0xF1;
        regs[0x04] = 0x23;
        regs[0x09] = 0x02;
        regs[0x0A] = 0x22;
    }
    let mut touch = FT6336U::new(bus);
    assert_eq!(touch.read_touch1_x().unwrap(), 0x123);
    assert_eq!(touch.read_touch2_x().unwrap(), 0x222);
}

#[test]
fn register_writes_hit_their_registers() {
    let (bus, _, writes) = mem_bus();
    let mut touch = FT6336U::new(bus);
    touch.write_device_mode(DeviceMode::Factory).unwrap();
    touch.write_ctrl_mode(CtrlMode::SwitchToMonitor).unwrap();
    touch.write_g_mode(GestureMode::Trigger).unwrap();
    touch.write_radian_value(0x11).unwrap();
    touch.write_offset_left_right(0x22).unwrap();
    touch.write_distance_zoom(0x33).unwrap();
    assert_eq!(
        *writes.borrow(),
        vec![
            (0x00, 0x40),
            (0x86, 0x01),
            (0xA4, 0x01),
            (0x91, 0x11),
            (0x92, 0x22),
            (0x96, 0x33),
        ]
    );
}

#[test]
fn accessor_failure_is_wrapped_unmodified() {
    let (bus, _, _) = flaky_bus(0);
    let mut touch = FT6336U::new(bus);
    assert!(matches!(touch.read_chip_id(), Err(Error::I2c(77))));
    assert!(matches!(touch.write_radian_value(1), Err(Error::I2c(77))));
}
