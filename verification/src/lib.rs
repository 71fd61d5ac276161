//! Driver logic for the FT6336U capacitive touch controller.
//!
//! The crate is split in two layers. The register codec ([`codec`]) holds the
//! pure bit-field rules that turn raw register bytes into touch counts,
//! 12-bit coordinates, event codes and point ids. The lifecycle tracker
//! ([`tracker`]) folds one decoded scan after another into a two-slot
//! snapshot, deciding for each slot whether a contact is new (`Touch`),
//! continuing (`Stream`) or gone (`Release`).
//!
//! The bus itself is abstract: the driver talks to the hardware through a
//! register-bus trait, and callers supply the concrete transport.

mod bus;
mod codec;
mod constants;
mod driver;
mod error;
mod tracker;
mod types;

pub use bus::RegisterBus;
pub use codec::{
    coord_of, count_of, decode_coord, decode_event, decode_mode_bits, decode_point_id,
    decode_touch_count, event_of, id_of, lemma_coord_round_trip, mode_bits_of, pack_coord_hi,
    pack_coord_lo,
};
pub use constants::{
    ADDR_ACTIVE_MODE_RATE, ADDR_CHIP_ID, ADDR_CTRL, ADDR_DEVICE_MODE, ADDR_DISTANCE_LEFT_RIGHT,
    ADDR_DISTANCE_UP_DOWN, ADDR_DISTANCE_ZOOM, ADDR_FILTER_COE, ADDR_FIRMWARE_ID,
    ADDR_FOCALTECH_ID, ADDR_GESTURE_ID, ADDR_G_MODE, ADDR_LIBRARY_VERSION_H,
    ADDR_LIBRARY_VERSION_L, ADDR_MONITOR_MODE_RATE, ADDR_OFFSET_LEFT_RIGHT, ADDR_OFFSET_UP_DOWN,
    ADDR_POWER_MODE, ADDR_RADIAN_VALUE, ADDR_RELEASE_CODE_ID, ADDR_STATE, ADDR_TD_STATUS,
    ADDR_THRESHOLD, ADDR_TIME_ENTER_MONITOR, ADDR_TOUCH1_EVENT, ADDR_TOUCH1_ID, ADDR_TOUCH1_MISC,
    ADDR_TOUCH1_WEIGHT, ADDR_TOUCH1_X, ADDR_TOUCH1_Y, ADDR_TOUCH2_EVENT, ADDR_TOUCH2_ID,
    ADDR_TOUCH2_MISC, ADDR_TOUCH2_WEIGHT, ADDR_TOUCH2_X, ADDR_TOUCH2_Y, COORD_UD, I2C_ADDR,
    PRES_DOWN,
};
pub use driver::FT6336U;
pub use error::Error;
pub use tracker::{
    advance, advance_status, lemma_release_propagation, lemma_single_point_exclusive,
    lemma_touch_then_stream, lemma_two_point_independence, released, scan_rel, slot_after,
    slot_state, staged, valid_report, PointReport, ScanReport,
};
pub use types::{CtrlMode, DeviceMode, GestureMode, TouchData, TouchPoint, TouchStatus};
