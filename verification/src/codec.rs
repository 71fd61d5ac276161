//! The register codec: pure bit-field rules that interpret raw register
//! bytes. Integer extraction never fails; enumeration decoding lives with
//! the enums themselves in [`crate::types`].

use vstd::prelude::*;

verus! {

/// The touch count is the low nibble of the status register.
pub open spec fn count_of(b: u8) -> u8 {
    b & 0x0F
}

/// An event code is the top two bits of a point's event byte.
pub open spec fn event_of(b: u8) -> u8 {
    b >> 6
}

/// A point id is the top nibble of a point's id byte.
pub open spec fn id_of(b: u8) -> u8 {
    b >> 4
}

/// A 12-bit coordinate is packed into two bytes: the low nibble of the
/// first byte holds the high four bits, the second byte the low eight.
pub open spec fn coord_of(hi: u8, lo: u8) -> u16 {
    (((hi & 0x0F) as u16) << 8) | (lo as u16)
}

/// The device mode sits in bits 4-6 of the mode register.
pub open spec fn mode_bits_of(b: u8) -> u8 {
    (b & 0x70) >> 4
}

/// High byte of the packing rule for a 12-bit coordinate.
pub open spec fn pack_coord_hi(v: u16) -> u8 {
    (v >> 8) as u8
}

/// Low byte of the packing rule for a 12-bit coordinate.
pub open spec fn pack_coord_lo(v: u16) -> u8 {
    (v & 0xFF) as u8
}

/// Extract the touch count from the status register byte.
pub fn decode_touch_count(b: u8) -> (r: u8)
    ensures
        r == count_of(b),
        r <= 15,
{
    assert(b & 0x0F <= 15) by (bit_vector);
    b & 0x0F
}

/// Extract the event code (0 = down, 1 = up, 2 = contact, 3 = reserved)
/// from a point's event byte.
pub fn decode_event(b: u8) -> (r: u8)
    ensures
        r == event_of(b),
        r <= 3,
{
    assert(b >> 6 <= 3) by (bit_vector);
    b >> 6
}

/// Extract the point id from a point's id byte. Only ids 0 and 1 name a
/// tracked slot; anything else is an unassociated report.
pub fn decode_point_id(b: u8) -> (r: u8)
    ensures
        r == id_of(b),
        r <= 15,
{
    assert(b >> 4 <= 15) by (bit_vector);
    b >> 4
}

/// Assemble a 12-bit coordinate from its two register bytes.
pub fn decode_coord(hi: u8, lo: u8) -> (r: u16)
    ensures
        r == coord_of(hi, lo),
        r <= 4095,
{
    assert((((hi & 0x0F) as u16) << 8) | (lo as u16) <= 4095) by (bit_vector);
    (((hi & 0x0F) as u16) << 8) | (lo as u16)
}

/// Extract the device mode bits from the mode register byte.
pub fn decode_mode_bits(b: u8) -> (r: u8)
    ensures
        r == mode_bits_of(b),
        r <= 7,
{
    assert((b & 0x70) >> 4 <= 7) by (bit_vector);
    (b & 0x70) >> 4
}

/// Law: decoding is the exact inverse of the packing rule. Every 12-bit
/// value, packed into the two-byte register format, decodes back to itself.
pub proof fn lemma_coord_round_trip(v: u16)
    requires
        v <= 4095,
    ensures
        coord_of(pack_coord_hi(v), pack_coord_lo(v)) == v,
{
    assert(((((((v >> 8) as u8) & 0x0F) as u16) << 8) | (((v & 0xFF) as u8) as u16)) == v)
        by (bit_vector)
        requires
            v <= 4095,
    ;
}

} // verus!
