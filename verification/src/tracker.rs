//! The touch lifecycle tracker: how one decoded scan report is folded into
//! the previous two-slot snapshot.
//!
//! Per slot the lifecycle is a three-state machine over the states
//! `Release`, `Touch` and `Stream` with the input alphabet present/absent:
//! a present slot moves `Release` to `Touch` and anything else to `Stream`
//! ([`advance`]); an absent slot moves to `Release`. The spec function
//! [`slot_state`] describes, mutation step by mutation step, how a scan
//! rewrites a slot, so that even a scan aborted by a bus failure has its
//! intermediate states named; [`slot_after`] is the fully applied result.

use vstd::prelude::*;

use crate::types::{TouchData, TouchPoint, TouchStatus};

verus! {

/// One point entry of a scan report: the hardware-reported id and the
/// decoded coordinates. Ids outside 0 and 1 mark a report that belongs to
/// no tracked slot and is ignored.
#[derive(Debug, Clone, Copy, PartialEq, Eq, Structural)]
pub struct PointReport {
    /// Hardware-reported point id (top nibble of the id byte).
    pub id: u8,
    /// Decoded X coordinate.
    pub x: u16,
    /// Decoded Y coordinate.
    pub y: u16,
}

/// Everything one scan decodes from the registers: the raw touch count and
/// the two point entries. With count 1 only `a` is meaningful; with count 0
/// neither is.
#[derive(Debug, Clone, Copy, PartialEq, Eq, Structural)]
pub struct ScanReport {
    /// Raw touch count (low nibble of the status register).
    pub count: u8,
    /// First reported point.
    pub a: PointReport,
    /// Second reported point.
    pub b: PointReport,
}

/// Ranges that decoded register values always lie in: a nibble count and
/// ids, 12-bit coordinates.
pub open spec fn valid_report(rep: ScanReport) -> bool {
    &&& rep.count <= 15
    &&& rep.a.id <= 15
    &&& rep.b.id <= 15
    &&& rep.a.x <= 4095
    &&& rep.a.y <= 4095
    &&& rep.b.x <= 4095
    &&& rep.b.y <= 4095
}

/// The per-slot transition on a present contact: a released slot sees a new
/// touch, any other slot keeps streaming.
pub open spec fn advance(s: TouchStatus) -> TouchStatus {
    if s is Release {
        TouchStatus::Touch
    } else {
        TouchStatus::Stream
    }
}

/// A released slot: the status drops to `Release`, the stale coordinates
/// stay behind.
pub open spec fn released(p: TouchPoint) -> TouchPoint {
    TouchPoint { status: TouchStatus::Release, x: p.x, y: p.y }
}

/// A present slot after the first `k - k0 + 1` of its three mutation steps:
/// the status advances at step `k0`, the X coordinate lands at `k0 + 1`,
/// the Y coordinate at `k0 + 2`.
pub open spec fn staged(p: TouchPoint, x: u16, y: u16, k: int, k0: int) -> TouchPoint {
    let after_status = if k >= k0 {
        TouchPoint { status: advance(p.status), x: p.x, y: p.y }
    } else {
        p
    };
    let after_x = if k >= k0 + 1 {
        TouchPoint { status: after_status.status, x: x, y: after_status.y }
    } else {
        after_status
    };
    if k >= k0 + 2 {
        TouchPoint { status: after_x.status, x: after_x.x, y: y }
    } else {
        after_x
    }
}

/// Slot `i` after the first `k` mutation steps of a scan that decoded
/// `rep`, starting from `p`. Step 1 writes the count (and touches no slot);
/// with count 0, step 2 releases both slots; with count 1, steps 2-4 apply
/// the present transition to the addressed slot and step 5 releases the
/// other one; with count 2 or more, steps 2-4 apply the first point and
/// steps 5-7 the second. A point whose id addresses no slot contributes
/// nothing. `k >= 7` is the fully applied scan.
pub open spec fn slot_state(p: TouchPoint, rep: ScanReport, i: int, k: int) -> TouchPoint {
    if rep.count == 0 {
        if k >= 2 {
            released(p)
        } else {
            p
        }
    } else if rep.count == 1 {
        if rep.a.id < 2 {
            if i == rep.a.id as int {
                staged(p, rep.a.x, rep.a.y, k, 2)
            } else {
                if k >= 5 {
                    released(p)
                } else {
                    p
                }
            }
        } else {
            p
        }
    } else {
        let q = if i == rep.a.id as int {
            staged(p, rep.a.x, rep.a.y, k, 2)
        } else {
            p
        };
        if i == rep.b.id as int {
            staged(q, rep.b.x, rep.b.y, k, 5)
        } else {
            q
        }
    }
}

/// Slot `i` after a completed scan that decoded `rep`, starting from `p`.
pub open spec fn slot_after(p: TouchPoint, rep: ScanReport, i: int) -> TouchPoint {
    slot_state(p, rep, i, 7)
}

/// `cur` is the snapshot that the first `k` mutation steps of a scan
/// decoding `rep` make out of `prev`. `k == 7` describes a completed scan;
/// smaller `k` the states a scan aborted by a bus failure leaves behind.
pub open spec fn scan_rel(prev: TouchData, rep: ScanReport, k: int, cur: TouchData) -> bool {
    &&& cur.touch_count == if k >= 1 {
        rep.count
    } else {
        prev.touch_count
    }
    &&& cur.points[0] == slot_state(prev.points[0], rep, 0, k)
    &&& cur.points[1] == slot_state(prev.points[1], rep, 1, k)
}

/// Law: a slot present in two consecutive single-point scans reports
/// `Touch` on the first and `Stream` on the second — never `Touch` twice,
/// and never `Stream` on first appearance.
pub proof fn lemma_touch_then_stream(p: TouchPoint, r1: ScanReport, r2: ScanReport, i: int)
    requires
        0 <= i < 2,
        p.status is Release,
        r1.count == 1,
        r2.count == 1,
        r1.a.id == i,
        r2.a.id == i,
    ensures
        slot_after(p, r1, i).status is Touch,
        slot_after(slot_after(p, r1, i), r2, i).status is Stream,
{
}

/// Law: a scan with count zero releases both slots whatever they held,
/// leaving their stale coordinates in place.
pub proof fn lemma_release_propagation(p: TouchPoint, rep: ScanReport, i: int)
    requires
        rep.count == 0,
        0 <= i < 2,
    ensures
        slot_after(p, rep, i).status is Release,
        slot_after(p, rep, i).x == p.x,
        slot_after(p, rep, i).y == p.y,
{
}

/// Law: a single-point scan addressed to slot 1 forces slot 0 to
/// `Release`, whatever slot 0 held before.
pub proof fn lemma_single_point_exclusive(p0: TouchPoint, rep: ScanReport)
    requires
        rep.count == 1,
        rep.a.id == 1,
    ensures
        slot_after(p0, rep, 0).status is Release,
{
}

/// Law: a two-point scan whose ids name both slots updates each slot from
/// its own point's registers, with no cross-contamination between the two.
pub proof fn lemma_two_point_independence(p0: TouchPoint, p1: TouchPoint, rep: ScanReport)
    requires
        rep.count == 2,
        rep.a.id < 2,
        rep.b.id < 2,
        rep.a.id != rep.b.id,
    ensures
        rep.a.id == 0 ==> slot_after(p0, rep, 0) == (TouchPoint {
            status: advance(p0.status),
            x: rep.a.x,
            y: rep.a.y,
        }) && slot_after(p1, rep, 1) == (TouchPoint {
            status: advance(p1.status),
            x: rep.b.x,
            y: rep.b.y,
        }),
        rep.a.id == 1 ==> slot_after(p0, rep, 0) == (TouchPoint {
            status: advance(p0.status),
            x: rep.b.x,
            y: rep.b.y,
        }) && slot_after(p1, rep, 1) == (TouchPoint {
            status: advance(p1.status),
            x: rep.a.x,
            y: rep.a.y,
        }),
{
}

/// Executable form of the per-slot present transition [`advance`].
pub fn advance_status(s: TouchStatus) -> (r: TouchStatus)
    ensures
        r == advance(s),
{
    match s {
        TouchStatus::Release => TouchStatus::Touch,
        _ => TouchStatus::Stream,
    }
}

impl TouchData {
    /// Replace slot `id`, leaving the other slot and the count alone.
    fn set_slot(&mut self, id: usize, p: TouchPoint)
        requires
            id < 2,
        ensures
            final(self).touch_count == old(self).touch_count,
            final(self).points[id as int] == p,
            final(self).points[1 - id as int] == old(self).points[1 - id as int],
    {
        if id == 0 {
            self.points = [p, self.points[1]];
        } else {
            self.points = [self.points[0], p];
        }
    }

    /// Record that slot `id` is present in the current scan: its status
    /// advances (`Release` to `Touch`, anything else to `Stream`), its
    /// coordinates and the other slot stay put.
    pub fn mark_present(&mut self, id: usize)
        requires
            id < 2,
        ensures
            final(self).touch_count == old(self).touch_count,
            final(self).points[id as int] == (TouchPoint {
                status: advance(old(self).points[id as int].status),
                x: old(self).points[id as int].x,
                y: old(self).points[id as int].y,
            }),
            final(self).points[1 - id as int] == old(self).points[1 - id as int],
    {
        let p: TouchPoint = self.points[id];
        let np = TouchPoint { status: advance_status(p.status), x: p.x, y: p.y };
        self.set_slot(id, np);
    }

    /// Force slot `id` to `Release`; its stale coordinates stay behind.
    pub fn mark_released(&mut self, id: usize)
        requires
            id < 2,
        ensures
            final(self).touch_count == old(self).touch_count,
            final(self).points[id as int] == released(old(self).points[id as int]),
            final(self).points[1 - id as int] == old(self).points[1 - id as int],
    {
        let p: TouchPoint = self.points[id];
        let np = TouchPoint { status: TouchStatus::Release, x: p.x, y: p.y };
        self.set_slot(id, np);
    }

    /// Store a freshly read X coordinate in slot `id`.
    pub fn set_x(&mut self, id: usize, x: u16)
        requires
            id < 2,
        ensures
            final(self).touch_count == old(self).touch_count,
            final(self).points[id as int] == (TouchPoint {
                status: old(self).points[id as int].status,
                x: x,
                y: old(self).points[id as int].y,
            }),
            final(self).points[1 - id as int] == old(self).points[1 - id as int],
    {
        let p: TouchPoint = self.points[id];
        let np = TouchPoint { status: p.status, x: x, y: p.y };
        self.set_slot(id, np);
    }

    /// Store a freshly read Y coordinate in slot `id`.
    pub fn set_y(&mut self, id: usize, y: u16)
        requires
            id < 2,
        ensures
            final(self).touch_count == old(self).touch_count,
            final(self).points[id as int] == (TouchPoint {
                status: old(self).points[id as int].status,
                x: old(self).points[id as int].x,
                y: y,
            }),
            final(self).points[1 - id as int] == old(self).points[1 - id as int],
    {
        let p: TouchPoint = self.points[id];
        let np = TouchPoint { status: p.status, x: p.x, y: y };
        self.set_slot(id, np);
    }

    /// Fold one complete scan report into this snapshot, without a bus:
    /// the pure decision core of a scan. Returns the new snapshot and
    /// leaves `self` alone.
    pub fn apply_report(&self, rep: &ScanReport) -> (r: TouchData)
        ensures
            r.touch_count == rep.count,
            r.points[0] == slot_after(self.points[0], *rep, 0),
            r.points[1] == slot_after(self.points[1], *rep, 1),
    {
        let mut d: TouchData = *self;
        d.touch_count = rep.count;
        if rep.count == 0 {
            d.mark_released(0);
            d.mark_released(1);
        } else if rep.count == 1 {
            if rep.a.id < 2 {
                let idx: usize = rep.a.id as usize;
                d.mark_present(idx);
                d.set_x(idx, rep.a.x);
                d.set_y(idx, rep.a.y);
                d.mark_released(1 - idx);
            }
        } else {
            if rep.a.id < 2 {
                let idx: usize = rep.a.id as usize;
                d.mark_present(idx);
                d.set_x(idx, rep.a.x);
                d.set_y(idx, rep.a.y);
            }
            if rep.b.id < 2 {
                let idx: usize = rep.b.id as usize;
                d.mark_present(idx);
                d.set_x(idx, rep.b.x);
                d.set_y(idx, rep.b.y);
            }
        }
        d
    }
}

} // verus!
