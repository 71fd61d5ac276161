//! The lifecycle fold: how scan reports rewrite the two-slot snapshot.

use ft6336u_driver::{advance_status, PointReport, ScanReport, TouchData, TouchPoint, TouchStatus};

fn point(id: u8, x: u16, y: u16) -> PointReport {
    PointReport { id, x, y }
}

fn absent() -> PointReport {
    PointReport { id: 0xF, x: 0, y: 0 }
}

#[test]
fn present_transition_table() {
    assert_eq!(advance_status(TouchStatus::Release), TouchStatus::Touch);
    assert_eq!(advance_status(TouchStatus::Touch), TouchStatus::Stream);
    assert_eq!(advance_status(TouchStatus::Stream), TouchStatus::Stream);
}

#[test]
fn touch_then_stream_on_repeat() {
    let d0 = TouchData::default();
    let r1 = ScanReport { count: 1, a: point(0, 10, 20), b: absent() };
    let d1 = d0.apply_report(&r1);
    assert_eq!(d1.points[0].status, TouchStatus::Touch);
    assert_eq!((d1.points[0].x, d1.points[0].y), (10, 20));

    let r2 = ScanReport { count: 1, a: point(0, 11, 21), b: absent() };
    let d2 = d1.apply_report(&r2);
    assert_eq!(d2.points[0].status, TouchStatus::Stream);
    assert_eq!((d2.points[0].x, d2.points[0].y), (11, 21));
}

#[test]
fn count_zero_releases_both_slots() {
    let busy = TouchData {
        touch_count: 2,
        points: [
            TouchPoint { status: TouchStatus::Stream, x: 7, y: 8 },
            TouchPoint { status: TouchStatus::Touch, x: 9, y: 10 },
        ],
    };
    let d = busy.apply_report(&ScanReport { count: 0, a: absent(), b: absent() });
    assert_eq!(d.touch_count, 0);
    assert_eq!(d.points[0].status, TouchStatus::Release);
    assert_eq!(d.points[1].status, TouchStatus::Release);
    // The stale coordinates stay behind.
    assert_eq!((d.points[0].x, d.points[0].y), (7, 8));
    assert_eq!((d.points[1].x, d.points[1].y), (9, 10));
}

#[test]
fn single_point_scan_releases_the_other_slot() {
    let busy = TouchData {
        touch_count: 1,
        points: [
            TouchPoint { status: TouchStatus::Stream, x: 7, y: 8 },
            TouchPoint { status: TouchStatus::Release, x: 0, y: 0 },
        ],
    };
    let d = busy.apply_report(&ScanReport { count: 1, a: point(1, 50, 60), b: absent() });
    assert_eq!(d.points[0].status, TouchStatus::Release);
    assert_eq!(d.points[1].status, TouchStatus::Touch);
    assert_eq!((d.points[1].x, d.points[1].y), (50, 60));
}

#[test]
fn two_point_scan_updates_both_slots_independently() {
    let d0 = TouchData::default();
    let rep = ScanReport { count: 2, a: point(0, 100, 200), b: point(1, 300, 400) };
    let d = d0.apply_report(&rep);
    assert_eq!(d.touch_count, 2);
    assert_eq!(d.points[0].status, TouchStatus::Touch);
    assert_eq!((d.points[0].x, d.points[0].y), (100, 200));
    assert_eq!(d.points[1].status, TouchStatus::Touch);
    assert_eq!((d.points[1].x, d.points[1].y), (300, 400));
}

#[test]
fn two_point_scan_with_swapped_ids() {
    let d0 = TouchData::default();
    let rep = ScanReport { count: 2, a: point(1, 100, 200), b: point(0, 300, 400) };
    let d = d0.apply_report(&rep);
    assert_eq!((d.points[1].x, d.points[1].y), (100, 200));
    assert_eq!((d.points[0].x, d.points[0].y), (300, 400));
}

#[test]
fn invalid_id_is_silently_ignored() {
    let d0 = TouchData::default();
    let d = d0.apply_report(&ScanReport { count: 1, a: point(5, 100, 200), b: absent() });
    assert_eq!(d.touch_count, 1);
    assert_eq!(d.points[0], TouchPoint::default());
    assert_eq!(d.points[1], TouchPoint::default());
}

#[test]
fn two_point_scan_with_one_invalid_id() {
    let d0 = TouchData::default();
    let rep = ScanReport { count: 2, a: point(7, 1, 2), b: point(1, 3, 4) };
    let d = d0.apply_report(&rep);
    assert_eq!(d.points[0], TouchPoint::default());
    assert_eq!(d.points[1].status, TouchStatus::Touch);
    assert_eq!((d.points[1].x, d.points[1].y), (3, 4));
}

#[test]
fn same_id_reported_twice_streams() {
    let d0 = TouchData::default();
    let rep = ScanReport { count: 2, a: point(0, 1, 2), b: point(0, 3, 4) };
    let d = d0.apply_report(&rep);
    // The second update sees the slot already advanced by the first.
    assert_eq!(d.points[0].status, TouchStatus::Stream);
    assert_eq!((d.points[0].x, d.points[0].y), (3, 4));
}

#[test]
fn raw_count_is_stored_unvalidated() {
    let d0 = TouchData::default();
    let d = d0.apply_report(&ScanReport { count: 5, a: point(0, 1, 2), b: absent() });
    assert_eq!(d.touch_count, 5);
    // Counts above one take the two-point path.
    assert_eq!(d.points[0].status, TouchStatus::Touch);
}
