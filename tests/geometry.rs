use gcode_viewer::geometry::{floor_sqrt, resolve_arc, ArcFit, Point2, ARC_LIMIT};

fn pt(x: i64, y: i64) -> Point2 {
    Point2 { x, y }
}

#[test]
fn floor_sqrt_rounds_down() {
    assert_eq!(floor_sqrt(0), 0);
    assert_eq!(floor_sqrt(1), 1);
    assert_eq!(floor_sqrt(3), 1);
    assert_eq!(floor_sqrt(4), 2);
    assert_eq!(floor_sqrt(15), 3);
    assert_eq!(floor_sqrt(16), 4);
    assert_eq!(floor_sqrt(75_000_000), 8660);
    let big: u128 = (1u128 << 124) - 1;
    assert_eq!(floor_sqrt(big), (1u64 << 62) - 1);
}

#[test]
fn offset_arc_center_and_radius() {
    let fit = resolve_arc(pt(0, 0), pt(0, 10_000), Some((5_000, 0)), None);
    assert_eq!(fit, Some(ArcFit { center: pt(5_000, 0), radius: 5_000 }));
}

#[test]
fn offset_arc_radius_is_rounded_down() {
    let fit = resolve_arc(pt(100, 200), pt(0, 0), Some((3, 3)), None);
    assert_eq!(fit, Some(ArcFit { center: pt(103, 203), radius: 4 }));
}

#[test]
fn offset_wins_over_radius() {
    let fit = resolve_arc(pt(0, 0), pt(0, 10_000), Some((5_000, 0)), Some(1));
    assert_eq!(fit, Some(ArcFit { center: pt(5_000, 0), radius: 5_000 }));
}

#[test]
fn radius_arc_half_circle() {
    let fit = resolve_arc(pt(0, 0), pt(10_000, 0), None, Some(5_000));
    assert_eq!(fit, Some(ArcFit { center: pt(5_000, 0), radius: 5_000 }));
    let fit = resolve_arc(pt(0, 0), pt(0, 10_000), None, Some(5_000));
    assert_eq!(fit, Some(ArcFit { center: pt(0, 5_000), radius: 5_000 }));
}

#[test]
fn radius_arc_takes_the_left_perpendicular() {
    let fit = resolve_arc(pt(0, 0), pt(10_000, 0), None, Some(10_000));
    assert_eq!(fit, Some(ArcFit { center: pt(5_000, 8_660), radius: 10_000 }));
    let fit = resolve_arc(pt(10_000, 0), pt(0, 0), None, Some(10_000));
    assert_eq!(fit, Some(ArcFit { center: pt(5_000, -8_660), radius: 10_000 }));
}

#[test]
fn radius_arc_rounds_midpoint_down_and_shift_toward_zero() {
    let fit = resolve_arc(pt(0, 0), pt(-3, 0), None, Some(2));
    assert_eq!(fit, Some(ArcFit { center: pt(-2, -1), radius: 2 }));
}

#[test]
fn zero_chord_radius_arc_has_no_circle() {
    assert_eq!(resolve_arc(pt(0, 0), pt(0, 0), None, Some(5_000)), None);
    assert_eq!(resolve_arc(pt(7, -3), pt(7, -3), None, Some(1)), None);
}

#[test]
fn radius_shorter_than_half_chord_has_no_circle() {
    assert_eq!(resolve_arc(pt(0, 0), pt(10_000, 0), None, Some(4_999)), None);
}

#[test]
fn non_positive_radius_has_no_circle() {
    assert_eq!(resolve_arc(pt(0, 0), pt(10, 0), None, Some(0)), None);
    assert_eq!(resolve_arc(pt(0, 0), pt(10, 0), None, Some(-10)), None);
}

#[test]
fn arc_without_offset_or_radius_has_no_circle() {
    assert_eq!(resolve_arc(pt(0, 0), pt(10, 0), None, None), None);
}

#[test]
fn arc_values_beyond_the_limit_have_no_circle() {
    assert_eq!(resolve_arc(pt(ARC_LIMIT + 1, 0), pt(0, 0), Some((1, 1)), None), None);
    assert_eq!(resolve_arc(pt(0, 0), pt(0, 0), Some((ARC_LIMIT + 1, 0)), None), None);
    assert_eq!(resolve_arc(pt(0, 0), pt(ARC_LIMIT + 1, 0), None, Some(ARC_LIMIT)), None);
    let fit = resolve_arc(pt(-ARC_LIMIT, -ARC_LIMIT), pt(ARC_LIMIT, ARC_LIMIT), Some((ARC_LIMIT, ARC_LIMIT)), None);
    assert_eq!(fit, Some(ArcFit { center: pt(0, 0), radius: 1_518_500_249 }));
}
