use alauncher::geometry::{compute_placement, Scale, SCALE_PART_MAX};

#[test]
fn scale_new_accepts_ordinary_factors() {
    let s = Scale::new(1, 1).unwrap();
    assert_eq!(s.num, 1);
    assert_eq!(s.den, 1);
    let s = Scale::new(5, 4).unwrap();
    assert_eq!(s.num, 5);
    assert_eq!(s.den, 4);
}

#[test]
fn scale_new_rejects_zero_and_oversized_parts() {
    assert!(Scale::new(0, 1).is_none());
    assert!(Scale::new(1, 0).is_none());
    assert!(Scale::new(SCALE_PART_MAX + 1, 1).is_none());
    assert!(Scale::new(1, SCALE_PART_MAX + 1).is_none());
}

#[test]
fn placement_production_scale_one() {
    let s = Scale::new(1, 1).unwrap();
    let p = compute_placement(1920, 1080, 1150, 650, s);
    // logical size = base / 1
    assert_eq!(p.logical_width.num, 1150);
    assert_eq!(p.logical_width.den, 1);
    assert_eq!(p.logical_height.num, 650);
    assert_eq!(p.logical_height.den, 1);
    // x = (1920 - 1150) / 2 = 770 / 2
    assert_eq!(p.x.num, 770);
    assert_eq!(p.x.den, 2);
    assert_eq!(p.y.num, 430);
    assert_eq!(p.y.den, 2);
    // minimum size = logical * 3/4
    assert_eq!(p.min_width.num, 3450);
    assert_eq!(p.min_width.den, 4);
    assert_eq!(p.min_height.num, 1950);
    assert_eq!(p.min_height.den, 4);
}

#[test]
fn placement_development_scale_two() {
    let s = Scale::new(2, 1).unwrap();
    let p = compute_placement(1920, 1080, 500, 250, s);
    // logical width = 500 / 2 = 250
    assert_eq!(p.logical_width.num, 500);
    assert_eq!(p.logical_width.den, 2);
    assert_eq!(p.logical_height.num, 250);
    assert_eq!(p.logical_height.den, 2);
    // x = (1920/2 - 250) / 2 = 355; as a fraction (1920 - 500) / 4
    assert_eq!(p.x.num, 1420);
    assert_eq!(p.x.den, 4);
    assert_eq!(p.x.num / p.x.den, 355);
    assert_eq!(p.y.num, 830);
    assert_eq!(p.y.den, 4);
}

#[test]
fn placement_fractional_scale_factor() {
    // scale factor 1.25 = 5/4
    let s = Scale::new(5, 4).unwrap();
    let p = compute_placement(1920, 1080, 1150, 650, s);
    // logical width = 1150 / 1.25 = 920
    assert_eq!(p.logical_width.num, 1150 * 4);
    assert_eq!(p.logical_width.den, 5);
    assert_eq!(p.logical_width.num / p.logical_width.den, 920);
    // x = (1920 / 1.25 - 920) / 2 = 308
    assert_eq!(p.x.num, 770 * 4);
    assert_eq!(p.x.den, 10);
    assert_eq!(p.x.num / p.x.den, 308);
}

#[test]
fn placement_centers_the_window() {
    // x + logical_width / 2 == screen_w / (2 * scale), as exact fractions:
    // compare them after bringing both over a common denominator.
    let s = Scale::new(5, 4).unwrap();
    let p = compute_placement(1366, 768, 1150, 650, s);
    let lhs_num = 2 * p.x.num * p.logical_width.den + p.logical_width.num * p.x.den;
    let lhs_den = 2 * p.x.den * p.logical_width.den;
    let rhs_num = 1366i128 * s.den as i128;
    let rhs_den = 2 * s.num as i128;
    assert_eq!(lhs_num * rhs_den, rhs_num * lhs_den);
}

#[test]
fn placement_base_larger_than_monitor_goes_negative() {
    // No clamping: a monitor smaller than the base size yields a negative
    // position.
    let s = Scale::new(1, 1).unwrap();
    let p = compute_placement(800, 600, 1150, 650, s);
    assert_eq!(p.x.num, -350);
    assert_eq!(p.x.den, 2);
    assert_eq!(p.y.num, -50);
    assert_eq!(p.y.den, 2);
}
