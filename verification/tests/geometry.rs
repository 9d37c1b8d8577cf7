use winit_bridge::geometry::{flip_y, logical_of_physical, physical_of_logical, ScaleFactor};

#[test]
fn physical_of_logical_doubles_at_factor_two() {
    let sf = ScaleFactor::new(2, 1);
    assert_eq!(physical_of_logical(800, sf), 1600);
    assert_eq!(physical_of_logical(600, sf), 1200);
}

#[test]
fn logical_of_physical_halves_at_factor_two() {
    let sf = ScaleFactor::new(2, 1);
    assert_eq!(logical_of_physical(1600, sf), 800);
    assert_eq!(logical_of_physical(1200, sf), 600);
}

#[test]
fn fractional_factor_rounds_down() {
    let sf = ScaleFactor::new(3, 2);
    assert_eq!(physical_of_logical(100, sf), 150);
    // 151 * 2 / 3 = 100 remainder 2: the conversion floors.
    assert_eq!(logical_of_physical(151, sf), 100);
}

#[test]
fn identity_factor_keeps_sizes() {
    let sf = ScaleFactor::new(1, 1);
    assert_eq!(physical_of_logical(123, sf), 123);
    assert_eq!(logical_of_physical(123, sf), 123);
}

#[test]
fn oversized_conversion_saturates() {
    let sf = ScaleFactor::new(2, 1);
    assert_eq!(physical_of_logical(u32::MAX, sf), u32::MAX);
    let inverse = ScaleFactor::new(1, 2);
    assert_eq!(logical_of_physical(u32::MAX, inverse), u32::MAX);
}

#[test]
fn flip_moves_origin_to_bottom_left() {
    assert_eq!(flip_y(600, 150), 450);
    assert_eq!(flip_y(600, 0), 600);
    assert_eq!(flip_y(600, 600), 0);
}

#[test]
fn flip_below_window_goes_negative() {
    assert_eq!(flip_y(100, 150), -50);
}

#[test]
fn factor_equality_is_value_equality() {
    let two = ScaleFactor::new(2, 1);
    let four_halves = ScaleFactor::new(4, 2);
    let three_halves = ScaleFactor::new(3, 2);
    assert!(two.eq_value(four_halves));
    assert!(four_halves.eq_value(two));
    assert!(!two.eq_value(three_halves));
}
