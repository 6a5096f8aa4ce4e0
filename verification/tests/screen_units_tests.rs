use glu::Screen2d;

#[test]
fn logical_accessors_round_trip_exact() {
    // 10.5 x 20.0 logical units at scale factor 2.0
    let v = Screen2d::from_logical([10_500, 20_000], 2000);
    assert_eq!(v.logical(), [10_500, 20_000]);
    assert_eq!(v.hidpi_factor_milli(), 2000);
    assert_eq!(v.physical(), [21, 40]);
}

#[test]
fn physical_to_logical_and_back_within_one_pixel() {
    // 10.499 logical units at scale 1.0: physical rounds to 10, the logical
    // value read back differs by less than one unit of rounding error.
    let v = Screen2d::from_logical([10_499, 0], 1000);
    let phys = v.physical();
    assert_eq!(phys, [10, 0]);
    let back = Screen2d::from_physical(phys, 1000);
    let l = back.logical();
    assert_eq!(l, [10_000, 0]);
    assert!((l[0] - 10_499i64).abs() <= 1000);
}

#[test]
fn round_trip_at_fractional_scale() {
    // 7.0 units at scale 1.5: physical = round(10.5) = 11 px, back = 7.333...
    let v = Screen2d::from_logical([7_000, 0], 1500);
    let phys = v.physical();
    assert_eq!(phys[0], 11);
    let back = Screen2d::from_physical(phys, 1500);
    // 11 px / 1.5 = 7.333..., rounded to milliunits
    assert_eq!(back.logical()[0], 7_333);
    // within one physical pixel in logical space (one pixel = 2/3 unit here)
    assert!((back.logical()[0] - 7_000i64).abs() * 1500 <= 1_000_000);
}

#[test]
fn from_physical_u32_divides_by_scale() {
    let v = Screen2d::from_physical_u32([800, 600], 2000);
    assert_eq!(v.logical(), [400_000, 300_000]);
    assert_eq!(v.physical(), [800, 600]);
}

#[test]
fn from_physical_milli_rounds_to_nearest() {
    // 100.5 physical pixels at scale 1.0
    let v = Screen2d::from_physical_milli([100_500, -100_500], 1000);
    assert_eq!(v.logical(), [100_500, -100_500]);
    // 100.5 physical pixels at scale 2.0 is 50.25 logical units
    let w = Screen2d::from_physical_milli([100_500, 0], 2000);
    assert_eq!(w.logical()[0], 50_250);
}

#[test]
fn physical_u32_on_non_negative_values() {
    let v = Screen2d::from_logical([1_000, 0], 1000);
    assert_eq!(v.physical_u32(), [1, 0]);
}

#[test]
fn add_and_sub_are_componentwise_in_logical_space() {
    let a = Screen2d::from_logical([10_000, 20_000], 1000);
    let b = Screen2d::from_logical([1_000, 2_000], 1000);
    assert_eq!(a.add(b).logical(), [11_000, 22_000]);
    assert_eq!(a.sub(b).logical(), [9_000, 18_000]);
}

#[test]
fn arithmetic_keeps_left_operand_scale() {
    // Operands with different scale factors: the result carries the left one.
    let a = Screen2d::from_logical([10_000, 10_000], 2000);
    let b = Screen2d::from_logical([4_000, 4_000], 1000);
    let d = a.sub(b);
    assert_eq!(d.logical(), [6_000, 6_000]);
    assert_eq!(d.hidpi_factor_milli(), 2000);
    let s = b.add(a);
    assert_eq!(s.hidpi_factor_milli(), 1000);
}

#[test]
fn physical_saturates_at_i32_bounds() {
    // An enormous logical value at a large scale factor exceeds i32 pixels.
    let v = Screen2d::from_logical([9_000_000_000_000_000, -9_000_000_000_000_000], 1_000_000);
    let p = v.physical();
    assert_eq!(p[0], i32::MAX);
    assert_eq!(p[1], i32::MIN);
}
