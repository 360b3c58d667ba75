use hrtf_conv::direction::{coordinate_eq, Direction};

fn spherical(azimuth_deg: f32, elevation_deg: f32, distance: f32) -> (f32, f32, f32) {
    let az = azimuth_deg.to_radians();
    let el = elevation_deg.to_radians();
    (
        distance * (el.cos() * az.cos()),
        distance * (el.cos() * az.sin()),
        distance * el.sin(),
    )
}

fn position(point: (f32, f32, f32)) -> Direction {
    Direction::from_bits(point.0.to_bits(), point.1.to_bits(), point.2.to_bits())
}

#[test]
fn coordinate_eq_agrees_with_float_equality() {
    let samples: Vec<f32> = vec![
        0.0,
        -0.0,
        1.0,
        -1.0,
        0.1,
        0.5,
        f32::MIN_POSITIVE,
        f32::MIN_POSITIVE / 2.0,
        -f32::MIN_POSITIVE / 2.0,
        f32::MAX,
        f32::MIN,
        f32::INFINITY,
        f32::NEG_INFINITY,
        f32::NAN,
        -f32::NAN,
        f32::from_bits(0x7f80_0001),
        f32::from_bits(0xffff_ffff),
        f32::from_bits(0x0000_0001),
        f32::from_bits(0x8000_0001),
    ];
    for a in samples.iter() {
        for b in samples.iter() {
            assert_eq!(
                coordinate_eq(a.to_bits(), b.to_bits()),
                a == b,
                "{:#010x} against {:#010x}",
                a.to_bits(),
                b.to_bits()
            );
        }
    }
}

#[test]
fn zeros_of_either_sign_are_one_number() {
    assert!(coordinate_eq(0x0000_0000, 0x8000_0000));
    assert!(coordinate_eq(0x8000_0000, 0x0000_0000));
    assert!(coordinate_eq(0x8000_0000, 0x8000_0000));
}

#[test]
fn nan_equals_nothing() {
    let quiet = 0x7fc0_0000;
    let signalling = 0x7f80_0001;
    let negative = 0xffc0_0000;
    assert!(!coordinate_eq(quiet, quiet));
    assert!(!coordinate_eq(signalling, signalling));
    assert!(!coordinate_eq(negative, negative));
    assert!(!coordinate_eq(quiet, 0));
    assert!(!coordinate_eq(0, quiet));
}

#[test]
fn infinity_is_a_number() {
    let infinity = 0x7f80_0000;
    let negative_infinity = 0xff80_0000;
    assert!(coordinate_eq(infinity, infinity));
    assert!(coordinate_eq(negative_infinity, negative_infinity));
    assert!(!coordinate_eq(infinity, negative_infinity));
}

#[test]
fn from_bits_keeps_the_patterns() {
    let d = Direction::from_bits(1, 2, 3);
    assert_eq!(d.x, 1);
    assert_eq!(d.y, 2);
    assert_eq!(d.z, 3);
    assert_eq!(d, Direction { x: 1, y: 2, z: 3 });
}

#[test]
fn same_position_needs_all_three_coordinates() {
    let one = 1.0f32.to_bits();
    let two = 2.0f32.to_bits();
    let base = Direction::from_bits(one, one, one);
    assert!(base.same_position(&Direction::from_bits(one, one, one)));
    assert!(!base.same_position(&Direction::from_bits(two, one, one)));
    assert!(!base.same_position(&Direction::from_bits(one, two, one)));
    assert!(!base.same_position(&Direction::from_bits(one, one, two)));
}

#[test]
fn same_position_is_symmetric_on_samples() {
    let patterns: Vec<u32> = vec![0, 0x8000_0000, 0x3f80_0000, 0x7fc0_0000, 0x7f80_0000];
    for x in patterns.iter() {
        for y in patterns.iter() {
            let a = Direction::from_bits(*x, *y, 0);
            let b = Direction::from_bits(*y, *x, 0);
            assert_eq!(a.same_position(&b), b.same_position(&a));
        }
    }
}

#[test]
fn same_position_ignores_the_sign_of_zero() {
    let a = Direction::from_bits(1.0f32.to_bits(), 0.0f32.to_bits(), (-0.0f32).to_bits());
    let b = Direction::from_bits(1.0f32.to_bits(), (-0.0f32).to_bits(), 0.0f32.to_bits());
    assert!(a.same_position(&b));
    assert_ne!(a, b);
}

#[test]
fn position_with_nan_differs_from_itself() {
    let d = Direction::from_bits(f32::NAN.to_bits(), 0, 0);
    assert!(!d.same_position(&d));
    assert_eq!(d, d);
}

#[test]
fn front_and_left_positions() {
    let front = spherical(0.0, 0.0, 1.0);
    assert!((front.0 - 1.0).abs() < 1e-6);
    assert!(front.1.abs() < 1e-6);
    assert!(front.2.abs() < 1e-6);
    let left = spherical(90.0, 0.0, 1.0);
    assert!(left.0.abs() < 1e-6);
    assert!((left.1 - 1.0).abs() < 1e-6);
    assert!(left.2.abs() < 1e-6);
    assert!(position(front).same_position(&position(spherical(0.0, 0.0, 1.0))));
    assert!(!position(front).same_position(&position(left)));
}
