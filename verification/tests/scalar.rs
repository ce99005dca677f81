use globe_map::input::{Coordinates, MapInput, PhysicalSize};
use globe_map::scalar::Scalar;

fn scalar(value: f32) -> Scalar {
    Scalar::from_bits(value.to_bits())
}

fn input(width: u32, height: u32, latitude: f32, longitude: f32, zoom: f32) -> MapInput {
    MapInput {
        size: PhysicalSize::new(width, height),
        coords: Coordinates { latitude: scalar(latitude), longitude: scalar(longitude) },
        zoom: scalar(zoom),
    }
}

#[test]
fn scalar_keeps_its_bits() {
    assert_eq!(scalar(1.35).to_bits(), 0x3fac_cccd);
    assert_eq!(Scalar::from_bits(0xdead_beef).to_bits(), 0xdead_beef);
}

#[test]
fn scalar_equality_follows_the_numbers() {
    for (a, b) in [
        (0.0f32, -0.0f32),
        (1.0, 1.0),
        (1.0, -1.0),
        (57.7, 57.7),
        (57.7, 57.70001),
        (f32::INFINITY, f32::INFINITY),
        (f32::INFINITY, f32::NEG_INFINITY),
        (f32::NAN, f32::NAN),
        (f32::NAN, 0.0),
        (f32::MIN_POSITIVE, 0.0),
        (f32::MAX, f32::INFINITY),
    ] {
        assert_eq!(scalar(a) == scalar(b), a == b, "{a} == {b}");
        assert_eq!(scalar(b) == scalar(a), b == a, "{b} == {a}");
    }
}

#[test]
fn scalar_knows_nan_and_zero() {
    assert!(scalar(f32::NAN).nan());
    assert!(Scalar::from_bits(0xffc0_0001).nan());
    assert!(Scalar::from_bits(0x7f80_0001).nan());
    assert!(!scalar(f32::INFINITY).nan());
    assert!(!scalar(f32::NEG_INFINITY).nan());
    assert!(!scalar(0.0).nan());
    assert!(scalar(0.0).zero());
    assert!(scalar(-0.0).zero());
    assert!(!scalar(f32::MIN_POSITIVE).zero());
    assert!(!Scalar::from_bits(1).zero());
}

#[test]
fn inputs_compare_by_value() {
    let a = input(640, 480, 57.7, 12.0, 1.35);
    assert!(a == input(640, 480, 57.7, 12.0, 1.35));
    assert!(a != input(641, 480, 57.7, 12.0, 1.35));
    assert!(a != input(640, 481, 57.7, 12.0, 1.35));
    assert!(a != input(640, 480, 57.8, 12.0, 1.35));
    assert!(a != input(640, 480, 57.7, 12.5, 1.35));
    assert!(a != input(640, 480, 57.7, 12.0, 1.36));
}

#[test]
fn inputs_with_zeros_of_either_sign_are_equal() {
    assert!(input(10, 10, 0.0, -0.0, 1.0) == input(10, 10, -0.0, 0.0, 1.0));
}

#[test]
fn input_with_nan_equals_nothing() {
    let a = input(10, 10, 0.0, 0.0, f32::NAN);
    assert!(a != a);
    let b = input(10, 10, f32::NAN, 0.0, 1.0);
    assert!(b != b);
    let c = input(10, 10, 0.0, f32::NAN, 1.0);
    assert!(c != c);
}

#[test]
fn size_without_pixels_is_empty() {
    assert!(PhysicalSize::new(0, 0).empty());
    assert!(PhysicalSize::new(0, 5).empty());
    assert!(PhysicalSize::new(5, 0).empty());
    assert!(!PhysicalSize::new(1, 1).empty());
    assert_eq!(PhysicalSize::new(3, 4), PhysicalSize { width: 3, height: 4 });
}
