use gamepad_input::touch::TOUCH_MIN_LEN;
use gamepad_input::{DecodeError, GamepadTouch};

fn fixture(x: f32, y: f32, pressure: f32) -> Vec<u8> {
    let mut buffer = vec![0x02, 0x01, 0xAA, 0xBB, 0x78, 0x56, 0x34, 0x12];
    buffer.extend_from_slice(&x.to_le_bytes());
    buffer.extend_from_slice(&y.to_le_bytes());
    buffer.extend_from_slice(&pressure.to_le_bytes());
    buffer
}

fn decoded(x: f32, y: f32, pressure: f32) -> (f32, f32, f32) {
    let touch = GamepadTouch::from_bytes(&fixture(x, y, pressure)).unwrap();
    (
        f32::from_bits(touch.x.bits),
        f32::from_bits(touch.y.bits),
        f32::from_bits(touch.pressure.bits),
    )
}

#[test]
fn touch_decodes_fixture_of_minimum_length() {
    let buffer = fixture(0.25, 0.75, 1.0);
    assert_eq!(buffer.len(), TOUCH_MIN_LEN);
    let touch = GamepadTouch::from_bytes(&buffer).unwrap();
    assert_eq!(touch.index, 2);
    assert_eq!(touch.event_type, 1);
    assert_eq!(touch.pointer_id, 0x1234_5678);
    assert_eq!(f32::from_bits(touch.x.bits), 0.25);
    assert_eq!(f32::from_bits(touch.y.bits), 0.75);
    assert_eq!(f32::from_bits(touch.pressure.bits), 1.0);
}

#[test]
fn touch_clamps_minus_five_half_and_one_and_a_half() {
    assert_eq!(decoded(-5.0, 0.5, 1.5), (0.0, 0.5, 1.0));
    assert_eq!(decoded(1.5, -5.0, 0.5), (1.0, 0.0, 0.5));
    assert_eq!(decoded(0.5, 1.5, -5.0), (0.5, 1.0, 0.0));
}

#[test]
fn touch_clamps_to_positive_zero_and_exactly_one() {
    let touch = GamepadTouch::from_bytes(&fixture(-5.0, 0.5, 1.5)).unwrap();
    assert_eq!(touch.x.bits, 0x0000_0000);
    assert_eq!(touch.y.bits, 0x3F00_0000);
    assert_eq!(touch.pressure.bits, 0x3F80_0000);
}

#[test]
fn touch_keeps_the_ends_of_the_unit_interval() {
    assert_eq!(decoded(0.0, 1.0, 0.0), (0.0, 1.0, 0.0));
    let below_one = f32::from_bits(0x3F7F_FFFF);
    let above_one = f32::from_bits(0x3F80_0001);
    let least = f32::from_bits(0x0000_0001);
    assert_eq!(decoded(below_one, above_one, least), (below_one, 1.0, least));
}

#[test]
fn touch_saturates_infinities_and_extremes() {
    assert_eq!(decoded(f32::INFINITY, f32::NEG_INFINITY, f32::MAX), (1.0, 0.0, 1.0));
    assert_eq!(decoded(f32::MIN, -f32::MIN_POSITIVE, f32::MIN_POSITIVE), (
        0.0,
        0.0,
        f32::MIN_POSITIVE
    ));
}

#[test]
fn touch_leaves_nan_and_negative_zero_as_they_are() {
    let nan = f32::from_bits(0x7FC0_0001);
    let negative_nan = f32::from_bits(0xFFC0_0002);
    let touch = GamepadTouch::from_bytes(&fixture(nan, negative_nan, -0.0)).unwrap();
    assert_eq!(touch.x.bits, 0x7FC0_0001);
    assert_eq!(touch.y.bits, 0xFFC0_0002);
    assert_eq!(touch.pressure.bits, 0x8000_0000);
    assert_eq!(touch.x.bits, nan.clamp(0.0, 1.0).to_bits());
    assert_eq!(touch.y.bits, negative_nan.clamp(0.0, 1.0).to_bits());
    assert_eq!(touch.pressure.bits, (-0.0f32).clamp(0.0, 1.0).to_bits());
}

#[test]
fn touch_rejects_every_shorter_buffer_as_truncated() {
    let buffer = fixture(0.5, 0.5, 0.5);
    for len in 0..TOUCH_MIN_LEN {
        assert_eq!(
            GamepadTouch::from_bytes(&buffer[..len]),
            Err(DecodeError::Truncated { expected: 20, actual: len })
        );
    }
}

#[test]
fn touch_out_of_range_is_never_a_rejection() {
    assert!(GamepadTouch::from_bytes(&fixture(1.0e30, -1.0e30, f32::NAN)).is_ok());
    assert!(GamepadTouch::from_bytes(&[0xFF; 20]).is_ok());
}

#[test]
fn touch_ignores_reserved_bytes_and_what_follows() {
    let plain = fixture(0.1, 0.2, 0.3);
    let expected = GamepadTouch::from_bytes(&plain);
    let mut changed = plain.clone();
    changed[2] = 0x00;
    changed[3] = 0xFF;
    changed.extend_from_slice(&[7, 7]);
    assert_eq!(GamepadTouch::from_bytes(&changed), expected);
}

#[test]
fn touch_decodes_the_same_buffer_alike_twice() {
    let buffer = fixture(-5.0, 0.5, 1.5);
    assert_eq!(GamepadTouch::from_bytes(&buffer), GamepadTouch::from_bytes(&buffer));
    assert_eq!(GamepadTouch::from_bytes(&buffer[..19]), GamepadTouch::from_bytes(&buffer[..19]));
}
