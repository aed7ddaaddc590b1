use gamepad_input::binary32::{INFINITY_BITS, ONE_BITS, SIGN_BIT};
use gamepad_input::Binary32;

fn clamp_bits(bits: u32) -> u32 {
    Binary32 { bits }.clamp_unit().bits
}

fn native_clamp_bits(bits: u32) -> u32 {
    f32::from_bits(bits).clamp(0.0, 1.0).to_bits()
}

#[test]
fn binary32_constants_are_the_native_encodings() {
    assert_eq!(ONE_BITS, 1.0f32.to_bits());
    assert_eq!(INFINITY_BITS, f32::INFINITY.to_bits());
    assert_eq!(SIGN_BIT, (-0.0f32).to_bits());
}

#[test]
fn binary32_clamp_gives_exact_values() {
    assert_eq!(clamp_bits((-5.0f32).to_bits()), 0.0f32.to_bits());
    assert_eq!(clamp_bits(0.5f32.to_bits()), 0.5f32.to_bits());
    assert_eq!(clamp_bits(1.5f32.to_bits()), 1.0f32.to_bits());
    assert_eq!(clamp_bits(0xC0A0_0000), 0x0000_0000);
    assert_eq!(clamp_bits(0x3F00_0000), 0x3F00_0000);
    assert_eq!(clamp_bits(0x3FC0_0000), 0x3F80_0000);
}

#[test]
fn binary32_clamp_agrees_with_native_clamp_at_the_edges() {
    let edges = [
        0x0000_0000u32,
        0x0000_0001,
        0x007F_FFFF,
        0x0080_0000,
        0x3F7F_FFFF,
        0x3F80_0000,
        0x3F80_0001,
        0x7F7F_FFFF,
        0x7F80_0000,
        0x7F80_0001,
        0x7FC0_0000,
        0x7FFF_FFFF,
        0x8000_0000,
        0x8000_0001,
        0x807F_FFFF,
        0x8080_0000,
        0xBF80_0000,
        0xFF7F_FFFF,
        0xFF80_0000,
        0xFF80_0001,
        0xFFC0_0000,
        0xFFFF_FFFF,
    ];
    for bits in edges {
        assert_eq!(clamp_bits(bits), native_clamp_bits(bits));
    }
}

#[test]
fn binary32_clamp_agrees_with_native_clamp_across_the_encoding() {
    let mut bits: u32 = 0;
    loop {
        assert_eq!(clamp_bits(bits), native_clamp_bits(bits));
        match bits.checked_add(40_961) {
            Some(next) => bits = next,
            None => break,
        }
    }
}

#[test]
fn binary32_clamp_lands_in_the_unit_interval_or_on_nan() {
    let mut bits: u32 = 0;
    loop {
        let clamped = f32::from_bits(clamp_bits(bits));
        assert!(clamped.is_nan() == f32::from_bits(bits).is_nan());
        assert!(clamped.is_nan() || (0.0..=1.0).contains(&clamped));
        match bits.checked_add(65_537) {
            Some(next) => bits = next,
            None => break,
        }
    }
}

#[test]
fn binary32_clamp_twice_is_clamp_once() {
    for bits in [0xC0A0_0000u32, 0x3F00_0000, 0x3FC0_0000, 0x7FC0_0000, 0x8000_0000, 0xFF80_0000] {
        assert_eq!(clamp_bits(clamp_bits(bits)), clamp_bits(bits));
    }
}

#[test]
fn binary32_clamp_keeps_the_order_of_numbers() {
    let ascending = [f32::NEG_INFINITY, -5.0, -0.0, 0.0, 0.25, 0.5, 1.0, 1.5, f32::INFINITY];
    for pair in ascending.windows(2) {
        let low = f32::from_bits(clamp_bits(pair[0].to_bits()));
        let high = f32::from_bits(clamp_bits(pair[1].to_bits()));
        assert!(low <= high);
    }
}
