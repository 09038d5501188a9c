use gauge_emulator::fixed::{Factor, Fixed, FACTOR_SCALE, FRACTION_BITS, OFFLINE_RAW, ONE};

#[test]
fn constants_are_powers_of_two() {
    assert_eq!(ONE, 1i64 << FRACTION_BITS);
    assert_eq!(FACTOR_SCALE, 1u32 << 24);
    assert_eq!(OFFLINE_RAW, i64::MAX);
}

#[test]
fn from_int_scales_by_one() {
    assert_eq!(Fixed::from_int(0), Fixed { raw: 0 });
    assert_eq!(Fixed::from_int(130), Fixed { raw: 130 * 33_554_432 });
    assert_eq!(Fixed::from_int(-40), Fixed { raw: -40 * 33_554_432 });
    assert_eq!(Fixed::from_int(i32::MAX).raw, i32::MAX as i64 * ONE);
    assert_eq!(Fixed::from_int(i32::MIN).raw, i32::MIN as i64 * ONE);
}

#[test]
fn factor_new_accepts_numerators_below_the_scale() {
    assert_eq!(Factor::new(0), Some(Factor { numerator: 0 }));
    assert_eq!(Factor::new(16_777_215), Some(Factor { numerator: 16_777_215 }));
    assert_eq!(Factor::new(16_777_216), None);
    assert_eq!(Factor::new(u32::MAX), None);
}

#[test]
fn factor_from_bits_keeps_upper_24_bits() {
    assert_eq!(Factor::from_bits(0).numerator, 0);
    assert_eq!(Factor::from_bits(255).numerator, 0);
    assert_eq!(Factor::from_bits(256).numerator, 1);
    assert_eq!(Factor::from_bits(0x8000_0000).numerator, 0x80_0000);
    assert_eq!(Factor::from_bits(u32::MAX).numerator, 16_777_215);
}

#[test]
fn scale_by_half() {
    let half = Factor::new(8_388_608).unwrap();
    assert_eq!(Fixed::from_int(77).scale(half), Fixed { raw: 77 * ONE / 2 });
    assert_eq!(Fixed { raw: 3 }.scale(half), Fixed { raw: 1 });
}

#[test]
fn scale_by_zero_is_zero() {
    let zero = Factor::new(0).unwrap();
    assert_eq!(Fixed::from_int(77).scale(zero).raw, 0);
    assert_eq!(Fixed { raw: i64::MIN }.scale(zero).raw, 0);
}

#[test]
fn scale_rounds_down_below_zero() {
    let half = Factor::new(8_388_608).unwrap();
    assert_eq!(Fixed { raw: -3 }.scale(half), Fixed { raw: -2 });
    assert_eq!(Fixed { raw: -4 }.scale(half), Fixed { raw: -2 });
    assert_eq!(Fixed { raw: -1 }.scale(half), Fixed { raw: -1 });
}

#[test]
fn scale_at_the_ends_of_the_range() {
    let most = Factor::new(16_777_215).unwrap();
    let top = Fixed { raw: i64::MAX }.scale(most).raw;
    assert_eq!(top as i128, (i64::MAX as i128 * 16_777_215) >> 24);
    let bottom = Fixed { raw: i64::MIN }.scale(most).raw;
    assert_eq!(bottom as i128, (i64::MIN as i128 * 16_777_215) >> 24);
}
