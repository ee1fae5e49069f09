use temp_sensor::registers::resolution::TempRes;
use temp_sensor::registers::temperature::Temperature;

/// The precision factor of a resolution code, in degrees Celsius.
fn precision_factor(res: TempRes) -> f32 {
    match res {
        TempRes::Deg_0_5C => 0.5,
        TempRes::Deg_0_25C => 0.25,
        TempRes::Deg_0_125C => 0.125,
        TempRes::Deg_0_0625C => 0.0625,
    }
}

/// Degrees Celsius from a sixteenths-of-a-degree reading.
fn celsius(sixteenths: i16) -> f32 {
    sixteenths as f32 / 16.0
}

fn reading(msb: u8, lsb: u8) -> Temperature {
    let mut t = Temperature::new();
    t.reg.set_buf([msb, lsb]);
    t
}

#[test]
fn sign_clear_decode_is_exact_at_every_resolution() {
    // MSB 0x01, LSB 0x90: whole part 0x19 = 25, fractional nibble 0.
    let t = reading(0x01, 0x90);
    for res in [
        TempRes::Deg_0_5C,
        TempRes::Deg_0_25C,
        TempRes::Deg_0_125C,
        TempRes::Deg_0_0625C,
    ] {
        let sixteenths = t.get_celsius_sixteenths(res);
        assert_eq!(sixteenths, 400);
        assert_eq!(celsius(sixteenths), 25.0);
    }
}

#[test]
fn decimal_part_joins_msb_and_high_nibble() {
    let t = Temperature::new();
    assert_eq!(t.get_decimal_part(0x01, 0x90), 25);
    assert_eq!(t.get_decimal_part(0x02, 0x00), 32);
    assert_eq!(t.get_decimal_part(0x00, 0x0F), 0);
    // Flag bits above the low five of the MSB are masked off.
    assert_eq!(t.get_decimal_part(0xE1, 0x90), 25);
}

#[test]
fn resolution_scaling_shifts_the_fractional_nibble() {
    // MSB 0x00, LSB 0x0F: whole part 0, full fractional nibble.
    let t = reading(0x00, 0x0F);

    // Finest step: nibble 15, factor 0.0625 — 15 sixteenths.
    let fine = t.get_celsius_sixteenths(TempRes::Deg_0_0625C);
    assert_eq!(fine, 15);
    assert_eq!(celsius(fine), 15.0 * 0.0625);
    assert_eq!(celsius(fine), 0.9375);

    // Coarsest step: nibble 0x0F >> 3 = 1, factor 0.5 — 8 sixteenths.
    let coarse = t.get_celsius_sixteenths(TempRes::Deg_0_5C);
    assert_eq!(coarse, 8);
    assert_eq!(celsius(coarse), 0.5);

    // The two middle codes.
    assert_eq!(celsius(t.get_celsius_sixteenths(TempRes::Deg_0_25C)), 0.75);
    assert_eq!(
        celsius(t.get_celsius_sixteenths(TempRes::Deg_0_125C)),
        0.875
    );
}

#[test]
fn fractional_nibble_is_scaled_by_the_precision_factor() {
    let t = Temperature::new();
    for (lsb, res, nibble) in [
        (0x0Fu8, TempRes::Deg_0_0625C, 15u8),
        (0x0F, TempRes::Deg_0_125C, 7),
        (0x0F, TempRes::Deg_0_25C, 3),
        (0x0F, TempRes::Deg_0_5C, 1),
        (0x98, TempRes::Deg_0_0625C, 8),
        (0x98, TempRes::Deg_0_5C, 1),
    ] {
        let sixteenths = t.get_fractional_sixteenths(lsb, res);
        let expected = nibble as f32 * precision_factor(res);
        assert_eq!(sixteenths as f32 / 16.0, expected);
    }
}

#[test]
fn sign_set_decode_keeps_the_unnegated_magnitude() {
    // Sign flag set: the decode recovers 256 - combo and deliberately never
    // negates it, mirroring the device-facing formula. A reading that a
    // corrected decode would take as -0.5 °C comes out as +255.5 °C.
    let t = reading(0x1F, 0xF8);
    let sixteenths = t.get_celsius_sixteenths(TempRes::Deg_0_0625C);
    // Whole part: 256 - (0x0F * 16 + 0x0F) = 1; fractional: 8 sixteenths.
    assert_eq!(sixteenths, 24);
    assert_eq!(celsius(sixteenths), 1.5);
    assert!(sixteenths >= 0);

    let u = Temperature::new();
    assert_eq!(u.get_decimal_part(0x10, 0x00), 256);
    assert_eq!(u.get_decimal_part(0x1F, 0xF0), 1);
}

#[test]
fn raw_temp_masks_the_flag_bits() {
    let mut t = Temperature::new();
    t.reg.set_buf([0xFF, 0xFF]);
    // as_u16 reads buffer position 0 as the low byte: 0xFFFF & 0x1FFF.
    assert_eq!(t.get_raw_temp(), 0x1FFF);
    t.reg.set_buf([0x34, 0x12]);
    assert_eq!(t.get_raw_temp(), 0x1234 & 0x1FFF);
    t.reg.set_buf([0x00, 0x00]);
    assert_eq!(t.get_raw_temp(), 0);
}
