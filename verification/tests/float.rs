use txkit::float::F32Bits;

fn reference_into_u8(v: f32) -> u8 {
    (v * 255.0f32).min(255.0f32).max(0.0f32) as u8
}

#[test]
fn from_usize_is_exact_for_small_integers() {
    for i in 0..5000usize {
        assert_eq!(F32Bits::from_usize(i).to_bits(), (i as f32).to_bits(), "i = {}", i);
    }
    assert_eq!(F32Bits::from_usize(0).to_bits(), 0);
    assert_eq!(F32Bits::from_usize(1).to_bits(), 0x3f80_0000);
    assert_eq!(F32Bits::from_usize(3).to_bits(), 0x4040_0000);
}

#[test]
fn from_usize_rounds_to_nearest_even() {
    let cases: [usize; 12] = [
        (1 << 24) - 1,
        1 << 24,
        (1 << 24) + 1,
        (1 << 24) + 2,
        (1 << 24) + 3,
        (1 << 25) + 2,
        (1 << 25) + 6,
        0xffff_ffff,
        0xffff_ff7f,
        0xffff_ff80,
        0xffff_ff81,
        usize::MAX,
    ];
    for &i in cases.iter() {
        assert_eq!(F32Bits::from_usize(i).to_bits(), (i as f32).to_bits(), "i = {}", i);
    }
    let mut i: usize = 1;
    for step in 0..4000usize {
        i = i.wrapping_mul(6364136223846793005).wrapping_add(1442695040888963407 + step);
        assert_eq!(F32Bits::from_usize(i).to_bits(), (i as f32).to_bits(), "i = {}", i);
        let j = i >> (step % 64);
        assert_eq!(F32Bits::from_usize(j).to_bits(), (j as f32).to_bits(), "j = {}", j);
    }
}

#[test]
fn from_unit_fraction_is_the_float_between_one_and_two_less_one() {
    let mut m: u32 = 0;
    while m < 0x80_0000 {
        let expected = f32::from_bits(0x7fu32 << 23 | m) - 1.0f32;
        assert_eq!(F32Bits::from_unit_fraction(m).to_bits(), expected.to_bits(), "m = {}", m);
        m += 257;
    }
    assert_eq!(F32Bits::from_unit_fraction(0).to_bits(), 0);
    assert_eq!(F32Bits::from_unit_fraction(0x40_0000).to_bits(), 0.5f32.to_bits());
    assert_eq!(F32Bits::from_unit_fraction(1).to_bits(), (1.0f32 / 8388608.0f32).to_bits());
    assert_eq!(
        F32Bits::from_unit_fraction(0x7f_ffff).to_bits(),
        (f32::from_bits(0x3fff_ffff) - 1.0f32).to_bits()
    );
}

#[test]
fn into_u8_agrees_with_the_machine_on_a_sweep_of_bit_patterns() {
    let mut bits: u32 = 0;
    loop {
        let expected = reference_into_u8(f32::from_bits(bits));
        assert_eq!(F32Bits::from_bits(bits).into_u8(), expected, "bits = {:#x}", bits);
        match bits.checked_add(0x0000_3fd1) {
            Some(next) => bits = next,
            None => break,
        }
    }
}

#[test]
fn into_u8_agrees_with_the_machine_near_every_byte_boundary() {
    for byte in 0..=256u32 {
        let centre = (byte as f32 / 255.0f32).to_bits();
        for delta in 0..64u32 {
            for bits in [centre.wrapping_add(delta), centre.wrapping_sub(delta)] {
                let expected = reference_into_u8(f32::from_bits(bits));
                assert_eq!(F32Bits::from_bits(bits).into_u8(), expected, "bits = {:#x}", bits);
            }
        }
    }
}

#[test]
fn into_u8_of_special_values() {
    assert_eq!(F32Bits::from_bits(0.0f32.to_bits()).into_u8(), 0);
    assert_eq!(F32Bits::from_bits((-0.0f32).to_bits()).into_u8(), 0);
    assert_eq!(F32Bits::from_bits(1.0f32.to_bits()).into_u8(), 255);
    assert_eq!(F32Bits::from_bits(0.5f32.to_bits()).into_u8(), 127);
    assert_eq!(F32Bits::from_bits((-1.0f32).to_bits()).into_u8(), 0);
    assert_eq!(F32Bits::from_bits(f32::INFINITY.to_bits()).into_u8(), 255);
    assert_eq!(F32Bits::from_bits(f32::NEG_INFINITY.to_bits()).into_u8(), 0);
    assert_eq!(F32Bits::from_bits(f32::NAN.to_bits()).into_u8(), 255);
    assert_eq!(F32Bits::from_bits(f32::MAX.to_bits()).into_u8(), 255);
    assert_eq!(F32Bits::from_bits(f32::MIN_POSITIVE.to_bits()).into_u8(), 0);
    assert_eq!(F32Bits::from_bits(1).into_u8(), 0);
}

#[test]
fn from_u8_is_the_quotient_by_255() {
    for n in 0..=255u8 {
        let expected = n as f32 / 255.0f32;
        assert_eq!(F32Bits::from_u8(n).to_bits(), expected.to_bits(), "n = {}", n);
    }
    assert_eq!(F32Bits::from_u8(0).to_bits(), 0);
    assert_eq!(F32Bits::from_u8(255).to_bits(), 0x3f80_0000);
    assert_eq!(F32Bits::from_u8(51).to_bits(), 0.2f32.to_bits());
}

#[test]
fn a_byte_survives_the_way_through_single_precision() {
    for n in 0..=255u8 {
        assert_eq!(F32Bits::from_u8(n).into_u8(), n);
    }
}
