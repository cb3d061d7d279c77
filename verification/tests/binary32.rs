use prussian_studio::binary32::Binary32;

fn number(x: f32) -> Binary32 {
    Binary32::from_bits(x.to_bits())
}

fn sample_bits() -> Vec<u32> {
    let mut bits: Vec<u32> = vec![
        0x0000_0000,
        0x8000_0000,
        0x0000_0001,
        0x8000_0001,
        0x007f_ffff,
        0x0080_0000,
        0x3f7f_ffff,
        0x3f80_0000,
        0x3f80_0001,
        0xbf80_0000,
        0x4000_0000,
        0x4248_0000,
        0x477f_fe00,
        0x477f_ff00,
        0x477f_ff80,
        0x4780_0000,
        0x4f00_0000,
        0x7f7f_ffff,
        0xff7f_ffff,
        0x7f80_0000,
        0xff80_0000,
        0x7f80_0001,
        0x7fc0_0000,
        0xffc0_0000,
        0xffff_ffff,
    ];
    let mut x: u32 = 0x1234_5678;
    for _ in 0..400 {
        x = x.wrapping_mul(1_664_525).wrapping_add(1_013_904_223);
        bits.push(x);
    }
    bits
}

#[test]
fn bits_round_trip() {
    for bits in sample_bits() {
        assert_eq!(Binary32::from_bits(bits).to_bits(), bits);
    }
}

#[test]
fn zero_and_one_are_the_numbers() {
    assert_eq!(Binary32::zero().to_bits(), 0.0f32.to_bits());
    assert_eq!(Binary32::one().to_bits(), 1.0f32.to_bits());
}

#[test]
fn every_register_word_converts_exactly() {
    for x in 0..=u16::MAX {
        assert_eq!(Binary32::from_u16(x).to_bits(), (x as f32).to_bits(), "word {}", x);
    }
}

#[test]
fn every_register_word_comes_back() {
    for x in 0..=u16::MAX {
        assert_eq!(Binary32::from_u16(x).to_u16(), x);
    }
}

#[test]
fn two_words_combine_high_word_first() {
    let value = Binary32::from_words(0x4049, 0x0FDB);
    assert_eq!(value.to_bits(), 0x4049_0FDB);
    let as_float = f32::from_bits(value.to_bits());
    assert!((as_float - 3.14159).abs() < 1e-5);
    assert_eq!(Binary32::from_words(0xffff, 0xffff).to_bits(), 0xffff_ffff);
    assert_eq!(Binary32::from_words(0, 1).to_bits(), 1);
    assert_eq!(Binary32::from_words(1, 0).to_bits(), 0x1_0000);
}

#[test]
fn ordering_is_the_numeric_one() {
    let bits = sample_bits();
    for &a in &bits {
        for &b in &bits {
            let x = f32::from_bits(a);
            let y = f32::from_bits(b);
            assert_eq!(Binary32::from_bits(a).lt(Binary32::from_bits(b)), x < y, "{} < {}", x, y);
            assert_eq!(Binary32::from_bits(a).gt(Binary32::from_bits(b)), x > y, "{} > {}", x, y);
        }
    }
}

#[test]
fn zeros_are_equal_in_order() {
    assert!(!number(0.0).lt(number(-0.0)));
    assert!(!number(-0.0).lt(number(0.0)));
    assert!(!number(0.0).gt(number(-0.0)));
}

#[test]
fn nan_is_never_below_or_above() {
    let nan = number(f32::NAN);
    assert!(!nan.lt(number(1.0)));
    assert!(!nan.gt(number(1.0)));
    assert!(!number(1.0).lt(nan));
    assert!(!number(1.0).gt(nan));
    assert!(!nan.lt(nan));
}

#[test]
fn truncation_is_the_saturating_cast() {
    for bits in sample_bits() {
        let x = f32::from_bits(bits);
        assert_eq!(Binary32::from_bits(bits).to_u16(), x as u16, "{}", x);
    }
    let mut bits: u32 = 0x3f00_0000;
    while bits < 0x4800_0000 {
        let x = f32::from_bits(bits);
        assert_eq!(Binary32::from_bits(bits).to_u16(), x as u16, "{}", x);
        bits += 4093;
    }
}

#[test]
fn truncation_edge_values() {
    assert_eq!(number(0.0).to_u16(), 0);
    assert_eq!(number(-0.0).to_u16(), 0);
    assert_eq!(number(0.999).to_u16(), 0);
    assert_eq!(number(1.0).to_u16(), 1);
    assert_eq!(number(1.999).to_u16(), 1);
    assert_eq!(number(-1.0).to_u16(), 0);
    assert_eq!(number(65534.9).to_u16(), 65534);
    assert_eq!(number(65535.0).to_u16(), 65535);
    assert_eq!(number(65536.0).to_u16(), 65535);
    assert_eq!(number(1.0e30).to_u16(), 65535);
    assert_eq!(number(f32::INFINITY).to_u16(), 65535);
    assert_eq!(number(f32::NEG_INFINITY).to_u16(), 0);
    assert_eq!(number(f32::NAN).to_u16(), 0);
    assert_eq!(number(f32::MIN_POSITIVE).to_u16(), 0);
}
