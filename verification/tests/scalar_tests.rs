use raytracing::scalar::Scalar;

fn s(x: f32) -> Scalar {
    Scalar::from_bits(x.to_bits())
}

#[test]
fn scalar_order_follows_the_numbers() {
    let values = [-f32::INFINITY, -2.5, -1.0e-30, -0.0, 0.0, 1.0e-30, 0.001, 1.0, 4.0, f32::INFINITY];
    for a in values {
        for b in values {
            assert_eq!(s(a).lt(s(b)), a < b);
            assert_eq!(s(a).le(s(b)), a <= b);
            assert_eq!(s(a).gt(s(b)), a > b);
            assert_eq!(s(a).ge(s(b)), a >= b);
            assert_eq!(s(a).same(s(b)), a == b);
        }
    }
}

#[test]
fn scalar_nan_compares_false() {
    let nan = s(f32::NAN);
    assert!(nan.is_nan());
    assert!(!s(1.0).is_nan());
    assert!(!nan.lt(s(1.0)));
    assert!(!s(1.0).lt(nan));
    assert!(!nan.same(nan));
    assert_eq!(nan.min(s(2.0)), s(2.0));
    assert_eq!(s(2.0).max(nan), s(2.0));
}

#[test]
fn scalar_constants() {
    assert_eq!(Scalar::zero().to_bits(), 0.0f32.to_bits());
    assert_eq!(Scalar::one().to_bits(), 1.0f32.to_bits());
    assert_eq!(Scalar::infinity().to_bits(), f32::INFINITY.to_bits());
    assert_eq!(Scalar::neg_infinity().to_bits(), f32::NEG_INFINITY.to_bits());
}

#[test]
fn scalar_neg_abs_min_max_clamp() {
    assert_eq!(s(1.5).neg(), s(-1.5));
    assert_eq!(s(-0.0).neg(), s(0.0));
    assert_eq!(s(-3.0).abs(), s(3.0));
    assert_eq!(s(3.0).abs(), s(3.0));
    assert_eq!(s(1.0).min(s(2.0)), s(1.0));
    assert_eq!(s(2.0).min(s(1.0)), s(1.0));
    assert_eq!(s(1.0).max(s(2.0)), s(2.0));
    assert_eq!(s(-5.0).max(s(-7.0)), s(-5.0));
    assert_eq!(s(1.5).clamp(s(0.0), s(0.999)), s(0.999));
    assert_eq!(s(-1.5).clamp(s(0.0), s(0.999)), s(0.0));
    assert_eq!(s(0.25).clamp(s(0.0), s(0.999)), s(0.25));
    assert_eq!(s(4.0).ordinal(), 0x4080_0000);
    assert_eq!(s(-4.0).ordinal(), -0x4080_0000);
    assert!(s(4.0).in_range(s(0.001), s(f32::INFINITY)));
    assert!(!s(4.0).in_range(s(0.001), s(4.0)));
    assert!(s(0.001).in_range(s(0.001), s(4.0)));
}

fn f(x: Scalar) -> f32 {
    f32::from_bits(x.to_bits())
}

fn alike(a: f32, b: f32) -> bool {
    (a.is_nan() && b.is_nan()) || a == b
}

#[test]
fn scalar_agrees_with_the_numbers_on_random_encodings() {
    let mut state = 0x2545_f491_4f6c_dd1du64;
    let mut next = || {
        state ^= state << 13;
        state ^= state >> 7;
        state ^= state << 17;
        (state >> 16) as u32
    };
    let special = [
        0u32,
        0x8000_0000,
        1,
        0x8000_0001,
        0x007f_ffff,
        0x0080_0000,
        0x7f7f_ffff,
        0x7f80_0000,
        0xff80_0000,
        0x7f80_0001,
        0x7fc0_0000,
        0xffc0_0000,
        0xffff_ffff,
        0x3f80_0000,
        0xbf80_0000,
    ];
    for round in 0..200_000 {
        let (a_bits, b_bits) = if round < special.len() * special.len() {
            (special[round / special.len()], special[round % special.len()])
        } else {
            (next(), next())
        };
        let (a, b) = (f32::from_bits(a_bits), f32::from_bits(b_bits));
        let (sa, sb) = (Scalar::from_bits(a_bits), Scalar::from_bits(b_bits));
        assert_eq!(sa.is_nan(), a.is_nan());
        assert_eq!(sa.lt(sb), a < b);
        assert_eq!(sa.le(sb), a <= b);
        assert_eq!(sa.gt(sb), a > b);
        assert_eq!(sa.ge(sb), a >= b);
        assert_eq!(sa.same(sb), a == b);
        assert!(alike(f(sa.min(sb)), a.min(b)));
        assert!(alike(f(sa.max(sb)), a.max(b)));
        assert_eq!(sa.neg().to_bits(), (-a).to_bits());
        assert_eq!(sa.abs().to_bits(), a.abs().to_bits());
        assert_eq!(sa.in_range(s(0.001), sb), (0.001..b).contains(&a));
        if b_bits & 0x7fff_ffff <= 0x7f80_0000 {
            let (lo, hi) = if b < 0.0 { (b, 0.999) } else { (0.0, b) };
            assert!(alike(f(sa.clamp(s(lo), s(hi))), a.clamp(lo, hi)));
        }
        if !a.is_nan() && !b.is_nan() {
            assert_eq!(sa.ordinal() < sb.ordinal(), a < b);
            assert_eq!(sa.ordinal() == sb.ordinal(), a == b);
        }
    }
}
