use flycam::binary32::Binary32;

fn samples() -> Vec<f32> {
    let mut list = vec![
        0.0,
        -0.0,
        1.0,
        -1.0,
        0.5,
        -0.5,
        88.99999,
        89.0,
        89.00001,
        -88.99999,
        -89.0,
        -89.00001,
        90.0,
        -90.0,
        45.0,
        1.0e-40,
        -1.0e-40,
        f32::MIN_POSITIVE,
        -f32::MIN_POSITIVE,
        f32::MAX,
        f32::MIN,
        f32::EPSILON,
        f32::INFINITY,
        f32::NEG_INFINITY,
        f32::NAN,
        -f32::NAN,
        f32::from_bits(1),
        f32::from_bits(0x8000_0001),
        f32::from_bits(0x007f_ffff),
        f32::from_bits(0x0080_0000),
        f32::from_bits(0x7f7f_ffff),
        f32::from_bits(0x7f80_0001),
        f32::from_bits(0xffff_ffff),
    ];
    let mut x: f32 = -200.0;
    while x < 200.0 {
        list.push(x);
        x += 12.625;
    }
    list
}

#[test]
fn less_than_agrees_with_the_hardware_on_every_pair() {
    let all = samples();
    for &a in &all {
        for &b in &all {
            let got = Binary32::from_bits(a.to_bits()).less_than(Binary32::from_bits(b.to_bits()));
            assert_eq!(got, a < b, "{:?} < {:?}", a, b);
        }
    }
}

#[test]
fn is_nan_agrees_with_the_hardware() {
    for &a in &samples() {
        assert_eq!(Binary32::from_bits(a.to_bits()).is_nan(), a.is_nan(), "{:?}", a);
    }
}

#[test]
fn the_two_zeros_are_equal() {
    let plus = Binary32::from_bits(0);
    let minus = Binary32::from_bits(0x8000_0000);
    assert!(!plus.less_than(minus));
    assert!(!minus.less_than(plus));
}

#[test]
fn nan_is_below_nothing_and_above_nothing() {
    let nan = Binary32::from_bits(0x7fc0_0000);
    let one = Binary32::from_bits(0x3f80_0000);
    assert!(!nan.less_than(one));
    assert!(!one.less_than(nan));
    assert!(!nan.less_than(nan));
}

#[test]
fn infinities_bound_every_finite_number() {
    let up = Binary32::from_bits(f32::INFINITY.to_bits());
    let down = Binary32::from_bits(f32::NEG_INFINITY.to_bits());
    let big = Binary32::from_bits(f32::MAX.to_bits());
    let small = Binary32::from_bits(f32::MIN.to_bits());
    assert!(big.less_than(up));
    assert!(down.less_than(small));
    assert!(down.less_than(up));
    assert!(!up.less_than(big));
}

#[test]
fn bits_round_trip() {
    for bits in [0u32, 1, 0x42b2_0000, 0xc2b2_0000, 0x7fc0_0000, 0xffff_ffff] {
        assert_eq!(Binary32::from_bits(bits).to_bits(), bits);
        assert_eq!(Binary32::from_bits(bits).bits, bits);
    }
}

#[test]
fn subnormals_are_ordered_by_their_fraction() {
    let a = Binary32::from_bits(0x0000_0001);
    let b = Binary32::from_bits(0x0000_0002);
    let first_normal = Binary32::from_bits(0x0080_0000);
    assert!(a.less_than(b));
    assert!(b.less_than(first_normal));
    assert!(!first_normal.less_than(b));
}
