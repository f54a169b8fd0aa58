use horner_eval::{horner_loop, FusedMulAdd};

/// `f32` with its fused multiply-add, which is total and rounds once.
#[derive(Clone, Copy, Debug, PartialEq)]
struct Single(f32);

impl FusedMulAdd for Single {
    fn mul_add_defined(self, _a: Self, _b: Self) -> bool {
        true
    }

    fn mul_add_spec(self, a: Self, b: Self) -> Self {
        self.fused_mul_add(a, b)
    }

    fn fused_mul_add(self, a: Self, b: Self) -> Self {
        Single(num_traits::MulAdd::mul_add(self.0, a.0, b.0))
    }
}

/// `f64` with its fused multiply-add, which is total and rounds once.
#[derive(Clone, Copy, Debug, PartialEq)]
struct Double(f64);

impl FusedMulAdd for Double {
    fn mul_add_defined(self, _a: Self, _b: Self) -> bool {
        true
    }

    fn mul_add_spec(self, a: Self, b: Self) -> Self {
        self.fused_mul_add(a, b)
    }

    fn fused_mul_add(self, a: Self, b: Self) -> Self {
        Double(num_traits::MulAdd::mul_add(self.0, a.0, b.0))
    }
}

#[test]
fn horner_loop_integer() {
    {
        let x: usize = 2;
        let c: Vec<usize> = vec![1, 2, 3];
        let c1: Vec<usize> = vec![1];
        assert_eq!(17, horner_loop(x, &c));
        assert_eq!(1, horner_loop(x, &c1));
    }
    {
        let x: u8 = 2;
        let c: Vec<u8> = vec![1, 2, 3];
        let c1: Vec<u8> = vec![1];
        assert_eq!(17, horner_loop(x, &c));
        assert_eq!(1, horner_loop(x, &c1));
    }
    {
        let x: u16 = 2;
        let c: Vec<u16> = vec![1, 2, 3];
        let c1: Vec<u16> = vec![1];
        assert_eq!(17, horner_loop(x, &c));
        assert_eq!(1, horner_loop(x, &c1));
    }
    {
        let x: u32 = 2;
        let c: Vec<u32> = vec![1, 2, 3];
        let c1: Vec<u32> = vec![1];
        assert_eq!(17, horner_loop(x, &c));
        assert_eq!(1, horner_loop(x, &c1));
    }
    {
        let x: u64 = 2;
        let c: Vec<u64> = vec![1, 2, 3];
        let c1: Vec<u64> = vec![1];
        assert_eq!(17, horner_loop(x, &c));
        assert_eq!(1, horner_loop(x, &c1));
    }
    {
        let x: isize = 2;
        let c: Vec<isize> = vec![1, 2, 3];
        let c1: Vec<isize> = vec![1];
        assert_eq!(17, horner_loop(x, &c));
        assert_eq!(1, horner_loop(x, &c1));
    }
    {
        let x: i8 = 2;
        let c: Vec<i8> = vec![1, 2, 3];
        let c1: Vec<i8> = vec![1];
        assert_eq!(17, horner_loop(x, &c));
        assert_eq!(1, horner_loop(x, &c1));
    }
    {
        let x: i16 = 2;
        let c: Vec<i16> = vec![1, 2, 3];
        let c1: Vec<i16> = vec![1];
        assert_eq!(17, horner_loop(x, &c));
        assert_eq!(1, horner_loop(x, &c1));
    }
    {
        let x: i32 = 2;
        let c: Vec<i32> = vec![1, 2, 3];
        let c1: Vec<i32> = vec![1];
        assert_eq!(17, horner_loop(x, &c));
        assert_eq!(1, horner_loop(x, &c1));
    }
    {
        let x: i64 = 2;
        let c: Vec<i64> = vec![1, 2, 3];
        let c1: Vec<i64> = vec![1];
        assert_eq!(17, horner_loop(x, &c));
        assert_eq!(1, horner_loop(x, &c1));
    }
}

#[test]
fn horner_loop_float() {
    {
        let x: Single = Single(2.0);
        let c: Vec<Single> = vec![Single(1.0), Single(2.0), Single(3.0)];
        let c1: Vec<Single> = vec![Single(1.0)];
        assert_eq!(17.0, horner_loop(x, &c).0);
        assert_eq!(1.0, horner_loop(x, &c1).0);
    }
    {
        let x: Double = Double(2.0);
        let c: Vec<Double> = vec![Double(1.0), Double(2.0), Double(3.0)];
        let c1: Vec<Double> = vec![Double(1.0)];
        assert_eq!(17.0, horner_loop(x, &c).0);
        assert_eq!(1.0, horner_loop(x, &c1).0);
    }
}

#[test]
fn horner_loop_nine_integer_terms() {
    let c: Vec<i32> = vec![1, 2, 3, 4, 5, 6, 7, 8, 9];
    assert_eq!(4097, horner_loop(2, &c));
    let wide: Vec<u128> = vec![1, 2, 3, 4, 5, 6, 7, 8, 9];
    assert_eq!(4097, horner_loop(2, &wide));
    let narrow: Vec<i16> = vec![1, 2, 3, 4, 5, 6, 7, 8, 9];
    assert_eq!(4097, horner_loop(2, &narrow));
}

#[test]
fn horner_loop_six_float_terms() {
    let c: Vec<Double> = vec![
        Double(7.72156649015328655494e-02),
        Double(6.73523010531292681824e-02),
        Double(7.38555086081402883957e-03),
        Double(1.19270763183362067845e-03),
        Double(2.20862790713908385557e-04),
        Double(2.52144565451257326939e-05),
    ];
    let difference: f64 = 1.1985066439401153 - horner_loop(Double(5.5), &c).0;
    assert!(difference.abs() <= f64::EPSILON);
}

#[test]
fn horner_loop_single_coefficient_ignores_the_point() {
    assert_eq!(5, horner_loop::<u8>(255, &[5]));
    assert_eq!(5, horner_loop::<u8>(0, &[5]));
    assert_eq!(i64::MIN, horner_loop::<i64>(i64::MAX, &[i64::MIN]));
    assert_eq!(u128::MAX, horner_loop::<u128>(u128::MAX, &[u128::MAX]));
    assert_eq!(2.5, horner_loop(Double(f64::NAN), &[Double(2.5)]).0);
    assert_eq!(2.5, horner_loop(Double(0.0), &[Double(2.5)]).0);
    assert_eq!(2.5, horner_loop(Single(f32::NEG_INFINITY), &[Single(2.5)]).0);
}

#[test]
fn horner_loop_borrows_the_coefficients() {
    let c: Vec<i32> = vec![4, -3, 2, -1];
    assert_eq!(58, horner_loop(-3, &c));
    assert_eq!(-14, horner_loop(3, &c));
    assert_eq!(c, vec![4, -3, 2, -1]);
    assert_eq!(58, horner_loop(-3, &c[..]));
    assert_eq!(-2, horner_loop(-3, &c[2..]) - 7);
}

#[test]
fn horner_loop_reaches_the_bounds() {
    // 1 + 2 * 127 = 255
    assert_eq!(u8::MAX, horner_loop::<u8>(127, &[1, 2]));
    // -128 = (-1 * 64 + 0) * 2 + 0
    assert_eq!(i8::MIN, horner_loop::<i8>(2, &[0, 0, -32]));
    assert_eq!(i8::MAX, horner_loop::<i8>(2, &[1, 1, 1, 1, 1, 1, 1]));
}
