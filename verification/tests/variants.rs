use horner_eval::{
    horner, horner_eval, horner_eval2, horner_eval3, horner_loop, AdditiveZero, FusedMulAdd,
};

/// `f64` with its fused multiply-add, which is total and rounds once.
#[derive(Clone, Copy, Debug, PartialEq)]
struct Double(f64);

impl FusedMulAdd for Double {
    fn mul_add_defined(self, _a: Self, _b: Self) -> bool {
        true
    }

    fn mul_add_spec(self, a: Self, b: Self) -> Self {
        self.fused_mul_add(a, b)
    }

    fn fused_mul_add(self, a: Self, b: Self) -> Self {
        Double(num_traits::MulAdd::mul_add(self.0, a.0, b.0))
    }
}

impl AdditiveZero for Double {
    fn zero_spec() -> Self {
        Self::zero()
    }

    fn zero() -> Self {
        Double(num_traits::Zero::zero())
    }
}

#[test]
fn from_zero_matches_the_examples() {
    let x: f64 = 2.0;
    let c: Vec<Double> = vec![Double(1.0), Double(2.0), Double(3.0)];
    assert_eq!(17.0, c[2].0.mul_add(x, c[1].0).mul_add(x, c[0].0));
    assert_eq!(17.0, horner_eval(Double(x), &c).0);
    assert_eq!(17.0, horner_eval2(Double(x), &c).0);
    assert_eq!(17.0, horner_eval3(Double(x), &c).0);
    assert_eq!(1.0, horner_eval3(Double(x), &[Double(1.0)]).0);
}

#[test]
fn from_zero_integer_values() {
    {
        let c: Vec<u8> = vec![1, 2, 3];
        assert_eq!(17, horner_eval::<u8>(2, &c));
        assert_eq!(17, horner_eval2::<u8>(2, &c));
        assert_eq!(17, horner_eval3::<u8>(2, &c));
    }
    {
        let c: Vec<u16> = vec![1, 2, 3];
        assert_eq!(17, horner_eval::<u16>(2, &c));
        assert_eq!(17, horner_eval2::<u16>(2, &c));
        assert_eq!(17, horner_eval3::<u16>(2, &c));
    }
    {
        let c: Vec<u32> = vec![1, 2, 3];
        assert_eq!(17, horner_eval::<u32>(2, &c));
        assert_eq!(17, horner_eval2::<u32>(2, &c));
        assert_eq!(17, horner_eval3::<u32>(2, &c));
    }
    {
        let c: Vec<u64> = vec![1, 2, 3];
        assert_eq!(17, horner_eval::<u64>(2, &c));
        assert_eq!(17, horner_eval2::<u64>(2, &c));
        assert_eq!(17, horner_eval3::<u64>(2, &c));
    }
    {
        let c: Vec<u128> = vec![1, 2, 3];
        assert_eq!(17, horner_eval::<u128>(2, &c));
        assert_eq!(17, horner_eval2::<u128>(2, &c));
        assert_eq!(17, horner_eval3::<u128>(2, &c));
    }
    {
        let c: Vec<usize> = vec![1, 2, 3];
        assert_eq!(17, horner_eval::<usize>(2, &c));
        assert_eq!(17, horner_eval2::<usize>(2, &c));
        assert_eq!(17, horner_eval3::<usize>(2, &c));
    }
    {
        let c: Vec<i8> = vec![1, 2, 3];
        assert_eq!(17, horner_eval::<i8>(2, &c));
        assert_eq!(17, horner_eval2::<i8>(2, &c));
        assert_eq!(17, horner_eval3::<i8>(2, &c));
    }
    {
        let c: Vec<i16> = vec![1, 2, 3];
        assert_eq!(17, horner_eval::<i16>(2, &c));
        assert_eq!(17, horner_eval2::<i16>(2, &c));
        assert_eq!(17, horner_eval3::<i16>(2, &c));
    }
    {
        let c: Vec<i32> = vec![1, 2, 3];
        assert_eq!(17, horner_eval::<i32>(2, &c));
        assert_eq!(17, horner_eval2::<i32>(2, &c));
        assert_eq!(17, horner_eval3::<i32>(2, &c));
    }
    {
        let c: Vec<i64> = vec![1, 2, 3];
        assert_eq!(17, horner_eval::<i64>(2, &c));
        assert_eq!(17, horner_eval2::<i64>(2, &c));
        assert_eq!(17, horner_eval3::<i64>(2, &c));
    }
    {
        let c: Vec<i128> = vec![1, 2, 3];
        assert_eq!(17, horner_eval::<i128>(2, &c));
        assert_eq!(17, horner_eval2::<i128>(2, &c));
        assert_eq!(17, horner_eval3::<i128>(2, &c));
    }
    {
        let c: Vec<isize> = vec![1, 2, 3];
        assert_eq!(17, horner_eval::<isize>(2, &c));
        assert_eq!(17, horner_eval2::<isize>(2, &c));
        assert_eq!(17, horner_eval3::<isize>(2, &c));
    }
}

#[test]
fn from_zero_empty_sequence_is_zero() {
    assert_eq!(0, horner_eval::<u8>(3, &[]));
    assert_eq!(0, horner_eval2::<u8>(3, &[]));
    assert_eq!(0, horner_eval::<u16>(3, &[]));
    assert_eq!(0, horner_eval2::<u16>(3, &[]));
    assert_eq!(0, horner_eval::<u32>(3, &[]));
    assert_eq!(0, horner_eval2::<u32>(3, &[]));
    assert_eq!(0, horner_eval::<u64>(3, &[]));
    assert_eq!(0, horner_eval2::<u64>(3, &[]));
    assert_eq!(0, horner_eval::<u128>(3, &[]));
    assert_eq!(0, horner_eval2::<u128>(3, &[]));
    assert_eq!(0, horner_eval::<usize>(3, &[]));
    assert_eq!(0, horner_eval2::<usize>(3, &[]));
    assert_eq!(0, horner_eval::<i8>(3, &[]));
    assert_eq!(0, horner_eval2::<i8>(3, &[]));
    assert_eq!(0, horner_eval::<i16>(3, &[]));
    assert_eq!(0, horner_eval2::<i16>(3, &[]));
    assert_eq!(0, horner_eval::<i32>(3, &[]));
    assert_eq!(0, horner_eval2::<i32>(3, &[]));
    assert_eq!(0, horner_eval::<i64>(3, &[]));
    assert_eq!(0, horner_eval2::<i64>(3, &[]));
    assert_eq!(0, horner_eval::<i128>(3, &[]));
    assert_eq!(0, horner_eval2::<i128>(3, &[]));
    assert_eq!(0, horner_eval::<isize>(3, &[]));
    assert_eq!(0, horner_eval2::<isize>(3, &[]));
    assert_eq!(0.0, horner_eval(Double(3.0), &[]).0);
    assert_eq!(0.0, horner_eval2(Double(3.0), &[]).0);
}

#[test]
fn from_zero_single_coefficient() {
    assert_eq!(7, horner_eval::<u8>(255, &[7]));
    assert_eq!(7, horner_eval2::<u8>(255, &[7]));
    assert_eq!(7, horner_eval3::<u8>(255, &[7]));
    assert_eq!(i32::MIN, horner_eval::<i32>(i32::MAX, &[i32::MIN]));
    assert_eq!(i32::MIN, horner_eval2::<i32>(i32::MAX, &[i32::MIN]));
    assert_eq!(i32::MIN, horner_eval3::<i32>(i32::MAX, &[i32::MIN]));
}

#[test]
fn all_forms_agree_on_integers() {
    let c: [i64; 9] = [1, 2, 3, 4, 5, 6, 7, 8, 9];
    let mut x: i64 = -5;
    while x <= 5 {
        let expected = horner(x, c);
        assert_eq!(expected, horner_loop(x, &c));
        assert_eq!(expected, horner_eval(x, &c));
        assert_eq!(expected, horner_eval2(x, &c));
        assert_eq!(expected, horner_eval3(x, &c));
        let mut sum: i64 = 0;
        let mut power: i64 = 1;
        let mut i: usize = 0;
        while i < c.len() {
            sum += c[i] * power;
            power *= x;
            i += 1;
        }
        assert_eq!(expected, sum);
        x += 1;
    }
    assert_eq!(4097, horner_eval(2, &c));
    assert_eq!(4097, horner_eval2(2, &c));
    assert_eq!(4097, horner_eval3(2, &c));
}

#[test]
fn leading_seed_forms_agree_bit_for_bit() {
    let c: [Double; 4] = [Double(0.1), Double(-0.7), Double(1.0e-9), Double(3.3)];
    let points: [f64; 4] = [0.3, -7.25, 1.0e6, 0.0];
    let mut i: usize = 0;
    while i < points.len() {
        let x = Double(points[i]);
        assert_eq!(horner_loop(x, &c).0.to_bits(), horner_eval3(x, &c).0.to_bits());
        assert_eq!(horner(x, c).0.to_bits(), horner_eval3(x, &c).0.to_bits());
        assert_eq!(horner_eval(x, &c).0.to_bits(), horner_eval2(x, &c).0.to_bits());
        i += 1;
    }
}
