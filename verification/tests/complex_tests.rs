use fractal_engine::{Complex, Fixed};

#[test]
fn test_powi() {
    let c = Complex::new(Fixed::from_int(2), Fixed::from_int(2));
    let res = c.powi(0);
    assert_eq!(res, Complex::new(Fixed::from_int(1), Fixed::from_int(0)));
    let res = c.powi(1);
    assert_eq!(res, c);
    let res = c.powi(2);
    assert_eq!(res, c.mul_by(&c));
    let res = c.powi(3);
    assert_eq!(res, c.mul_by(&c).mul_by(&c));
    let res = c.powi(4);
    assert_eq!(res, c.mul_by(&c).mul_by(&c).mul_by(&c));
    let res = c.powi(5);
    assert_eq!(res, c.mul_by(&c).mul_by(&c).mul_by(&c).mul_by(&c));
}

#[test]
fn powi_matches_repeated_mul_up_to_eight() {
    let c = Complex::new(Fixed::from_int(2), Fixed::from_int(2));
    for n in 0..=8u32 {
        let mut acc = Complex::new(Fixed::from_int(1), Fixed::from_int(0));
        for _ in 0..n {
            acc = acc.mul_by(&c);
        }
        assert_eq!(c.powi(n), acc);
    }
}

#[test]
fn complex_component_arithmetic() {
    let a = Complex::new(Fixed::from_int(3), Fixed::from_int(-2));
    let b = Complex::new(Fixed::from_int(1), Fixed::from_int(5));
    let s = a.plus(&b);
    assert_eq!(s.real_part(), Fixed::from_int(4));
    assert_eq!(s.imag_part(), Fixed::from_int(3));
    let d = a.minus(&b);
    assert_eq!(d.real_part(), Fixed::from_int(2));
    assert_eq!(d.imag_part(), Fixed::from_int(-7));
    // (3 - 2i) * (1 + 5i) = 3 + 15i - 2i + 10 = 13 + 13i
    let p = a.mul_by(&b);
    assert_eq!(p.real_part(), Fixed::from_int(13));
    assert_eq!(p.imag_part(), Fixed::from_int(13));
    // |3 - 2i|^2 = 13
    assert_eq!(a.square_length(), Fixed::from_int(13));
    // |3 + 4i| = 5 exactly
    let five = Complex::new(Fixed::from_int(3), Fixed::from_int(4));
    assert_eq!(five.norm(), Fixed::from_int(5));
}

#[test]
fn setters_replace_components() {
    let mut c = Complex::new(Fixed::from_int(1), Fixed::from_int(2));
    c.set_real(Fixed::from_int(7));
    c.set_imag(Fixed::from_int(9));
    assert_eq!(c.real_part(), Fixed::from_int(7));
    assert_eq!(c.imag_part(), Fixed::from_int(9));
}
