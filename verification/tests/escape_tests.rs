use fractal_engine::{find_escape_radius, Complex, Fixed};

#[test]
fn test_find_escape_radius() {
    let c_norm = Complex::new(Fixed::from_ratio(3, 10), Fixed::from_ratio(-1, 2)).norm();
    let radius = find_escape_radius(c_norm);
    assert!(radius.times(radius).minus(radius) >= c_norm);
    assert!(radius.times(radius).minus(radius).minus(c_norm) <= Fixed::from_ratio(1, 100));

    let c_norm = Complex::new(Fixed::from_int(1), Fixed::from_int(-1)).norm();
    let radius = find_escape_radius(c_norm);
    assert!(radius.times(radius).minus(radius) >= c_norm);
    assert!(radius.times(radius).minus(radius).minus(c_norm) <= Fixed::from_ratio(1, 100));
}

#[test]
fn escape_radius_never_exceeds_two() {
    for (num, den) in [(0i64, 1i64), (1, 2), (1, 1), (3, 2), (2, 1), (3, 1), (5, 1)] {
        let radius = find_escape_radius(Fixed::from_ratio(num, den));
        assert!(radius <= Fixed::from_int(2));
    }
}

#[test]
fn escape_radius_falls_back_beyond_two() {
    // No radius at most two can dominate a parameter magnitude above two,
    // so the solver answers the safe default.
    let radius = find_escape_radius(Fixed::from_int(5));
    assert_eq!(radius, Fixed::from_int(2));
}

#[test]
fn escape_radius_dominates_small_magnitudes() {
    for (num, den) in [(0i64, 1i64), (1, 4), (1, 2), (1, 1), (3, 2), (2, 1)] {
        let c_norm = Fixed::from_ratio(num, den);
        let radius = find_escape_radius(c_norm);
        assert!(radius.times(radius).minus(radius) >= c_norm);
    }
}
