use quaternion::ComponentText;
use quaternion::Quaternion;
use quaternion::Sign;
use quaternion::display::format_parts;

#[test]
fn new_and_to_tuple() {
    let q = Quaternion::new(1, 2, 3, 4);
    assert_eq!(q.to_tuple(), (1, 2, 3, 4));
}

#[test]
fn clone_has_identical_components() {
    let p = Quaternion::new(7, -8, 9, -10);
    let c = p.clone();
    assert_eq!(c.to_tuple(), (7, -8, 9, -10));
    assert_eq!(c, p);
    // The copy is independent: the original can be dropped and the
    // copy still carries the same components.
    drop(p);
    assert_eq!(c.to_tuple(), (7, -8, 9, -10));
}

#[test]
fn norm_is_sum_of_squares() {
    assert_eq!(Quaternion::new(1, 2, 3, 4).norm(), 30);
    assert_eq!(Quaternion::new(-3, 0, 0, 0).norm(), 9);
    assert_eq!(Quaternion::new(0, 0, 0, 0).norm(), 0);
    assert!(Quaternion::new(-5, -6, 7, -8).norm() >= 0);
}

#[test]
fn addition_commutes() {
    let p = Quaternion::new(1, -2, 3, -4);
    let q = Quaternion::new(10, 20, -30, 40);
    assert_eq!(p.add(&q), q.add(&p));
    assert_eq!(p.add(&q).to_tuple(), (11, 18, -27, 36));
}

#[test]
fn adding_negation_gives_zero() {
    let p = Quaternion::new(5, -6, 7, -8);
    assert_eq!(p.add(&p.neg()), Quaternion::new(0, 0, 0, 0));
}

#[test]
fn subtraction_is_componentwise() {
    let p = Quaternion::new(5, 5, 5, 5);
    let q = Quaternion::new(1, 2, 3, 4);
    assert_eq!(p.sub(&q).to_tuple(), (4, 3, 2, 1));
}

#[test]
fn multiplication_is_non_commutative() {
    let i = Quaternion::new(0, 1, 0, 0);
    let j = Quaternion::new(0, 0, 1, 0);
    assert_eq!(i.mul(&j).to_tuple(), (0, 0, 0, 1));
    assert_eq!(j.mul(&i).to_tuple(), (0, 0, 0, -1));
}

#[test]
fn one_is_a_multiplicative_identity() {
    let one = Quaternion::new(1, 0, 0, 0);
    let q = Quaternion::new(5, -7, 9, 3);
    assert_eq!(one.mul(&q), q);
}

#[test]
fn hamilton_product_example() {
    // (1 + 2i + 3j + 4k) * (5 + 6i + 7j + 8k)
    let p = Quaternion::new(1, 2, 3, 4);
    let q = Quaternion::new(5, 6, 7, 8);
    assert_eq!(p.mul(&q).to_tuple(), (-60, 12, 30, 24));
}

#[test]
fn display_zero() {
    assert_eq!(Quaternion::new(0, 0, 0, 0).to_display_string(), "0");
}

#[test]
fn display_positive_real() {
    assert_eq!(Quaternion::new(1, 0, 0, 0).to_display_string(), "+1");
}

#[test]
fn display_negative_real() {
    assert_eq!(Quaternion::new(-1, 0, 0, 0).to_display_string(), "-1");
}

#[test]
fn display_single_i() {
    assert_eq!(Quaternion::new(0, 2, 0, 0).to_display_string(), "+2i");
}

#[test]
fn display_single_j() {
    assert_eq!(Quaternion::new(0, 0, -3, 0).to_display_string(), "-3j");
}

#[test]
fn display_single_k() {
    assert_eq!(Quaternion::new(0, 0, 0, -1).to_display_string(), "-1k");
}

#[test]
fn display_mixed_components() {
    assert_eq!(Quaternion::new(1, -2, 0, 3).to_display_string(), "+1-2i+3k");
}

#[test]
fn display_multi_digit_components() {
    assert_eq!(Quaternion::new(12, -345, 0, 7).to_display_string(), "+12-345i+7k");
    assert_eq!(Quaternion::new(0, 0, 1000, 0).to_display_string(), "+1000j");
}

#[test]
fn display_extreme_components() {
    assert_eq!(
        Quaternion::new(i32::MIN, 0, 0, i32::MAX).to_display_string(),
        "-2147483648+2147483647k"
    );
}

#[test]
fn format_parts_carries_arbitrary_magnitudes() {
    let x = ComponentText { sign: Sign::Positive, magnitude: String::from("1.5") };
    let y = ComponentText { sign: Sign::Zero, magnitude: String::new() };
    let z = ComponentText { sign: Sign::Negative, magnitude: String::from("2.25") };
    let w = ComponentText { sign: Sign::Zero, magnitude: String::new() };
    assert_eq!(format_parts(&x, &y, &z, &w), "+1.5-2.25j");
}

#[test]
fn format_parts_all_zero_is_zero() {
    let x = ComponentText { sign: Sign::Zero, magnitude: String::new() };
    let y = ComponentText { sign: Sign::Zero, magnitude: String::new() };
    let z = ComponentText { sign: Sign::Zero, magnitude: String::new() };
    let w = ComponentText { sign: Sign::Zero, magnitude: String::new() };
    assert_eq!(format_parts(&x, &y, &z, &w), "0");
}

#[test]
fn division_by_unit_real_is_identity() {
    let p = Quaternion::new(2, 0, 0, 0);
    let q = Quaternion::new(1, 0, 0, 0);
    assert_eq!(p.div(&q).to_tuple(), (2, 0, 0, 0));
}

#[test]
fn division_truncates_toward_zero() {
    // Divisor norm is 4, so each Hamilton-product component is divided
    // by 16: 6 / 16 truncates to 0, and -6 / 16 truncates to 0 as well
    // (not down to -1).
    let q = Quaternion::new(2, 0, 0, 0);
    assert_eq!(Quaternion::new(3, 0, 0, 0).div(&q).to_tuple(), (0, 0, 0, 0));
    assert_eq!(Quaternion::new(-3, 0, 0, 0).div(&q).to_tuple(), (0, 0, 0, 0));
}

#[test]
fn division_takes_no_conjugate() {
    // Dividing 2i by i multiplies the operands directly (no conjugate),
    // so the result is i * i * 2 = -2, not 2.
    let p = Quaternion::new(0, 2, 0, 0);
    let q = Quaternion::new(0, 1, 0, 0);
    assert_eq!(p.div(&q).to_tuple(), (-2, 0, 0, 0));
}
