use manyvecs::Vec2;
use manyvecs::Vec2Error;

#[test]
fn construction_and_access() {
    let v = Vec2::new(3u8, 255u8);
    assert_eq!(*v.x(), 3);
    assert_eq!(*v.y(), 255);

    let w = Vec2::new(i64::MIN, i64::MAX);
    assert_eq!(*w.x(), i64::MIN);
    assert_eq!(*w.y(), i64::MAX);
}

#[test]
fn mutable_access() {
    let mut v = Vec2::new(1u32, 2u32);
    *v.x_mut() += 10;
    assert_eq!(*v.x(), 11);
    assert_eq!(*v.y(), 2);
}

#[test]
fn equality_is_structural() {
    assert_eq!(Vec2::new(1i32, 2i32), Vec2::new(1i32, 2i32));
    assert_ne!(Vec2::new(1i32, 2i32), Vec2::new(1i32, 3i32));
    assert_ne!(Vec2::new(1i32, 2i32), Vec2::new(2i32, 2i32));
}

#[test]
fn add_componentwise() {
    let mut v1 = Vec2::new(2i32, 3i32);
    let v2 = Vec2::new(1i32, 1i32);
    let out = Vec2::new(3i32, 4i32);

    assert_eq!(v1.add(v2), out);
    assert_eq!(v1.add_scalar(1), out);

    v1.add_assign(v2);
    assert_eq!(v1, out);

    let mut v3 = Vec2::new(2i32, 3i32);
    v3.add_assign_scalar(1);
    assert_eq!(v3, out);
}

#[test]
fn sub_componentwise() {
    let mut v1 = Vec2::new(2i32, 3i32);
    let v2 = Vec2::new(1i32, 1i32);
    let out = Vec2::new(1i32, 2i32);

    assert_eq!(v1.sub(v2), out);
    assert_eq!(v1.sub_scalar(1), out);

    v1.sub_assign(v2);
    assert_eq!(v1, out);

    let mut v3 = Vec2::new(2i32, 3i32);
    v3.sub_assign_scalar(1);
    assert_eq!(v3, out);
}

#[test]
fn mul_componentwise() {
    let mut v1 = Vec2::new(2i32, 3i32);
    let v2 = Vec2::new(2i32, 2i32);
    let out = Vec2::new(4i32, 6i32);

    assert_eq!(v1.mul(v2), out);
    assert_eq!(v1.mul_scalar(2), out);

    v1.mul_assign(v2);
    assert_eq!(v1, out);

    let mut v3 = Vec2::new(2i32, 3i32);
    v3.mul_assign_scalar(2);
    assert_eq!(v3, out);
}

#[test]
fn div_componentwise() {
    let mut v1 = Vec2::new(7i32, 9i32);
    let v2 = Vec2::new(2i32, 3i32);
    let out = Vec2::new(3i32, 3i32);

    assert_eq!(v1.div(v2), out);

    v1.div_assign(v2);
    assert_eq!(v1, out);

    let mut v3 = Vec2::new(8i32, 6i32);
    assert_eq!(v3.div_scalar(2), Vec2::new(4i32, 3i32));
    v3.div_assign_scalar(2);
    assert_eq!(v3, Vec2::new(4i32, 3i32));
}

#[test]
fn div_truncates_toward_zero() {
    let v = Vec2::new(-7i32, 7i32);
    assert_eq!(v.div_scalar(2), Vec2::new(-3i32, 3i32));
    assert_eq!(v.div_scalar(-2), Vec2::new(3i32, -3i32));
}

#[test]
fn rem_componentwise() {
    let mut v1 = Vec2::new(7i32, 9i32);
    let v2 = Vec2::new(2i32, 4i32);
    let out = Vec2::new(1i32, 1i32);

    assert_eq!(v1.rem(v2), out);

    v1.rem_assign(v2);
    assert_eq!(v1, out);

    let mut v3 = Vec2::new(7i32, 9i32);
    assert_eq!(v3.rem_scalar(4), Vec2::new(3i32, 1i32));
    v3.rem_assign_scalar(4);
    assert_eq!(v3, Vec2::new(3i32, 1i32));
}

#[test]
fn rem_has_sign_of_dividend() {
    let v = Vec2::new(-7i32, 7i32);
    assert_eq!(v.rem_scalar(2), Vec2::new(-1i32, 1i32));
    assert_eq!(v.rem_scalar(-2), Vec2::new(-1i32, 1i32));
}

#[test]
fn mag2_pythagorean() {
    assert_eq!(Vec2::new(3u32, 4u32).mag2(), 25);
    assert_eq!(Vec2::new(-3i32, 4i32).mag2(), 25);
}

#[test]
fn max_ties_take_the_bound() {
    assert_eq!(Vec2::new(5u8, 7u8).max(5), Vec2::new(5u8, 7u8));
    assert_eq!(Vec2::new(5u8, 7u8).min(5), Vec2::new(5u8, 5u8));
}

#[test]
fn clamp_is_max_then_min() {
    assert_eq!(Vec2::new(3u8, 6u8).clamp(4, 8), Vec2::new(4u8, 6u8));
    assert_eq!(Vec2::new(9u8, 1u8).clamp(4, 8), Vec2::new(8u8, 4u8));
    // When the lower bound exceeds the upper one, the second step wins.
    assert_eq!(Vec2::new(5u8, 5u8).clamp(9, 2), Vec2::new(2u8, 2u8));
}

#[test]
fn perp_four_times_is_identity() {
    let v = Vec2::new(4i32, 6i32);
    assert_eq!(v.perp(), Vec2::new(-6i32, 4i32));
    assert_eq!(v.perp().perp().perp().perp(), v);
}

#[test]
fn negate_is_an_involution() {
    let vals = [(0i64, 0i64), (5, -8), (-3, 17), (i64::MAX, -i64::MAX)];
    for (a, b) in vals {
        let v = Vec2::new(a, b);
        assert_eq!(v.neg().neg(), v);
    }
}

#[test]
fn tuple_round_trip() {
    let v = Vec2::new(12u16, 999u16);
    assert_eq!(Vec2::from_tuple(v.to_tuple()), v);
}

#[test]
fn array_round_trip() {
    let v = Vec2::new(-4i16, 30000i16);
    assert_eq!(Vec2::from_array(v.to_array()), v);
}

#[test]
fn sequence_round_trip() {
    let v = Vec2::new(1u128, u128::MAX);
    assert_eq!(Vec2::try_from(v.to_vec()).unwrap(), v);
}

#[test]
fn wrong_length_reports_the_observed_length() {
    assert_eq!(
        Vec2::<u8>::try_from(vec![8]).unwrap_err(),
        Vec2Error::WrongLength(1)
    );
    assert_eq!(
        Vec2::<u8>::try_from(vec![1, 2, 3]).unwrap_err(),
        Vec2Error::WrongLength(3)
    );
    assert_eq!(
        Vec2::<u8>::try_from(Vec::new()).unwrap_err(),
        Vec2Error::WrongLength(0)
    );
}

#[test]
fn display_form() {
    assert_eq!(Vec2::new(4i32, 8i32).to_string(), "Vec2(4, 8)");
    assert_eq!(Vec2::new(-2i8, 3i8).to_string(), "Vec2(-2, 3)");
    assert_eq!(Vec2::new(0u8, 10u8).to_string(), "Vec2(0, 10)");
    assert_eq!(
        Vec2::new(1234567890u64, 42u64).to_string(),
        "Vec2(1234567890, 42)"
    );
    assert_eq!(
        Vec2::new(i128::MIN, 0i128).to_string(),
        "Vec2(-170141183460469231731687303715884105728, 0)"
    );
    assert_eq!(
        Vec2::new(u128::MAX, 0u128).to_string(),
        "Vec2(340282366920938463463374607431768211455, 0)"
    );
}

#[test]
fn default_is_zeroes() {
    assert_eq!(Vec2::<i8>::default(), Vec2::new(0i8, 0i8));
    assert_eq!(Vec2::<u128>::default(), Vec2::new(0u128, 0u128));
}
