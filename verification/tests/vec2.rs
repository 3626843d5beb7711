use manyvecs::Vec2;

fn assert_sync_send<T: Sync + Send>() {}

#[test]
fn new() {
    Vec2::new(10, 5);
}

#[test]
fn mut_x_and_y() {
    let mut v = Vec2::new(6, 8);

    *v.y_mut() /= 2;

    assert_eq!(*v.y(), 4);
}

#[test]
fn types() {
    Vec2::<u8>::new(2, 3);
    Vec2::<i8>::new(-2, 3);
    Vec2::<u16>::new(2, 3);
    Vec2::<i16>::new(-2, 3);
    Vec2::<u32>::new(2, 3);
    Vec2::<i32>::new(-2, 3);
    Vec2::<u64>::new(2, 3);
    Vec2::<i64>::new(-2, 3);
    Vec2::<u128>::new(2, 3);
    Vec2::<i128>::new(-2, 3);

    Vec2::<usize>::new(2, 4);
    Vec2::<isize>::new(-2, 4);
}

#[test]
fn mag2() {
    assert_eq!(Vec2::new(2, 3).mag2(), 13);
}

#[test]
fn sync_send() {
    assert_sync_send::<Vec2<i64>>();
}

#[test]
fn default() {
    assert_eq!(Vec2::<u16>::default(), Vec2::<u16>::new(0, 0));
}

#[test]
fn max() {
    assert_eq!(Vec2::new(4, 7).max(5), Vec2::new(5, 7));
    assert_eq!(Vec2::new(4, 7).max_v(&Vec2::new(6, 5)), Vec2::new(6, 7));
}

#[test]
fn min() {
    assert_eq!(Vec2::new(4, 7).min(5), Vec2::new(4, 5));
    assert_eq!(Vec2::new(4, 7).min_v(&Vec2::new(6, 5)), Vec2::new(4, 5));
}

#[test]
fn clamp() {
    assert_eq!(Vec2::new(3, 6).clamp(4, 8), Vec2::new(4, 6));
}

#[test]
fn perp() {
    let v = Vec2::<isize>::new(4, 6);
    assert_eq!(v.perp(), Vec2::<isize>::new(-6, 4));
}

#[test]
fn neg() {
    let v = Vec2::<isize>::new(5, -8);
    assert_eq!(v.neg(), Vec2::<isize>::new(-5, 8));
}

#[test]
fn eq() {
    let v1 = Vec2::new(2, 2);
    let v2 = Vec2::new(2, 2);

    assert!(v1 == v2);
    assert_eq!(v1, v2);
}

#[test]
fn conv_tuple() {
    let t1 = (3_u8, 5_u8);
    let v = Vec2::from_tuple(t1);

    assert_eq!(t1.0, *v.x());
    assert_eq!(t1.1, *v.y());

    let t2 = v.to_tuple();
    assert_eq!(t1, t2);
}

#[test]
fn conv_array() {
    let a1: [u8; 2] = [8, 5];
    let v = Vec2::from_array(a1);

    assert_eq!(a1[0], *v.x());
    assert_eq!(a1[1], *v.y());

    let a2 = v.to_array();
    assert_eq!(a1, a2);
}

#[test]
fn conv_std_vec() {
    let std_vec1: Vec<u8> = vec![4, 19];
    let v = Vec2::try_from(std_vec1.clone()).unwrap();

    assert_eq!(std_vec1[0], *v.x());
    assert_eq!(std_vec1[1], *v.y());

    let std_vec2 = v.to_vec();
    assert_eq!(std_vec1, std_vec2);
}

#[test]
#[should_panic]
fn conv_std_vec_err() {
    let std_vec: Vec<u8> = vec![8];
    Vec2::try_from(std_vec).unwrap();
}

#[test]
fn debug() {
    let v = Vec2::new(7, 3);

    format!("{:?}", v);
    format!("{:#?}", v);
}

#[test]
fn vec2_perp() {
    let v = Vec2::<isize>::new(4, 6);
    assert_eq!(v.perp(), Vec2::<isize>::new(-6, 4));
}

#[test]
fn vec2_neg() {
    let v = Vec2::<isize>::new(5, -8);
    assert_eq!(v.neg(), Vec2::<isize>::new(-5, 8));
}

#[test]
fn vec2_eq() {
    let v1 = Vec2::<usize>::new(2, 2);
    let v2 = Vec2::<usize>::new(2, 2);

    assert_eq!(v1, v2);
}
