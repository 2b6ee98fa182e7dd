use ecs::matrix::StaticMatrix;

#[test]
fn test_static_matrix() {
    let a = StaticMatrix::<i32, 2, 2>::new([[1, 2], [3, 4]]);
    let b = StaticMatrix::<i32, 2, 2>::new([[5, 6], [7, 8]]);
    let c = a.add(&b);
    assert_eq!(c, StaticMatrix::new([[6, 8], [10, 12]]));
    let d = a.sub(&b);
    assert_eq!(d, StaticMatrix::new([[-4, -4], [-4, -4]]));
    let e = a.dot(b);
    assert_eq!(e, StaticMatrix::new([[19, 22], [43, 50]]));
    let f = a.scale(2);
    assert_eq!(f, StaticMatrix::new([[2, 4], [6, 8]]));
    let g = a.transpose();
    assert_eq!(g, StaticMatrix::new([[1, 3], [2, 4]]));
}

#[test]
fn test_different_sized_matric_mul() {
    let a = StaticMatrix::<i32, 2, 2>::new([[1, 2], [3, 4]]);
    let b = StaticMatrix::<i32, 2, 3>::new([[5, 6, 7], [8, 9, 10]]);
    let c = a.dot(b);
    assert_eq!(c, StaticMatrix::new([[21, 24, 27], [47, 54, 61]]));
}

#[test]
fn matrix_get_set_and_rows() {
    let mut m = StaticMatrix::<i64, 2, 3>::new([[1, 2, 3], [4, 5, 6]]);
    assert_eq!(*m.get(0, 0), 1);
    assert_eq!(*m.get(1, 2), 6);
    assert_eq!(*m.row(1), [4, 5, 6]);
    m.set(0, 1, 9);
    assert_eq!(*m.get(0, 1), 9);
    assert_eq!(*m.get(0, 0), 1);
    assert_eq!(*m.get(1, 1), 5);
}

#[test]
fn matrix_identity_is_zero_filled() {
    let m = StaticMatrix::<u32, 2, 2>::identity();
    for i in 0..2 {
        for j in 0..2 {
            assert_eq!(*m.get(i, j), 0);
        }
    }
}

#[test]
fn matrix_arithmetic_wraps_at_the_width() {
    let a = StaticMatrix::<u8, 1, 1>::new([[200]]);
    let b = StaticMatrix::<u8, 1, 1>::new([[100]]);
    let c = a.add(&b);
    assert_eq!(*c.get(0, 0), 44);
    let d = b.sub(&a);
    assert_eq!(*d.get(0, 0), 156);
}
