use ecs::vector::Vector;

#[test]
fn test_vector() {
    let a = Vector::new([1, 2, 3]);
    let b = Vector::new([4, 5, 6]);

    let c = a.add(&b);
    assert_eq!(*c.get(0), 5);
    assert_eq!(*c.get(1), 7);
    assert_eq!(*c.get(2), 9);

    let d = a.mul(&b);
    assert_eq!(*d.get(0), 4);
    assert_eq!(*d.get(1), 10);
    assert_eq!(*d.get(2), 18);
}

#[test]
fn vector_get_set_and_scalars() {
    let mut v = Vector::<i32, 3>::new([1, 2, 3]);
    v.set(1, 7);
    assert_eq!(*v.get(0), 1);
    assert_eq!(*v.get(1), 7);
    assert_eq!(*v.get(2), 3);
    let w = v.add_scalar(10);
    assert_eq!((*w.get(0), *w.get(1), *w.get(2)), (11, 17, 13));
    let s = v.scale(3);
    assert_eq!((*s.get(0), *s.get(1), *s.get(2)), (3, 21, 9));
}
