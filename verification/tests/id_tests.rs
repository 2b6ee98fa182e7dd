use ecs::Id;

#[test]
fn id_bit_manip() {
    let mut id: Id = Id::new(1);
    println!("{:b}", id.raw());
    assert!(id.is_set(0));
    println!("{:b}", id.raw());
    id.unset(0);
    assert!(!id.is_set(0));
    id.set(4);
    println!("{:b}", id.raw());
    assert!(id.is_set(4));
}

#[test]
fn id_bits_are_independent() {
    let mut id = Id::new(0b101);
    assert!(id.is_set(0));
    assert!(id.is_unset(1));
    assert!(id.is_set(2));
    id.set(1);
    assert_eq!(id.raw(), 0b111);
    assert!(id.is_set(0) && id.is_set(1) && id.is_set(2));
    id.unset(2);
    assert_eq!(id.raw(), 0b011);
    assert!(id.is_set(0) && id.is_set(1) && id.is_unset(2));
    id.set(63);
    assert!(id.is_set(63));
    assert_eq!(id.raw(), (1u64 << 63) | 0b011);
}

#[test]
fn id_equality_and_raw_round_trip() {
    let a = Id::new(7);
    let b = Id::new(7);
    let c = Id::new(8);
    assert_eq!(a, b);
    assert_ne!(a, c);
    assert_eq!(a.raw(), 7);
}
