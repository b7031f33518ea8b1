use orbitalos_backend::clock::Timestamp;

#[test]
fn instants_are_ordered_by_seconds_then_nanoseconds() {
    let a = Timestamp::new(10, 999_999_999);
    let b = Timestamp::new(11, 0);
    let c = Timestamp::new(11, 1);
    assert!(a.is_before(&b));
    assert!(b.is_before(&c));
    assert!(a.is_at_or_before(&c));
    assert!(!c.is_at_or_before(&a));
    assert!(!b.is_before(&a));
}

#[test]
fn an_instant_is_at_but_not_before_itself() {
    let a = Timestamp::new(-5, 7);
    assert!(a.is_at_or_before(&a));
    assert!(!a.is_before(&a));
}

#[test]
fn negative_seconds_come_before_the_epoch() {
    assert!(Timestamp::new(-1, 999_999_999).is_before(&Timestamp::new(0, 0)));
}
