use r2r_tracing::TracingId;

fn is_send<T: Send>(_: &T) -> bool {
    true
}

#[test]
fn identity_keeps_the_address() {
    assert_eq!(TracingId::new(0xAA).address(), 0xAA);
    assert_eq!(TracingId::new(0).address(), 0);
    assert_eq!(TracingId::new(usize::MAX).address(), usize::MAX);
}

#[test]
fn same_address_is_same_entity() {
    let a = TracingId::new(0x1000);
    let b = TracingId::new(0x1000);
    let c = TracingId::new(0x1008);
    assert!(a.same_entity(&b));
    assert!(b.same_entity(&a));
    assert!(!a.same_entity(&c));
    assert_eq!(a, b);
    assert_ne!(a, c);
}

#[test]
fn identity_is_copied_not_moved() {
    let a = TracingId::new(7);
    let b = a;
    assert!(a.same_entity(&b));
}

#[test]
fn identity_may_move_to_another_thread() {
    let id = TracingId::new(0xBEEF);
    assert!(is_send(&id));
    let moved = move || id.address();
    assert!(is_send(&moved));
    assert_eq!(moved(), 0xBEEF);
}
