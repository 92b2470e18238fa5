use origin_sdk::correlator::RequestCorrelator;

#[test]
fn test_register_then_resolve_delivers_slot() {
    let mut correlator: RequestCorrelator<&str> = RequestCorrelator::new();
    let id = correlator.register("the waiting caller");
    assert_eq!(id, 1);
    assert!(correlator.is_pending(id));

    // Resolving the registered ID hands back exactly the registered slot.
    assert_eq!(correlator.resolve(id), Some("the waiting caller"));
    assert!(!correlator.is_pending(id));

    // A second resolve for the same ID is a no-op.
    assert_eq!(correlator.resolve(id), None);
}

#[test]
fn test_expire_then_late_resolve_is_noop() {
    let mut correlator: RequestCorrelator<u32> = RequestCorrelator::new();
    let id = correlator.register(7);

    // The caller's timeout removes the slot without fulfilling it.
    correlator.expire(id);
    assert!(!correlator.is_pending(id));

    // The response arriving late finds no slot: dropped, nothing resurrected.
    assert_eq!(correlator.resolve(id), None);
    assert!(!correlator.is_pending(id));
}

#[test]
fn test_ids_are_monotonic_and_independent() {
    let mut correlator: RequestCorrelator<u32> = RequestCorrelator::new();
    let a = correlator.register(10);
    let b = correlator.register(20);
    let c = correlator.register(30);
    assert_eq!((a, b, c), (1, 2, 3));

    // Out-of-order resolution: correlation is by ID, not arrival order.
    assert_eq!(correlator.resolve(b), Some(20));
    assert_eq!(correlator.resolve(a), Some(10));
    assert_eq!(correlator.resolve(c), Some(30));
}

#[test]
fn test_resolve_unknown_id_is_noop() {
    let mut correlator: RequestCorrelator<u32> = RequestCorrelator::new();
    correlator.register(1);
    assert_eq!(correlator.resolve(99), None);
    assert!(correlator.is_pending(1));
}
