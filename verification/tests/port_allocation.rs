use sidecar_supervisor::port::{
    BindResult, PortAllocator, PortOutcome, PortStep, PORT_ATTEMPTS,
};

/// An allocator that has taken the given answers of the hint source, and the
/// step that it owes then.
fn scripted(hints: &[Option<u16>]) -> (PortAllocator, Option<PortStep>) {
    let mut allocator = PortAllocator::new();
    let mut last = allocator.owed_step();
    for hint in hints {
        last = allocator.on_hint(*hint);
    }
    (allocator, last)
}

#[test]
fn port_allocator_begins_with_a_bind_request() {
    assert_eq!(PORT_ATTEMPTS, 10);
    let (allocator, step) = PortAllocator::begin();
    assert!(matches!(step, PortStep::TryBind { .. }));
    assert_eq!(allocator.owed_step(), Some(step));
    assert_eq!(allocator.outcome(), None);
    assert_eq!(PortAllocator::new().owed_step(), None);
}

#[test]
fn port_allocator_chooses_a_hint_that_was_bound() {
    let (mut allocator, step) = scripted(&[Some(18080)]);
    assert_eq!(step, Some(PortStep::TryBind { port: 18080 }));
    let step = allocator.on_bind(BindResult::Bound(18080));
    assert_eq!(step, Some(PortStep::Finished(PortOutcome::Chosen(18080))));
    assert_eq!(allocator.outcome(), Some(PortOutcome::Chosen(18080)));
    let again = allocator.advance(BindResult::Failed);
    assert_eq!(again, PortStep::Finished(PortOutcome::Chosen(18080)));
}

#[test]
fn port_allocator_asks_for_the_next_hint_when_one_cannot_be_bound() {
    let (mut allocator, _) = scripted(&[None, Some(18080)]);
    assert_eq!(allocator.on_bind(BindResult::Failed), None);
    assert_eq!(allocator.on_hint(Some(18081)), Some(PortStep::TryBind { port: 18081 }));
    assert_eq!(
        allocator.on_bind(BindResult::Bound(18081)),
        Some(PortStep::Finished(PortOutcome::Chosen(18081)))
    );
}

#[test]
fn port_allocator_tries_again_when_a_hint_cannot_be_bound() {
    let (mut allocator, _) = scripted(&[Some(18080)]);
    let step = allocator.advance(BindResult::Failed);
    assert!(matches!(step, PortStep::TryBind { .. }));
    assert_eq!(allocator.outcome(), None);
}

#[test]
fn port_allocator_falls_back_to_the_system_after_ten_hints() {
    let (mut allocator, last) = scripted(&[None; 9]);
    assert_eq!(last, None);
    assert_eq!(allocator.on_hint(None), Some(PortStep::TryBind { port: 0 }));
    let step = allocator.advance(BindResult::Bound(49152));
    assert_eq!(step, PortStep::Finished(PortOutcome::Chosen(49152)));
}

#[test]
fn port_allocator_verifies_ten_hints_and_no_more() {
    let mut allocator = PortAllocator::new();
    let mut verified = 0;
    let mut step = allocator.owed_step();
    while step.is_none() {
        step = allocator.on_hint(Some(20000 + verified));
        assert_eq!(step, Some(PortStep::TryBind { port: 20000 + verified }));
        verified += 1;
        step = allocator.on_bind(BindResult::Failed);
    }
    assert_eq!(verified, 10);
    assert_eq!(step, Some(PortStep::TryBind { port: 0 }));
    assert_eq!(
        allocator.on_bind(BindResult::Bound(50000)),
        Some(PortStep::Finished(PortOutcome::Chosen(50000)))
    );
}

#[test]
fn port_allocator_without_any_port_is_fatal() {
    let (mut allocator, _) = scripted(&[None; 10]);
    let step = allocator.advance(BindResult::Failed);
    assert_eq!(step, PortStep::Finished(PortOutcome::Fatal));
    assert_eq!(allocator.outcome(), Some(PortOutcome::Fatal));
}

#[test]
fn port_allocator_is_not_reopened_by_a_hint() {
    // While the bind of port 0 is awaited.
    let (mut allocator, _) = scripted(&[None; 10]);
    assert_eq!(allocator.on_hint(Some(18080)), Some(PortStep::TryBind { port: 0 }));
    assert_eq!(allocator.on_hint(None), Some(PortStep::TryBind { port: 0 }));
    // While a hinted port is verified.
    let (mut allocator, _) = scripted(&[Some(18080)]);
    assert_eq!(allocator.on_hint(Some(18081)), Some(PortStep::TryBind { port: 18080 }));
    // When the allocation has ended.
    allocator.on_bind(BindResult::Bound(18080));
    let ended = Some(PortStep::Finished(PortOutcome::Chosen(18080)));
    assert_eq!(allocator.on_hint(Some(18082)), ended);
    assert_eq!(allocator.on_bind(BindResult::Failed), ended);
    assert_eq!(allocator.outcome(), Some(PortOutcome::Chosen(18080)));
    let (mut fatal, _) = scripted(&[None; 10]);
    fatal.on_bind(BindResult::Failed);
    assert_eq!(
        fatal.on_hint(Some(18080)),
        Some(PortStep::Finished(PortOutcome::Fatal))
    );
}

#[test]
fn port_allocator_gives_up_hints_after_ten_failed_binds() {
    let (mut allocator, mut step) = PortAllocator::begin();
    let mut binds = 0;
    let outcome = loop {
        match step {
            PortStep::TryBind { port: 0 } => {
                step = allocator.advance(BindResult::Bound(50000));
            }
            PortStep::TryBind { .. } => {
                binds += 1;
                step = allocator.advance(BindResult::Failed);
            }
            PortStep::Finished(outcome) => break outcome,
        }
    };
    assert!(binds <= 10);
    assert_eq!(outcome, PortOutcome::Chosen(50000));
}
