use framecap::hook::{dispatch_chain, HookError, HookOutcome, HookRegistry};

#[test]
fn registration_is_one_time_per_target() {
    let mut reg = HookRegistry::new();
    assert!(reg.register(0x1000, 0x2000).is_ok());
    // The target already has its one registration for the process
    // lifetime.
    assert!(reg.register(0x1000, 0x3000) == Err(HookError::AlreadyRegistered));
    // Another target is independent.
    assert!(reg.register(0x4000, 0x5000).is_ok());
}

#[test]
fn target_is_unmodified_until_enabled() {
    let mut reg = HookRegistry::new();
    reg.register(0x1000, 0x2000).unwrap();
    assert_eq!(reg.route(0x1000), 0x1000);
    reg.enable(0x1000).unwrap();
    assert_eq!(reg.route(0x1000), 0x2000);
    // An unregistered target routes to itself.
    assert_eq!(reg.route(0x9999), 0x9999);
    assert!(reg.enable(0x9999) == Err(HookError::NotRegistered));
}

#[test]
fn first_handled_short_circuits_chain() {
    // A Handled result from the first handler: the second handler and
    // the original function never run.
    let outcomes = vec![HookOutcome::Handled(7), HookOutcome::Handled(9)];
    let d = dispatch_chain(&outcomes);
    assert_eq!(d.consulted, 1);
    assert_eq!(d.value, Some(7));
}

#[test]
fn continue_falls_through_exactly_once() {
    let outcomes = vec![HookOutcome::Continue, HookOutcome::Handled(9)];
    let d = dispatch_chain(&outcomes);
    assert_eq!(d.consulted, 2);
    assert_eq!(d.value, Some(9));

    // Every handler continues: the call reaches the original function,
    // each handler having run exactly once.
    let outcomes = vec![HookOutcome::Continue, HookOutcome::Continue];
    let d = dispatch_chain(&outcomes);
    assert_eq!(d.consulted, 2);
    assert_eq!(d.value, None);
}

#[test]
fn empty_chain_reaches_original() {
    let d = dispatch_chain(&Vec::new());
    assert_eq!(d.consulted, 0);
    assert_eq!(d.value, None);
}
