use framecap::registry::HandleRegistry;

#[test]
fn handles_resolve_between_creation_and_destruction() {
    let mut queues = HandleRegistry::new();
    assert_eq!(queues.resolve(0x10), None);
    // Creation interception: the queue handle resolves to its device.
    queues.record(0x10, 0xD1);
    queues.record(0x11, 0xD1);
    queues.record(0x20, 0xD2);
    assert_eq!(queues.resolve(0x10), Some(0xD1));
    assert_eq!(queues.resolve(0x20), Some(0xD2));
    // Destruction interception: the entry goes away, and only it.
    assert_eq!(queues.forget(0x10), Some(0xD1));
    assert_eq!(queues.resolve(0x10), None);
    assert_eq!(queues.resolve(0x11), Some(0xD1));
    assert_eq!(queues.forget(0x10), None);
}

#[test]
fn rebinding_a_handle_reports_the_displaced_context() {
    let mut reg = HandleRegistry::new();
    reg.record(7, 100);
    reg.record(7, 200);
    assert_eq!(reg.resolve(7), Some(200));
    assert_eq!(reg.forget(7), Some(200));
    assert_eq!(reg.resolve(7), None);
}
