use firmware_core::handles::HandleRegistry;

#[test]
fn each_resource_claimed_once() {
    let mut registry = HandleRegistry::new(5);
    let led = registry.claim(0).expect("first claim succeeds");
    assert_eq!(led.resource, 0);
    // The handle is already out: a second claim is the boot-time fatal case.
    assert!(registry.claim(0).is_none());
    // Other resources are unaffected.
    let adc = registry.claim(1).expect("other resource still free");
    assert_eq!(adc.resource, 1);
    assert!(registry.claim(1).is_none());
    assert!(registry.claim(0).is_none());
}

#[test]
fn all_resources_start_free() {
    let mut registry = HandleRegistry::new(3);
    for resource in 0..3 {
        assert!(registry.claim(resource).is_some());
    }
    for resource in 0..3 {
        assert!(registry.claim(resource).is_none());
    }
}
