use wasm_guest::{onBlockchainInit, Instance};

#[test]
fn fresh_instance_holds_zero() {
    let instance = Instance::new();
    assert_eq!(instance.global(), 0);
}

#[test]
fn start_stores_two() {
    let mut instance = Instance::new();
    instance.start();
    assert_eq!(instance.global(), 2);
}

#[test]
fn start_greets() {
    let mut instance = Instance::new();
    assert_eq!(instance.start(), "Hello, world!");
}

#[test]
fn start_again_keeps_two_and_greets_again() {
    let mut instance = Instance::new();
    instance.start();
    assert_eq!(instance.start(), "Hello, world!");
    assert_eq!(instance.global(), 2);
}

#[test]
fn callback_before_start_shows_zero() {
    let instance = Instance::new();
    let line = onBlockchainInit(&instance);
    assert!(line.contains('0'));
    assert_eq!(line, "Hello, world blockchain! 0");
}

#[test]
fn callback_after_start_shows_two() {
    let mut instance = Instance::new();
    instance.start();
    let line = onBlockchainInit(&instance);
    assert!(line.contains('2'));
    assert_eq!(line, "Hello, world blockchain! 2");
}

#[test]
fn callback_does_not_write() {
    let instance = Instance::new();
    for _ in 0..5 {
        onBlockchainInit(&instance);
        assert_eq!(instance.global(), 0);
    }
}

#[test]
fn global_stays_two_through_callbacks() {
    let mut instance = Instance::new();
    instance.start();
    for _ in 0..100 {
        onBlockchainInit(&instance);
        assert_eq!(instance.global(), 2);
    }
}

#[test]
fn callback_repeats_its_line() {
    let mut instance = Instance::new();
    let first = onBlockchainInit(&instance);
    for _ in 0..10 {
        assert_eq!(onBlockchainInit(&instance), first);
    }
    instance.start();
    let first_after_start = onBlockchainInit(&instance);
    assert_ne!(first_after_start, first);
    for _ in 0..10 {
        assert_eq!(onBlockchainInit(&instance), first_after_start);
    }
}

#[test]
fn instantiate_start_then_callback() {
    let mut instance = Instance::new();
    let greeting = instance.start();
    assert_eq!(greeting, "Hello, world!");
    let line = onBlockchainInit(&instance);
    assert_eq!(line, "Hello, world blockchain! 2");
}

#[test]
fn callback_start_callback() {
    let mut instance = Instance::new();
    let mut lines = vec![onBlockchainInit(&instance)];
    lines.push(instance.start());
    lines.push(onBlockchainInit(&instance));
    assert_eq!(
        lines,
        vec![
            "Hello, world blockchain! 0",
            "Hello, world!",
            "Hello, world blockchain! 2",
        ]
    );
}

#[test]
fn instances_do_not_share_global() {
    let mut started = Instance::new();
    let fresh = Instance::new();
    started.start();
    assert_eq!(started.global(), 2);
    assert_eq!(fresh.global(), 0);
    assert_eq!(onBlockchainInit(&fresh), "Hello, world blockchain! 0");
    assert_eq!(onBlockchainInit(&started), "Hello, world blockchain! 2");
}
