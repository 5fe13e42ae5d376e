use acdm::scratch::ScratchRegistry;

#[test]
fn created_scratch_handles_are_fresh_and_live() {
    let mut reg = ScratchRegistry::new();
    let a = reg.create_scratch();
    let b = reg.create_scratch();
    assert_ne!(a, b);
    assert!(reg.is_live(a));
    assert!(reg.is_live(b));
}

#[test]
fn releasing_removes_only_the_released_handle() {
    let mut reg = ScratchRegistry::new();
    let a = reg.create_scratch();
    let b = reg.create_scratch();
    reg.release_scratch(a);
    assert!(!reg.is_live(a));
    assert!(reg.is_live(b));
}

#[test]
fn releasing_an_unknown_handle_is_harmless() {
    let mut reg = ScratchRegistry::new();
    let a = reg.create_scratch();
    reg.release_scratch(999);
    assert!(reg.is_live(a));
    reg.release_scratch(a);
    reg.release_scratch(a);
    assert!(!reg.is_live(a));
}
