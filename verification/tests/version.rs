use claw_core::version;

#[test]
fn version_is_set() {
    assert!(!version().is_empty());
}
