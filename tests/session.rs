use device_bootstrap::model::BootstrapError;
use device_bootstrap::session::{creation_failure, Handle, HandleStack};

#[test]
fn handles_are_acquired_in_fixed_order() {
    let mut stack = HandleStack::new();
    assert_eq!(stack.next_to_acquire(), Some(Handle::Instance));
    stack.acquired(Handle::Instance);
    assert_eq!(stack.next_to_acquire(), Some(Handle::Surface));
    stack.acquired(Handle::Surface);
    assert_eq!(stack.next_to_acquire(), Some(Handle::Device));
    stack.acquired(Handle::Device);
    assert_eq!(stack.next_to_acquire(), None);
}

#[test]
fn teardown_reverses_acquisition() {
    let mut stack = HandleStack::new();
    assert_eq!(stack.teardown_order(), Vec::<Handle>::new());
    stack.acquired(Handle::Instance);
    stack.acquired(Handle::Surface);
    assert_eq!(stack.teardown_order(), vec![Handle::Surface, Handle::Instance]);
    stack.acquired(Handle::Device);
    assert_eq!(stack.teardown_order(), vec![Handle::Device, Handle::Surface, Handle::Instance]);
}

#[test]
fn release_one_at_a_time_newest_first() {
    let mut stack = HandleStack::new();
    stack.acquired(Handle::Instance);
    stack.acquired(Handle::Surface);
    assert_eq!(stack.next_release(), Some(Handle::Surface));
    stack.released();
    assert_eq!(stack.next_release(), Some(Handle::Instance));
    stack.released();
    assert_eq!(stack.next_release(), None);
    assert_eq!(stack.next_to_acquire(), Some(Handle::Instance));
}

#[test]
fn creation_failures_map_to_errors() {
    assert_eq!(creation_failure(Handle::Instance), BootstrapError::ContextCreationFailed);
    assert_eq!(creation_failure(Handle::Surface), BootstrapError::SurfaceCreationFailed);
    assert_eq!(creation_failure(Handle::Device), BootstrapError::ContextCreationFailed);
}
