//! The observer registry and its dispatch plans.

use php_ext_bridge::observer::DiagnosticEvent;
use php_ext_bridge::observer::ObserverRegistry;

fn sample_event() -> DiagnosticEvent {
    DiagnosticEvent {
        error_type: 2,
        file: b"script.php".to_vec(),
        line: 14,
        message: b"undefined variable".to_vec(),
    }
}

#[test]
fn hook_installs_on_first_registration_only() {
    let mut registry = ObserverRegistry::new();
    assert!(registry.register_error_observer(1));
    assert!(!registry.register_error_observer(2));
    assert!(!registry.register_error_observer(3));
}

#[test]
fn dispatch_reaches_all_listeners_in_registration_order() {
    let mut registry = ObserverRegistry::new();
    registry.register_error_observer(10);
    registry.register_error_observer(20);
    registry.register_error_observer(30);
    let plan = registry.error_observer_dispatcher(sample_event());
    assert_eq!(plan.order, vec![10, 20, 30]);
    assert_eq!(plan.event, sample_event());
}

#[test]
fn dispatch_on_an_empty_registry_is_a_no_op() {
    let registry = ObserverRegistry::new();
    let plan = registry.error_observer_dispatcher(sample_event());
    assert!(plan.order.is_empty());
}

#[test]
fn listeners_accumulate_and_are_never_removed() {
    let mut registry = ObserverRegistry::new();
    for listener in 0..5u64 {
        registry.register_error_observer(listener);
    }
    assert_eq!(registry.listener_count(), 5);
    let plan = registry.error_observer_dispatcher(sample_event());
    assert_eq!(plan.order, vec![0, 1, 2, 3, 4]);
}

#[test]
fn duplicate_listener_tokens_are_invoked_once_each() {
    let mut registry = ObserverRegistry::new();
    registry.register_error_observer(7);
    registry.register_error_observer(7);
    let plan = registry.error_observer_dispatcher(sample_event());
    assert_eq!(plan.order, vec![7, 7]);
}
