//! The exception bridge, observed through a test double of the host: the
//! returned action is what the bridge would have the host perform, so a
//! raise primitive is "invoked" exactly when the matching action comes
//! back.

use php_ext_bridge::Error;
use php_ext_bridge::exception::BaseExceptionClass;
use php_ext_bridge::exception::ClassEntry;
use php_ext_bridge::exception::PhpException;
use php_ext_bridge::exception::RegisteredClass;
use php_ext_bridge::exception::ThrowAction;
use php_ext_bridge::exception::Zval;
use php_ext_bridge::exception::CLASS_FLAG_ABSTRACT;
use php_ext_bridge::exception::CLASS_FLAG_INTERFACE;
use php_ext_bridge::exception::is_valid_throw_target;
use php_ext_bridge::exception::throw;
use php_ext_bridge::exception::throw_object;
use php_ext_bridge::exception::throw_with_code;

/// A recording double for the host's two raise primitives.
#[derive(Default)]
struct HostDouble {
    raised_by_class: Vec<(ClassEntry, i32, Vec<u8>, Vec<u8>)>,
    raised_objects: Vec<Zval>,
}

impl HostDouble {
    fn perform(&mut self, action: ThrowAction) {
        match action {
            ThrowAction::RaiseByClass { class, code, format, message } => {
                self.raised_by_class.push((class, code, format, message));
            }
            ThrowAction::RaiseObject { object } => {
                self.raised_objects.push(object);
            }
        }
    }
}

#[test]
fn throwing_at_an_interface_fails_without_any_host_call() {
    let mut host = HostDouble::default();
    let iface = ClassEntry { id: 4, flags: CLASS_FLAG_INTERFACE };
    let r = throw_with_code(iface, 1, b"boom");
    match r {
        Ok(action) => host.perform(action),
        Err(e) => assert_eq!(e, Error::InvalidExceptionTarget { flags: CLASS_FLAG_INTERFACE }),
    }
    assert!(host.raised_by_class.is_empty());
    assert!(host.raised_objects.is_empty());
}

#[test]
fn throwing_at_an_abstract_class_fails_without_any_host_call() {
    let mut host = HostDouble::default();
    let abstract_class = ClassEntry { id: 5, flags: CLASS_FLAG_ABSTRACT };
    let r = throw_with_code(abstract_class, 0, b"boom");
    match r {
        Ok(action) => host.perform(action),
        Err(e) => assert_eq!(e, Error::InvalidExceptionTarget { flags: CLASS_FLAG_ABSTRACT }),
    }
    assert!(host.raised_by_class.is_empty());
    assert!(host.raised_objects.is_empty());
}

#[test]
fn throwing_at_a_concrete_class_raises_by_class_with_the_fixed_token() {
    let mut host = HostDouble::default();
    let class = ClassEntry { id: 3, flags: 0 };
    let action = throw_with_code(class, 42, b"it broke").unwrap();
    host.perform(action);
    assert_eq!(host.raised_by_class.len(), 1);
    let (c, code, format, message) = &host.raised_by_class[0];
    assert_eq!(*c, class);
    assert_eq!(*code, 42);
    assert_eq!(format, &b"%s".to_vec());
    assert_eq!(message, &b"it broke".to_vec());
    assert!(host.raised_objects.is_empty());
}

#[test]
fn throw_uses_code_zero() {
    let class = ClassEntry { id: 3, flags: 0 };
    let action = throw(class, b"plain").unwrap();
    match action {
        ThrowAction::RaiseByClass { code, .. } => assert_eq!(code, 0),
        ThrowAction::RaiseObject { .. } => panic!("expected a raise-by-class action"),
    }
}

#[test]
fn message_with_terminator_fails_the_conversion() {
    let class = ClassEntry { id: 3, flags: 0 };
    let r = throw_with_code(class, 0, b"bad\0message");
    assert_eq!(r.unwrap_err(), Error::StringConversionFailure);
}

#[test]
fn target_validation_precedes_message_validation() {
    let iface = ClassEntry { id: 4, flags: CLASS_FLAG_INTERFACE };
    let r = throw_with_code(iface, 0, b"bad\0message");
    assert_eq!(
        r.unwrap_err(),
        Error::InvalidExceptionTarget { flags: CLASS_FLAG_INTERFACE }
    );
}

#[test]
fn pre_attached_object_always_raises_the_object() {
    let mut host = HostDouble::default();
    let iface = ClassEntry { id: 4, flags: CLASS_FLAG_INTERFACE };
    let mut descriptor = PhpException::new(b"ig\0nored".to_vec(), -7, iface);
    descriptor.set_object(Some(Zval { handle: 99 }));
    let action = descriptor.throw().unwrap();
    host.perform(action);
    assert_eq!(host.raised_objects, vec![Zval { handle: 99 }]);
    assert!(host.raised_by_class.is_empty());
}

#[test]
fn throw_object_never_raises_by_class() {
    let mut host = HostDouble::default();
    let action = throw_object(Zval { handle: 12 }).unwrap();
    host.perform(action);
    assert_eq!(host.raised_objects, vec![Zval { handle: 12 }]);
    assert!(host.raised_by_class.is_empty());
}

#[test]
fn descriptor_without_object_raises_by_class() {
    let mut host = HostDouble::default();
    let class = ClassEntry { id: 8, flags: 0 };
    let descriptor = PhpException::new(b"stateful".to_vec(), 3, class);
    let action = descriptor.throw().unwrap();
    host.perform(action);
    assert_eq!(host.raised_by_class.len(), 1);
    let (c, code, _, message) = &host.raised_by_class[0];
    assert_eq!(*c, class);
    assert_eq!(*code, 3);
    assert_eq!(message, &b"stateful".to_vec());
}

#[test]
fn default_descriptor_targets_the_base_exception_class() {
    let descriptor = PhpException::default(b"oops".to_vec());
    let action = descriptor.throw().unwrap();
    match action {
        ThrowAction::RaiseByClass { class, code, .. } => {
            assert_eq!(class, BaseExceptionClass::class_entry());
            assert_eq!(code, 0);
        }
        ThrowAction::RaiseObject { .. } => panic!("expected a raise-by-class action"),
    }
}

#[test]
fn from_class_targets_the_registered_entry() {
    let descriptor = PhpException::from_class::<BaseExceptionClass>(b"typed".to_vec());
    let action = descriptor.throw().unwrap();
    match action {
        ThrowAction::RaiseByClass { class, .. } => {
            assert_eq!(class, ClassEntry { id: 0, flags: 0 });
        }
        ThrowAction::RaiseObject { .. } => panic!("expected a raise-by-class action"),
    }
}

#[test]
fn detaching_the_object_restores_raise_by_class() {
    let class = ClassEntry { id: 2, flags: 0 };
    let mut descriptor = PhpException::new(b"msg".to_vec(), 1, class);
    descriptor.set_object(Some(Zval { handle: 5 }));
    descriptor.set_object(None);
    let action = descriptor.throw().unwrap();
    assert!(matches!(action, ThrowAction::RaiseByClass { .. }));
}

#[test]
fn into_message_hands_back_the_staged_bytes() {
    let descriptor = PhpException::default(b"kept".to_vec());
    assert_eq!(descriptor.into_message(), b"kept".to_vec());
}

#[test]
fn validity_test_matches_throw_behavior() {
    let concrete = ClassEntry { id: 1, flags: 0 };
    let iface = ClassEntry { id: 2, flags: CLASS_FLAG_INTERFACE };
    let abstract_class = ClassEntry { id: 3, flags: CLASS_FLAG_ABSTRACT };
    assert!(is_valid_throw_target(&concrete));
    assert!(!is_valid_throw_target(&iface));
    assert!(!is_valid_throw_target(&abstract_class));
    assert!(throw(concrete, b"m").is_ok());
    assert!(throw(iface, b"m").is_err());
    assert!(throw(abstract_class, b"m").is_err());
}
