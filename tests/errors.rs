use dime::error::{DependencyKey, ResolutionError};

#[test]
fn error_kinds() {
    let key = DependencyKey::new(3, "Logger");
    let other_key = DependencyKey::new(4, "Service");
    let err = ResolutionError::not_defined(key);
    assert!(err.is_not_defined());
    assert!(err.is_not_defined_for(&key));
    assert!(!err.is_not_defined_for(&other_key));
    assert!(!err.is_other());
    let other = ResolutionError::other("boom");
    assert!(other.is_other());
    assert!(!other.is_not_defined());
    assert!(!other.is_not_defined_for(&key));
    assert!(matches!(other.duplicate(), ResolutionError::Other(ref m) if m == "boom"));
    assert!(ResolutionError::Gone.is_gone());
    assert!(!err.is_gone());
}

#[test]
fn error_messages() {
    let key = DependencyKey::new(3, "Logger");
    assert_eq!(ResolutionError::not_defined(key).message(), "type `Logger` is not defined");
    assert_eq!(ResolutionError::other("disk full").message(), "disk full");
    assert_eq!(ResolutionError::Gone.message(), "the injector is gone");
}
