use std::sync::Arc;

use dime::erased::{Erasable, Erased};

#[test]
fn test_downcast() {
    let erased = Erased::new("Hello".to_string());
    let got = erased.downcast::<String>().unwrap();
    assert_eq!(got, "Hello");
}

#[test]
fn test_downcast_err() {
    let erased = Erased::new("Hello".to_string());
    let err = erased.downcast::<i32>().unwrap_err();

    let got = err.downcast::<String>().unwrap();
    assert_eq!(got, "Hello");
}

#[test]
fn test_downcast_ref() {
    let erased = Erased::new("Hello".to_string());
    let got = erased.downcast_ref::<String>().unwrap();
    assert_eq!(got, "Hello");
}

#[test]
fn test_downcast_ref_err() {
    let erased = Erased::new("Hello".to_string());
    assert!(erased.downcast_ref::<i32>().is_none());
}

#[test]
fn test_downcast_mut() {
    let mut erased = Erased::new("Hello".to_string());
    erased
        .downcast_mut::<String>()
        .unwrap()
        .push_str(", world!");
    let got = erased.downcast_ref::<String>().unwrap();
    assert_eq!(got, "Hello, world!");
}

#[test]
fn test_downcast_mut_err() {
    let mut erased = Erased::new("Hello".to_string());
    assert!(erased.downcast_mut::<i32>().is_none());
}

#[test]
fn test_type_id() {
    let erased = Erased::new("Hello".to_string());
    assert_eq!(erased.type_id(), <String as Erasable>::type_tag());
}

#[test]
fn test_clone() {
    let a = Arc::new(100);
    let erased = Erased::new(Arc::clone(&a));
    assert_eq!(Arc::strong_count(&a), 2);

    let cloned = erased.clone();
    assert_eq!(Arc::strong_count(&a), 3);

    drop(cloned);
    drop(erased);
}

#[test]
fn test_drop() {
    let a = Arc::new(100);
    let erased = Erased::new(Arc::clone(&a));
    assert_eq!(Arc::strong_count(&a), 2);

    drop(erased);
    assert_eq!(Arc::strong_count(&a), 1);
}

#[test]
fn downcast_keeps_each_type_apart() {
    assert_eq!(Erased::new(7i64).downcast::<i64>().unwrap(), 7);
    assert!(Erased::new(7i64).downcast::<i32>().is_err());
    assert!(Erased::new(7u64).downcast::<i64>().is_err());
    assert_eq!(Erased::new(true).downcast::<bool>().unwrap(), true);
    assert!(Erased::new("static").downcast::<String>().is_err());
    assert_eq!(Erased::new("static").downcast::<&'static str>().unwrap(), "static");
}

#[test]
fn duplicate_holds_an_equal_value() {
    let erased = Erased::new("Hello".to_string());
    let copy = erased.duplicate();
    assert_eq!(copy.downcast::<String>().unwrap(), "Hello");
    assert_eq!(erased.downcast::<String>().unwrap(), "Hello");
}
