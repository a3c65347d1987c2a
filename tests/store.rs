use dime::erased::{Erased, TypeTag};
use dime::store::Store;

#[test]
fn test_insert_and_get() {
    let mut store = Store::new();
    assert!(store.insert("owned".to_string()).is_none());
    assert!(store.insert("borrowed").is_none());
    let got: &String = store.get().unwrap();
    assert_eq!(got, "owned");
    assert!(store.get::<i32>().is_none());
}

#[test]
fn test_insert_and_replace() {
    let mut store = Store::new();
    assert!(store.insert("owned".to_string()).is_none());
    let got = store.insert("owned2".to_string()).unwrap();
    assert_eq!(got, "owned");
    let got: &String = store.get().unwrap();
    assert_eq!(got, "owned2");
}

#[test]
fn test_remove() {
    let mut store = Store::new();
    assert!(store.insert("owned".to_string()).is_none());
    let got: String = store.remove().unwrap();
    assert_eq!(got, "owned");
    assert!(store.get::<String>().is_none());
}

#[test]
fn store_by_tag() {
    let mut store = Store::new();
    let (tag, previous) = store.insert_erased(Erased::new(5u64));
    assert_eq!(tag, TypeTag::U64);
    assert!(previous.is_none());
    assert!(store.contains_id(TypeTag::U64));
    assert!(store.contains::<u64>());
    assert!(!store.contains::<i64>());
    assert_eq!(store.get_by_id(TypeTag::U64).unwrap().downcast_ref::<u64>(), Some(&5));
    let removed = store.remove_by_id(TypeTag::U64).unwrap();
    assert_eq!(removed.downcast::<u64>().unwrap(), 5);
    assert!(!store.contains_id(TypeTag::U64));
    assert!(store.remove::<u64>().is_none());
}

#[test]
fn store_get_mut_writes_through() {
    let mut store = Store::new();
    store.insert(10i32);
    *store.get_mut::<i32>().unwrap() += 5;
    assert_eq!(store.get::<i32>(), Some(&15));
    assert!(store.get_mut::<i64>().is_none());
    let slot = store.get_mut_by_id(TypeTag::I32).unwrap();
    *slot = Erased::new(1i32);
    assert_eq!(store.get::<i32>(), Some(&1));
}
