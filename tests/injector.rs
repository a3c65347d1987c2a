use dime::error::{DependencyKey, ResolutionError};
use dime::erased::Erased;
use dime::state::{Lifecycle, State};
use dime::state_map::{StateAction, StateMap};
use dime::watch::Watch as _;

fn address() -> DependencyKey {
    DependencyKey::new(1, "Address")
}

fn database() -> DependencyKey {
    DependencyKey::new(2, "Database")
}

fn text(value: &str) -> Erased {
    Erased::new(value.to_string())
}

fn as_text(value: Erased) -> String {
    value.downcast::<String>().unwrap()
}

#[test]
fn never_defined_key_reads_not_defined() {
    let mut map = StateMap::new();
    let mut watch = map.watch(database());
    assert!(watch.current(&map).unwrap_err().is_not_defined_for(&database()));
    let waited = watch.poll_wait(&map).unwrap().unwrap_err();
    assert!(waited.is_not_defined_for(&database()));
    assert!(watch.current_optional(&map).unwrap().is_none());
    assert!(watch.poll_wait_optional(&map).unwrap().unwrap().is_none());
    assert!(watch.poll_wait_always(&map).is_none());
    assert!(watch.poll_wait_ok(&map).is_none());
}

#[test]
fn define_twice_counts_one_transition() {
    let mut map = StateMap::new();
    assert_eq!(map.version(&address()), 0);
    map.define(address());
    assert_eq!(map.version(&address()), 1);
    map.define(address());
    assert_eq!(map.version(&address()), 1);
    assert_eq!(map.len(), 1);
    let mut watch = map.watch(address());
    assert!(watch.poll_wait(&map).is_none());
    assert!(watch.current(&map).unwrap_err().is_not_defined());
    assert!(watch.current_optional(&map).unwrap().is_none());
}

#[test]
fn define_after_inject_changes_nothing() {
    let mut map = StateMap::new();
    map.inject(address(), Ok(text("foo")));
    map.define(address());
    assert_eq!(map.version(&address()), 1);
    let mut watch = map.watch(address());
    assert_eq!(as_text(watch.current(&map).unwrap()), "foo");
}

#[test]
fn changed_reports_increasing_versions() {
    let mut map = StateMap::new();
    let mut watch = map.watch(address());
    assert_eq!(watch.seen(), 0);
    assert!(!watch.has_changed(&map));
    assert!(!watch.poll_changed(&map));
    map.define(address());
    map.inject(address(), Ok(text("foo")));
    assert!(watch.has_changed(&map));
    assert!(watch.poll_changed(&map));
    assert_eq!(watch.seen(), 2);
    assert!(!watch.poll_changed(&map));
    map.inject(address(), Ok(text("foo")));
    assert!(watch.poll_changed(&map));
    assert_eq!(watch.seen(), 3);
}

#[test]
fn inject_of_equal_outcome_notifies_again() {
    let mut map = StateMap::new();
    map.inject(address(), Ok(text("foo")));
    let mut watch = map.watch(address());
    map.inject(address(), Ok(text("foo")));
    assert!(watch.poll_changed(&map));
    assert_eq!(map.version(&address()), 2);
}

#[test]
fn wait_marks_what_it_saw() {
    let mut map = StateMap::new();
    let mut watch = map.watch(address());
    map.inject(address(), Ok(text("foo")));
    assert_eq!(as_text(watch.poll_wait(&map).unwrap().unwrap()), "foo");
    assert_eq!(watch.seen(), 1);
    assert!(!watch.poll_changed(&map));
    map.inject(address(), Ok(text("bar")));
    assert!(watch.poll_changed(&map));
}

#[test]
fn watch_starts_after_current_version() {
    let mut map = StateMap::new();
    map.inject(address(), Ok(text("foo")));
    let mut watch = map.watch(address());
    assert!(!watch.poll_changed(&map));
    assert_eq!(as_text(watch.poll_wait(&map).unwrap().unwrap()), "foo");
}

#[test]
fn failures_read_back_verbatim() {
    let mut map = StateMap::new();
    map.inject(address(), Err(ResolutionError::other("something went wrong")));
    let mut watch = map.watch(address());
    assert!(watch.current(&map).unwrap_err().is_other());
    assert!(watch.current_optional(&map).unwrap_err().is_other());
    assert!(watch.poll_wait(&map).unwrap().unwrap_err().is_other());
    assert!(watch.poll_wait_always(&map).unwrap().unwrap_err().is_other());
    assert!(watch.poll_wait_ok(&map).is_none());
}

#[test]
fn wait_always_skips_injected_not_defined() {
    let mut map = StateMap::new();
    map.inject(database(), Err(ResolutionError::not_defined(address())));
    let mut watch = map.watch(database());
    assert!(watch.poll_wait(&map).unwrap().unwrap_err().is_not_defined_for(&address()));
    assert!(watch.poll_wait_always(&map).is_none());
    map.inject(database(), Ok(text("db")));
    assert_eq!(as_text(watch.poll_wait_always(&map).unwrap().unwrap()), "db");
    assert_eq!(as_text(watch.poll_wait_ok(&map).unwrap().unwrap()), "db");
}

#[test]
fn end_to_end_address_and_database() {
    let mut map = StateMap::new();
    map.inject(address(), Ok(text("foo")));

    let mut watch_db = map.watch(database());
    assert!(watch_db.poll_wait(&map).unwrap().unwrap_err().is_not_defined_for(&database()));

    // The consumer promises a database and derives it from the address.
    map.define(database());
    let mut consumer = map.watch(address());
    let mut watcher = map.watch(database());
    assert!(watcher.poll_wait(&map).is_none());
    let addr = as_text(consumer.poll_wait(&map).unwrap().unwrap());
    assert_eq!(addr, "foo");
    map.inject(database(), Ok(text(&format!("Connection({addr})"))));
    assert!(watch_db.poll_changed(&map));
    assert!(watcher.poll_changed(&map));
    assert_eq!(as_text(watcher.poll_wait(&map).unwrap().unwrap()), "Connection(foo)");
    assert!(!watcher.poll_changed(&map));

    map.inject(address(), Ok(text("bar")));
    assert!(consumer.poll_changed(&map));
    let addr = as_text(consumer.poll_wait(&map).unwrap().unwrap());
    map.inject(database(), Ok(text(&format!("Connection({addr})"))));
    assert!(watcher.poll_changed(&map));
    assert!(!watcher.poll_changed(&map));
    assert_eq!(as_text(watcher.poll_wait_always(&map).unwrap().unwrap()), "Connection(bar)");
}

#[test]
fn many_watches_share_one_slot() {
    let mut map = StateMap::new();
    let mut watches = Vec::new();
    for _ in 0..8 {
        watches.push(map.watch(address()));
    }
    assert_eq!(map.len(), 1);
    map.inject(address(), Ok(text("foo")));
    for watch in watches.iter_mut() {
        assert!(watch.poll_changed(&map));
        assert_eq!(as_text(watch.current(&map).unwrap()), "foo");
    }
}

#[test]
fn with_state_and_watch_sees_the_action() {
    let mut map = StateMap::new();
    map.with_state(address(), StateAction::Define);
    assert!(map.contains(&address()));
    assert!(!map.contains(&database()));
    let mut watch = map.with_state_and_watch(address(), StateAction::Inject(Ok(text("foo"))));
    assert_eq!(watch.seen(), 2);
    assert!(!watch.poll_changed(&map));
    map.with_state(address(), StateAction::Keep);
    assert_eq!(map.version(&address()), 2);
}

#[test]
fn single_slot_lifecycle() {
    let mut state = State::new(address());
    assert_eq!(state.version(), 0);
    assert!(matches!(state.lifecycle(), Lifecycle::Undefined));
    state.define();
    state.define();
    assert_eq!(state.version(), 1);
    assert!(matches!(state.lifecycle(), Lifecycle::Pending));
    let watch = state.watch();
    assert_eq!(watch.seen(), 1);
    assert_eq!(watch.key().id, address().id);
    state.inject(Ok(text("foo")));
    assert_eq!(state.version(), 2);
    assert_eq!(as_text(state.lifecycle().current(address()).unwrap()), "foo");
}

#[test]
fn inject_optional_and_nested_results() {
    let mut map = StateMap::new();
    map.inject_optional(address(), Ok(None));
    let mut watch = map.watch(address());
    assert!(watch.current(&map).unwrap_err().is_not_defined_for(&address()));
    map.inject_optional(address(), Ok(Some(text("foo"))));
    assert_eq!(as_text(watch.current(&map).unwrap()), "foo");
    map.inject_optional(address(), Err(ResolutionError::other("x")));
    assert!(watch.current(&map).unwrap_err().is_other());

    map.inject_result(database(), Ok(Err(ResolutionError::other("inner"))));
    let mut db = map.watch(database());
    assert!(db.current(&map).unwrap_err().is_other());
    map.inject_result(database(), Ok(Ok(text("db"))));
    assert_eq!(as_text(db.current(&map).unwrap()), "db");
    map.inject_result(database(), Err(ResolutionError::Gone));
    assert!(db.current(&map).unwrap_err().is_gone());
    assert_eq!(map.version(&database()), 3);
}
