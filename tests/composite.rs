use dime::component::{
    Component, ComponentWatch, Current, CurrentWatch, OptionalWatch, ResultWatch, WaitAlways,
    WaitAlwaysWatch, WaitOk, WaitOkWatch,
};
use dime::composite::{all_or_none, try_join, CompositeWatch};
use dime::erased::Erased;
use dime::error::{DependencyKey, ResolutionError};
use dime::state_map::StateMap;
use dime::watch::Watch as _;

fn key_a() -> DependencyKey {
    DependencyKey::new(10, "A")
}

fn key_b() -> DependencyKey {
    DependencyKey::new(11, "B")
}

fn number(v: i64) -> Erased {
    Erased::new(v)
}

fn ints(values: Vec<Erased>) -> Vec<i64> {
    values.into_iter().map(|v| v.downcast::<i64>().unwrap()).collect()
}

#[test]
fn join_fails_fast_on_first_failure() {
    let mut map = StateMap::new();
    map.inject(key_a(), Err(ResolutionError::other("a failed")));
    map.define(key_b());
    let a = map.watch(key_a());
    let b = map.watch(key_b());
    let mut both = CompositeWatch::combine(vec![a, b]);
    assert!(both.poll_wait(&map).unwrap().unwrap_err().is_other());
    let mut reversed = CompositeWatch::combine(vec![b, a]);
    assert!(reversed.poll_wait(&map).unwrap().unwrap_err().is_other());
}

#[test]
fn join_waits_for_every_member() {
    let mut map = StateMap::new();
    map.define(key_a());
    map.define(key_b());
    let mut both = CompositeWatch::combine(vec![map.watch(key_a()), map.watch(key_b())]);
    assert!(both.poll_wait(&map).is_none());
    map.inject(key_b(), Ok(number(2)));
    assert!(both.poll_wait(&map).is_none());
    map.inject(key_a(), Ok(number(1)));
    assert_eq!(ints(both.poll_wait(&map).unwrap().unwrap()), vec![1, 2]);
    assert_eq!(ints(both.poll_wait_always(&map).unwrap().unwrap()), vec![1, 2]);
    assert_eq!(ints(both.poll_wait_ok(&map).unwrap().unwrap()), vec![1, 2]);
    assert_eq!(ints(both.current(&map).unwrap()), vec![1, 2]);
}

#[test]
fn join_reports_first_failure_in_order() {
    let mut map = StateMap::new();
    map.inject(key_a(), Err(ResolutionError::not_defined(key_a())));
    map.inject(key_b(), Err(ResolutionError::other("b failed")));
    let mut both = CompositeWatch::combine(vec![map.watch(key_a()), map.watch(key_b())]);
    assert!(both.current(&map).unwrap_err().is_not_defined_for(&key_a()));
    let mut reversed = CompositeWatch::combine(vec![map.watch(key_b()), map.watch(key_a())]);
    assert!(reversed.current(&map).unwrap_err().is_other());
}

#[test]
fn optional_join_is_none_when_a_member_lacks_a_value() {
    let mut map = StateMap::new();
    map.inject(key_a(), Ok(number(1)));
    let mut both = CompositeWatch::combine(vec![map.watch(key_a()), map.watch(key_b())]);
    assert!(both.current_optional(&map).unwrap().is_none());
    assert!(both.poll_wait_optional(&map).unwrap().unwrap().is_none());
    map.inject(key_b(), Ok(number(2)));
    assert_eq!(ints(both.current_optional(&map).unwrap().unwrap()), vec![1, 2]);
    map.inject(key_b(), Err(ResolutionError::other("b failed")));
    assert!(both.current_optional(&map).unwrap_err().is_other());
}

#[test]
fn race_fires_on_any_member() {
    let mut map = StateMap::new();
    let mut both = CompositeWatch::combine(vec![map.watch(key_a()), map.watch(key_b())]);
    assert!(!both.has_changed(&map));
    assert!(!both.poll_changed(&map));
    map.inject(key_b(), Ok(number(2)));
    assert!(both.has_changed(&map));
    assert_eq!(both.poll_race(&map), Some(1));
    assert!(!both.poll_changed(&map));
    map.inject(key_a(), Ok(number(1)));
    map.inject(key_b(), Ok(number(3)));
    assert_eq!(both.poll_race(&map), Some(0));
    assert_eq!(both.poll_race(&map), Some(1));
    assert_eq!(both.poll_race(&map), None);
    let members = both.into_inner();
    assert_eq!(members.len(), 2);
}

#[test]
fn try_join_and_all_or_none() {
    let joined = try_join(vec![Some(Ok(1)), None, Some(Err(ResolutionError::other("x")))]);
    assert!(joined.unwrap().unwrap_err().is_other());
    let pending = try_join::<i32>(vec![Some(Ok(1)), None]);
    assert!(pending.is_none());
    assert_eq!(try_join::<i32>(vec![Some(Ok(1)), Some(Ok(2))]).unwrap().unwrap(), vec![1, 2]);
    assert_eq!(try_join::<i32>(vec![]).unwrap().unwrap(), Vec::<i32>::new());
    assert!(all_or_none(vec![Some(number(1)), None]).is_none());
    assert_eq!(ints(all_or_none(vec![Some(number(1)), Some(number(2))]).unwrap()), vec![1, 2]);
}

#[test]
fn wrappers_shape_values() {
    let mut map = StateMap::new();
    map.define(key_a());
    let mut watch = map.watch(key_a());

    let mut component = ComponentWatch::new(watch);
    assert!(component.poll_wait(&map).is_none());
    let mut optional = OptionalWatch::new(watch);
    assert!(optional.current(&map).unwrap().is_none());
    assert!(optional.poll_wait(&map).is_none());
    let mut result = ResultWatch::new(watch);
    assert!(result.current(&map).unwrap().unwrap_err().is_not_defined());
    let mut current = CurrentWatch::new(watch);
    assert!(current.poll_wait(&map).unwrap().unwrap_err().is_not_defined());

    map.inject(key_a(), Ok(number(5)));
    let Component(v) = component.poll_wait(&map).unwrap().unwrap();
    assert_eq!(v.downcast::<i64>().unwrap(), 5);
    let v = optional.current(&map).unwrap().unwrap();
    assert_eq!(v.downcast::<i64>().unwrap(), 5);
    let v = result.poll_wait(&map).unwrap().unwrap().unwrap();
    assert_eq!(v.downcast::<i64>().unwrap(), 5);
    let Current(v) = current.poll_wait_ok(&map).unwrap().unwrap();
    assert_eq!(v.downcast::<i64>().unwrap(), 5);
    assert_eq!(component.into_inner().seen(), map.version(&key_a()));
}

#[test]
fn wait_always_wrappers_skip_not_defined() {
    let mut map = StateMap::new();
    map.inject(key_a(), Err(ResolutionError::not_defined(key_b())));
    let mut watch = map.watch(key_a());
    let mut always = WaitAlwaysWatch::new(watch);
    let mut ok = WaitOkWatch::new(watch);
    assert!(always.poll_wait(&map).is_none());
    assert!(ok.poll_wait(&map).is_none());
    assert!(always.current(&map).unwrap_err().is_not_defined());
    map.inject(key_a(), Err(ResolutionError::other("boom")));
    assert!(always.poll_wait(&map).unwrap().unwrap_err().is_other());
    assert!(ok.poll_wait_ok(&map).is_none());
    map.inject(key_a(), Ok(number(7)));
    let WaitAlways(v) = always.poll_wait(&map).unwrap().unwrap();
    assert_eq!(v.downcast::<i64>().unwrap(), 7);
    let WaitOk(v) = ok.poll_wait_ok(&map).unwrap().unwrap();
    assert_eq!(v.downcast::<i64>().unwrap(), 7);
}

#[test]
fn current_watch_never_changes() {
    let mut map = StateMap::new();
    let mut current = CurrentWatch::new(map.watch(key_a()));
    map.inject(key_a(), Ok(number(1)));
    assert!(!current.poll_changed(&map));
    let mut component = ComponentWatch::new(map.watch(key_b()));
    map.inject(key_b(), Ok(number(1)));
    assert!(component.poll_changed(&map));
}

#[test]
fn joined_wait_marks_every_member() {
    let mut map = StateMap::new();
    let mut both = CompositeWatch::combine(vec![map.watch(key_a()), map.watch(key_b())]);
    map.inject(key_a(), Ok(number(1)));
    map.inject(key_b(), Ok(number(2)));
    assert_eq!(ints(both.poll_wait(&map).unwrap().unwrap()), vec![1, 2]);
    assert!(!both.has_changed(&map));
    assert!(!both.poll_changed(&map));
    map.inject(key_b(), Ok(number(3)));
    assert_eq!(both.poll_race(&map), Some(1));
}
