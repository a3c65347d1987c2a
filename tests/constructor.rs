use dime::constructor::{
    AsyncConstructorTask, AsyncTaskPoll, Constructor, ConstructorTask, InjectorTask, TaskPoll,
};
use dime::erased::Erased;
use dime::error::{DependencyKey, ResolutionError};
use dime::state_map::StateMap;
use dime::watch::Watch as _;

fn connect(inputs: Vec<Erased>) -> Erased {
    let address = inputs.into_iter().next().unwrap().downcast::<String>().unwrap();
    Erased::new(format!("Connection({address})"))
}

fn unit(_inputs: Vec<Erased>) -> Erased {
    Erased::new(true)
}

fn address() -> DependencyKey {
    DependencyKey::new(1, "Address")
}

fn database() -> DependencyKey {
    DependencyKey::new(2, "Database")
}

#[test]
fn constructor_task_follows_its_input() {
    let mut map = StateMap::new();
    let mut task = ConstructorTask::new(connect, vec![address()], database());
    let mut watcher = map.watch(database());
    assert!(watcher.poll_wait(&map).unwrap().unwrap_err().is_not_defined());

    assert_eq!(task.step(&mut map), TaskPoll::Progressed);
    assert!(watcher.poll_wait(&map).is_none());
    // The address is not promised: its wait ends in `NotDefined`, which is passed on.
    assert_eq!(task.step(&mut map), TaskPoll::Progressed);
    assert!(watcher.poll_wait(&map).unwrap().unwrap_err().is_not_defined_for(&address()));
    assert!(watcher.poll_wait_always(&map).is_none());
    assert_eq!(task.step(&mut map), TaskPoll::Pending);

    map.inject(address(), Ok(Erased::new("foo".to_string())));
    assert_eq!(task.poll_run(&mut map), TaskPoll::Progressed);
    assert_eq!(task.poll_run(&mut map), TaskPoll::Progressed);
    let db = watcher.poll_wait(&map).unwrap().unwrap();
    assert_eq!(db.downcast::<String>().unwrap(), "Connection(foo)");
    assert_eq!(task.step(&mut map), TaskPoll::Pending);

    map.inject(address(), Ok(Erased::new("bar".to_string())));
    assert_eq!(task.step(&mut map), TaskPoll::Progressed);
    assert_eq!(task.step(&mut map), TaskPoll::Progressed);
    let db = watcher.poll_wait_always(&map).unwrap().unwrap();
    assert_eq!(db.downcast::<String>().unwrap(), "Connection(bar)");

    map.inject(address(), Err(ResolutionError::other("something went wrong")));
    assert_eq!(task.step(&mut map), TaskPoll::Progressed);
    assert_eq!(task.step(&mut map), TaskPoll::Progressed);
    assert!(watcher.poll_wait(&map).unwrap().unwrap_err().is_other());
}

#[test]
fn async_constructor_task_hands_out_inputs() {
    let mut map = StateMap::new();
    let mut task = AsyncConstructorTask::new(vec![address()], database());
    let mut watcher = map.watch(database());
    assert_eq!(task.deliver(&mut map, Erased::new(1i32)), TaskPoll::Pending);
    assert!(matches!(task.step(&mut map), AsyncTaskPoll::Progressed));
    map.inject(address(), Ok(Erased::new("foo".to_string())));
    let inputs = match task.step(&mut map) {
        AsyncTaskPoll::Construct(inputs) => inputs,
        other => panic!("expected a construct request, got {other:?}"),
    };
    assert_eq!(inputs.len(), 1);
    assert!(matches!(task.step(&mut map), AsyncTaskPoll::Pending));
    let address_value = inputs.into_iter().next().unwrap().downcast::<String>().unwrap();
    let value = Erased::new(format!("Connection({address_value})"));
    assert_eq!(task.deliver(&mut map, value), TaskPoll::Progressed);
    let db = watcher.poll_wait(&map).unwrap().unwrap();
    assert_eq!(db.downcast::<String>().unwrap(), "Connection(foo)");
    // Waiting marked the address as seen: nothing changed since, so the task stays idle.
    assert!(matches!(task.step(&mut map), AsyncTaskPoll::Pending));

    map.inject(address(), Err(ResolutionError::other("lost")));
    assert!(matches!(task.step(&mut map), AsyncTaskPoll::Progressed));
    assert!(matches!(task.step(&mut map), AsyncTaskPoll::Progressed));
    assert!(watcher.poll_wait(&map).unwrap().unwrap_err().is_other());
}

fn assert_constructor<C: Constructor>(_: C) {}

fn assert_injector_task<T: InjectorTask>(_: T) {}

#[test]
fn constructor_test_constructor_bound() {
    assert_constructor(connect);
    assert_constructor(unit);
    assert_constructor(|inputs: Vec<Erased>| Erased::new(inputs.len() as u64));
}

#[test]
fn constructor_test_async_constructor_bound() {
    for inputs in [vec![], vec![address()], vec![address(), database()]] {
        let mut map = StateMap::new();
        let mut task = AsyncConstructorTask::new(inputs, DependencyKey::new(9, "Output"));
        assert!(matches!(task.step(&mut map), AsyncTaskPoll::Progressed));
    }
}

#[test]
fn constructor_test_constructor_task_bound() {
    assert_injector_task(ConstructorTask::new(unit, vec![], database()));
    assert_injector_task(ConstructorTask::new(connect, vec![address()], database()));
    assert_injector_task(ConstructorTask::new(unit, vec![address(), database()], address()));
}

#[test]
fn constructor_test_async_constructor_task_bound() {
    let mut map = StateMap::new();
    let output = DependencyKey::new(9, "Output");
    let mut task = AsyncConstructorTask::new(vec![], output);
    assert!(matches!(task.step(&mut map), AsyncTaskPoll::Progressed));
    match task.step(&mut map) {
        AsyncTaskPoll::Construct(inputs) => assert!(inputs.is_empty()),
        other => panic!("expected a construct request, got {other:?}"),
    }
    assert_eq!(task.deliver(&mut map, Erased::new(3u64)), TaskPoll::Progressed);
    let watch = map.watch(output);
    assert_eq!(watch.current(&map).unwrap().downcast::<u64>().unwrap(), 3);
}
