//! Tasks that keep one dependency computed from others: each time the inputs settle, the
//! task constructs the output and injects it, then waits for the inputs to change.

use vstd::prelude::*;

use crate::composite::{join, member_reads, observe_all, race_step, CompositeWatch, ReadMode};
use crate::erased::Erased;
use crate::error::{DependencyKey, ResolutionError};
use crate::state::{SlotView, WatchView};
use crate::state_map::{define_in, inject_in, slot_of, watch_in, StateMap};
use crate::watch::{Slots, Watch as WatchOps};

verus! {

/// Computes a dependency's value from the values of its inputs, in the inputs' order:
/// any function from a vector of values to a value.
pub trait Constructor: Fn(Vec<Erased>) -> Erased {

}

impl<F: Fn(Vec<Erased>) -> Erased> Constructor for F {

}

/// Whether `c` accepts every vector of inputs.
pub open spec fn accepts_all<C: Constructor>(c: C) -> bool {
    forall|inputs: Vec<Erased>| #[trigger] c.requires((inputs,))
}

/// Whether `value` is what the constructor of task `t` may return when step `t` on slots
/// `m` calls it: a value it returns on the joined inputs, when the step calls it at all.
pub open spec fn made_by<C: Constructor>(t: TaskView<C>, m: Slots, value: Erased) -> bool {
    (t.phase == TaskPhase::Waiting && slot_of(m, t.output.id).version < u64::MAX && join(
        member_reads(t.watches, m, ReadMode::Wait),
    ) is Some && join(member_reads(t.watches, m, ReadMode::Wait))->Some_0 is Ok) ==> exists|
        inputs: Vec<Erased>,
    |
        inputs@ == join(member_reads(t.watches, m, ReadMode::Wait))->Some_0->Ok_0
            && #[trigger] t.constructor.ensures((inputs,), value)
}

/// How far a task has come.
#[derive(Clone, Copy, Debug, PartialEq, Eq, Structural)]
pub enum TaskPhase {
    /// Nothing done yet: the output is not promised and the inputs are not watched.
    Start,
    /// Waiting for the inputs to settle.
    Waiting,
    /// An output was injected; waiting for an input to change.
    Idle,
}

/// What one step of a task did.
#[derive(Clone, Copy, Debug, PartialEq, Eq, Structural)]
pub enum TaskPoll {
    /// The task moved on; step it again.
    Progressed,
    /// The task waits for the injector to change.
    Pending,
    /// The output's version counter is full: the task cannot inject any more.
    Exhausted,
}

/// The slots after handles on `keys` were taken, in order.
pub open spec fn watch_keys(m: Slots, keys: Seq<DependencyKey>) -> Slots
    decreases keys.len(),
{
    if keys.len() == 0 {
        m
    } else {
        watch_in(watch_keys(m, keys.drop_last()), keys.last().id)
    }
}

/// Handles on `keys` taken from slots `m`.
pub open spec fn watches_of(m: Slots, keys: Seq<DependencyKey>) -> Seq<WatchView> {
    keys.map_values(|k: DependencyKey| WatchView { key: k, seen: slot_of(m, k.id).version })
}

proof fn lemma_watch_keys_keeps_slots(m: Slots, keys: Seq<DependencyKey>, id: u64)
    ensures
        slot_of(watch_keys(m, keys), id) == slot_of(m, id),
    decreases keys.len(),
{
    if keys.len() > 0 {
        lemma_watch_keys_keeps_slots(m, keys.drop_last(), id);
    }
}

/// Takes a handle on each of `keys`, in order, and joins them.
fn watch_all(keys: &Vec<DependencyKey>, map: &mut StateMap) -> (r: CompositeWatch)
    requires
        old(map).wf(),
    ensures
        final(map).wf(),
        final(map)@ == watch_keys(old(map)@, keys@),
        r@ == watches_of(final(map)@, keys@),
{
    let mut members: Vec<crate::state::Watch> = Vec::new();
    let ghost m0 = map@;
    let mut i: usize = 0;
    while i < keys.len()
        invariant
            i <= keys@.len(),
            map.wf(),
            members@.len() == i,
            map@ == watch_keys(m0, keys@.subrange(0, i as int)),
            members@.map_values(|w: crate::state::Watch| w@) == watches_of(
                map@,
                keys@.subrange(0, i as int),
            ),
        decreases keys@.len() - i,
    {
        let key = keys[i];
        let ghost before = map@;
        let w = map.watch(key);
        let ghost pre = keys@.subrange(0, i as int);
        let ghost post = keys@.subrange(0, i as int + 1);
        let ghost old_members = members@.map_values(|w: crate::state::Watch| w@);
        assert(post.drop_last() =~= pre);
        members.push(w);
        assert forall|j: int| 0 <= j < post.len() implies slot_of(map@, (#[trigger] post[j]).id)
            == slot_of(before, post[j].id) by {}
        assert forall|j: int| 0 <= j < post.len() implies members@.map_values(
            |w: crate::state::Watch| w@,
        )[j] == #[trigger] watches_of(map@, post)[j] by {
            if j < i {
                assert(old_members[j] == watches_of(before, pre)[j]);
                assert(pre[j] == post[j]);
            } else {
                assert(post[j] == key);
                assert(members@[j] == w);
            }
        }
        assert(members@.map_values(|w: crate::state::Watch| w@) =~= watches_of(map@, post));
        i = i + 1;
    }
    assert(keys@.subrange(0, i as int) =~= keys@);
    CompositeWatch::combine(members)
}


/// What a task knows: its constructor, its phase, the handles on its inputs once taken,
/// and its output key.
pub ghost struct TaskView<C> {
    pub constructor: C,
    pub phase: TaskPhase,
    pub inputs: Seq<DependencyKey>,
    pub watches: Seq<WatchView>,
    pub output: DependencyKey,
}

/// A task that keeps `output` constructed from the values of `inputs`.
pub struct ConstructorTask<C> {
    constructor: C,
    inputs: Vec<DependencyKey>,
    watch: CompositeWatch,
    output: DependencyKey,
    phase: TaskPhase,
}

impl<C> View for ConstructorTask<C> {
    type V = TaskView<C>;

    closed spec fn view(&self) -> TaskView<C> {
        TaskView {
            constructor: self.constructor,
            phase: self.phase,
            inputs: self.inputs@,
            watches: self.watch@,
            output: self.output,
        }
    }
}

/// One step of a task in state `t` on slots `m`: what it returns, and the task and slots
/// after it; `value` stands for what the constructor returned, if the step called it.
pub open spec fn task_step<C: Constructor>(t: TaskView<C>, m: Slots, value: Erased) -> (
    TaskPoll,
    TaskView<C>,
    Slots,
) {
    match t.phase {
        TaskPhase::Start => {
            let m1 = define_in(m, t.output.id);
            let m2 = watch_keys(m1, t.inputs);
            (
                TaskPoll::Progressed,
                TaskView { phase: TaskPhase::Waiting, watches: watches_of(m2, t.inputs), ..t },
                m2,
            )
        },
        TaskPhase::Waiting => {
            let ws = observe_all(t.watches, m);
            match join(member_reads(t.watches, m, ReadMode::Wait)) {
                None => (TaskPoll::Pending, TaskView { watches: ws, ..t }, m),
                Some(r) => if slot_of(m, t.output.id).version < u64::MAX {
                    let outcome = match r {
                        Ok(_) => Ok(value),
                        Err(e) => Err(e),
                    };
                    (
                        TaskPoll::Progressed,
                        TaskView { phase: TaskPhase::Idle, watches: ws, ..t },
                        inject_in(m, t.output.id, outcome),
                    )
                } else {
                    (TaskPoll::Exhausted, TaskView { watches: ws, ..t }, m)
                },
            }
        },
        TaskPhase::Idle => {
            let (fired, ws) = race_step(t.watches, m);
            if fired {
                (TaskPoll::Progressed, TaskView { phase: TaskPhase::Waiting, watches: ws, ..t }, m)
            } else {
                (TaskPoll::Pending, t, m)
            }
        },
    }
}

impl<C: Constructor> ConstructorTask<C> {
    /// A task that will keep `output` constructed by `constructor` from `inputs`.
    pub fn new(constructor: C, inputs: Vec<DependencyKey>, output: DependencyKey) -> (r:
        ConstructorTask<C>)
        ensures
            r@.constructor == constructor,
            r@.phase == TaskPhase::Start,
            r@.inputs == inputs@,
            r@.output == output,
    {
        ConstructorTask {
            constructor,
            inputs,
            watch: CompositeWatch::combine(Vec::new()),
            output,
            phase: TaskPhase::Start,
        }
    }

    fn watch_inputs(&self, map: &mut StateMap) -> (r: CompositeWatch)
        requires
            old(map).wf(),
        ensures
            final(map).wf(),
            final(map)@ == watch_keys(old(map)@, self@.inputs),
            r@ == watches_of(final(map)@, self@.inputs),
    {
        watch_all(&self.inputs, map)
    }

    /// One step of the task: promise the output and watch the inputs; or, once the inputs
    /// settle, inject the constructed output (or the inputs' first failure); or, once an
    /// input changed, start waiting again.
    pub fn step(&mut self, map: &mut StateMap) -> (r: TaskPoll)
        requires
            old(map).wf(),
            accepts_all(old(self)@.constructor),
        ensures
            final(map).wf(),
            final(self)@.constructor == old(self)@.constructor,
            exists|v: Erased|
                made_by(old(self)@, old(map)@, v) && (r, final(self)@, final(map)@) == task_step(
                    old(self)@,
                    old(map)@,
                    v,
                ),
    {
        match self.phase {
            TaskPhase::Start => {
                map.define(self.output);
                self.watch = self.watch_inputs(map);
                self.phase = TaskPhase::Waiting;
proof {
                                    let v = Erased::Bool(false);
                                    assert(made_by(old(self)@, old(map)@, v));
                                    assert((TaskPoll::Progressed, self@, map@) == task_step(old(self)@, old(map)@, v));
                                }
                TaskPoll::Progressed
            },
            TaskPhase::Waiting => {
                match self.watch.poll_wait(map) {
                    None => {
                        proof {
                                            let v = Erased::Bool(false);
                                            assert(made_by(old(self)@, old(map)@, v));
                                            assert((TaskPoll::Pending, self@, map@) == task_step(old(self)@, old(map)@, v));
                                        }
                        TaskPoll::Pending
                    },
                    Some(r) => {
                        if map.version(&self.output) < u64::MAX {
                            match r {
                                Ok(values) => {
                                    let ghost inputs = values;
                                    let value = (self.constructor)(values);
                                    map.inject(self.output, Ok(value));
                                    self.phase = TaskPhase::Idle;
                                    assert(made_by(old(self)@, old(map)@, value));
                                    assert((TaskPoll::Progressed, self@, map@) == task_step(
                                        old(self)@,
                                        old(map)@,
                                        value,
                                    ));
                                },
                                Err(e) => {
                                    map.inject(self.output, Err(e));
                                    self.phase = TaskPhase::Idle;
                                    assert((TaskPoll::Progressed, self@, map@) == task_step(
                                        old(self)@,
                                        old(map)@,
                                        Erased::Bool(false),
                                    ));
                                },
                            }
                            TaskPoll::Progressed
                        } else {
                            proof {
                                                let v = Erased::Bool(false);
                                                assert(made_by(old(self)@, old(map)@, v));
                                                assert((TaskPoll::Exhausted, self@, map@) == task_step(old(self)@, old(map)@, v));
                                            }
                            TaskPoll::Exhausted
                        }
                    },
                }
            },
            TaskPhase::Idle => {
                let fired = self.watch.poll_changed(map);
                if fired {
                    self.phase = TaskPhase::Waiting;
                }
                proof {
                    let v = Erased::Bool(false);
                    assert(made_by(old(self)@, old(map)@, v));
                    assert(task_step(old(self)@, old(map)@, v).1 == self@);
                }
                if fired {
                    TaskPoll::Progressed
                } else {
                    TaskPoll::Pending
                }
            },
        }
    }
}

/// A task that works on an injector step by step.
pub trait InjectorTask: Sized {
    /// Whether one step from `self` on slots `m` may return `r`, leaving the task as
    /// `after` and the slots as `m2`.
    spec fn steps(&self, m: Slots, r: TaskPoll, after: Self, m2: Slots) -> bool;

    /// Whether the task can take steps.
    spec fn runnable(&self) -> bool;

    /// Runs one step of the task.
    fn poll_run(&mut self, map: &mut StateMap) -> (r: TaskPoll)
        requires
            old(self).runnable(),
            old(map).wf(),
        ensures
            final(self).runnable(),
            final(map).wf(),
            old(self).steps(old(map)@, r, *final(self), final(map)@),
    ;
}

impl<C: Constructor> InjectorTask for ConstructorTask<C> {
    open spec fn steps(&self, m: Slots, r: TaskPoll, after: Self, m2: Slots) -> bool {
        exists|v: Erased| made_by(self@, m, v) && (r, after@, m2) == task_step(self@, m, v)
    }

    open spec fn runnable(&self) -> bool {
        accepts_all(self@.constructor)
    }

    fn poll_run(&mut self, map: &mut StateMap) -> (r: TaskPoll) {
        self.step(map)
    }
}

/// How far a task with an asynchronous constructor has come.
#[derive(Clone, Copy, Debug, PartialEq, Eq, Structural)]
pub enum AsyncTaskPhase {
    /// Nothing done yet.
    Start,
    /// Waiting for the inputs to settle.
    Waiting,
    /// The inputs settled; waiting for the constructor's value.
    Constructing,
    /// An output was injected; waiting for an input to change.
    Idle,
}

/// What one step of a task with an asynchronous constructor asks for.
#[derive(Debug)]
pub enum AsyncTaskPoll {
    /// The task moved on; step it again.
    Progressed,
    /// The task waits for the injector to change.
    Pending,
    /// Run the constructor on these values and hand its value to `deliver`.
    Construct(Vec<Erased>),
    /// The output's version counter is full: the task cannot inject any more.
    Exhausted,
}

/// A task that keeps `output` constructed from the values of `inputs` by a constructor
/// that runs elsewhere: the task says when to run it, and is handed its value.
pub struct AsyncConstructorTask {
    inputs: Vec<DependencyKey>,
    watch: CompositeWatch,
    output: DependencyKey,
    phase: AsyncTaskPhase,
}

/// What an asynchronous task knows.
pub ghost struct AsyncTaskView {
    pub phase: AsyncTaskPhase,
    pub inputs: Seq<DependencyKey>,
    pub watches: Seq<WatchView>,
    pub output: DependencyKey,
}

impl View for AsyncConstructorTask {
    type V = AsyncTaskView;

    closed spec fn view(&self) -> AsyncTaskView {
        AsyncTaskView {
            phase: self.phase,
            inputs: self.inputs@,
            watches: self.watch@,
            output: self.output,
        }
    }
}

impl AsyncConstructorTask {
    /// A task that will keep `output` constructed from `inputs`.
    pub fn new(inputs: Vec<DependencyKey>, output: DependencyKey) -> (r: AsyncConstructorTask)
        ensures
            r@.phase == AsyncTaskPhase::Start,
            r@.inputs == inputs@,
            r@.output == output,
    {
        AsyncConstructorTask {
            inputs,
            watch: CompositeWatch::combine(Vec::new()),
            output,
            phase: AsyncTaskPhase::Start,
        }
    }

    /// One step of the task: promise the output and watch the inputs; or, once the inputs
    /// settle, ask for the constructor to run on their values (or inject their first
    /// failure); or, once an input changed, start waiting again.
    pub fn step(&mut self, map: &mut StateMap) -> (r: AsyncTaskPoll)
        requires
            old(map).wf(),
        ensures
            final(map).wf(),
            final(self)@.inputs == old(self)@.inputs,
            final(self)@.output == old(self)@.output,
            ({
                let t = old(self)@;
                let m = old(map)@;
                match t.phase {
                    AsyncTaskPhase::Start => {
                        let m2 = watch_keys(define_in(m, t.output.id), t.inputs);
                        &&& r is Progressed
                        &&& final(map)@ == m2
                        &&& final(self)@ == AsyncTaskView {
                            phase: AsyncTaskPhase::Waiting,
                            watches: watches_of(m2, t.inputs),
                            ..t
                        }
                    },
                    AsyncTaskPhase::Waiting => {
                        let ws = observe_all(t.watches, m);
                        match join(member_reads(t.watches, m, ReadMode::Wait)) {
                            None => r is Pending && final(map)@ == m && final(self)@
                                == AsyncTaskView { watches: ws, ..t },
                            Some(Ok(vs)) => {
                                &&& r matches AsyncTaskPoll::Construct(v) && v@ == vs
                                &&& final(map)@ == m
                                &&& final(self)@ == AsyncTaskView {
                                    phase: AsyncTaskPhase::Constructing,
                                    watches: ws,
                                    ..t
                                }
                            },
                            Some(Err(e)) => if slot_of(m, t.output.id).version < u64::MAX {
                                &&& r is Progressed
                                &&& final(map)@ == inject_in(m, t.output.id, Err(e))
                                &&& final(self)@ == AsyncTaskView {
                                    phase: AsyncTaskPhase::Idle,
                                    watches: ws,
                                    ..t
                                }
                            } else {
                                &&& r is Exhausted
                                &&& final(map)@ == m
                                &&& final(self)@ == AsyncTaskView { watches: ws, ..t }
                            },
                        }
                    },
                    AsyncTaskPhase::Constructing => r is Pending && final(map)@ == m && final(self)@
                        == t,
                    AsyncTaskPhase::Idle => {
                        let (fired, ws) = race_step(t.watches, m);
                        &&& final(map)@ == m
                        &&& fired ==> r is Progressed && final(self)@ == AsyncTaskView {
                            phase: AsyncTaskPhase::Waiting,
                            watches: ws,
                            ..t
                        }
                        &&& !fired ==> r is Pending && final(self)@ == t
                    },
                }
            }),
    {
        match self.phase {
            AsyncTaskPhase::Start => {
                map.define(self.output);
                self.watch = self.watch_inputs(map);
                self.phase = AsyncTaskPhase::Waiting;
                AsyncTaskPoll::Progressed
            },
            AsyncTaskPhase::Waiting => {
                match self.watch.poll_wait(map) {
                    None => AsyncTaskPoll::Pending,
                    Some(Ok(values)) => {
                        self.phase = AsyncTaskPhase::Constructing;
                        AsyncTaskPoll::Construct(values)
                    },
                    Some(Err(e)) => {
                        if map.version(&self.output) < u64::MAX {
                            map.inject(self.output, Err(e));
                            self.phase = AsyncTaskPhase::Idle;
                            AsyncTaskPoll::Progressed
                        } else {
                            AsyncTaskPoll::Exhausted
                        }
                    },
                }
            },
            AsyncTaskPhase::Constructing => AsyncTaskPoll::Pending,
            AsyncTaskPhase::Idle => {
                if self.watch.poll_changed(map) {
                    self.phase = AsyncTaskPhase::Waiting;
                    AsyncTaskPoll::Progressed
                } else {
                    AsyncTaskPoll::Pending
                }
            },
        }
    }

    /// Hands over the constructor's value: while the task is `Constructing`, it injects
    /// the value as the output and goes idle; in any other phase nothing happens.
    pub fn deliver(&mut self, map: &mut StateMap, value: Erased) -> (r: TaskPoll)
        requires
            old(map).wf(),
        ensures
            final(map).wf(),
            final(self)@.inputs == old(self)@.inputs,
            final(self)@.output == old(self)@.output,
            final(self)@.watches == old(self)@.watches,
            old(self)@.phase != AsyncTaskPhase::Constructing ==> r == TaskPoll::Pending
                && final(map)@ == old(map)@ && final(self)@ == old(self)@,
            old(self)@.phase == AsyncTaskPhase::Constructing ==> if slot_of(
                old(map)@,
                old(self)@.output.id,
            ).version < u64::MAX {
                &&& r == TaskPoll::Progressed
                &&& final(map)@ == inject_in(old(map)@, old(self)@.output.id, Ok(value))
                &&& final(self)@.phase == AsyncTaskPhase::Idle
            } else {
                r == TaskPoll::Exhausted && final(map)@ == old(map)@ && final(self)@ == old(self)@
            },
    {
        if self.phase != AsyncTaskPhase::Constructing {
            return TaskPoll::Pending;
        }
        if map.version(&self.output) < u64::MAX {
            map.inject(self.output, Ok(value));
            self.phase = AsyncTaskPhase::Idle;
            TaskPoll::Progressed
        } else {
            TaskPoll::Exhausted
        }
    }

    fn watch_inputs(&self, map: &mut StateMap) -> (r: CompositeWatch)
        requires
            old(map).wf(),
        ensures
            final(map).wf(),
            final(map)@ == watch_keys(old(map)@, self@.inputs),
            r@ == watches_of(final(map)@, self@.inputs),
    {
        watch_all(&self.inputs, map)
    }
}

} // verus!
