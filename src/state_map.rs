//! The injector: one slot per dependency key, created on first use.

use std::collections::BTreeMap;
use vstd::prelude::*;

use crate::erased::Erased;
use crate::error::{DependencyKey, ResolutionError};
use crate::watch::{Slots, Watch as WatchOps};
use crate::state::{
    current_of, current_optional_of, define_slot, fresh_slot, inject_slot, lemma_define_idempotent,
    lemma_undefined_reads, slot_wf, wait_always_of, wait_of, wait_ok_of, wait_optional_of,
    changed_step, observed, Lifecycle, SlotView, State, Watch, WatchView,
};

verus! {

broadcast use vstd::std_specs::btree::group_btree_axioms;

/// The slot that id `id` has in `m`; an id without a slot reads as a fresh one.
pub open spec fn slot_of(m: Slots, id: u64) -> SlotView {
    if m.contains_key(id) {
        m[id]
    } else {
        fresh_slot()
    }
}

/// The slots after `define` on `id`.
pub open spec fn define_in(m: Slots, id: u64) -> Slots {
    m.insert(id, define_slot(slot_of(m, id)))
}

/// The slots after `inject` of `outcome` on `id`.
pub open spec fn inject_in(
    m: Slots,
    id: u64,
    outcome: Result<Erased, ResolutionError>,
) -> Slots {
    m.insert(id, inject_slot(slot_of(m, id), outcome))
}

/// The slots after `watch` on `id`: the slot exists, and reads as before.
pub open spec fn watch_in(m: Slots, id: u64) -> Slots {
    m.insert(id, slot_of(m, id))
}

/// What to do to a slot: nothing, promise a value, or set an outcome.
pub enum StateAction {
    Keep,
    Define,
    Inject(Result<Erased, ResolutionError>),
}

/// The slots after `action` on `id`.
pub open spec fn apply_in(m: Slots, id: u64, action: StateAction) -> Map<
    u64,
    SlotView,
> {
    match action {
        StateAction::Keep => watch_in(m, id),
        StateAction::Define => define_in(m, id),
        StateAction::Inject(outcome) => inject_in(m, id, outcome),
    }
}

/// Whether `action` on `id` fits in the version counter.
pub open spec fn action_fits(m: Slots, id: u64, action: StateAction) -> bool {
    action is Inject ==> slot_of(m, id).version < u64::MAX
}

/// A store of slots keyed by dependency id, each created on first use and kept while the
/// store lives.
pub struct StateMap {
    states: BTreeMap<u64, State>,
}

impl View for StateMap {
    type V = Slots;

    closed spec fn view(&self) -> Slots {
        self.states@.map_values(|s: State| s@)
    }
}

impl StateMap {
    /// Every slot of the store is well formed.
    pub closed spec fn wf(&self) -> bool {
        forall|id: u64| #[trigger] self.states@.contains_key(id) ==> self.states@[id].wf()
    }

    /// In a well-formed store every slot is well formed: an `Undefined` slot has version 0,
    /// so promising its value never fills the version counter.
    pub proof fn lemma_wf_slots(&self)
        requires
            self.wf(),
        ensures
            forall|id: u64| #[trigger] slot_wf(slot_of(self@, id)),
    {
        assert forall|id: u64| #[trigger] slot_wf(slot_of(self@, id)) by {
            if self.states@.contains_key(id) {
                assert(self.states@[id].wf());
            }
        }
    }

    /// An empty store.
    pub fn new() -> (r: StateMap)
        ensures
            r@ == Map::<u64, SlotView>::empty(),
            r.wf(),
    {
        let r = StateMap { states: BTreeMap::new() };
        assert(r@ =~= Map::<u64, SlotView>::empty());
        r
    }

    /// Whether `key` has a slot yet.
    pub fn contains(&self, key: &DependencyKey) -> (r: bool)
        ensures
            r == self@.contains_key(key.id),
    {
        self.states.contains_key(&key.id)
    }

    /// The number of slots.
    pub fn len(&self) -> (r: usize)
        ensures
            r == self@.len(),
    {
        assert(self@.dom() =~= self.states@.dom());
        self.states.len()
    }

    /// The version of the slot of `key`.
    pub fn version(&self, key: &DependencyKey) -> (r: u64)
        ensures
            r == slot_of(self@, key.id).version,
    {
        match self.states.get(&key.id) {
            Some(s) => s.version(),
            None => 0,
        }
    }

    /// Takes the slot of `key` out of the store, or makes a fresh one if there is none.
    ///
    /// A slot is looked up first and made only when the lookup comes back empty, so that
    /// a key never gets two slots.
    fn take_or_create(&mut self, key: DependencyKey) -> (s: State)
        requires
            old(self).wf(),
        ensures
            final(self).wf(),
            s@ == slot_of(old(self)@, key.id),
            s.wf(),
            final(self)@ == old(self)@.remove(key.id),
    {
        let taken = self.states.remove(&key.id);
        assert(self@ =~= old(self)@.remove(key.id));
        match taken {
            Some(s) => s,
            None => State::new(key),
        }
    }

    /// Puts `s` back as the slot of `id`.
    fn put(&mut self, id: u64, s: State)
        requires
            old(self).wf(),
            s.wf(),
        ensures
            final(self).wf(),
            final(self)@ == old(self)@.insert(id, s@),
    {
        let ghost sv = s@;
        self.states.insert(id, s);
        assert(self@ =~= old(self)@.insert(id, sv));
    }

    /// Applies `action` to the slot of `key`, creating the slot first if there is none.
    pub fn with_state(&mut self, key: DependencyKey, action: StateAction)
        requires
            old(self).wf(),
            action_fits(old(self)@, key.id, action),
        ensures
            final(self).wf(),
            final(self)@ == apply_in(old(self)@, key.id, action),
    {
        let mut s = self.take_or_create(key);
        match action {
            StateAction::Keep => {},
            StateAction::Define => s.define(),
            StateAction::Inject(outcome) => s.inject(outcome),
        }
        self.put(key.id, s);
    }

    /// Applies `action` to the slot of `key`, creating the slot first if there is none,
    /// and returns a handle whose cursor stands at the slot's version after the action.
    pub fn with_state_and_watch(&mut self, key: DependencyKey, action: StateAction) -> (w: Watch)
        requires
            old(self).wf(),
            action_fits(old(self)@, key.id, action),
        ensures
            final(self).wf(),
            final(self)@ == apply_in(old(self)@, key.id, action),
            w@ == (WatchView { key, seen: final(self)@[key.id].version }),
    {
        let mut s = self.take_or_create(key);
        match action {
            StateAction::Keep => {},
            StateAction::Define => s.define(),
            StateAction::Inject(outcome) => s.inject(outcome),
        }
        let w = Watch::new(key, s.version());
        self.put(key.id, s);
        w
    }

    /// Promises a value for `key`: an `Undefined` slot becomes `Pending` with one
    /// transition; any other slot is left as it is.
    pub fn define(&mut self, key: DependencyKey)
        requires
            old(self).wf(),
        ensures
            final(self).wf(),
            final(self)@ == define_in(old(self)@, key.id),
    {
        self.with_state(key, StateAction::Define);
    }

    /// Sets the outcome of `key`, whatever its slot held, with one transition.
    pub fn inject(&mut self, key: DependencyKey, outcome: Result<Erased, ResolutionError>)
        requires
            old(self).wf(),
            slot_of(old(self)@, key.id).version < u64::MAX,
        ensures
            final(self).wf(),
            final(self)@ == inject_in(old(self)@, key.id, outcome),
    {
        self.with_state(key, StateAction::Inject(outcome));
    }

    /// Sets the outcome of `key` from an optional value: a missing value is recorded as
    /// the failure `NotDefined(key)`.
    pub fn inject_optional(
        &mut self,
        key: DependencyKey,
        outcome: Result<Option<Erased>, ResolutionError>,
    )
        requires
            old(self).wf(),
            slot_of(old(self)@, key.id).version < u64::MAX,
        ensures
            final(self).wf(),
            final(self)@ == inject_in(
                old(self)@,
                key.id,
                match outcome {
                    Ok(Some(v)) => Ok(v),
                    Ok(None) => Err(ResolutionError::NotDefined(key)),
                    Err(e) => Err(e),
                },
            ),
    {
        let flat = match outcome {
            Ok(Some(v)) => Ok(v),
            Ok(None) => Err(ResolutionError::not_defined(key)),
            Err(e) => Err(e),
        };
        self.inject(key, flat);
    }

    /// Sets the outcome of `key` from a nested result: either failure is recorded as is.
    pub fn inject_result(
        &mut self,
        key: DependencyKey,
        outcome: Result<Result<Erased, ResolutionError>, ResolutionError>,
    )
        requires
            old(self).wf(),
            slot_of(old(self)@, key.id).version < u64::MAX,
        ensures
            final(self).wf(),
            final(self)@ == inject_in(
                old(self)@,
                key.id,
                match outcome {
                    Ok(inner) => inner,
                    Err(e) => Err(e),
                },
            ),
    {
        let flat = match outcome {
            Ok(inner) => inner,
            Err(e) => Err(e),
        };
        self.inject(key, flat);
    }

    /// A handle on the slot of `key`, which is created if there is none; its first
    /// `changed` waits for a transition after this call.
    pub fn watch(&mut self, key: DependencyKey) -> (w: Watch)
        requires
            old(self).wf(),
        ensures
            final(self).wf(),
            final(self)@ == watch_in(old(self)@, key.id),
            w@ == (WatchView { key, seen: slot_of(old(self)@, key.id).version }),
    {
        self.with_state_and_watch(key, StateAction::Keep)
    }

    /// The lifecycle of the slot of `id`, if there is a slot.
    fn lifecycle_of(&self, id: u64) -> (r: Option<&Lifecycle>)
        ensures
            r matches Some(l) ==> self@.contains_key(id) && *l == self@[id].lifecycle,
            r is None ==> !self@.contains_key(id),
    {
        match self.states.get(&id) {
            Some(s) => Some(s.lifecycle()),
            None => None,
        }
    }
}

impl Watch {
    /// Whether the slot went through a transition this handle has not seen.
    pub fn has_changed(&self, map: &StateMap) -> (r: bool)
        ensures
            r == changed_step(self@, slot_of(map@, self@.key.id)).0,
    {
        map.version(&self.key()) > self.seen()
    }
}

impl WatchOps for Watch {
    type Ty = Erased;

    open spec fn reads_current(&self, m: Slots, r: Result<Erased, ResolutionError>) -> bool {
        r == current_of(slot_of(m, self@.key.id).lifecycle, self@.key)
    }

    open spec fn reads_current_optional(
        &self,
        m: Slots,
        r: Result<Option<Erased>, ResolutionError>,
    ) -> bool {
        r == current_optional_of(slot_of(m, self@.key.id).lifecycle)
    }

    open spec fn steps_wait(
        &self,
        m: Slots,
        r: Option<Result<Erased, ResolutionError>>,
        after: Watch,
    ) -> bool {
        &&& r == wait_of(slot_of(m, self@.key.id).lifecycle, self@.key)
        &&& after@ == observed(self@, slot_of(m, self@.key.id))
    }

    open spec fn steps_wait_optional(
        &self,
        m: Slots,
        r: Option<Result<Option<Erased>, ResolutionError>>,
        after: Watch,
    ) -> bool {
        &&& r == wait_optional_of(slot_of(m, self@.key.id).lifecycle)
        &&& after@ == observed(self@, slot_of(m, self@.key.id))
    }

    open spec fn steps_wait_always(
        &self,
        m: Slots,
        r: Option<Result<Erased, ResolutionError>>,
        after: Watch,
    ) -> bool {
        &&& r == wait_always_of(slot_of(m, self@.key.id).lifecycle)
        &&& after@ == observed(self@, slot_of(m, self@.key.id))
    }

    open spec fn steps_wait_ok(
        &self,
        m: Slots,
        r: Option<Result<Erased, ResolutionError>>,
        after: Watch,
    ) -> bool {
        &&& r == wait_ok_of(slot_of(m, self@.key.id).lifecycle)
        &&& after@ == observed(self@, slot_of(m, self@.key.id))
    }

    open spec fn steps_changed(&self, m: Slots, fired: bool, after: Watch) -> bool {
        (fired, after@) == changed_step(self@, slot_of(m, self@.key.id))
    }

    /// The outcome if one is present, else `NotDefined`.
    fn current(&self, map: &StateMap) -> (r: Result<Erased, ResolutionError>) {
        let key = self.key();
        match map.lifecycle_of(key.id) {
            Some(l) => l.current(key),
            None => Err(ResolutionError::not_defined(key)),
        }
    }

    /// Like `current`, but a slot without an outcome reads as `Ok(None)`.
    fn current_optional(&self, map: &StateMap) -> (r: Result<Option<Erased>, ResolutionError>) {
        match map.lifecycle_of(self.key().id) {
            Some(l) => l.current_optional(),
            None => Ok(None),
        }
    }

    /// Goes on while the slot is `Pending`; then reads as `current`.
    fn poll_wait(&mut self, map: &StateMap) -> (r: Option<Result<Erased, ResolutionError>>) {
        let key = self.key();
        let r = match map.lifecycle_of(key.id) {
            Some(l) => l.poll_wait(key),
            None => Some(Err(ResolutionError::not_defined(key))),
        };
        self.mark_seen(map.version(&key));
        r
    }

    /// Goes on while the slot is `Pending`; then reads as `current_optional`.
    fn poll_wait_optional(&mut self, map: &StateMap) -> (r: Option<
        Result<Option<Erased>, ResolutionError>,
    >) {
        let key = self.key();
        let r = match map.lifecycle_of(key.id) {
            Some(l) => l.poll_wait_optional(),
            None => Some(Ok(None)),
        };
        self.mark_seen(map.version(&key));
        r
    }

    /// Goes on until an outcome other than a `NotDefined` failure is present.
    fn poll_wait_always(&mut self, map: &StateMap) -> (r: Option<Result<Erased, ResolutionError>>) {
        let key = self.key();
        let r = match map.lifecycle_of(key.id) {
            Some(l) => l.poll_wait_always(),
            None => None,
        };
        self.mark_seen(map.version(&key));
        r
    }

    /// Goes on until a successful outcome is present.
    fn poll_wait_ok(&mut self, map: &StateMap) -> (r: Option<Result<Erased, ResolutionError>>) {
        let key = self.key();
        let r = match map.lifecycle_of(key.id) {
            Some(l) => l.poll_wait_ok(),
            None => None,
        };
        self.mark_seen(map.version(&key));
        r
    }

    /// Fires if the slot went through a transition this handle has not seen, and then
    /// moves the cursor to the slot's version.
    fn poll_changed(&mut self, map: &StateMap) -> (fired: bool) {
        let v = map.version(&self.key());
        self.observe(v)
    }
}

/// Promising a value for a key twice leaves the store as promising it once, and the
/// key's slot goes through at most one transition.
pub proof fn lemma_define_twice(m: Slots, id: u64)
    ensures
        define_in(define_in(m, id), id) == define_in(m, id),
        slot_of(define_in(m, id), id).version <= slot_of(m, id).version + 1,
{
    lemma_define_idempotent(slot_of(m, id));
    assert(define_in(define_in(m, id), id) =~= define_in(m, id));
}

/// Watching a key again adds no second slot and changes nothing observable: every handle
/// on a key reads the one slot of that key.
pub proof fn lemma_watch_twice(m: Slots, id: u64)
    ensures
        watch_in(watch_in(m, id), id) == watch_in(m, id),
        watch_in(m, id).dom() == m.dom().insert(id),
        forall|k: u64| #[trigger] slot_of(watch_in(m, id), k) == slot_of(m, k),
{
    assert(watch_in(watch_in(m, id), id) =~= watch_in(m, id));
    assert(watch_in(m, id).dom() =~= m.dom().insert(id));
}

/// The slots after `ops` were applied in order, each an action on the slot of an id.
pub open spec fn apply_all(m: Slots, ops: Seq<(u64, StateAction)>) -> Slots
    decreases ops.len(),
{
    if ops.len() == 0 {
        m
    } else {
        apply_in(apply_all(m, ops.drop_last()), ops.last().0, ops.last().1)
    }
}

proof fn lemma_untouched_slot(ops: Seq<(u64, StateAction)>, id: u64)
    requires
        forall|i: int| 0 <= i < ops.len() && (#[trigger] ops[i]).0 == id ==> ops[i].1 is Keep,
    ensures
        slot_of(apply_all(Map::empty(), ops), id) == fresh_slot(),
    decreases ops.len(),
{
    if ops.len() > 0 {
        let rest = ops.drop_last();
        assert forall|i: int| 0 <= i < rest.len() && (#[trigger] rest[i]).0 == id implies rest[i].1 is Keep by {
            assert(rest[i] == ops[i]);
        }
        lemma_untouched_slot(rest, id);
        assert(ops.last() == ops[ops.len() - 1]);
    }
}

/// Any number of first uses of one key through `watch` leave exactly one slot for it,
/// reading as a fresh one: every handle taken is wired to that same slot.
pub proof fn lemma_watches_share_one_slot(ops: Seq<(u64, StateAction)>, id: u64)
    requires
        ops.len() > 0,
        forall|i: int| 0 <= i < ops.len() ==> (#[trigger] ops[i]) == (id, StateAction::Keep),
    ensures
        apply_all(Map::empty(), ops).dom() == set![id],
        apply_all(Map::empty(), ops)[id] == fresh_slot(),
    decreases ops.len(),
{
    let rest = ops.drop_last();
    assert(ops.last() == ops[ops.len() - 1]);
    if rest.len() > 0 {
        assert forall|i: int| 0 <= i < rest.len() implies (#[trigger] rest[i]) == (id, StateAction::Keep) by {
            assert(rest[i] == ops[i]);
        }
        lemma_watches_share_one_slot(rest, id);
    }
    assert(apply_all(Map::empty(), ops).dom() =~= set![id]);
}

/// Handles taken by any number of first uses of one key through `watch` all read one
/// slot: after a single `inject` of `outcome` on that key, each of them reads `outcome` and
/// each one's `changed` fires, and the store holds that key's slot alone.
pub proof fn lemma_watches_see_one_inject(
    ops: Seq<(u64, StateAction)>,
    handles: Seq<WatchView>,
    key: DependencyKey,
    outcome: Result<Erased, ResolutionError>,
)
    requires
        ops.len() > 0,
        forall|i: int| 0 <= i < ops.len() ==> (#[trigger] ops[i]) == (key.id, StateAction::Keep),
        forall|i: int|
            0 <= i < handles.len() ==> (#[trigger] handles[i]) == (WatchView {
                key: handles[i].key,
                seen: slot_of(apply_all(Map::empty(), ops), key.id).version,
            }) && handles[i].key.id == key.id,
    ensures
        ({
            let m = inject_in(apply_all(Map::empty(), ops), key.id, outcome);
            &&& m.dom() == set![key.id]
            &&& forall|i: int|
                0 <= i < handles.len() ==> current_of(
                    slot_of(m, (#[trigger] handles[i]).key.id).lifecycle,
                    handles[i].key,
                ) == outcome && changed_step(handles[i], slot_of(m, handles[i].key.id)).0
        }),
{
    lemma_watches_share_one_slot(ops, key.id);
    let m = inject_in(apply_all(Map::empty(), ops), key.id, outcome);
    assert(m.dom() =~= set![key.id]);
}

/// A key that was never promised nor given a value, whatever else happened to the store
/// since it was made, reads `NotDefined` from `current` and `wait`, and nothing from
/// `current_optional`, on any handle on it.
pub proof fn lemma_never_defined(ops: Seq<(u64, StateAction)>, key: DependencyKey)
    requires
        forall|i: int| 0 <= i < ops.len() && (#[trigger] ops[i]).0 == key.id ==> ops[i].1 is Keep,
    ensures
        ({
            let l = slot_of(apply_all(Map::empty(), ops), key.id).lifecycle;
            &&& current_of(l, key) == Err::<Erased, _>(ResolutionError::NotDefined(key))
            &&& wait_of(l, key) == Some(Err::<Erased, _>(ResolutionError::NotDefined(key)))
            &&& current_optional_of(l) == Ok::<_, ResolutionError>(None::<Erased>)
        }),
{
    lemma_untouched_slot(ops, key.id);
    lemma_undefined_reads(key);
}

/// A store that values can be promised to, injected into and watched from.
pub trait Injector: Sized {
    /// The slot of each id that has one.
    spec fn slots(&self) -> Slots;

    spec fn injector_wf(&self) -> bool;

    /// Promises a value for `key`.
    fn define(&mut self, key: DependencyKey)
        requires
            old(self).injector_wf(),
        ensures
            final(self).injector_wf(),
            final(self).slots() == define_in(old(self).slots(), key.id),
    ;

    /// Sets the outcome of `key`.
    fn inject(&mut self, key: DependencyKey, outcome: Result<Erased, ResolutionError>)
        requires
            old(self).injector_wf(),
            slot_of(old(self).slots(), key.id).version < u64::MAX,
        ensures
            final(self).injector_wf(),
            final(self).slots() == inject_in(old(self).slots(), key.id, outcome),
    ;

    /// A handle on the slot of `key`.
    fn watch(&mut self, key: DependencyKey) -> (w: Watch)
        requires
            old(self).injector_wf(),
        ensures
            final(self).injector_wf(),
            final(self).slots() == watch_in(old(self).slots(), key.id),
            w@ == (WatchView { key, seen: slot_of(old(self).slots(), key.id).version }),
    ;
}

impl Injector for StateMap {
    open spec fn slots(&self) -> Slots {
        self@
    }

    open spec fn injector_wf(&self) -> bool {
        self.wf()
    }

    fn define(&mut self, key: DependencyKey) {
        StateMap::define(self, key)
    }

    fn inject(&mut self, key: DependencyKey, outcome: Result<Erased, ResolutionError>) {
        StateMap::inject(self, key, outcome)
    }

    fn watch(&mut self, key: DependencyKey) -> (w: Watch) {
        StateMap::watch(self, key)
    }
}

} // verus!
