//! One dependency's slot: its lifecycle, its version, and the rules by which a handle
//! reads it.

use vstd::prelude::*;

use crate::erased::Erased;
use crate::error::{DependencyKey, ResolutionError};

verus! {

/// Where a slot stands: no producer yet, a producer promised, or an outcome present.
#[derive(Debug)]
pub enum Lifecycle {
    Undefined,
    Pending,
    Ready(Result<Erased, ResolutionError>),
}

/// An outcome that `wait_always` accepts: anything but a `NotDefined` failure.
pub open spec fn is_conclusive(r: Result<Erased, ResolutionError>) -> bool {
    !(r matches Err(ResolutionError::NotDefined(_)))
}

/// What `current` reads from a slot in state `l`, for a handle on `key`.
pub open spec fn current_of(l: Lifecycle, key: DependencyKey) -> Result<Erased, ResolutionError> {
    match l {
        Lifecycle::Ready(r) => r,
        _ => Err(ResolutionError::NotDefined(key)),
    }
}

/// What `current_optional` reads from a slot in state `l`.
pub open spec fn current_optional_of(l: Lifecycle) -> Result<Option<Erased>, ResolutionError> {
    match l {
        Lifecycle::Ready(Ok(v)) => Ok(Some(v)),
        Lifecycle::Ready(Err(e)) => Err(e),
        _ => Ok(None),
    }
}

/// What `wait` resolves to on a slot in state `l`; `None` while it must go on waiting.
pub open spec fn wait_of(l: Lifecycle, key: DependencyKey) -> Option<
    Result<Erased, ResolutionError>,
> {
    match l {
        Lifecycle::Pending => None,
        Lifecycle::Undefined => Some(Err(ResolutionError::NotDefined(key))),
        Lifecycle::Ready(r) => Some(r),
    }
}

/// What `wait_optional` resolves to on a slot in state `l`; `None` while it must wait.
pub open spec fn wait_optional_of(l: Lifecycle) -> Option<
    Result<Option<Erased>, ResolutionError>,
> {
    match l {
        Lifecycle::Pending => None,
        Lifecycle::Undefined => Some(Ok(None)),
        Lifecycle::Ready(Ok(v)) => Some(Ok(Some(v))),
        Lifecycle::Ready(Err(e)) => Some(Err(e)),
    }
}

/// What `wait_always` resolves to on a slot in state `l`; `None` while it must wait.
pub open spec fn wait_always_of(l: Lifecycle) -> Option<Result<Erased, ResolutionError>> {
    match l {
        Lifecycle::Ready(r) => if is_conclusive(r) {
            Some(r)
        } else {
            None
        },
        _ => None,
    }
}

/// What `wait_ok` resolves to on a slot in state `l`; `None` while it must wait.
pub open spec fn wait_ok_of(l: Lifecycle) -> Option<Result<Erased, ResolutionError>> {
    match l {
        Lifecycle::Ready(Ok(v)) => Some(Ok(v)),
        _ => None,
    }
}

impl Lifecycle {
    /// The state after a producer is promised.
    pub open spec fn defined(self) -> Lifecycle {
        match self {
            Lifecycle::Undefined => Lifecycle::Pending,
            other => other,
        }
    }

    /// Moves `Undefined` to `Pending` and reports whether anything changed.
    pub fn define(&mut self) -> (changed: bool)
        ensures
            changed == *old(self) is Undefined,
            *final(self) == old(self).defined(),
    {
        if matches!(self, Lifecycle::Undefined) {
            *self = Lifecycle::Pending;
            true
        } else {
            false
        }
    }

    /// Whether an outcome is present and `wait_always` would take it.
    pub fn is_ready_and_conclusive(&self) -> (r: bool)
        ensures
            r == (*self matches Lifecycle::Ready(o) && is_conclusive(o)),
    {
        match self {
            Lifecycle::Ready(Err(ResolutionError::NotDefined(_))) => false,
            Lifecycle::Ready(_) => true,
            _ => false,
        }
    }

    pub fn current(&self, key: DependencyKey) -> (r: Result<Erased, ResolutionError>)
        ensures
            r == current_of(*self, key),
    {
        match self {
            Lifecycle::Ready(Ok(v)) => Ok(v.duplicate()),
            Lifecycle::Ready(Err(e)) => Err(e.duplicate()),
            _ => Err(ResolutionError::not_defined(key)),
        }
    }

    pub fn current_optional(&self) -> (r: Result<Option<Erased>, ResolutionError>)
        ensures
            r == current_optional_of(*self),
    {
        match self {
            Lifecycle::Ready(Ok(v)) => Ok(Some(v.duplicate())),
            Lifecycle::Ready(Err(e)) => Err(e.duplicate()),
            _ => Ok(None),
        }
    }

    pub fn poll_wait(&self, key: DependencyKey) -> (r: Option<Result<Erased, ResolutionError>>)
        ensures
            r == wait_of(*self, key),
    {
        match self {
            Lifecycle::Pending => None,
            _ => Some(self.current(key)),
        }
    }

    pub fn poll_wait_optional(&self) -> (r: Option<Result<Option<Erased>, ResolutionError>>)
        ensures
            r == wait_optional_of(*self),
    {
        match self {
            Lifecycle::Pending => None,
            _ => Some(self.current_optional()),
        }
    }

    pub fn poll_wait_always(&self) -> (r: Option<Result<Erased, ResolutionError>>)
        ensures
            r == wait_always_of(*self),
    {
        if self.is_ready_and_conclusive() {
            match self {
                Lifecycle::Ready(Ok(v)) => Some(Ok(v.duplicate())),
                Lifecycle::Ready(Err(e)) => Some(Err(e.duplicate())),
                _ => None,
            }
        } else {
            None
        }
    }

    pub fn poll_wait_ok(&self) -> (r: Option<Result<Erased, ResolutionError>>)
        ensures
            r == wait_ok_of(*self),
    {
        match self {
            Lifecycle::Ready(Ok(v)) => Some(Ok(v.duplicate())),
            _ => None,
        }
    }
}

/// The observable state of a slot: its lifecycle and how many transitions it went through.
pub ghost struct SlotView {
    pub lifecycle: Lifecycle,
    pub version: nat,
}

/// A slot no one has touched yet.
pub open spec fn fresh_slot() -> SlotView {
    SlotView { lifecycle: Lifecycle::Undefined, version: 0 }
}

/// A slot after `define`: one transition if it was `Undefined`, none otherwise.
pub open spec fn define_slot(s: SlotView) -> SlotView {
    if s.lifecycle is Undefined {
        SlotView { lifecycle: Lifecycle::Pending, version: s.version + 1 }
    } else {
        s
    }
}

/// A slot after `inject(outcome)`: always one transition.
pub open spec fn inject_slot(s: SlotView, outcome: Result<Erased, ResolutionError>) -> SlotView {
    SlotView { lifecycle: Lifecycle::Ready(outcome), version: s.version + 1 }
}

/// A slot is left `Undefined` by its first transition, so an `Undefined` slot has none.
pub open spec fn slot_wf(s: SlotView) -> bool {
    &&& s.lifecycle is Undefined ==> s.version == 0
    &&& s.version <= u64::MAX
}

/// What a handle knows: which key it watches and the last version it saw.
pub ghost struct WatchView {
    pub key: DependencyKey,
    pub seen: nat,
}

/// One `changed` check of a handle against a slot: whether it fires, and the handle after.
pub open spec fn changed_step(w: WatchView, s: SlotView) -> (bool, WatchView) {
    if s.version > w.seen {
        (true, WatchView { key: w.key, seen: s.version })
    } else {
        (false, w)
    }
}

/// A handle after it looked at a slot: it has seen the slot's current version.
pub open spec fn observed(w: WatchView, s: SlotView) -> WatchView {
    WatchView { key: w.key, seen: s.version }
}

/// One dependency's slot.
pub struct State {
    key: DependencyKey,
    inner: Lifecycle,
    version: u64,
}

impl View for State {
    type V = SlotView;

    closed spec fn view(&self) -> SlotView {
        SlotView { lifecycle: self.inner, version: self.version as nat }
    }
}

impl State {
    pub closed spec fn key_spec(&self) -> DependencyKey {
        self.key
    }

    pub open spec fn wf(&self) -> bool {
        slot_wf(self@)
    }

    /// A fresh, undefined slot for `key`.
    pub fn new(key: DependencyKey) -> (r: State)
        ensures
            r@ == fresh_slot(),
            r.key_spec() == key,
            r.wf(),
    {
        State { key, inner: Lifecycle::Undefined, version: 0 }
    }

    pub fn key(&self) -> (r: DependencyKey)
        ensures
            r == self.key_spec(),
    {
        self.key
    }

    pub fn version(&self) -> (r: u64)
        ensures
            r == self@.version,
    {
        self.version
    }

    pub fn lifecycle(&self) -> (r: &Lifecycle)
        ensures
            *r == self@.lifecycle,
    {
        &self.inner
    }

    /// Promises a value: `Undefined` becomes `Pending` with one transition; otherwise
    /// nothing changes.
    pub fn define(&mut self)
        requires
            old(self).wf(),
        ensures
            final(self)@ == define_slot(old(self)@),
            final(self).key_spec() == old(self).key_spec(),
            final(self).wf(),
    {
        if self.inner.define() {
            self.version = self.version + 1;
        }
    }

    /// Sets the outcome, whatever the slot held before, with one transition.
    pub fn inject(&mut self, outcome: Result<Erased, ResolutionError>)
        requires
            old(self).wf(),
            old(self)@.version < u64::MAX,
        ensures
            final(self)@ == inject_slot(old(self)@, outcome),
            final(self).key_spec() == old(self).key_spec(),
            final(self).wf(),
    {
        self.inner = Lifecycle::Ready(outcome);
        self.version = self.version + 1;
    }

    /// A handle on this slot whose first `changed` waits for a transition after this call.
    pub fn watch(&self) -> (w: Watch)
        ensures
            w@ == (WatchView { key: self.key_spec(), seen: self@.version }),
    {
        Watch::new(self.key, self.version)
    }
}

/// A handle on one slot: the key it reads and the last version it saw.
#[derive(Clone, Copy, Debug)]
pub struct Watch {
    key: DependencyKey,
    seen: u64,
}

impl View for Watch {
    type V = WatchView;

    closed spec fn view(&self) -> WatchView {
        WatchView { key: self.key, seen: self.seen as nat }
    }
}

impl Watch {
    pub fn new(key: DependencyKey, seen: u64) -> (w: Watch)
        ensures
            w@ == (WatchView { key, seen: seen as nat }),
    {
        Watch { key, seen }
    }

    pub fn key(&self) -> (r: DependencyKey)
        ensures
            r == self@.key,
    {
        self.key
    }

    pub fn seen(&self) -> (r: u64)
        ensures
            r == self@.seen,
    {
        self.seen
    }

    /// Marks `version` as the last version seen.
    pub fn mark_seen(&mut self, version: u64)
        ensures
            final(self)@ == (WatchView { key: old(self)@.key, seen: version as nat }),
    {
        self.seen = version;
    }

    /// Moves the cursor to `version` if the slot went past what this handle saw.
    pub fn observe(&mut self, version: u64) -> (fired: bool)
        ensures
            (fired, final(self)@) == changed_step(
                old(self)@,
                SlotView { lifecycle: Lifecycle::Undefined, version: version as nat },
            ),
    {
        if version > self.seen {
            self.seen = version;
            true
        } else {
            false
        }
    }
}

/// Successive firings of one handle report strictly increasing versions, each the version
/// of the slot it was checked against.
pub proof fn lemma_changed_monotonic(w: WatchView, s1: SlotView, s2: SlotView)
    ensures
        ({
            let (fired1, w1) = changed_step(w, s1);
            let (fired2, w2) = changed_step(w1, s2);
            &&& fired1 ==> w.seen < w1.seen && w1.seen == s1.version
            &&& fired2 ==> w1.seen < w2.seen && w2.seen == s2.version
            &&& w.seen <= w1.seen <= w2.seen
        }),
{
}

/// Promising a value twice leaves the slot as promising it once, after at most one
/// transition.
pub proof fn lemma_define_idempotent(s: SlotView)
    ensures
        define_slot(define_slot(s)) == define_slot(s),
        define_slot(s).version <= s.version + 1,
{
}

/// No transition lowers a slot's version or sends it back: a slot past `Undefined` never
/// returns there, and a slot with an outcome keeps having one.
pub proof fn lemma_transitions_monotonic(s: SlotView, outcome: Result<Erased, ResolutionError>)
    ensures
        define_slot(s).version >= s.version,
        inject_slot(s, outcome).version == s.version + 1,
        !(s.lifecycle is Undefined) ==> !(define_slot(s).lifecycle is Undefined),
        s.lifecycle is Ready ==> define_slot(s).lifecycle is Ready,
        inject_slot(s, outcome).lifecycle is Ready,
{
}

/// A handle on a slot that was never promised nor given a value reads `NotDefined` from
/// `current` and `wait`, and nothing from `current_optional`.
pub proof fn lemma_undefined_reads(key: DependencyKey)
    ensures
        current_of(fresh_slot().lifecycle, key) == Err::<Erased, _>(ResolutionError::NotDefined(key)),
        wait_of(fresh_slot().lifecycle, key) == Some(Err::<Erased, _>(ResolutionError::NotDefined(key))),
        current_optional_of(fresh_slot().lifecycle) == Ok::<_, ResolutionError>(None::<Erased>),
{
}

} // verus!
