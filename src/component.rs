//! Wrappers that change how a handle is read: which wait it performs, or what shape its
//! values take.

use vstd::prelude::*;

use crate::error::ResolutionError;
use crate::state_map::StateMap;
use crate::watch::{Slots, Watch};

verus! {

/// `r` with `f` applied to its value.
pub open spec fn map_result<A, B>(r: Result<A, ResolutionError>, f: spec_fn(A) -> B) -> Result<
    B,
    ResolutionError,
> {
    match r {
        Ok(a) => Ok(f(a)),
        Err(e) => Err(e),
    }
}

/// `r` with `f` applied to its value, if it has one.
pub open spec fn map_optional<A, B>(
    r: Result<Option<A>, ResolutionError>,
    f: spec_fn(A) -> B,
) -> Result<Option<B>, ResolutionError> {
    match r {
        Ok(Some(a)) => Ok(Some(f(a))),
        Ok(None) => Ok(None),
        Err(e) => Err(e),
    }
}

/// A wait step with `f` applied to its value.
pub open spec fn map_step<A, B>(
    r: Option<Result<A, ResolutionError>>,
    f: spec_fn(A) -> B,
) -> Option<Result<B, ResolutionError>> {
    match r {
        Some(x) => Some(map_result(x, f)),
        None => None,
    }
}

/// An optional wait step with `f` applied to its value, if it has one.
pub open spec fn map_optional_step<A, B>(
    r: Option<Result<Option<A>, ResolutionError>>,
    f: spec_fn(A) -> B,
) -> Option<Result<Option<B>, ResolutionError>> {
    match r {
        Some(x) => Some(map_optional(x, f)),
        None => None,
    }
}

/// The result that `r` wraps in `Some`, or `None` if `r` is `Ok(None)`.
pub open spec fn strip_some<A>(r: Result<Option<A>, ResolutionError>) -> Option<
    Result<A, ResolutionError>,
> {
    match r {
        Ok(Some(a)) => Some(Ok(a)),
        Ok(None) => None,
        Err(e) => Some(Err(e)),
    }
}

/// The wait step that `r` wraps in `Some`, or `None` if `r` is `Some(Ok(None))`.
pub open spec fn strip_some_step<A>(r: Option<Result<Option<A>, ResolutionError>>) -> Option<
    Option<Result<A, ResolutionError>>,
> {
    match r {
        None => Some(None),
        Some(x) => match strip_some(x) {
            Some(y) => Some(Some(y)),
            None => None,
        },
    }
}

/// A value read as one component.
#[derive(Clone, Copy, Debug, PartialEq, Eq)]
pub struct Component<T>(pub T);

/// A value read as it stands, without waiting.
#[derive(Clone, Copy, Debug, PartialEq, Eq)]
pub struct Current<T>(pub T);

/// A value read once a conclusive outcome is there, promised or not.
#[derive(Clone, Copy, Debug, PartialEq, Eq)]
pub struct WaitAlways<T>(pub T);

/// A value read once it was produced successfully.
#[derive(Clone, Copy, Debug, PartialEq, Eq)]
pub struct WaitOk<T>(pub T);

/// Reads a handle's values as [`Component`]s.
#[derive(Clone, Copy, Debug)]
pub struct ComponentWatch<W>(W);

impl<W: Watch> View for ComponentWatch<W> {
    type V = W;

    closed spec fn view(&self) -> W {
        self.0
    }
}

impl<W: Watch> ComponentWatch<W> {
    /// Wraps `watch`.
    pub fn new(watch: W) -> (r: ComponentWatch<W>)
        ensures
            r@ == watch,
    {
        ComponentWatch(watch)
    }

    /// The wrapped handle.
    pub fn into_inner(self) -> (r: W)
        ensures
            r == self@,
    {
        self.0
    }
}

impl<W: Watch> Watch for ComponentWatch<W> {
    type Ty = Component<W::Ty>;

    open spec fn reads_current(&self, m: Slots, r: Result<Component<W::Ty>, ResolutionError>) -> bool {
        self@.reads_current(m, map_result(r, |c: Component<W::Ty>| c.0))
    }

    open spec fn reads_current_optional(
        &self,
        m: Slots,
        r: Result<Option<Component<W::Ty>>, ResolutionError>,
    ) -> bool {
        self@.reads_current_optional(m, map_optional(r, |c: Component<W::Ty>| c.0))
    }

    open spec fn steps_wait(
        &self,
        m: Slots,
        r: Option<Result<Component<W::Ty>, ResolutionError>>,
        after: ComponentWatch<W>,
    ) -> bool {
        self@.steps_wait(m, map_step(r, |c: Component<W::Ty>| c.0), after@)
    }

    open spec fn steps_wait_optional(
        &self,
        m: Slots,
        r: Option<Result<Option<Component<W::Ty>>, ResolutionError>>,
        after: ComponentWatch<W>,
    ) -> bool {
        self@.steps_wait_optional(m, map_optional_step(r, |c: Component<W::Ty>| c.0), after@)
    }

    open spec fn steps_wait_always(
        &self,
        m: Slots,
        r: Option<Result<Component<W::Ty>, ResolutionError>>,
        after: ComponentWatch<W>,
    ) -> bool {
        self@.steps_wait_always(m, map_step(r, |c: Component<W::Ty>| c.0), after@)
    }

    open spec fn steps_wait_ok(
        &self,
        m: Slots,
        r: Option<Result<Component<W::Ty>, ResolutionError>>,
        after: ComponentWatch<W>,
    ) -> bool {
        self@.steps_wait_ok(m, map_step(r, |c: Component<W::Ty>| c.0), after@)
    }

    open spec fn steps_changed(&self, m: Slots, fired: bool, after: ComponentWatch<W>) -> bool {
        self@.steps_changed(m, fired, after@)
    }

    fn current(&self, map: &StateMap) -> (r: Result<Component<W::Ty>, ResolutionError>) {
        match self.0.current(map) {
            Ok(v) => Ok(Component(v)),
            Err(e) => Err(e),
        }
    }

    fn current_optional(&self, map: &StateMap) -> (r: Result<Option<Component<W::Ty>>, ResolutionError>) {
        match self.0.current_optional(map) {
            Ok(Some(v)) => Ok(Some(Component(v))),
            Ok(None) => Ok(None),
            Err(e) => Err(e),
        }
    }

    fn poll_wait(&mut self, map: &StateMap) -> (r: Option<Result<Component<W::Ty>, ResolutionError>>) {
        match self.0.poll_wait(map) {
            Some(Ok(v)) => Some(Ok(Component(v))),
            Some(Err(e)) => Some(Err(e)),
            None => None,
        }
    }

    fn poll_wait_optional(&mut self, map: &StateMap) -> (r: Option<
        Result<Option<Component<W::Ty>>, ResolutionError>,
    >) {
        match self.0.poll_wait_optional(map) {
            Some(Ok(Some(v))) => Some(Ok(Some(Component(v)))),
            Some(Ok(None)) => Some(Ok(None)),
            Some(Err(e)) => Some(Err(e)),
            None => None,
        }
    }

    fn poll_wait_always(&mut self, map: &StateMap) -> (r: Option<Result<Component<W::Ty>, ResolutionError>>) {
        match self.0.poll_wait_always(map) {
            Some(Ok(v)) => Some(Ok(Component(v))),
            Some(Err(e)) => Some(Err(e)),
            None => None,
        }
    }

    fn poll_wait_ok(&mut self, map: &StateMap) -> (r: Option<Result<Component<W::Ty>, ResolutionError>>) {
        match self.0.poll_wait_ok(map) {
            Some(Ok(v)) => Some(Ok(Component(v))),
            Some(Err(e)) => Some(Err(e)),
            None => None,
        }
    }

    fn poll_changed(&mut self, map: &StateMap) -> (fired: bool) {
        self.0.poll_changed(map)
    }
}

/// Reads a handle's values as [`Current`]s: every wait ends at once with the current read,
/// and `changed` never fires.
#[derive(Clone, Copy, Debug)]
pub struct CurrentWatch<W>(W);

impl<W: Watch> View for CurrentWatch<W> {
    type V = W;

    closed spec fn view(&self) -> W {
        self.0
    }
}

impl<W: Watch> CurrentWatch<W> {
    /// Wraps `watch`.
    pub fn new(watch: W) -> (r: CurrentWatch<W>)
        ensures
            r@ == watch,
    {
        CurrentWatch(watch)
    }

    /// The wrapped handle.
    pub fn into_inner(self) -> (r: W)
        ensures
            r == self@,
    {
        self.0
    }
}

impl<W: Watch> Watch for CurrentWatch<W> {
    type Ty = Current<W::Ty>;

    open spec fn reads_current(&self, m: Slots, r: Result<Current<W::Ty>, ResolutionError>) -> bool {
        self@.reads_current(m, map_result(r, |c: Current<W::Ty>| c.0))
    }

    open spec fn reads_current_optional(
        &self,
        m: Slots,
        r: Result<Option<Current<W::Ty>>, ResolutionError>,
    ) -> bool {
        self@.reads_current_optional(m, map_optional(r, |c: Current<W::Ty>| c.0))
    }

    open spec fn steps_wait(
        &self,
        m: Slots,
        r: Option<Result<Current<W::Ty>, ResolutionError>>,
        after: CurrentWatch<W>,
    ) -> bool {
        r matches Some(x) && self@.reads_current(m, map_result(x, |c: Current<W::Ty>| c.0)) && after == *self
    }

    open spec fn steps_wait_optional(
        &self,
        m: Slots,
        r: Option<Result<Option<Current<W::Ty>>, ResolutionError>>,
        after: CurrentWatch<W>,
    ) -> bool {
        r matches Some(x) && self@.reads_current_optional(m, map_optional(x, |c: Current<W::Ty>| c.0)) && after == *self
    }

    open spec fn steps_wait_always(
        &self,
        m: Slots,
        r: Option<Result<Current<W::Ty>, ResolutionError>>,
        after: CurrentWatch<W>,
    ) -> bool {
        r matches Some(x) && self@.reads_current(m, map_result(x, |c: Current<W::Ty>| c.0)) && after == *self
    }

    open spec fn steps_wait_ok(
        &self,
        m: Slots,
        r: Option<Result<Current<W::Ty>, ResolutionError>>,
        after: CurrentWatch<W>,
    ) -> bool {
        r matches Some(x) && self@.reads_current(m, map_result(x, |c: Current<W::Ty>| c.0)) && after == *self
    }

    open spec fn steps_changed(&self, m: Slots, fired: bool, after: CurrentWatch<W>) -> bool {
        !fired && after == *self
    }

    fn current(&self, map: &StateMap) -> (r: Result<Current<W::Ty>, ResolutionError>) {
        match self.0.current(map) {
            Ok(v) => Ok(Current(v)),
            Err(e) => Err(e),
        }
    }

    fn current_optional(&self, map: &StateMap) -> (r: Result<Option<Current<W::Ty>>, ResolutionError>) {
        match self.0.current_optional(map) {
            Ok(Some(v)) => Ok(Some(Current(v))),
            Ok(None) => Ok(None),
            Err(e) => Err(e),
        }
    }

    fn poll_wait(&mut self, map: &StateMap) -> (r: Option<Result<Current<W::Ty>, ResolutionError>>) {
        Some(self.current(map))
    }

    fn poll_wait_optional(&mut self, map: &StateMap) -> (r: Option<
        Result<Option<Current<W::Ty>>, ResolutionError>,
    >) {
        Some(self.current_optional(map))
    }

    fn poll_wait_always(&mut self, map: &StateMap) -> (r: Option<Result<Current<W::Ty>, ResolutionError>>) {
        Some(self.current(map))
    }

    fn poll_wait_ok(&mut self, map: &StateMap) -> (r: Option<Result<Current<W::Ty>, ResolutionError>>) {
        Some(self.current(map))
    }

    /// Never fires: this handle does not follow changes.
    fn poll_changed(&mut self, map: &StateMap) -> (fired: bool) {
        false
    }
}

/// Reads a handle's values as [`WaitAlways`]s: `wait` waits for a conclusive outcome.
#[derive(Clone, Copy, Debug)]
pub struct WaitAlwaysWatch<W>(W);

impl<W: Watch> View for WaitAlwaysWatch<W> {
    type V = W;

    closed spec fn view(&self) -> W {
        self.0
    }
}

impl<W: Watch> WaitAlwaysWatch<W> {
    /// Wraps `watch`.
    pub fn new(watch: W) -> (r: WaitAlwaysWatch<W>)
        ensures
            r@ == watch,
    {
        WaitAlwaysWatch(watch)
    }

    /// The wrapped handle.
    pub fn into_inner(self) -> (r: W)
        ensures
            r == self@,
    {
        self.0
    }
}

impl<W: Watch> Watch for WaitAlwaysWatch<W> {
    type Ty = WaitAlways<W::Ty>;

    open spec fn reads_current(&self, m: Slots, r: Result<WaitAlways<W::Ty>, ResolutionError>) -> bool {
        self@.reads_current(m, map_result(r, |c: WaitAlways<W::Ty>| c.0))
    }

    open spec fn reads_current_optional(
        &self,
        m: Slots,
        r: Result<Option<WaitAlways<W::Ty>>, ResolutionError>,
    ) -> bool {
        self@.reads_current_optional(m, map_optional(r, |c: WaitAlways<W::Ty>| c.0))
    }

    open spec fn steps_wait(
        &self,
        m: Slots,
        r: Option<Result<WaitAlways<W::Ty>, ResolutionError>>,
        after: WaitAlwaysWatch<W>,
    ) -> bool {
        self@.steps_wait_always(m, map_step(r, |c: WaitAlways<W::Ty>| c.0), after@)
    }

    open spec fn steps_wait_optional(
        &self,
        m: Slots,
        r: Option<Result<Option<WaitAlways<W::Ty>>, ResolutionError>>,
        after: WaitAlwaysWatch<W>,
    ) -> bool {
        strip_some_step(r) matches Some(x) && self@.steps_wait_always(m, map_step(x, |c: WaitAlways<W::Ty>| c.0), after@)
    }

    open spec fn steps_wait_always(
        &self,
        m: Slots,
        r: Option<Result<WaitAlways<W::Ty>, ResolutionError>>,
        after: WaitAlwaysWatch<W>,
    ) -> bool {
        self@.steps_wait_always(m, map_step(r, |c: WaitAlways<W::Ty>| c.0), after@)
    }

    open spec fn steps_wait_ok(
        &self,
        m: Slots,
        r: Option<Result<WaitAlways<W::Ty>, ResolutionError>>,
        after: WaitAlwaysWatch<W>,
    ) -> bool {
        self@.steps_wait_ok(m, map_step(r, |c: WaitAlways<W::Ty>| c.0), after@)
    }

    open spec fn steps_changed(&self, m: Slots, fired: bool, after: WaitAlwaysWatch<W>) -> bool {
        self@.steps_changed(m, fired, after@)
    }

    fn current(&self, map: &StateMap) -> (r: Result<WaitAlways<W::Ty>, ResolutionError>) {
        match self.0.current(map) {
            Ok(v) => Ok(WaitAlways(v)),
            Err(e) => Err(e),
        }
    }

    fn current_optional(&self, map: &StateMap) -> (r: Result<Option<WaitAlways<W::Ty>>, ResolutionError>) {
        match self.0.current_optional(map) {
            Ok(Some(v)) => Ok(Some(WaitAlways(v))),
            Ok(None) => Ok(None),
            Err(e) => Err(e),
        }
    }

    fn poll_wait(&mut self, map: &StateMap) -> (r: Option<Result<WaitAlways<W::Ty>, ResolutionError>>) {
        match self.0.poll_wait_always(map) {
            Some(Ok(v)) => Some(Ok(WaitAlways(v))),
            Some(Err(e)) => Some(Err(e)),
            None => None,
        }
    }

    fn poll_wait_optional(&mut self, map: &StateMap) -> (r: Option<
        Result<Option<WaitAlways<W::Ty>>, ResolutionError>,
    >) {
        match self.0.poll_wait_always(map) {
            Some(Ok(v)) => Some(Ok(Some(WaitAlways(v)))),
            Some(Err(e)) => Some(Err(e)),
            None => None,
        }
    }

    fn poll_wait_always(&mut self, map: &StateMap) -> (r: Option<Result<WaitAlways<W::Ty>, ResolutionError>>) {
        match self.0.poll_wait_always(map) {
            Some(Ok(v)) => Some(Ok(WaitAlways(v))),
            Some(Err(e)) => Some(Err(e)),
            None => None,
        }
    }

    fn poll_wait_ok(&mut self, map: &StateMap) -> (r: Option<Result<WaitAlways<W::Ty>, ResolutionError>>) {
        match self.0.poll_wait_ok(map) {
            Some(Ok(v)) => Some(Ok(WaitAlways(v))),
            Some(Err(e)) => Some(Err(e)),
            None => None,
        }
    }

    fn poll_changed(&mut self, map: &StateMap) -> (fired: bool) {
        self.0.poll_changed(map)
    }
}

/// Reads a handle's values as [`WaitOk`]s: `wait` waits for a conclusive outcome.
#[derive(Clone, Copy, Debug)]
pub struct WaitOkWatch<W>(W);

impl<W: Watch> View for WaitOkWatch<W> {
    type V = W;

    closed spec fn view(&self) -> W {
        self.0
    }
}

impl<W: Watch> WaitOkWatch<W> {
    /// Wraps `watch`.
    pub fn new(watch: W) -> (r: WaitOkWatch<W>)
        ensures
            r@ == watch,
    {
        WaitOkWatch(watch)
    }

    /// The wrapped handle.
    pub fn into_inner(self) -> (r: W)
        ensures
            r == self@,
    {
        self.0
    }
}

impl<W: Watch> Watch for WaitOkWatch<W> {
    type Ty = WaitOk<W::Ty>;

    open spec fn reads_current(&self, m: Slots, r: Result<WaitOk<W::Ty>, ResolutionError>) -> bool {
        self@.reads_current(m, map_result(r, |c: WaitOk<W::Ty>| c.0))
    }

    open spec fn reads_current_optional(
        &self,
        m: Slots,
        r: Result<Option<WaitOk<W::Ty>>, ResolutionError>,
    ) -> bool {
        self@.reads_current_optional(m, map_optional(r, |c: WaitOk<W::Ty>| c.0))
    }

    open spec fn steps_wait(
        &self,
        m: Slots,
        r: Option<Result<WaitOk<W::Ty>, ResolutionError>>,
        after: WaitOkWatch<W>,
    ) -> bool {
        self@.steps_wait_always(m, map_step(r, |c: WaitOk<W::Ty>| c.0), after@)
    }

    open spec fn steps_wait_optional(
        &self,
        m: Slots,
        r: Option<Result<Option<WaitOk<W::Ty>>, ResolutionError>>,
        after: WaitOkWatch<W>,
    ) -> bool {
        strip_some_step(r) matches Some(x) && self@.steps_wait_always(m, map_step(x, |c: WaitOk<W::Ty>| c.0), after@)
    }

    open spec fn steps_wait_always(
        &self,
        m: Slots,
        r: Option<Result<WaitOk<W::Ty>, ResolutionError>>,
        after: WaitOkWatch<W>,
    ) -> bool {
        self@.steps_wait_always(m, map_step(r, |c: WaitOk<W::Ty>| c.0), after@)
    }

    open spec fn steps_wait_ok(
        &self,
        m: Slots,
        r: Option<Result<WaitOk<W::Ty>, ResolutionError>>,
        after: WaitOkWatch<W>,
    ) -> bool {
        self@.steps_wait_ok(m, map_step(r, |c: WaitOk<W::Ty>| c.0), after@)
    }

    open spec fn steps_changed(&self, m: Slots, fired: bool, after: WaitOkWatch<W>) -> bool {
        self@.steps_changed(m, fired, after@)
    }

    fn current(&self, map: &StateMap) -> (r: Result<WaitOk<W::Ty>, ResolutionError>) {
        match self.0.current(map) {
            Ok(v) => Ok(WaitOk(v)),
            Err(e) => Err(e),
        }
    }

    fn current_optional(&self, map: &StateMap) -> (r: Result<Option<WaitOk<W::Ty>>, ResolutionError>) {
        match self.0.current_optional(map) {
            Ok(Some(v)) => Ok(Some(WaitOk(v))),
            Ok(None) => Ok(None),
            Err(e) => Err(e),
        }
    }

    fn poll_wait(&mut self, map: &StateMap) -> (r: Option<Result<WaitOk<W::Ty>, ResolutionError>>) {
        match self.0.poll_wait_always(map) {
            Some(Ok(v)) => Some(Ok(WaitOk(v))),
            Some(Err(e)) => Some(Err(e)),
            None => None,
        }
    }

    fn poll_wait_optional(&mut self, map: &StateMap) -> (r: Option<
        Result<Option<WaitOk<W::Ty>>, ResolutionError>,
    >) {
        match self.0.poll_wait_always(map) {
            Some(Ok(v)) => Some(Ok(Some(WaitOk(v)))),
            Some(Err(e)) => Some(Err(e)),
            None => None,
        }
    }

    fn poll_wait_always(&mut self, map: &StateMap) -> (r: Option<Result<WaitOk<W::Ty>, ResolutionError>>) {
        match self.0.poll_wait_always(map) {
            Some(Ok(v)) => Some(Ok(WaitOk(v))),
            Some(Err(e)) => Some(Err(e)),
            None => None,
        }
    }

    fn poll_wait_ok(&mut self, map: &StateMap) -> (r: Option<Result<WaitOk<W::Ty>, ResolutionError>>) {
        match self.0.poll_wait_ok(map) {
            Some(Ok(v)) => Some(Ok(WaitOk(v))),
            Some(Err(e)) => Some(Err(e)),
            None => None,
        }
    }

    fn poll_changed(&mut self, map: &StateMap) -> (fired: bool) {
        self.0.poll_changed(map)
    }
}

/// Reads a handle's values as options: a value not produced yet reads as `None` instead
/// of a failure.
#[derive(Clone, Copy, Debug)]
pub struct OptionalWatch<W>(W);

impl<W: Watch> View for OptionalWatch<W> {
    type V = W;

    closed spec fn view(&self) -> W {
        self.0
    }
}

impl<W: Watch> OptionalWatch<W> {
    /// Wraps `watch`.
    pub fn new(watch: W) -> (r: OptionalWatch<W>)
        ensures
            r@ == watch,
    {
        OptionalWatch(watch)
    }

    /// The wrapped handle.
    pub fn into_inner(self) -> (r: W)
        ensures
            r == self@,
    {
        self.0
    }
}

impl<W: Watch> Watch for OptionalWatch<W> {
    type Ty = Option<W::Ty>;

    open spec fn reads_current(&self, m: Slots, r: Result<Option<W::Ty>, ResolutionError>) -> bool {
        self@.reads_current_optional(m, r)
    }

    open spec fn reads_current_optional(
        &self,
        m: Slots,
        r: Result<Option<Option<W::Ty>>, ResolutionError>,
    ) -> bool {
        strip_some(r) matches Some(x) && self@.reads_current_optional(m, x)
    }

    open spec fn steps_wait(&self, m: Slots, r: Option<Result<Option<W::Ty>, ResolutionError>>, after: OptionalWatch<W>) -> bool {
        self@.steps_wait_optional(m, r, after@)
    }

    open spec fn steps_wait_optional(
        &self,
        m: Slots,
        r: Option<Result<Option<Option<W::Ty>>, ResolutionError>>,
        after: OptionalWatch<W>,
    ) -> bool {
        strip_some_step(r) matches Some(x) && self@.steps_wait_optional(m, x, after@)
    }

    open spec fn steps_wait_always(
        &self,
        m: Slots,
        r: Option<Result<Option<W::Ty>, ResolutionError>>,
        after: OptionalWatch<W>,
    ) -> bool {
        strip_some_step(r) matches Some(x) && self@.steps_wait_always(m, x, after@)
    }

    open spec fn steps_wait_ok(
        &self,
        m: Slots,
        r: Option<Result<Option<W::Ty>, ResolutionError>>,
        after: OptionalWatch<W>,
    ) -> bool {
        strip_some_step(r) matches Some(x) && self@.steps_wait_ok(m, x, after@)
    }

    open spec fn steps_changed(&self, m: Slots, fired: bool, after: OptionalWatch<W>) -> bool {
        self@.steps_changed(m, fired, after@)
    }

    fn current(&self, map: &StateMap) -> (r: Result<Option<W::Ty>, ResolutionError>) {
        self.0.current_optional(map)
    }

    fn current_optional(&self, map: &StateMap) -> (r: Result<
        Option<Option<W::Ty>>,
        ResolutionError,
    >) {
        match self.0.current_optional(map) {
            Ok(v) => Ok(Some(v)),
            Err(e) => Err(e),
        }
    }

    fn poll_wait(&mut self, map: &StateMap) -> (r: Option<Result<Option<W::Ty>, ResolutionError>>) {
        self.0.poll_wait_optional(map)
    }

    fn poll_wait_optional(&mut self, map: &StateMap) -> (r: Option<
        Result<Option<Option<W::Ty>>, ResolutionError>,
    >) {
        match self.0.poll_wait_optional(map) {
            Some(Ok(v)) => Some(Ok(Some(v))),
            Some(Err(e)) => Some(Err(e)),
            None => None,
        }
    }

    fn poll_wait_always(&mut self, map: &StateMap) -> (r: Option<
        Result<Option<W::Ty>, ResolutionError>,
    >) {
        match self.0.poll_wait_always(map) {
            Some(Ok(v)) => Some(Ok(Some(v))),
            Some(Err(e)) => Some(Err(e)),
            None => None,
        }
    }

    fn poll_wait_ok(&mut self, map: &StateMap) -> (r: Option<Result<Option<W::Ty>, ResolutionError>>) {
        match self.0.poll_wait_ok(map) {
            Some(Ok(v)) => Some(Ok(Some(v))),
            Some(Err(e)) => Some(Err(e)),
            None => None,
        }
    }

    fn poll_changed(&mut self, map: &StateMap) -> (fired: bool) {
        self.0.poll_changed(map)
    }
}

/// Reads a handle's outcomes as values: a failure is read as an `Err` value, not raised.
#[derive(Clone, Copy, Debug)]
pub struct ResultWatch<W>(W);

impl<W: Watch> View for ResultWatch<W> {
    type V = W;

    closed spec fn view(&self) -> W {
        self.0
    }
}

impl<W: Watch> ResultWatch<W> {
    /// Wraps `watch`.
    pub fn new(watch: W) -> (r: ResultWatch<W>)
        ensures
            r@ == watch,
    {
        ResultWatch(watch)
    }

    /// The wrapped handle.
    pub fn into_inner(self) -> (r: W)
        ensures
            r == self@,
    {
        self.0
    }
}

/// The outcome that a step wrapped in `Ok`, or `None` for a step that never is one.
pub open spec fn strip_ok_step<A>(
    r: Option<Result<Result<A, ResolutionError>, ResolutionError>>,
) -> Option<Option<Result<A, ResolutionError>>> {
    match r {
        None => Some(None),
        Some(Ok(x)) => Some(Some(x)),
        Some(Err(_)) => None,
    }
}

impl<W: Watch> Watch for ResultWatch<W> {
    type Ty = Result<W::Ty, ResolutionError>;

    open spec fn reads_current(
        &self,
        m: Slots,
        r: Result<Result<W::Ty, ResolutionError>, ResolutionError>,
    ) -> bool {
        r matches Ok(x) && self@.reads_current(m, x)
    }

    open spec fn reads_current_optional(
        &self,
        m: Slots,
        r: Result<Option<Result<W::Ty, ResolutionError>>, ResolutionError>,
    ) -> bool {
        r matches Ok(Some(x)) && self@.reads_current(m, x)
    }

    open spec fn steps_wait(
        &self,
        m: Slots,
        r: Option<Result<Result<W::Ty, ResolutionError>, ResolutionError>>,
        after: ResultWatch<W>,
    ) -> bool {
        strip_ok_step(r) matches Some(x) && self@.steps_wait(m, x, after@)
    }

    open spec fn steps_wait_optional(
        &self,
        m: Slots,
        r: Option<Result<Option<Result<W::Ty, ResolutionError>>, ResolutionError>>,
        after: ResultWatch<W>,
    ) -> bool {
        match r {
            None => self@.steps_wait(m, None, after@),
            Some(Ok(Some(x))) => self@.steps_wait(m, Some(x), after@),
            _ => false,
        }
    }

    open spec fn steps_wait_always(
        &self,
        m: Slots,
        r: Option<Result<Result<W::Ty, ResolutionError>, ResolutionError>>,
        after: ResultWatch<W>,
    ) -> bool {
        strip_ok_step(r) matches Some(x) && self@.steps_wait_always(m, x, after@)
    }

    open spec fn steps_wait_ok(
        &self,
        m: Slots,
        r: Option<Result<Result<W::Ty, ResolutionError>, ResolutionError>>,
        after: ResultWatch<W>,
    ) -> bool {
        strip_ok_step(r) matches Some(x) && self@.steps_wait_ok(m, x, after@)
    }

    open spec fn steps_changed(&self, m: Slots, fired: bool, after: ResultWatch<W>) -> bool {
        self@.steps_changed(m, fired, after@)
    }

    fn current(&self, map: &StateMap) -> (r: Result<Result<W::Ty, ResolutionError>, ResolutionError>) {
        Ok(self.0.current(map))
    }

    fn current_optional(&self, map: &StateMap) -> (r: Result<
        Option<Result<W::Ty, ResolutionError>>,
        ResolutionError,
    >) {
        Ok(Some(self.0.current(map)))
    }

    fn poll_wait(&mut self, map: &StateMap) -> (r: Option<
        Result<Result<W::Ty, ResolutionError>, ResolutionError>,
    >) {
        match self.0.poll_wait(map) {
            Some(x) => Some(Ok(x)),
            None => None,
        }
    }

    fn poll_wait_optional(&mut self, map: &StateMap) -> (r: Option<
        Result<Option<Result<W::Ty, ResolutionError>>, ResolutionError>,
    >) {
        match self.0.poll_wait(map) {
            Some(x) => Some(Ok(Some(x))),
            None => None,
        }
    }

    fn poll_wait_always(&mut self, map: &StateMap) -> (r: Option<
        Result<Result<W::Ty, ResolutionError>, ResolutionError>,
    >) {
        match self.0.poll_wait_always(map) {
            Some(x) => Some(Ok(x)),
            None => None,
        }
    }

    fn poll_wait_ok(&mut self, map: &StateMap) -> (r: Option<
        Result<Result<W::Ty, ResolutionError>, ResolutionError>,
    >) {
        match self.0.poll_wait_ok(map) {
            Some(x) => Some(Ok(x)),
            None => None,
        }
    }

    fn poll_changed(&mut self, map: &StateMap) -> (fired: bool) {
        self.0.poll_changed(map)
    }
}

} // verus!
