//! The operations every handle offers, with their contracts stated over the slots of the
//! injector the handle reads.

use vstd::prelude::*;

use crate::error::ResolutionError;
use crate::state::SlotView;
use crate::state_map::StateMap;

verus! {

/// The observable content of an injector: the slot of each id that has one.
pub type Slots = Map<u64, SlotView>;

/// Reads and waits on values of an injector.
///
/// Waiting is split into steps: a `poll_*` method looks at the injector as it is and
/// returns the result of the wait if it is over, or `None` if the wait goes on; whoever
/// drives the wait calls it again after the injector changed. A step marks the versions it
/// looked at as seen, so a later `changed` waits for a transition after them. Each method's
/// result and handle afterwards are the ones its predicate admits, and each predicate admits
/// exactly one of each.
pub trait Watch: Sized {
    /// The type of the values read.
    type Ty;

    spec fn reads_current(&self, m: Slots, r: Result<Self::Ty, ResolutionError>) -> bool;

    spec fn reads_current_optional(
        &self,
        m: Slots,
        r: Result<Option<Self::Ty>, ResolutionError>,
    ) -> bool;

    spec fn steps_wait(
        &self,
        m: Slots,
        r: Option<Result<Self::Ty, ResolutionError>>,
        after: Self,
    ) -> bool;

    spec fn steps_wait_optional(
        &self,
        m: Slots,
        r: Option<Result<Option<Self::Ty>, ResolutionError>>,
        after: Self,
    ) -> bool;

    spec fn steps_wait_always(
        &self,
        m: Slots,
        r: Option<Result<Self::Ty, ResolutionError>>,
        after: Self,
    ) -> bool;

    spec fn steps_wait_ok(
        &self,
        m: Slots,
        r: Option<Result<Self::Ty, ResolutionError>>,
        after: Self,
    ) -> bool;

    spec fn steps_changed(&self, m: Slots, fired: bool, after: Self) -> bool;

    /// The value now, or the failure that stands in its place.
    fn current(&self, map: &StateMap) -> (r: Result<Self::Ty, ResolutionError>)
        ensures
            self.reads_current(map@, r),
    ;

    /// The value now if there is one, `None` if none was produced yet.
    fn current_optional(&self, map: &StateMap) -> (r: Result<Option<Self::Ty>, ResolutionError>)
        ensures
            self.reads_current_optional(map@, r),
    ;

    /// One step of waiting until a promised value is there.
    fn poll_wait(&mut self, map: &StateMap) -> (r: Option<Result<Self::Ty, ResolutionError>>)
        ensures
            old(self).steps_wait(map@, r, *final(self)),
    ;

    /// One step of waiting until a promised value is there, or `None` if nothing is
    /// promised.
    fn poll_wait_optional(&mut self, map: &StateMap) -> (r: Option<
        Result<Option<Self::Ty>, ResolutionError>,
    >)
        ensures
            old(self).steps_wait_optional(map@, r, *final(self)),
    ;

    /// One step of waiting until a conclusive outcome is there, promised or not.
    fn poll_wait_always(&mut self, map: &StateMap) -> (r: Option<Result<Self::Ty, ResolutionError>>)
        ensures
            old(self).steps_wait_always(map@, r, *final(self)),
    ;

    /// One step of waiting until a value was produced successfully.
    fn poll_wait_ok(&mut self, map: &StateMap) -> (r: Option<Result<Self::Ty, ResolutionError>>)
        ensures
            old(self).steps_wait_ok(map@, r, *final(self)),
    ;

    /// One step of waiting for a change: whether it happened, with the handle then
    /// marking it as seen.
    fn poll_changed(&mut self, map: &StateMap) -> (fired: bool)
        ensures
            old(self).steps_changed(map@, fired, *final(self)),
    ;
}

} // verus!
