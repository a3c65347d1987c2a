//! Handles over several slots at once: a fail-fast join for reads and waits, a race for
//! `changed`.

use vstd::prelude::*;

use crate::erased::Erased;
use crate::error::{DependencyKey, ResolutionError};
use crate::state::{
    changed_step, current_of, observed, current_optional_of, wait_always_of, wait_of, wait_ok_of,
    wait_optional_of, Lifecycle, Watch, WatchView,
};
use crate::state_map::{slot_of, StateMap};
use crate::watch::{Slots, Watch as WatchOps};

verus! {

/// The first failure among the members that have an outcome, in positional order.
pub open spec fn first_error<X>(rs: Seq<Option<Result<X, ResolutionError>>>) -> Option<
    ResolutionError,
>
    decreases rs.len(),
{
    if rs.len() == 0 {
        None
    } else {
        match first_error(rs.drop_last()) {
            Some(e) => Some(e),
            None => match rs.last() {
                Some(Err(e)) => Some(e),
                _ => None,
            },
        }
    }
}

/// Whether every member has an outcome.
pub open spec fn all_settled<X>(rs: Seq<Option<Result<X, ResolutionError>>>) -> bool {
    forall|i: int| 0 <= i < rs.len() ==> (#[trigger] rs[i]) is Some
}

/// The members' values, in positional order.
pub open spec fn settled_values<X>(rs: Seq<Option<Result<X, ResolutionError>>>) -> Seq<X> {
    rs.map_values(|r: Option<Result<X, ResolutionError>>| r->Some_0->Ok_0)
}

/// The fail-fast join of the members' outcomes: the first failure as soon as any member
/// failed, else all values once every member has one, else nothing yet.
pub open spec fn join<X>(rs: Seq<Option<Result<X, ResolutionError>>>) -> Option<
    Result<Seq<X>, ResolutionError>,
> {
    match first_error(rs) {
        Some(e) => Some(Err(e)),
        None => if all_settled(rs) {
            Some(Ok(settled_values(rs)))
        } else {
            None
        },
    }
}

/// A joined result of vectors, seen as sequences.
pub open spec fn joined_view<X>(r: Option<Result<Vec<X>, ResolutionError>>) -> Option<
    Result<Seq<X>, ResolutionError>,
> {
    match r {
        Some(Ok(v)) => Some(Ok(v@)),
        Some(Err(e)) => Some(Err(e)),
        None => None,
    }
}

/// All values if no member lacks one, else `None`.
pub open spec fn all_present(vs: Seq<Option<Erased>>) -> Option<Seq<Erased>> {
    if forall|i: int| 0 <= i < vs.len() ==> (#[trigger] vs[i]) is Some {
        Some(vs.map_values(|v: Option<Erased>| v->Some_0))
    } else {
        None
    }
}

proof fn lemma_prefix_step<X>(rs: Seq<Option<Result<X, ResolutionError>>>, i: int)
    requires
        0 <= i < rs.len(),
    ensures
        first_error(rs.subrange(0, i + 1)) == match first_error(rs.subrange(0, i)) {
            Some(e) => Some(e),
            None => match rs[i] {
                Some(Err(e)) => Some(e),
                _ => None,
            },
        },
{
    assert(rs.subrange(0, i + 1).drop_last() =~= rs.subrange(0, i));
}

/// The fail-fast join of `rs`: the first failure in positional order if any member
/// failed, else all values in order if every member has one, else `None`.
pub fn try_join<X>(rs: Vec<Option<Result<X, ResolutionError>>>) -> (r: Option<
    Result<Vec<X>, ResolutionError>,
>)
    ensures
        joined_view(r) == join(rs@),
{
    let ghost all = rs@;
    let mut rest = rs;
    let mut values: Vec<X> = Vec::new();
    let mut pending = false;
    let n = rest.len();
    let mut i: usize = 0;
    while i < n
        invariant
            n == all.len(),
            all == rs@,
            i <= n,
            rest@ == all.subrange(i as int, n as int),
            first_error(all.subrange(0, i as int)) is None,
            pending == !all_settled(all.subrange(0, i as int)),
            !pending ==> values@ == settled_values(all.subrange(0, i as int)),
        decreases n - i,
    {
        proof {
            lemma_prefix_step(all, i as int);
        }
        let item = rest.remove(0);
        assert(item == all[i as int]);
        match item {
            Some(Err(e)) => {
                proof {
                    assert(first_error(all.subrange(0, i as int + 1)) == Some(e));
                    lemma_first_error_extends(all, i as int + 1);
                    assert(first_error(all) == Some(e));
                }
                return Some(Err(e));
            },
            Some(Ok(v)) => {
                if !pending {
                    values.push(v);
                }
            },
            None => {
                pending = true;
            },
        }
        proof {
            let pre = all.subrange(0, i as int);
            let post = all.subrange(0, i as int + 1);
            if !pending {
                assert(values@ =~= settled_values(post));
            }
            if !all_settled(pre) {
                let j = choose|j: int| 0 <= j < pre.len() && !(pre[j] is Some);
                assert(post[j] == pre[j]);
            }
            if item is None {
                assert(post[i as int] is None);
            }
        }
        i = i + 1;
    }
    proof {
        assert(all.subrange(0, n as int) =~= all);
    }
    if pending {
        None
    } else {
        Some(Ok(values))
    }
}

/// A failure found in a prefix is the first failure of the whole sequence.
proof fn lemma_first_error_extends<X>(rs: Seq<Option<Result<X, ResolutionError>>>, k: int)
    requires
        0 <= k <= rs.len(),
        first_error(rs.subrange(0, k)) is Some,
    ensures
        first_error(rs) == first_error(rs.subrange(0, k)),
    decreases rs.len() - k,
{
    if k < rs.len() {
        lemma_prefix_step(rs, k);
        lemma_first_error_extends(rs, k + 1);
    } else {
        assert(rs.subrange(0, k) =~= rs);
    }
}

/// All values if none is missing, else `None`.
pub fn all_or_none(vs: Vec<Option<Erased>>) -> (r: Option<Vec<Erased>>)
    ensures
        match r {
            Some(v) => all_present(vs@) == Some(v@),
            None => all_present(vs@) is None,
        },
{
    let ghost all = vs@;
    let mut rest = vs;
    let mut values: Vec<Erased> = Vec::new();
    let n = rest.len();
    let mut i: usize = 0;
    while i < n
        invariant
            n == all.len(),
            all == vs@,
            i <= n,
            rest@ == all.subrange(i as int, n as int),
            forall|j: int| 0 <= j < i ==> (#[trigger] all[j]) is Some,
            values@ == all.subrange(0, i as int).map_values(|v: Option<Erased>| v->Some_0),
        decreases n - i,
    {
        let item = rest.remove(0);
        assert(item == all[i as int]);
        match item {
            Some(v) => {
                values.push(v);
                assert(values@ =~= all.subrange(0, i as int + 1).map_values(
                    |v: Option<Erased>| v->Some_0,
                ));
            },
            None => {
                assert(!(all[i as int] is Some));
                return None;
            },
        }
        i = i + 1;
    }
    assert(all.subrange(0, n as int) =~= all);
    Some(values)
}

/// Which read of a slot a composite makes of each member.
#[derive(Clone, Copy, Debug, PartialEq, Eq, Structural)]
pub enum ReadMode {
    Current,
    Wait,
    WaitAlways,
    WaitOk,
}

/// What a member in state `l`, watching `key`, yields for `mode`; `None` while it waits.
pub open spec fn read_of(mode: ReadMode, l: Lifecycle, key: DependencyKey) -> Option<
    Result<Erased, ResolutionError>,
> {
    match mode {
        ReadMode::Current => Some(current_of(l, key)),
        ReadMode::Wait => wait_of(l, key),
        ReadMode::WaitAlways => wait_always_of(l),
        ReadMode::WaitOk => wait_ok_of(l),
    }
}

/// What each member yields for `mode`, in positional order.
pub open spec fn member_reads(ws: Seq<WatchView>, m: Slots, mode: ReadMode) -> Seq<
    Option<Result<Erased, ResolutionError>>,
> {
    ws.map_values(|w: WatchView| read_of(mode, slot_of(m, w.key.id).lifecycle, w.key))
}

/// What a member yields for `current_optional` (`waiting` false) or `wait_optional`.
pub open spec fn read_optional_of(waiting: bool, l: Lifecycle) -> Option<
    Result<Option<Erased>, ResolutionError>,
> {
    if waiting {
        wait_optional_of(l)
    } else {
        Some(current_optional_of(l))
    }
}

/// What each member yields for `current_optional` or `wait_optional`, in positional order.
pub open spec fn member_optional_reads(ws: Seq<WatchView>, m: Slots, waiting: bool) -> Seq<
    Option<Result<Option<Erased>, ResolutionError>>,
> {
    ws.map_values(|w: WatchView| read_optional_of(waiting, slot_of(m, w.key.id).lifecycle))
}

/// A joined result of optional values: all values, or `None` where one lacks.
pub open spec fn join_optional(j: Option<Result<Seq<Option<Erased>>, ResolutionError>>) -> Option<
    Result<Option<Seq<Erased>>, ResolutionError>,
> {
    match j {
        Some(Ok(vs)) => Some(Ok(all_present(vs))),
        Some(Err(e)) => Some(Err(e)),
        None => None,
    }
}

/// Whether a member's own `changed` would fire against `m`.
pub open spec fn member_changed(w: WatchView, m: Slots) -> bool {
    changed_step(w, slot_of(m, w.key.id)).0
}

/// Whether `i` is the lowest position whose member would fire.
pub open spec fn is_race_winner(ws: Seq<WatchView>, m: Slots, i: int) -> bool {
    &&& 0 <= i < ws.len()
    &&& member_changed(ws[i], m)
    &&& forall|j: int| 0 <= j < i ==> !member_changed(#[trigger] ws[j], m)
}

/// One raced `changed` over handles `ws`: whether a member fires, and the handles after,
/// where only the lowest firing member moved its cursor.
pub open spec fn race_step(ws: Seq<WatchView>, m: Slots) -> (
    bool,
    Seq<WatchView>,
) {
    if exists|i: int| is_race_winner(ws, m, i) {
        let i = choose|i: int| is_race_winner(ws, m, i);
        (true, ws.update(i, changed_step(ws[i], slot_of(m, ws[i].key.id)).1))
    } else {
        (false, ws)
    }
}

/// Handles `ws` after each looked at its slot in `m`.
pub open spec fn observe_all(ws: Seq<WatchView>, m: Slots) -> Seq<WatchView> {
    ws.map_values(|w: WatchView| observed(w, slot_of(m, w.key.id)))
}

/// A handle over several slots, read as one: values come out as a vector in the members'
/// order.
pub struct CompositeWatch {
    members: Vec<Watch>,
}

impl View for CompositeWatch {
    type V = Seq<WatchView>;

    closed spec fn view(&self) -> Seq<WatchView> {
        self.members@.map_values(|w: Watch| w@)
    }
}

impl CompositeWatch {
    /// Joins the handles `members`, in this order.
    pub fn combine(members: Vec<Watch>) -> (r: CompositeWatch)
        ensures
            r@ == members@.map_values(|w: Watch| w@),
    {
        CompositeWatch { members }
    }

    /// The members' handles, in order.
    pub fn into_inner(self) -> (r: Vec<Watch>)
        ensures
            r@.map_values(|w: Watch| w@) == self@,
    {
        self.members
    }

    fn read_member(member: &Watch, map: &StateMap, mode: ReadMode) -> (r: Option<
        Result<Erased, ResolutionError>,
    >)
        ensures
            r == read_of(mode, slot_of(map@, member@.key.id).lifecycle, member@.key),
    {
        let mut w = *member;
        match mode {
            ReadMode::Current => Some(w.current(map)),
            ReadMode::Wait => w.poll_wait(map),
            ReadMode::WaitAlways => w.poll_wait_always(map),
            ReadMode::WaitOk => w.poll_wait_ok(map),
        }
    }

    fn reads(&self, map: &StateMap, mode: ReadMode) -> (r: Vec<
        Option<Result<Erased, ResolutionError>>,
    >)
        ensures
            r@ == member_reads(self@, map@, mode),
    {
        let mut out: Vec<Option<Result<Erased, ResolutionError>>> = Vec::new();
        let mut i: usize = 0;
        while i < self.members.len()
            invariant
                i <= self.members@.len(),
                out@ == member_reads(self@.subrange(0, i as int), map@, mode),
            decreases self.members@.len() - i,
        {
            let r = Self::read_member(&self.members[i], map, mode);
            out.push(r);
            assert(self@.subrange(0, i as int + 1) =~= self@.subrange(0, i as int).push(
                self.members@[i as int]@,
            ));
            assert(out@ =~= member_reads(self@.subrange(0, i as int + 1), map@, mode));
            i = i + 1;
        }
        assert(self@.subrange(0, i as int) =~= self@);
        out
    }

    fn optional_reads(&self, map: &StateMap, waiting: bool) -> (r: Vec<
        Option<Result<Option<Erased>, ResolutionError>>,
    >)
        ensures
            r@ == member_optional_reads(self@, map@, waiting),
    {
        let mut out: Vec<Option<Result<Option<Erased>, ResolutionError>>> = Vec::new();
        let mut i: usize = 0;
        while i < self.members.len()
            invariant
                i <= self.members@.len(),
                out@ == member_optional_reads(self@.subrange(0, i as int), map@, waiting),
            decreases self.members@.len() - i,
        {
            let mut w = self.members[i];
            let r = if waiting {
                w.poll_wait_optional(map)
            } else {
                Some(w.current_optional(map))
            };
            out.push(r);
            assert(self@.subrange(0, i as int + 1) =~= self@.subrange(0, i as int).push(
                self.members@[i as int]@,
            ));
            assert(out@ =~= member_optional_reads(self@.subrange(0, i as int + 1), map@, waiting));
            i = i + 1;
        }
        assert(self@.subrange(0, i as int) =~= self@);
        out
    }

    /// Marks, for every member, the current version of its slot as seen.
    fn mark_all(&mut self, map: &StateMap)
        ensures
            final(self)@ == observe_all(old(self)@, map@),
    {
        let mut i: usize = 0;
        while i < self.members.len()
            invariant
                i <= self.members@.len(),
                self.members@.len() == old(self).members@.len(),
                forall|j: int|
                    0 <= j < i ==> (#[trigger] self.members@[j])@ == observed(
                        old(self).members@[j]@,
                        slot_of(map@, old(self).members@[j]@.key.id),
                    ),
                forall|j: int|
                    i <= j < self.members@.len() ==> #[trigger] self.members@[j] == old(
                        self,
                    ).members@[j],
            decreases self.members@.len() - i,
        {
            let mut w = self.members[i];
            let v = map.version(&w.key());
            w.mark_seen(v);
            self.members.set(i, w);
            i = i + 1;
        }
        assert(self@ =~= observe_all(old(self)@, map@));
    }

    /// Whether some member's `changed` would fire.
    pub fn has_changed(&self, map: &StateMap) -> (r: bool)
        ensures
            r == exists|i: int| 0 <= i < self@.len() && member_changed(#[trigger] self@[i], map@),
    {
        let mut i: usize = 0;
        while i < self.members.len()
            invariant
                i <= self.members@.len(),
                forall|j: int| 0 <= j < i ==> !member_changed(#[trigger] self@[j], map@),
            decreases self.members@.len() - i,
        {
            if self.members[i].has_changed(map) {
                assert(member_changed(self@[i as int], map@));
                return true;
            }
            i = i + 1;
        }
        false
    }

    /// One step of the raced `changed`: the lowest position whose member fires, with that
    /// member's cursor moved on and the others left as they were; `None` if none fires.
    pub fn poll_race(&mut self, map: &StateMap) -> (r: Option<usize>)
        ensures
            r is Some <==> exists|i: int|
                0 <= i < old(self)@.len() && member_changed(#[trigger] old(self)@[i], map@),
            r matches Some(i) ==> is_race_winner(old(self)@, map@, i as int) && final(self)@
                == old(self)@.update(
                i as int,
                changed_step(old(self)@[i as int], slot_of(map@, old(self)@[i as int].key.id)).1,
            ),
            r is None ==> final(self)@ == old(self)@,
    {
        let mut i: usize = 0;
        while i < self.members.len()
            invariant
                i <= self.members@.len(),
                *self == *old(self),
                forall|j: int| 0 <= j < i ==> !member_changed(#[trigger] self@[j], map@),
            decreases self.members@.len() - i,
        {
            let mut w = self.members[i];
            if w.has_changed(map) {
                let ghost before = self@;
                w.poll_changed(map);
                self.members.set(i, w);
                assert(self@ =~= before.update(
                    i as int,
                    changed_step(before[i as int], slot_of(map@, before[i as int].key.id)).1,
                ));
                return Some(i);
            }
            i = i + 1;
        }
        None
    }
}

impl WatchOps for CompositeWatch {
    type Ty = Vec<Erased>;

    open spec fn reads_current(&self, m: Slots, r: Result<Vec<Erased>, ResolutionError>) -> bool {
        joined_view(Some(r)) == join(member_reads(self@, m, ReadMode::Current))
    }

    open spec fn reads_current_optional(
        &self,
        m: Slots,
        r: Result<Option<Vec<Erased>>, ResolutionError>,
    ) -> bool {
        Some(optional_view(r)) == join_optional(join(member_optional_reads(self@, m, false)))
    }

    open spec fn steps_wait(
        &self,
        m: Slots,
        r: Option<Result<Vec<Erased>, ResolutionError>>,
        after: CompositeWatch,
    ) -> bool {
        &&& joined_view(r) == join(member_reads(self@, m, ReadMode::Wait))
        &&& after@ == observe_all(self@, m)
    }

    open spec fn steps_wait_optional(
        &self,
        m: Slots,
        r: Option<Result<Option<Vec<Erased>>, ResolutionError>>,
        after: CompositeWatch,
    ) -> bool {
        &&& optional_poll_view(r) == join_optional(join(member_optional_reads(self@, m, true)))
        &&& after@ == observe_all(self@, m)
    }

    open spec fn steps_wait_always(
        &self,
        m: Slots,
        r: Option<Result<Vec<Erased>, ResolutionError>>,
        after: CompositeWatch,
    ) -> bool {
        &&& joined_view(r) == join(member_reads(self@, m, ReadMode::WaitAlways))
        &&& after@ == observe_all(self@, m)
    }

    open spec fn steps_wait_ok(
        &self,
        m: Slots,
        r: Option<Result<Vec<Erased>, ResolutionError>>,
        after: CompositeWatch,
    ) -> bool {
        &&& joined_view(r) == join(member_reads(self@, m, ReadMode::WaitOk))
        &&& after@ == observe_all(self@, m)
    }

    open spec fn steps_changed(&self, m: Slots, fired: bool, after: CompositeWatch) -> bool {
        (fired, after@) == race_step(self@, m)
    }

    /// The members' current values in order, or the first failure among them.
    fn current(&self, map: &StateMap) -> (r: Result<Vec<Erased>, ResolutionError>)
    {
        let rs = self.reads(map, ReadMode::Current);
        let ghost all = rs@;
        let j = try_join(rs);
        match j {
            Some(r) => r,
            None => {
                proof {
                    assert(all_settled(all));
                }
                unreached()
            },
        }
    }

    /// The first failure among the members in order; else all values, or `None` if a
    /// member has none.
    fn current_optional(&self, map: &StateMap) -> (r: Result<
        Option<Vec<Erased>>,
        ResolutionError,
    >)
    {
        let rs = self.optional_reads(map, false);
        let ghost all = rs@;
        match try_join(rs) {
            Some(Ok(vs)) => Ok(all_or_none(vs)),
            Some(Err(e)) => Err(e),
            None => {
                proof {
                    assert(all_settled(all));
                }
                unreached()
            },
        }
    }

    /// One step of the joined `wait`: the first failure as soon as a member fails, all
    /// values once every member has one, else `None`.
    fn poll_wait(&mut self, map: &StateMap) -> (r: Option<Result<Vec<Erased>, ResolutionError>>)
    {
        let r = try_join(self.reads(map, ReadMode::Wait));
        self.mark_all(map);
        r
    }

    /// One step of the joined `wait_optional`.
    fn poll_wait_optional(&mut self, map: &StateMap) -> (r: Option<
        Result<Option<Vec<Erased>>, ResolutionError>,
    >)
    {
        let r = match try_join(self.optional_reads(map, true)) {
            Some(Ok(vs)) => Some(Ok(all_or_none(vs))),
            Some(Err(e)) => Some(Err(e)),
            None => None,
        };
        self.mark_all(map);
        r
    }

    /// One step of the joined `wait_always`.
    fn poll_wait_always(&mut self, map: &StateMap) -> (r: Option<
        Result<Vec<Erased>, ResolutionError>,
    >)
    {
        let r = try_join(self.reads(map, ReadMode::WaitAlways));
        self.mark_all(map);
        r
    }

    /// One step of the joined `wait_ok`.
    fn poll_wait_ok(&mut self, map: &StateMap) -> (r: Option<Result<Vec<Erased>, ResolutionError>>)
    {
        let r = try_join(self.reads(map, ReadMode::WaitOk));
        self.mark_all(map);
        r
    }

    /// Fires as soon as one member's `changed` would, the lowest position first.
    fn poll_changed(&mut self, map: &StateMap) -> (fired: bool) {
        let r = self.poll_race(map);
        proof {
            lemma_race_fires(old(self)@, map@);
            if r is Some {
                let i = r->Some_0 as int;
                assert(is_race_winner(old(self)@, map@, i));
            }
        }
        r.is_some()
    }
}

/// A result of an optional vector, seen as a sequence.
pub open spec fn optional_view(r: Result<Option<Vec<Erased>>, ResolutionError>) -> Result<
    Option<Seq<Erased>>,
    ResolutionError,
> {
    match r {
        Ok(Some(v)) => Ok(Some(v@)),
        Ok(None) => Ok(None),
        Err(e) => Err(e),
    }
}

/// A step of a wait on optional vectors, seen as sequences.
pub open spec fn optional_poll_view(r: Option<Result<Option<Vec<Erased>>, ResolutionError>>) -> Option<
    Result<Option<Seq<Erased>>, ResolutionError>,
> {
    match r {
        Some(x) => Some(optional_view(x)),
        None => None,
    }
}

/// A joined wait fails fast: once the first member holds a failure, the join resolves to
/// that failure, however long the second member stays pending.
pub proof fn lemma_join_fails_fast(
    a: WatchView,
    b: WatchView,
    m: Slots,
    e: ResolutionError,
)
    requires
        slot_of(m, a.key.id).lifecycle == Lifecycle::Ready(Err(e)),
        slot_of(m, b.key.id).lifecycle is Pending,
    ensures
        join(member_reads(seq![a, b], m, ReadMode::Wait)) == Some(
            Err::<Seq<Erased>, ResolutionError>(e),
        ),
{
    let rs = member_reads(seq![a, b], m, ReadMode::Wait);
    assert(rs.subrange(0, 0) =~= Seq::empty());
    lemma_prefix_step(rs, 0);
    lemma_first_error_extends(rs, 1);
}

proof fn lemma_least_changed(ws: Seq<WatchView>, m: Slots, k: int)
    requires
        0 <= k < ws.len(),
        member_changed(ws[k], m),
    ensures
        exists|i: int| is_race_winner(ws, m, i),
    decreases k,
{
    if forall|j: int| 0 <= j < k ==> !member_changed(#[trigger] ws[j], m) {
        assert(is_race_winner(ws, m, k));
    } else {
        let j = choose|j: int| 0 <= j < k && member_changed(#[trigger] ws[j], m);
        lemma_least_changed(ws, m, j);
    }
}

/// A raced `changed` has a winner exactly when some member's own `changed` would fire,
/// whatever the members' order; the winner is the lowest such position.
pub proof fn lemma_race_fires(ws: Seq<WatchView>, m: Slots)
    ensures
        (exists|i: int| is_race_winner(ws, m, i)) <==> (exists|i: int|
            0 <= i < ws.len() && member_changed(#[trigger] ws[i], m)),
        forall|i: int, j: int|
            is_race_winner(ws, m, i) && is_race_winner(ws, m, j) ==> i == j,
{
    if exists|i: int| 0 <= i < ws.len() && member_changed(#[trigger] ws[i], m) {
        let k = choose|i: int| 0 <= i < ws.len() && member_changed(#[trigger] ws[i], m);
        lemma_least_changed(ws, m, k);
    }
    assert forall|i: int, j: int|
        is_race_winner(ws, m, i) && is_race_winner(ws, m, j) implies i == j by {
        if i < j {
            assert(!member_changed(ws[i], m));
        } else if j < i {
            assert(!member_changed(ws[j], m));
        }
    }
}

} // verus!
