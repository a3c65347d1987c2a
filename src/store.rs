//! A collection that holds at most one value of each erasable type.

use vstd::prelude::*;

use crate::erased::{Erasable, Erased, TypeTag};

verus! {

/// The number of erasable types, and so of places in a [`Store`].
pub const TYPE_COUNT: usize = 7;

/// The place of values of type `t` in a [`Store`].
pub open spec fn place_of(t: TypeTag) -> int {
    match t {
        TypeTag::Bool => 0,
        TypeTag::I32 => 1,
        TypeTag::I64 => 2,
        TypeTag::U64 => 3,
        TypeTag::String => 4,
        TypeTag::Str => 5,
        TypeTag::ArcI32 => 6,
    }
}

fn place(t: TypeTag) -> (r: usize)
    ensures
        r == place_of(t),
        r < TYPE_COUNT,
{
    match t {
        TypeTag::Bool => 0,
        TypeTag::I32 => 1,
        TypeTag::I64 => 2,
        TypeTag::U64 => 3,
        TypeTag::String => 4,
        TypeTag::Str => 5,
        TypeTag::ArcI32 => 6,
    }
}

/// A collection of values identified by their type: it holds at most one value per type.
#[derive(Clone, Debug)]
pub struct Store {
    places: Vec<Option<Erased>>,
}

impl View for Store {
    type V = Map<TypeTag, Erased>;

    closed spec fn view(&self) -> Map<TypeTag, Erased> {
        Map::new(
            |t: TypeTag| self.places@[place_of(t)] is Some,
            |t: TypeTag| self.places@[place_of(t)]->Some_0,
        )
    }
}

impl Store {
    /// The store has one place per type, and the value in each place has that type.
    pub closed spec fn wf(&self) -> bool {
        &&& self.places@.len() == TYPE_COUNT
        &&& forall|t: TypeTag| #[trigger]
            self.places@[place_of(t)] matches Some(v) ==> v.tag() == t
    }

    proof fn lemma_view_insert(self, other: Store, t: TypeTag, v: Option<Erased>)
        requires
            self.wf(),
            other.places@ == self.places@.update(place_of(t), v),
            v matches Some(x) ==> x.tag() == t,
        ensures
            other.wf(),
            other@ == match v {
                Some(x) => self@.insert(t, x),
                None => self@.remove(t),
            },
    {
        assert forall|u: TypeTag| place_of(u) == place_of(t) implies u == t by {}
        assert forall|u: TypeTag| #[trigger]
            other.places@[place_of(u)] is Some implies other.places@[place_of(
                u,
            )]->Some_0.tag() == u by {
            if place_of(u) != place_of(t) {
                assert(other.places@[place_of(u)] == self.places@[place_of(u)]);
            }
        }
        match v {
            Some(x) => assert(other@ =~= self@.insert(t, x)),
            None => assert(other@ =~= self@.remove(t)),
        }
    }

    /// An empty store.
    pub fn new() -> (r: Store)
        ensures
            r.wf(),
            r@ == Map::<TypeTag, Erased>::empty(),
    {
        let mut places: Vec<Option<Erased>> = Vec::new();
        let mut i: usize = 0;
        while i < TYPE_COUNT
            invariant
                i <= TYPE_COUNT,
                places@.len() == i,
                forall|j: int| 0 <= j < i ==> (#[trigger] places@[j]) is None,
            decreases TYPE_COUNT - i,
        {
            places.push(None);
            i = i + 1;
        }
        let r = Store { places };
        assert(r@ =~= Map::<TypeTag, Erased>::empty());
        r
    }

    /// Puts `value` in the place of its type and returns what was there before.
    pub fn insert_erased(&mut self, value: Erased) -> (r: (TypeTag, Option<Erased>))
        requires
            old(self).wf(),
        ensures
            final(self).wf(),
            r.0 == value.tag(),
            final(self)@ == old(self)@.insert(value.tag(), value),
            r.1 == (if old(self)@.contains_key(value.tag()) {
                Some(old(self)@[value.tag()])
            } else {
                None
            }),
    {
        let t = value.type_id();
        let p = place(t);
        let ghost before = *self;
        let previous = self.places.remove(p);
        self.places.insert(p, Some(value));
        proof {
            assert(self.places@ =~= before.places@.update(place_of(t), Some(value)));
            before.lemma_view_insert(*self, t, Some(value));
        }
        (t, previous)
    }

    /// Puts `value` in the place of its type and returns the value of that type that was
    /// there before, if any.
    pub fn insert<T: Erasable>(&mut self, value: T) -> (r: Option<T>)
        requires
            old(self).wf(),
        ensures
            final(self).wf(),
            final(self)@ == old(self)@.insert(T::tag(), T::erase(value)),
            r is Some <==> old(self)@.contains_key(T::tag()),
            r matches Some(p) ==> T::erase(p) == old(self)@[T::tag()],
    {
        let (_, previous) = self.insert_erased(Erased::new(value));
        match previous {
            Some(e) => match e.downcast::<T>() {
                Ok(v) => Some(v),
                Err(_) => None,
            },
            None => None,
        }
    }

    /// The value in the place of type `id`, if any.
    pub fn get_by_id(&self, id: TypeTag) -> (r: Option<&Erased>)
        requires
            self.wf(),
        ensures
            r is Some <==> self@.contains_key(id),
            r matches Some(v) ==> *v == self@[id],
    {
        let p = place(id);
        match &self.places[p] {
            Some(v) => Some(v),
            None => None,
        }
    }

    /// The value of type `T`, if the store holds one.
    pub fn get<T: Erasable>(&self) -> (r: Option<&T>)
        requires
            self.wf(),
        ensures
            r is Some <==> self@.contains_key(T::tag()),
            r matches Some(v) ==> T::erase(*v) == self@[T::tag()],
    {
        match self.get_by_id(T::type_tag()) {
            Some(e) => e.downcast_ref::<T>(),
            None => None,
        }
    }

    /// Borrows mutably the value in the place of type `id`, if any; what is written through
    /// the borrow is what the store then holds there. The store stays well formed exactly
    /// when what is written there has type `id`.
    pub fn get_mut_by_id(&mut self, id: TypeTag) -> (r: Option<&mut Erased>)
        requires
            old(self).wf(),
        ensures
            r is Some <==> old(self)@.contains_key(id),
            r is None ==> final(self)@ == old(self)@ && final(self).wf(),
            r matches Some(v) ==> (final(self).wf() <==> final(v).tag() == id),
            r matches Some(v) ==> *v == old(self)@[id] && final(self)@ == old(self)@.insert(
                id,
                *final(v),
            ),
    {
        let p = place(id);
        let ghost before = *self;
        let slot = &mut self.places[p];
        match slot {
            Some(v) => Some(v),
            None => None,
        }
    }

    /// Borrows mutably the value of type `T`, if the store holds one.
    pub fn get_mut<T: Erasable>(&mut self) -> (r: Option<&mut T>)
        requires
            old(self).wf(),
        ensures
            final(self).wf(),
            r is Some <==> old(self)@.contains_key(T::tag()),
            r is None ==> final(self)@ == old(self)@,
            r matches Some(v) ==> T::erase(*v) == old(self)@[T::tag()] && final(self)@ == old(
                self,
            )@.insert(T::tag(), T::erase(*final(v))),
    {
        let ghost before = self@;
        proof {
            assert forall|x: T| #[trigger] T::erase(x).tag() == T::tag() by {
                T::lemma_erase_tag(x);
            }
            if before.contains_key(T::tag()) {
                assert(self.places@[place_of(T::tag())] is Some);
            }
        }
        match self.get_mut_by_id(T::type_tag()) {
            Some(e) => {
                proof {
                    assert(before.insert(T::tag(), before[T::tag()]) =~= before);
                }
                e.downcast_mut::<T>()
            },
            None => None,
        }
    }

    /// Takes the value out of the place of type `id`, if any.
    pub fn remove_by_id(&mut self, id: TypeTag) -> (r: Option<Erased>)
        requires
            old(self).wf(),
        ensures
            final(self).wf(),
            final(self)@ == old(self)@.remove(id),
            r == (if old(self)@.contains_key(id) {
                Some(old(self)@[id])
            } else {
                None
            }),
    {
        let p = place(id);
        let ghost before = *self;
        let taken = self.places.remove(p);
        self.places.insert(p, None);
        proof {
            assert(self.places@ =~= before.places@.update(place_of(id), None));
            before.lemma_view_insert(*self, id, None);
        }
        taken
    }

    /// Takes out the value of type `T`, if any; the place of `T` is empty afterwards.
    pub fn remove<T: Erasable>(&mut self) -> (r: Option<T>)
        requires
            old(self).wf(),
        ensures
            final(self).wf(),
            final(self)@ == old(self)@.remove(T::tag()),
            r is Some <==> old(self)@.contains_key(T::tag()),
            r matches Some(v) ==> T::erase(v) == old(self)@[T::tag()],
    {
        match self.remove_by_id(T::type_tag()) {
            Some(e) => match e.downcast::<T>() {
                Ok(v) => Some(v),
                Err(_) => None,
            },
            None => None,
        }
    }

    /// Whether the place of type `id` holds a value.
    pub fn contains_id(&self, id: TypeTag) -> (r: bool)
        requires
            self.wf(),
        ensures
            r == self@.contains_key(id),
    {
        self.places[place(id)].is_some()
    }

    /// Whether the store holds a value in the place of type `T`.
    pub fn contains<T: Erasable>(&self) -> (r: bool)
        requires
            self.wf(),
        ensures
            r == self@.contains_key(T::tag()),
    {
        self.contains_id(T::type_tag())
    }
}

} // verus!
