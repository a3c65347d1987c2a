//! A container for one value whose type is fixed when it is made and checked when it is
//! taken out again.
//!
//! The values a container can hold form a closed set: each type of the set implements
//! [`Erasable`] and owns one variant of [`Erased`] and one [`TypeTag`].

use std::sync::Arc;
use vstd::prelude::*;

verus! {

/// Identifies the type of the value held by an [`Erased`].
#[derive(Clone, Copy, Debug, PartialEq, Eq, Structural)]
pub enum TypeTag {
    Bool,
    I32,
    I64,
    U64,
    String,
    Str,
    ArcI32,
}

/// One value of one of the [`Erasable`] types.
#[derive(Clone, Debug)]
pub enum Erased {
    Bool(bool),
    I32(i32),
    I64(i64),
    U64(u64),
    String(String),
    Str(&'static str),
    ArcI32(Arc<i32>),
}

/// A type whose values an [`Erased`] can hold.
///
/// `erase` says which container a value becomes; taking a value out of a container
/// succeeds exactly when the container's tag is the type's own.
pub trait Erasable: Sized {
    spec fn tag() -> TypeTag;

    spec fn erase(v: Self) -> Erased;

    proof fn lemma_erase_tag(v: Self)
        ensures
            Self::erase(v).tag() == Self::tag(),
    ;

    /// Distinct values become distinct containers.
    proof fn lemma_erase_injective(a: Self, b: Self)
        ensures
            Self::erase(a) == Self::erase(b) ==> a == b,
    ;

    fn type_tag() -> (r: TypeTag)
        ensures
            r == Self::tag(),
    ;

    fn into_erased(self) -> (r: Erased)
        ensures
            r == Self::erase(self),
    ;

    fn from_erased(e: Erased) -> (r: Result<Self, Erased>)
        ensures
            r is Ok <==> e.tag() == Self::tag(),
            r matches Ok(v) ==> Self::erase(v) == e,
            r matches Err(x) ==> x == e,
    ;

    fn ref_from_erased(e: &Erased) -> (r: Option<&Self>)
        ensures
            r is Some <==> e.tag() == Self::tag(),
            r matches Some(v) ==> Self::erase(*v) == *e,
    ;

    fn mut_from_erased(e: &mut Erased) -> (r: Option<&mut Self>)
        ensures
            r is Some <==> old(e).tag() == Self::tag(),
            r is None ==> *final(e) == *old(e),
            r matches Some(v) ==> Self::erase(*v) == *old(e) && *final(e) == Self::erase(*final(v)),
    ;
}

impl Erasable for bool {
    open spec fn tag() -> TypeTag {
        TypeTag::Bool
    }

    open spec fn erase(v: Self) -> Erased {
        Erased::Bool(v)
    }

    proof fn lemma_erase_tag(v: Self) {
    }

    proof fn lemma_erase_injective(a: Self, b: Self) {
    }

    fn type_tag() -> (r: TypeTag) {
        TypeTag::Bool
    }

    fn into_erased(self) -> (r: Erased) {
        Erased::Bool(self)
    }

    fn from_erased(e: Erased) -> (r: Result<Self, Erased>) {
        match e {
            Erased::Bool(x) => Ok(x),
            other => Err(other),
        }
    }

    fn ref_from_erased(e: &Erased) -> (r: Option<&Self>) {
        match e {
            Erased::Bool(x) => Some(x),
            _ => None,
        }
    }

    fn mut_from_erased(e: &mut Erased) -> (r: Option<&mut Self>) {
        match e {
            Erased::Bool(x) => Some(x),
            _ => None,
        }
    }
}

impl Erasable for i32 {
    open spec fn tag() -> TypeTag {
        TypeTag::I32
    }

    open spec fn erase(v: Self) -> Erased {
        Erased::I32(v)
    }

    proof fn lemma_erase_tag(v: Self) {
    }

    proof fn lemma_erase_injective(a: Self, b: Self) {
    }

    fn type_tag() -> (r: TypeTag) {
        TypeTag::I32
    }

    fn into_erased(self) -> (r: Erased) {
        Erased::I32(self)
    }

    fn from_erased(e: Erased) -> (r: Result<Self, Erased>) {
        match e {
            Erased::I32(x) => Ok(x),
            other => Err(other),
        }
    }

    fn ref_from_erased(e: &Erased) -> (r: Option<&Self>) {
        match e {
            Erased::I32(x) => Some(x),
            _ => None,
        }
    }

    fn mut_from_erased(e: &mut Erased) -> (r: Option<&mut Self>) {
        match e {
            Erased::I32(x) => Some(x),
            _ => None,
        }
    }
}

impl Erasable for i64 {
    open spec fn tag() -> TypeTag {
        TypeTag::I64
    }

    open spec fn erase(v: Self) -> Erased {
        Erased::I64(v)
    }

    proof fn lemma_erase_tag(v: Self) {
    }

    proof fn lemma_erase_injective(a: Self, b: Self) {
    }

    fn type_tag() -> (r: TypeTag) {
        TypeTag::I64
    }

    fn into_erased(self) -> (r: Erased) {
        Erased::I64(self)
    }

    fn from_erased(e: Erased) -> (r: Result<Self, Erased>) {
        match e {
            Erased::I64(x) => Ok(x),
            other => Err(other),
        }
    }

    fn ref_from_erased(e: &Erased) -> (r: Option<&Self>) {
        match e {
            Erased::I64(x) => Some(x),
            _ => None,
        }
    }

    fn mut_from_erased(e: &mut Erased) -> (r: Option<&mut Self>) {
        match e {
            Erased::I64(x) => Some(x),
            _ => None,
        }
    }
}

impl Erasable for u64 {
    open spec fn tag() -> TypeTag {
        TypeTag::U64
    }

    open spec fn erase(v: Self) -> Erased {
        Erased::U64(v)
    }

    proof fn lemma_erase_tag(v: Self) {
    }

    proof fn lemma_erase_injective(a: Self, b: Self) {
    }

    fn type_tag() -> (r: TypeTag) {
        TypeTag::U64
    }

    fn into_erased(self) -> (r: Erased) {
        Erased::U64(self)
    }

    fn from_erased(e: Erased) -> (r: Result<Self, Erased>) {
        match e {
            Erased::U64(x) => Ok(x),
            other => Err(other),
        }
    }

    fn ref_from_erased(e: &Erased) -> (r: Option<&Self>) {
        match e {
            Erased::U64(x) => Some(x),
            _ => None,
        }
    }

    fn mut_from_erased(e: &mut Erased) -> (r: Option<&mut Self>) {
        match e {
            Erased::U64(x) => Some(x),
            _ => None,
        }
    }
}

impl Erasable for String {
    open spec fn tag() -> TypeTag {
        TypeTag::String
    }

    open spec fn erase(v: Self) -> Erased {
        Erased::String(v)
    }

    proof fn lemma_erase_tag(v: Self) {
    }

    proof fn lemma_erase_injective(a: Self, b: Self) {
    }

    fn type_tag() -> (r: TypeTag) {
        TypeTag::String
    }

    fn into_erased(self) -> (r: Erased) {
        Erased::String(self)
    }

    fn from_erased(e: Erased) -> (r: Result<Self, Erased>) {
        match e {
            Erased::String(x) => Ok(x),
            other => Err(other),
        }
    }

    fn ref_from_erased(e: &Erased) -> (r: Option<&Self>) {
        match e {
            Erased::String(x) => Some(x),
            _ => None,
        }
    }

    fn mut_from_erased(e: &mut Erased) -> (r: Option<&mut Self>) {
        match e {
            Erased::String(x) => Some(x),
            _ => None,
        }
    }
}

impl Erasable for &'static str {
    open spec fn tag() -> TypeTag {
        TypeTag::Str
    }

    open spec fn erase(v: Self) -> Erased {
        Erased::Str(v)
    }

    proof fn lemma_erase_tag(v: Self) {
    }

    proof fn lemma_erase_injective(a: Self, b: Self) {
    }

    fn type_tag() -> (r: TypeTag) {
        TypeTag::Str
    }

    fn into_erased(self) -> (r: Erased) {
        Erased::Str(self)
    }

    fn from_erased(e: Erased) -> (r: Result<Self, Erased>) {
        match e {
            Erased::Str(x) => Ok(x),
            other => Err(other),
        }
    }

    fn ref_from_erased(e: &Erased) -> (r: Option<&Self>) {
        match e {
            Erased::Str(x) => Some(x),
            _ => None,
        }
    }

    fn mut_from_erased(e: &mut Erased) -> (r: Option<&mut Self>) {
        match e {
            Erased::Str(x) => Some(x),
            _ => None,
        }
    }
}

impl Erasable for Arc<i32> {
    open spec fn tag() -> TypeTag {
        TypeTag::ArcI32
    }

    open spec fn erase(v: Self) -> Erased {
        Erased::ArcI32(v)
    }

    proof fn lemma_erase_tag(v: Self) {
    }

    proof fn lemma_erase_injective(a: Self, b: Self) {
    }

    fn type_tag() -> (r: TypeTag) {
        TypeTag::ArcI32
    }

    fn into_erased(self) -> (r: Erased) {
        Erased::ArcI32(self)
    }

    fn from_erased(e: Erased) -> (r: Result<Self, Erased>) {
        match e {
            Erased::ArcI32(x) => Ok(x),
            other => Err(other),
        }
    }

    fn ref_from_erased(e: &Erased) -> (r: Option<&Self>) {
        match e {
            Erased::ArcI32(x) => Some(x),
            _ => None,
        }
    }

    fn mut_from_erased(e: &mut Erased) -> (r: Option<&mut Self>) {
        match e {
            Erased::ArcI32(x) => Some(x),
            _ => None,
        }
    }
}

impl Erased {
    pub open spec fn tag(&self) -> TypeTag {
        match self {
            Erased::Bool(_) => TypeTag::Bool,
            Erased::I32(_) => TypeTag::I32,
            Erased::I64(_) => TypeTag::I64,
            Erased::U64(_) => TypeTag::U64,
            Erased::String(_) => TypeTag::String,
            Erased::Str(_) => TypeTag::Str,
            Erased::ArcI32(_) => TypeTag::ArcI32,
        }
    }

    /// Puts `value` into a container.
    pub fn new<T: Erasable>(value: T) -> (r: Erased)
        ensures
            r == T::erase(value),
            r.tag() == T::tag(),
    {
        proof {
            T::lemma_erase_tag(value);
        }
        value.into_erased()
    }

    /// Takes the value out if it is of type `T`, else hands the container back unchanged.
    pub fn downcast<T: Erasable>(self) -> (r: Result<T, Erased>)
        ensures
            r is Ok <==> self.tag() == T::tag(),
            r matches Ok(v) ==> T::erase(v) == self,
            r matches Err(e) ==> e == self,
            forall|x: T| #[trigger] T::erase(x) == self ==> r == Ok::<T, Erased>(x),
    {
        let r = T::from_erased(self);
        proof {
            assert forall|x: T| #[trigger] T::erase(x) == self implies r == Ok::<T, Erased>(x) by {
                T::lemma_erase_tag(x);
                if let Ok(v) = r {
                    T::lemma_erase_injective(v, x);
                }
            }
        }
        r
    }

    /// Borrows the value if it is of type `T`.
    pub fn downcast_ref<T: Erasable>(&self) -> (r: Option<&T>)
        ensures
            r is Some <==> self.tag() == T::tag(),
            r matches Some(v) ==> T::erase(*v) == *self,
            forall|x: T| #[trigger] T::erase(x) == *self ==> (r matches Some(v) && *v == x),
    {
        let r = T::ref_from_erased(self);
        proof {
            assert forall|x: T| #[trigger] T::erase(x) == *self implies (r matches Some(v) && *v
                == x) by {
                T::lemma_erase_tag(x);
                if let Some(v) = r {
                    T::lemma_erase_injective(*v, x);
                }
            }
        }
        r
    }

    /// Borrows the value mutably if it is of type `T`; what is written through the
    /// borrow is what the container then holds.
    pub fn downcast_mut<T: Erasable>(&mut self) -> (r: Option<&mut T>)
        ensures
            r is Some <==> old(self).tag() == T::tag(),
            r is None ==> *final(self) == *old(self),
            r matches Some(v) ==> T::erase(*v) == *old(self) && *final(self) == T::erase(*final(v)),
    {
        T::mut_from_erased(self)
    }

    /// The tag of the type of the value held.
    pub fn type_id(&self) -> (r: TypeTag)
        ensures
            r == self.tag(),
    {
        match self {
            Erased::Bool(_) => TypeTag::Bool,
            Erased::I32(_) => TypeTag::I32,
            Erased::I64(_) => TypeTag::I64,
            Erased::U64(_) => TypeTag::U64,
            Erased::String(_) => TypeTag::String,
            Erased::Str(_) => TypeTag::Str,
            Erased::ArcI32(_) => TypeTag::ArcI32,
        }
    }

    /// A copy of this container that holds an equal value.
    pub fn duplicate(&self) -> (r: Erased)
        ensures
            r == *self,
    {
        match self {
            Erased::Bool(x) => Erased::Bool(*x),
            Erased::I32(x) => Erased::I32(*x),
            Erased::I64(x) => Erased::I64(*x),
            Erased::U64(x) => Erased::U64(*x),
            Erased::String(x) => Erased::String(x.clone()),
            Erased::Str(x) => Erased::Str(*x),
            Erased::ArcI32(x) => Erased::ArcI32(x.clone()),
        }
    }
}

} // verus!

