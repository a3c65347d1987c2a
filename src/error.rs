//! Keys that name dependencies, and the errors a resolution can end in.

use vstd::prelude::*;
use vstd::string::StringExecFns;

verus! {

/// Names one dependency of an injector: `id` identifies it, `name` is shown in diagnostics.
///
/// Two keys denote the same dependency exactly when their ids are equal; keeping ids
/// unique per dependency kind is up to whoever hands them out.
#[derive(Clone, Copy, Debug)]
pub struct DependencyKey {
    pub id: u64,
    pub name: &'static str,
}

impl DependencyKey {
    pub fn new(id: u64, name: &'static str) -> (r: DependencyKey)
        ensures
            r.id == id,
            r.name == name,
    {
        DependencyKey { id, name }
    }
}

/// An error raised while resolving a dependency.
#[derive(Clone, Debug)]
#[non_exhaustive]
pub enum ResolutionError {
    /// No value was promised or injected for the key.
    NotDefined(DependencyKey),
    /// A failure reported by the producer of a value, carried as is.
    Other(String),
    /// The injector that held the value is gone.
    Gone,
}

/// The text that describes error `e`.
pub open spec fn message_of(e: ResolutionError) -> Seq<char> {
    match e {
        ResolutionError::NotDefined(k) => "type `"@ + k.name@ + "` is not defined"@,
        ResolutionError::Other(m) => m@,
        ResolutionError::Gone => "the injector is gone"@,
    }
}

/// The error type of this library.
pub type Error = ResolutionError;

impl ResolutionError {
    /// The error for a read of `key` that found no settled value.
    pub fn not_defined(key: DependencyKey) -> (r: ResolutionError)
        ensures
            r == ResolutionError::NotDefined(key),
    {
        ResolutionError::NotDefined(key)
    }

    /// A producer failure with the given message.
    pub fn other(message: &str) -> (r: ResolutionError)
        ensures
            r matches ResolutionError::Other(m) && m@ == message@,
    {
        ResolutionError::Other(message.to_string())
    }

    pub fn is_not_defined(&self) -> (r: bool)
        ensures
            r == self is NotDefined,
    {
        matches!(self, ResolutionError::NotDefined(_))
    }

    pub fn is_not_defined_for(&self, key: &DependencyKey) -> (r: bool)
        ensures
            r == (self matches ResolutionError::NotDefined(k) && k.id == key.id),
    {
        match self {
            ResolutionError::NotDefined(k) => k.id == key.id,
            _ => false,
        }
    }

    pub fn is_other(&self) -> (r: bool)
        ensures
            r == self is Other,
    {
        matches!(self, ResolutionError::Other(_))
    }

    pub fn is_gone(&self) -> (r: bool)
        ensures
            r == self is Gone,
    {
        matches!(self, ResolutionError::Gone)
    }

    /// The text that describes this error.
    pub fn message(&self) -> (r: String)
        ensures
            r@ == message_of(*self),
    {
        match self {
            ResolutionError::NotDefined(k) => {
                let head = String::from_str("type `");
                let named = head.concat(k.name);
                named.concat("` is not defined")
            },
            ResolutionError::Other(m) => m.clone(),
            ResolutionError::Gone => String::from_str("the injector is gone"),
        }
    }

    /// A copy of this error equal to it.
    pub fn duplicate(&self) -> (r: ResolutionError)
        ensures
            r == *self,
    {
        match self {
            ResolutionError::NotDefined(k) => ResolutionError::NotDefined(*k),
            ResolutionError::Other(m) => ResolutionError::Other(m.clone()),
            ResolutionError::Gone => ResolutionError::Gone,
        }
    }
}

} // verus!
