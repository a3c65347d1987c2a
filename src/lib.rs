//! Reactive value resolution for dependency injection: a store of lazily created slots,
//! one per dependency key, with handles that read, await and combine their outcomes.
//!
//! Waiting is expressed as steps: every `poll_*` method looks at the store as it stands
//! and either returns the result of the wait or says that the wait goes on. Whoever shares
//! the store between tasks calls the step again after each change.

use vstd::prelude::*;

pub mod component;
pub mod composite;
pub mod constructor;
pub mod erased;
pub mod error;
pub mod state;
pub mod state_map;
pub mod store;
pub mod watch;

pub use erased::{Erasable, Erased, TypeTag};
pub use error::{DependencyKey, ResolutionError};
pub use state_map::{Injector, StateMap};
