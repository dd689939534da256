use vstd::prelude::*;

pub mod in_memory_store;

pub use self::in_memory_store::InMemoryStore;

verus! {

/// A backend that serves both ports.
pub trait Store: crate::port::ThreadReader + crate::port::ThreadRepository {

}

} // verus!
