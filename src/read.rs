use vstd::prelude::*;

pub mod thread;

pub use self::thread::{Message, Thread, ThreadWithoutMessages};

verus! {

} // verus!
