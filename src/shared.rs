use vstd::prelude::*;

pub mod event;
pub mod id;

verus! {

} // verus!
