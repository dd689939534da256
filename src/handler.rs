use vstd::prelude::*;

pub mod create;
pub mod get;
pub mod list;
pub mod reply;

verus! {

} // verus!
