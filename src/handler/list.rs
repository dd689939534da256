use vstd::prelude::*;

use crate::port::ThreadReaderError;
use crate::read::thread::{project, ThreadWithoutMessages};
use crate::store::in_memory_store::{is_increasing, summarizes, InMemoryStore};

verus! {

/// Every thread, without its messages.
pub struct ThreadListResponse {
    pub threads: Vec<ThreadWithoutMessages>,
}

#[derive(Debug)]
pub enum ThreadListError {
    ListThreads(ThreadReaderError),
}

/// Lists every thread in increasing order of thread id.
pub fn handler(store: &InMemoryStore) -> (r: Result<ThreadListResponse, ThreadListError>)
    requires
        store.wf(),
    ensures
        match r {
            Ok(response) => exists|keys: Seq<u128>|
                {
                    &&& is_increasing(keys)
                    &&& keys.to_set() == store.log().dom()
                    &&& response.threads@.len() == keys.len()
                    &&& forall|i: int|
                        0 <= i < keys.len() ==> summarizes(
                            #[trigger] response.threads@[i],
                            project(store.log()[keys[i]]),
                        )
                },
            Err(_) => false,
        },
{
    match store.list_threads() {
        Ok(threads) => Ok(ThreadListResponse { threads }),
        Err(e) => Err(ThreadListError::ListThreads(e)),
    }
}

} // verus!
