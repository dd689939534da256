use vstd::prelude::*;

use crate::read::thread::{project, Thread};
use crate::shared::id::{id_refusal, uuid_parse_of, ThreadId, ThreadIdError};
use crate::store::in_memory_store::InMemoryStore;

verus! {

/// One thread with all its messages.
pub struct ThreadGetResponse {
    pub thread: Thread,
}

#[derive(Debug)]
pub enum ThreadGetError {
    InvalidId(ThreadIdError),
    NotFound,
}

/// The projection of the thread that `id` names.
pub fn handler(store: &InMemoryStore, id: String) -> (r: Result<ThreadGetResponse, ThreadGetError>)
    requires
        store.wf(),
    ensures
        match id_refusal(uuid_parse_of(id@)) {
            Some(reason) => r matches Err(ThreadGetError::InvalidId(e)) && e.reason == reason,
            None => {
                let key = uuid_parse_of(id@)->0;
                if store.log().dom().contains(key) {
                    r matches Ok(response) && response.thread@ == project(store.log()[key])
                } else {
                    r matches Err(ThreadGetError::NotFound)
                }
            },
        },
{
    let id = match ThreadId::from_str(id.as_str()) {
        Ok(id) => id,
        Err(e) => {
            return Err(ThreadGetError::InvalidId(e));
        },
    };
    match store.get_thread(&id) {
        Ok(Some(thread)) => Ok(ThreadGetResponse { thread }),
        _ => Err(ThreadGetError::NotFound),
    }
}

} // verus!
