use vstd::prelude::*;

use crate::read::{Thread as ReadThread, ThreadWithoutMessages};
use crate::shared::event::ThreadEvent;
use crate::shared::id::ThreadId;
use crate::write::{Thread as WriteThread, Version};

verus! {

/// A read of the projection failed in the storage underneath.
#[derive(Debug)]
pub struct ThreadReaderError {
    pub message: String,
}

impl ThreadReaderError {
    pub fn to_string(&self) -> (r: String)
        ensures
            r@ == "thread reader error"@,
    {
        String::from_str("thread reader error")
    }
}

/// Queries on the projection; they never replay events.
pub trait ThreadReader {
    /// What the reader needs to hold between calls.
    spec fn reader_ready(&self) -> bool;

    fn get_thread(&self, id: &ThreadId) -> (r: Result<Option<ReadThread>, ThreadReaderError>)
        requires
            self.reader_ready(),
    ;

    fn list_threads(&self) -> (r: Result<Vec<ThreadWithoutMessages>, ThreadReaderError>)
        requires
            self.reader_ready(),
    ;
}

#[derive(Debug)]
pub enum ThreadRepositoryError {
    /// The storage underneath failed, or was handed events that do not
    /// continue the stream.
    InternalError(String),
    /// An append to a thread that has no stream.
    NotFound(ThreadId),
    /// The stream stands at `actual`, not at the version the caller expected.
    VersionMismatch { actual: Version, expected: Option<Version> },
}

impl ThreadRepositoryError {
    pub fn to_string(&self) -> (r: String) {
        match self {
            ThreadRepositoryError::InternalError(_) => String::from_str("internal error"),
            ThreadRepositoryError::NotFound(_) => String::from_str("not found"),
            ThreadRepositoryError::VersionMismatch { .. } => String::from_str("version mismatch"),
        }
    }
}

/// The event log: rebuilds aggregates and appends under optimistic
/// concurrency.
pub trait ThreadRepository {
    /// What the repository needs to hold between calls.
    spec fn repository_ready(&self) -> bool;

    fn find(&self, id: &ThreadId) -> (r: Result<Option<WriteThread>, ThreadRepositoryError>)
        requires
            self.repository_ready(),
    ;

    fn store(&mut self, version: Option<Version>, events: &[ThreadEvent]) -> (r: Result<
        (),
        ThreadRepositoryError,
    >)
        requires
            old(self).repository_ready(),
        ensures
            final(self).repository_ready(),
    ;
}

} // verus!
