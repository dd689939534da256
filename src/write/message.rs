use vstd::prelude::*;

use crate::date_time::{in_chrono_range, DateTime};
use crate::write::message_content::MessageContent;

verus! {

/// A message about to be posted: its content and when it was written.
#[derive(Debug, PartialEq, Eq)]
pub struct Message {
    pub content: MessageContent,
    pub created_at: DateTime,
}

impl Message {
    /// A message with `content`, written now.
    pub fn create(content: MessageContent) -> (r: Self)
        ensures
            r.content@ == content@,
            in_chrono_range(r.created_at@),
    {
        Message { content, created_at: DateTime::now() }
    }

    /// A message with random content, written now, for tests.
    pub fn new_for_testing() -> (r: Self)
        ensures
            in_chrono_range(r.created_at@),
    {
        Message { content: MessageContent::new_for_testing(), created_at: DateTime::now() }
    }
}

impl Clone for Message {
    fn clone(&self) -> (r: Self)
        ensures
            r.content@ == self.content@,
            r.created_at == self.created_at,
    {
        Message { content: self.content.clone(), created_at: self.created_at }
    }
}

} // verus!
