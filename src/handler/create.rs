use vstd::prelude::*;

use crate::port::ThreadRepositoryError;
use crate::shared::event::ThreadEvent;
use crate::shared::id::{uuid_parse_of, uuid_text_of};
use crate::store::in_memory_store::InMemoryStore;
use crate::write::message_content::{content_ok, trimmed_of, MAX_CONTENT_CHARS};
use crate::write::{Message, MessageContent, MessageContentError, Thread, ThreadError};

verus! {

/// A request to open a thread.
pub struct ThreadCreateRequestBody {
    pub content: String,
}

/// The thread that was opened.
pub struct ThreadCreateResponseBody {
    pub id: String,
}

#[derive(Debug)]
pub enum MessageCreateError {
    Create(ThreadError),
    InvalidMessageContent(MessageContentError),
    Store(ThreadRepositoryError),
}

/// `new_log` is `old_log` with a new stream for thread `id`, made of one event
/// that carries `content`.
pub open spec fn opens_thread(
    old_log: Map<u128, Seq<ThreadEvent>>,
    new_log: Map<u128, Seq<ThreadEvent>>,
    id: u128,
    content: Seq<char>,
) -> bool {
    &&& !old_log.dom().contains(id)
    &&& new_log == old_log.insert(id, new_log[id])
    &&& new_log[id].len() == 1
    &&& new_log[id][0] is Created
    &&& new_log[id][0].content_text() == content
}

/// Opens a thread whose first message is `body.content`. Content that is not
/// acceptable is refused, as is a fresh id that happens to be taken already.
pub fn handler(store: &mut InMemoryStore, body: ThreadCreateRequestBody) -> (r: Result<
    ThreadCreateResponseBody,
    MessageCreateError,
>)
    requires
        old(store).wf(),
    ensures
        final(store).wf(),
        r is Err ==> *final(store) == *old(store),
        trimmed_of(body.content@).len() == 0 ==> r matches Err(
            MessageCreateError::InvalidMessageContent(MessageContentError::Empty),
        ),
        trimmed_of(body.content@).len() > MAX_CONTENT_CHARS ==> r matches Err(
            MessageCreateError::InvalidMessageContent(MessageContentError::TooLong(_)),
        ),
        content_ok(body.content@) ==> r is Ok || r matches Err(
            MessageCreateError::Store(ThreadRepositoryError::VersionMismatch { .. }),
        ),
        content_ok(body.content@) && old(store).log().dom().is_empty() ==> r is Ok,
        r matches Err(MessageCreateError::Store(e)) ==> (e matches ThreadRepositoryError::VersionMismatch { actual, expected } && expected is None && exists|id: u128|
            old(store).log().dom().contains(id) && actual@ == old(store).log()[id].len()),
        r matches Ok(response) ==> exists|id: u128|
            uuid_parse_of(response.id@) == Some(id) && response.id@ == uuid_text_of(id)
                && opens_thread(old(store).log(), final(store).log(), id, body.content@),
{
    let content = match MessageContent::try_from(body.content) {
        Ok(content) => content,
        Err(e) => {
            return Err(MessageCreateError::InvalidMessageContent(e));
        },
    };
    let message = Message::create(content);
    let (thread, events) = match Thread::create(message) {
        Ok(created) => created,
        Err(e) => {
            return Err(MessageCreateError::Create(e));
        },
    };
    match store.store(None, events.as_slice()) {
        Ok(()) => {},
        Err(e) => {
            return Err(MessageCreateError::Store(e));
        },
    }
    let id_text = thread.id().to_string();
    Ok(ThreadCreateResponseBody { id: id_text })
}

} // verus!
