use vstd::prelude::*;

use crate::port::ThreadRepositoryError;
use crate::shared::event::{ThreadEvent, MAX_MESSAGES};
use crate::shared::id::{id_refusal, uuid_parse_of, uuid_text_of, ThreadId, ThreadIdError};
use crate::store::in_memory_store::InMemoryStore;
use crate::write::message_content::{content_ok, trimmed_of, MAX_CONTENT_CHARS};
use crate::write::{Message, MessageContent, MessageContentError, ThreadError, Version};

verus! {

/// A reply, with the version of the thread that its author saw.
pub struct ThreadReplyRequestBody {
    pub content: String,
    pub version: u32,
}

/// The thread that was replied to.
pub struct ThreadReplyResponseBody {
    pub id: String,
}

#[derive(Debug)]
pub enum ThreadReplyError {
    Find(ThreadRepositoryError),
    InvalidMessageContent(MessageContentError),
    InvalidThreadId(ThreadIdError),
    NotFound(ThreadId),
    Reply(ThreadError),
    Store(ThreadRepositoryError),
}

/// `new_log` is `old_log` with one `Replied` event that carries `content`
/// added to the stream of thread `id`.
pub open spec fn appends_reply(
    old_log: Map<u128, Seq<ThreadEvent>>,
    new_log: Map<u128, Seq<ThreadEvent>>,
    id: u128,
    content: Seq<char>,
) -> bool {
    &&& old_log.dom().contains(id)
    &&& new_log == old_log.insert(id, new_log[id])
    &&& new_log[id].len() == old_log[id].len() + 1
    &&& new_log[id].drop_last() == old_log[id]
    &&& new_log[id].last() is Replied
    &&& new_log[id].last().content_text() == content
}

/// Replies with `body.content` to the thread that `thread_id` names, if that
/// thread stands at `body.version` and holds fewer than 1000 messages.
pub fn handler(store: &mut InMemoryStore, thread_id: String, body: ThreadReplyRequestBody) -> (r:
    Result<ThreadReplyResponseBody, ThreadReplyError>)
    requires
        old(store).wf(),
    ensures
        final(store).wf(),
        r is Err ==> *final(store) == *old(store),
        trimmed_of(body.content@).len() == 0 ==> r matches Err(
            ThreadReplyError::InvalidMessageContent(MessageContentError::Empty),
        ),
        trimmed_of(body.content@).len() > MAX_CONTENT_CHARS ==> r matches Err(
            ThreadReplyError::InvalidMessageContent(MessageContentError::TooLong(_)),
        ),
        content_ok(body.content@) ==> match id_refusal(uuid_parse_of(thread_id@)) {
            Some(reason) => r matches Err(ThreadReplyError::InvalidThreadId(e)) && e.reason
                == reason,
            None => reply_outcome(
                old(store).log(),
                final(store).log(),
                uuid_parse_of(thread_id@)->0,
                body.content@,
                body.version,
                r,
            ),
        },
{
    let content = match MessageContent::try_from(body.content) {
        Ok(content) => content,
        Err(e) => {
            return Err(ThreadReplyError::InvalidMessageContent(e));
        },
    };
    let thread_id = match ThreadId::from_str(thread_id.as_str()) {
        Ok(thread_id) => thread_id,
        Err(e) => {
            return Err(ThreadReplyError::InvalidThreadId(e));
        },
    };
    let version = Version::from(body.version);
    let message = Message::create(content);
    let thread = match store.find(&thread_id) {
        Ok(Some(thread)) => thread,
        Ok(None) => {
            return Err(ThreadReplyError::NotFound(thread_id));
        },
        Err(e) => {
            return Err(ThreadReplyError::Find(e));
        },
    };
    proof {
        store.lemma_wf();
    }
    let (_, events) = match thread.reply(message) {
        Ok(replied) => replied,
        Err(e) => {
            return Err(ThreadReplyError::Reply(e));
        },
    };
    match store.store(Some(version), events.as_slice()) {
        Ok(()) => {},
        Err(e) => {
            return Err(ThreadReplyError::Store(e));
        },
    }
    proof {
        assert(store.log()[thread_id@].drop_last() =~= old(store).log()[thread_id@]);
    }
    Ok(ThreadReplyResponseBody { id: thread.id().to_string() })
}

/// The outcome of a reply with acceptable `content` to thread `id` by an author
/// who saw it at `version`: `r` is the result and `new_log` the log afterwards.
pub open spec fn reply_outcome(
    old_log: Map<u128, Seq<ThreadEvent>>,
    new_log: Map<u128, Seq<ThreadEvent>>,
    id: u128,
    content: Seq<char>,
    version: u32,
    r: Result<ThreadReplyResponseBody, ThreadReplyError>,
) -> bool {
    if !old_log.dom().contains(id) {
        r matches Err(ThreadReplyError::NotFound(t)) && t@ == id
    } else if old_log[id].len() == MAX_MESSAGES {
        r matches Err(ThreadReplyError::Reply(_))
    } else if old_log[id].len() != version {
        &&& r matches Err(
            ThreadReplyError::Store(ThreadRepositoryError::VersionMismatch { actual, expected }),
        )
        &&& actual@ == old_log[id].len()
        &&& expected matches Some(v) && v@ == version
    } else {
        &&& r matches Ok(response)
        &&& response.id@ == uuid_text_of(id)
        &&& appends_reply(old_log, new_log, id, content)
    }
}

} // verus!
