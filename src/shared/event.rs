use vstd::prelude::*;

use crate::shared::id::{is_v4_text, parse_uuid, uuid_parse_of, uuid_version_of, ThreadId};
use crate::write::message_content::{content_ok, MessageContent};
use crate::write::version::Version;

verus! {

/// The most messages a thread holds, its first one included.
pub const MAX_MESSAGES: usize = 1000;

/// A thread was opened with its first message.
#[derive(Debug, PartialEq, Eq)]
pub struct ThreadCreated {
    pub at: String,
    pub content: String,
    pub id: String,
    pub message_id: String,
    pub thread_id: String,
    pub version: u32,
}

/// A message was added to a thread.
#[derive(Debug, PartialEq, Eq)]
pub struct ThreadReplied {
    pub at: String,
    pub content: String,
    pub id: String,
    pub message_id: String,
    pub thread_id: String,
    pub version: u32,
}

/// What happened to a thread, in the order it happened.
#[derive(Debug, PartialEq, Eq)]
pub enum ThreadEvent {
    Created(ThreadCreated),
    Replied(ThreadReplied),
}

impl Clone for ThreadCreated {
    fn clone(&self) -> (r: Self)
        ensures
            r == *self,
    {
        ThreadCreated {
            at: self.at.clone(),
            content: self.content.clone(),
            id: self.id.clone(),
            message_id: self.message_id.clone(),
            thread_id: self.thread_id.clone(),
            version: self.version,
        }
    }
}

impl Clone for ThreadReplied {
    fn clone(&self) -> (r: Self)
        ensures
            r == *self,
    {
        ThreadReplied {
            at: self.at.clone(),
            content: self.content.clone(),
            id: self.id.clone(),
            message_id: self.message_id.clone(),
            thread_id: self.thread_id.clone(),
            version: self.version,
        }
    }
}

impl Clone for ThreadEvent {
    fn clone(&self) -> (r: Self)
        ensures
            r == *self,
    {
        match self {
            ThreadEvent::Created(event) => ThreadEvent::Created(event.clone()),
            ThreadEvent::Replied(event) => ThreadEvent::Replied(event.clone()),
        }
    }
}

impl ThreadEvent {
    pub open spec fn version_spec(&self) -> u32 {
        match self {
            ThreadEvent::Created(event) => event.version,
            ThreadEvent::Replied(event) => event.version,
        }
    }

    pub open spec fn thread_id_text(&self) -> Seq<char> {
        match self {
            ThreadEvent::Created(event) => event.thread_id@,
            ThreadEvent::Replied(event) => event.thread_id@,
        }
    }

    pub open spec fn content_text(&self) -> Seq<char> {
        match self {
            ThreadEvent::Created(event) => event.content@,
            ThreadEvent::Replied(event) => event.content@,
        }
    }

    pub open spec fn id_text(&self) -> Seq<char> {
        match self {
            ThreadEvent::Created(event) => event.id@,
            ThreadEvent::Replied(event) => event.id@,
        }
    }

    pub open spec fn message_id_text(&self) -> Seq<char> {
        match self {
            ThreadEvent::Created(event) => event.message_id@,
            ThreadEvent::Replied(event) => event.message_id@,
        }
    }

    pub open spec fn at_text(&self) -> Seq<char> {
        match self {
            ThreadEvent::Created(event) => event.at@,
            ThreadEvent::Replied(event) => event.at@,
        }
    }

    /// The thread that the event belongs to.
    pub fn thread_id(&self) -> (r: ThreadId)
        requires
            is_v4_text(self.thread_id_text()),
        ensures
            Some(r@) == uuid_parse_of(self.thread_id_text()),
    {
        let text = match self {
            ThreadEvent::Created(event) => event.thread_id.as_str(),
            ThreadEvent::Replied(event) => event.thread_id.as_str(),
        };
        match ThreadId::from_str(text) {
            Ok(id) => id,
            Err(_) => unreached(),
        }
    }

    /// The thread that the event belongs to, or `None` when its text does not
    /// name one.
    pub fn checked_thread_id(&self) -> (r: Option<ThreadId>)
        ensures
            r is Some <==> is_v4_text(self.thread_id_text()),
            r is Some ==> Some(r->0@) == uuid_parse_of(self.thread_id_text()),
    {
        let text = match self {
            ThreadEvent::Created(event) => event.thread_id.as_str(),
            ThreadEvent::Replied(event) => event.thread_id.as_str(),
        };
        match parse_uuid(text) {
            Some(v) => {
                if crate::shared::id::uuid_version(v) == 4 {
                    Some(self.thread_id())
                } else {
                    None
                }
            },
            None => None,
        }
    }

    /// The version that the event brings its thread to.
    pub fn version(&self) -> (r: Version)
        ensures
            r@ == self.version_spec(),
    {
        Version::from(
            match self {
                ThreadEvent::Created(event) => event.version,
                ThreadEvent::Replied(event) => event.version,
            },
        )
    }
}

impl ThreadEvent {
    /// How the kind of the event is written in storage.
    pub fn kind_name(&self) -> (r: String)
        ensures
            self is Created ==> r@ == "created"@,
            self is Replied ==> r@ == "replied"@,
    {
        match self {
            ThreadEvent::Created(_) => String::from_str("created"),
            ThreadEvent::Replied(_) => String::from_str("replied"),
        }
    }

    /// The event that storage holds under the kind name `kind`, or `None` for
    /// a name that no kind has.
    pub fn from_stored(
        kind: String,
        at: String,
        content: String,
        id: String,
        message_id: String,
        thread_id: String,
        version: u32,
    ) -> (r: Option<ThreadEvent>)
        ensures
            kind@ == "created"@ ==> r == Some(
                ThreadEvent::Created(ThreadCreated { at, content, id, message_id, thread_id, version }),
            ),
            kind@ == "replied"@ ==> r == Some(
                ThreadEvent::Replied(ThreadReplied { at, content, id, message_id, thread_id, version }),
            ),
            kind@ != "created"@ && kind@ != "replied"@ ==> r is None,
    {
        proof {
            reveal_strlit("created");
            reveal_strlit("replied");
            assert("created"@[0] != "replied"@[0]);
        }
        if kind == String::from_str("created") {
            Some(ThreadEvent::Created(ThreadCreated { at, content, id, message_id, thread_id, version }))
        } else if kind == String::from_str("replied") {
            Some(ThreadEvent::Replied(ThreadReplied { at, content, id, message_id, thread_id, version }))
        } else {
            None
        }
    }
}

impl From<ThreadCreated> for ThreadEvent {
    fn from(event: ThreadCreated) -> (r: Self)
        ensures
            r == ThreadEvent::Created(event),
    {
        ThreadEvent::Created(event)
    }
}

impl vstd::std_specs::convert::FromSpecImpl<ThreadCreated> for ThreadEvent {
    open spec fn obeys_from_spec() -> bool {
        true
    }

    open spec fn from_spec(v: ThreadCreated) -> ThreadEvent {
        ThreadEvent::Created(v)
    }
}

impl From<ThreadReplied> for ThreadEvent {
    fn from(event: ThreadReplied) -> (r: Self)
        ensures
            r == ThreadEvent::Replied(event),
    {
        ThreadEvent::Replied(event)
    }
}

impl vstd::std_specs::convert::FromSpecImpl<ThreadReplied> for ThreadEvent {
    open spec fn obeys_from_spec() -> bool {
        true
    }

    open spec fn from_spec(v: ThreadReplied) -> ThreadEvent {
        ThreadEvent::Replied(v)
    }
}

/// The event at position `i` of the stream of thread `id`: the stream opens
/// with its only `Created`, which carries acceptable content; every event names
/// the thread and brings it to version `i + 1`.
pub open spec fn event_fits(e: ThreadEvent, i: int, id: u128) -> bool {
    &&& (i == 0) == (e is Created)
    &&& e.version_spec() == i + 1
    &&& uuid_parse_of(e.thread_id_text()) == Some(id)
    &&& i == 0 ==> content_ok(e.content_text())
}

/// The events of thread `id` from position `start` on fit the stream.
pub open spec fn events_fit(events: Seq<ThreadEvent>, start: int, id: u128) -> bool {
    &&& start + events.len() <= MAX_MESSAGES
    &&& forall|j: int| 0 <= j < events.len() ==> event_fits(#[trigger] events[j], start + j, id)
}

/// The whole event stream of thread `id`.
pub open spec fn is_stream_of(s: Seq<ThreadEvent>, id: u128) -> bool {
    &&& 1 <= s.len()
    &&& uuid_version_of(id) == 4
    &&& events_fit(s, 0, id)
}

/// A whole event stream, of the thread that its first event names.
pub open spec fn is_stream(s: Seq<ThreadEvent>) -> bool {
    &&& 1 <= s.len()
    &&& match uuid_parse_of(s[0].thread_id_text()) {
        Some(id) => is_stream_of(s, id),
        None => false,
    }
}

/// Whether `events`, placed from position `start` on in the stream of thread
/// `id`, fit there.
pub fn check_events_fit(events: &[ThreadEvent], start: usize, id: u128) -> (r: bool)
    requires
        start <= MAX_MESSAGES,
    ensures
        r == events_fit(events@, start as int, id),
{
    if events.len() > MAX_MESSAGES - start {
        return false;
    }
    let mut j: usize = 0;
    while j < events.len()
        invariant
            start + events@.len() <= MAX_MESSAGES,
            0 <= j <= events@.len(),
            forall|k: int| 0 <= k < j ==> event_fits(#[trigger] events@[k], start + k, id),
        decreases events@.len() - j,
    {
        let position = start + j;
        let fits = match &events[j] {
            ThreadEvent::Created(event) => {
                position == 0 && event.version as usize == position + 1 && parse_uuid(
                    event.thread_id.as_str(),
                ) == Some(id) && {
                    let n = MessageContent::trimmed_len(event.content.as_str());
                    1 <= n && n <= crate::write::message_content::MAX_CONTENT_CHARS
                }
            },
            ThreadEvent::Replied(event) => {
                position != 0 && event.version as usize == position + 1 && parse_uuid(
                    event.thread_id.as_str(),
                ) == Some(id)
            },
        };
        if !fits {
            assert(!event_fits(events@[j as int], start + j, id));
            return false;
        }
        j += 1;
    }
    true
}

} // verus!
