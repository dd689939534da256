use vstd::prelude::*;

use crate::date_time::{in_chrono_range, rfc3339_millis_of, DateTime};
use crate::shared::event::{
    check_events_fit, events_fit, is_stream, is_stream_of, ThreadCreated, ThreadEvent, ThreadReplied, MAX_MESSAGES,
};
use crate::shared::id::{
    is_v4_text, uuid_parse_of, uuid_text_of, uuid_version_of, EventId, MessageId, ThreadId,
};
use crate::write::message::Message;
use crate::write::message_content::MessageContent;
use crate::write::version::Version;

verus! {

/// A reply was refused: the thread already holds the most messages allowed.
#[derive(Debug, PartialEq, Eq)]
pub struct ThreadError;

impl ThreadError {
    pub fn to_string(&self) -> (r: String)
        ensures
            r@ == "thread error"@,
    {
        String::from_str("thread error")
    }
}

/// What the write side knows of a thread.
pub struct ThreadState {
    pub id: u128,
    pub message_count: nat,
    pub root_content: Seq<char>,
    pub version: u32,
}

/// The state that a whole event stream stands for.
pub open spec fn replay_state(s: Seq<ThreadEvent>) -> ThreadState {
    ThreadState {
        id: uuid_parse_of(s[0].thread_id_text())->0,
        message_count: s.len(),
        root_content: s[0].content_text(),
        version: s.last().version_spec(),
    }
}

/// An event written now for thread `id`: it names the thread by its canonical
/// text, has fresh version-4 ids of its own and of its message, and the RFC 3339
/// text of an instant.
pub open spec fn written_for(e: ThreadEvent, id: u128) -> bool {
    &&& e.thread_id_text() == uuid_text_of(id)
    &&& is_v4_text(e.id_text())
    &&& is_v4_text(e.message_id_text())
    &&& exists|m: i64| in_chrono_range(m) && e.at_text() == rfc3339_millis_of(m)
}

/// `thread` and `events` are what opening a thread with `content` gives: one
/// `Created` event that carries the content and forms a stream of its own, and
/// the state that this stream stands for, at the first version.
pub open spec fn created_from(content: Seq<char>, thread: ThreadState, events: Seq<ThreadEvent>) -> bool {
    &&& events.len() == 1
    &&& events[0] is Created
    &&& events[0].content_text() == content
    &&& written_for(events[0], thread.id)
    &&& is_stream(events)
    &&& thread == replay_state(events)
    &&& thread.version == 1
    &&& thread.message_count == 1
}

/// `next` and `events` are what replying with `content` to `prev` gives: one
/// `Replied` event that carries the content and continues the stream of `prev`,
/// and `prev` with one message more, one version on.
pub open spec fn replied_from(
    prev: ThreadState,
    content: Seq<char>,
    next: ThreadState,
    events: Seq<ThreadEvent>,
) -> bool {
    &&& events.len() == 1
    &&& events[0] is Replied
    &&& events[0].content_text() == content
    &&& written_for(events[0], prev.id)
    &&& events_fit(events, prev.message_count as int, prev.id)
    &&& next == ThreadState {
        message_count: prev.message_count + 1,
        version: (prev.version + 1) as u32,
        ..prev
    }
}

/// Replaying the events that opening a thread gave rebuilds a thread at the
/// first version that holds one message.
pub proof fn lemma_create_then_replay(content: Seq<char>, thread: ThreadState, events: Seq<ThreadEvent>)
    requires
        created_from(content, thread, events),
    ensures
        is_stream(events),
        replay_state(events).version == 1,
        replay_state(events).message_count == 1,
        replay_state(events).root_content == content,
{
}

/// Adding the events of a reply to a stream gives a stream whose replay is the
/// thread that the reply returned.
pub proof fn lemma_reply_extends_stream(
    s: Seq<ThreadEvent>,
    content: Seq<char>,
    next: ThreadState,
    events: Seq<ThreadEvent>,
)
    requires
        is_stream(s),
        replied_from(replay_state(s), content, next, events),
    ensures
        is_stream(s + events),
        replay_state(s + events) == next,
{
    let id = uuid_parse_of(s[0].thread_id_text())->0;
    let w = s + events;
    assert(w[0] == s[0]);
    assert forall|j: int| 0 <= j < w.len() implies crate::shared::event::event_fits(#[trigger] w[j], j, id) by {
        if j < s.len() {
            assert(w[j] == s[j]);
        } else {
            assert(w[j] == events[j - s.len()]);
        }
    }
    assert(crate::shared::event::event_fits(s[s.len() - 1], s.len() - 1, id));
    assert(crate::shared::event::event_fits(events[0], s.len() as int, id));
    assert(w.last() == events[0]);
}

/// Opening a thread and replying `n` times in turn: `states[k]` and
/// `batches[k]` are what the `k`-th step returned, `contents[k]` its content.
pub open spec fn is_history(
    contents: Seq<Seq<char>>,
    states: Seq<ThreadState>,
    batches: Seq<Seq<ThreadEvent>>,
    n: nat,
) -> bool {
    &&& contents.len() == n + 1
    &&& states.len() == n + 1
    &&& batches.len() == n + 1
    &&& created_from(contents[0], states[0], batches[0])
    &&& forall|k: int|
        1 <= k <= n ==> replied_from(
            states[k - 1],
            contents[k],
            #[trigger] states[k],
            batches[k],
        )
}

/// Replaying the events of a thread opened and then replied to `n` times
/// rebuilds the thread at version `1 + n` that holds `n + 1` messages.
pub proof fn lemma_replay_of_history(
    contents: Seq<Seq<char>>,
    states: Seq<ThreadState>,
    batches: Seq<Seq<ThreadEvent>>,
    n: nat,
)
    requires
        is_history(contents, states, batches, n),
    ensures
        is_stream(batches.flatten()),
        replay_state(batches.flatten()) == states[n as int],
        states[n as int].version == 1 + n,
        states[n as int].message_count == n + 1,
    decreases n,
{
    if n == 0 {
        assert(batches.drop_last() =~= Seq::<Seq<ThreadEvent>>::empty());
        Seq::<Seq<ThreadEvent>>::empty().lemma_flatten_push(batches[0]);
        assert(batches =~= Seq::<Seq<ThreadEvent>>::empty().push(batches[0]));
        assert(batches.flatten() =~= batches[0]);
    } else {
        let m = (n - 1) as nat;
        let c = contents.drop_last();
        let st = states.drop_last();
        let b = batches.drop_last();
        assert forall|k: int| 1 <= k <= m implies replied_from(
            st[k - 1],
            c[k],
            #[trigger] st[k],
            b[k],
        ) by {
            assert(replied_from(states[k - 1], contents[k], states[k], batches[k]));
        }
        lemma_replay_of_history(c, st, b, m);
        assert(replied_from(states[m as int], contents[n as int], states[n as int], batches[n as int]));
        lemma_reply_extends_stream(b.flatten(), contents[n as int], states[n as int], batches[n as int]);
        assert(batches =~= b.push(batches[n as int]));
        b.lemma_flatten_push(batches[n as int]);
    }
}

/// The write side of a thread, rebuilt from its events; the only source of new
/// events. Each operation returns a new value and leaves this one as it is.
#[derive(Debug, PartialEq, Eq)]
pub struct Thread {
    id: ThreadId,
    message_count: usize,
    root_content: MessageContent,
    version: Version,
}

impl View for Thread {
    type V = ThreadState;

    closed spec fn view(&self) -> ThreadState {
        ThreadState {
            id: self.id@,
            message_count: self.message_count as nat,
            root_content: self.root_content@,
            version: self.version@,
        }
    }
}

impl Thread {
    /// A thread holds between 1 and 1000 messages, and its version counts them.
    #[verifier::type_invariant]
    pub open spec fn valid(self) -> bool {
        &&& 1 <= self@.message_count <= MAX_MESSAGES
        &&& self@.version == self@.message_count
        &&& uuid_version_of(self@.id) == 4
    }

    /// Opens a new thread with `message` as its first message.
    pub fn create(message: Message) -> (r: Result<(Self, Vec<ThreadEvent>), ThreadError>)
        ensures
            match r {
                Ok((thread, events)) => created_from(message.content@, thread@, events@),
                Err(_) => false,
            },
    {
        proof {
            use_type_invariant(&message.content);
        }
        let id = ThreadId::generate();
        let version = Version::initial();
        let event = ThreadEvent::from(
            ThreadCreated {
                at: DateTime::now().to_string(),
                content: String::from(message.content.clone()),
                id: EventId::generate().to_string(),
                message_id: MessageId::generate().to_string(),
                thread_id: id.to_string(),
                version: u32::from(version),
            },
        );
        let events = vec![event];
        let thread = Thread { id, message_count: 1, root_content: message.content, version };
        Ok((thread, events))
    }

    /// Rebuilds a thread from its whole event stream.
    pub fn replay(events: &[ThreadEvent]) -> (r: Self)
        requires
            is_stream(events@),
        ensures
            r@ == replay_state(events@),
    {
        let ghost id = uuid_parse_of(events@[0].thread_id_text())->0;
        assert(crate::shared::event::event_fits(events@[0], 0, id));
        let mut message_count: usize = 1;
        let (thread_id, root_content) = match &events[0] {
            ThreadEvent::Created(event) => {
                let content = MessageContent::try_from(event.content.clone());
                match content {
                    Ok(content) => (events[0].thread_id(), content),
                    Err(_) => unreached(),
                }
            },
            ThreadEvent::Replied(_) => unreached(),
        };
        let mut version = events[0].version();
        let mut i: usize = 1;
        while i < events.len()
            invariant
                is_stream_of(events@, id),
                1 <= i <= events@.len(),
                message_count == i,
                version@ == events@[i - 1].version_spec(),
            decreases events@.len() - i,
        {
            assert(crate::shared::event::event_fits(events@[i as int], i as int, id));
            match &events[i] {
                ThreadEvent::Created(_) => unreached(),
                ThreadEvent::Replied(event) => {
                    message_count = message_count + 1;
                    version = Version::from(event.version);
                },
            }
            i = i + 1;
        }
        Thread { id: thread_id, message_count, root_content, version }
    }

    /// Rebuilds a thread from events read back from storage, or gives `None`
    /// when they do not form a whole stream.
    pub fn try_replay(events: &[ThreadEvent]) -> (r: Option<Self>)
        ensures
            r is Some <==> is_stream(events@),
            r matches Some(thread) ==> thread@ == replay_state(events@),
    {
        if events.len() == 0 {
            return None;
        }
        let id = match events[0].checked_thread_id() {
            Some(id) => id,
            None => {
                return None;
            },
        };
        if check_events_fit(events, 0, id.as_u128()) {
            Some(Thread::replay(events))
        } else {
            None
        }
    }

    pub fn id(&self) -> (r: &ThreadId)
        ensures
            r@ == self@.id,
    {
        &self.id
    }

    /// Replies with `message`, unless the thread already holds 1000 messages.
    pub fn reply(&self, message: Message) -> (r: Result<(Self, Vec<ThreadEvent>), ThreadError>)
        ensures
            self@.message_count == MAX_MESSAGES ==> r is Err,
            self@.message_count < MAX_MESSAGES ==> match r {
                Ok((thread, events)) => replied_from(self@, message.content@, thread@, events@),
                Err(_) => false,
            },
    {
        proof {
            use_type_invariant(self);
        }
        if self.message_count == MAX_MESSAGES {
            return Err(ThreadError);
        }
        let version = self.version.next();
        let event = ThreadEvent::from(
            ThreadReplied {
                at: DateTime::now().to_string(),
                content: String::from(message.content.clone()),
                id: EventId::generate().to_string(),
                message_id: MessageId::generate().to_string(),
                thread_id: self.id.to_string(),
                version: u32::from(version),
            },
        );
        let events = vec![event];
        let thread = Thread {
            id: self.id,
            message_count: self.message_count + 1,
            root_content: self.root_content.clone(),
            version,
        };
        Ok((thread, events))
    }

    pub fn version(&self) -> (r: Version)
        ensures
            r@ == self@.version,
    {
        self.version
    }

    pub fn message_count(&self) -> (r: usize)
        ensures
            r == self@.message_count,
    {
        self.message_count
    }

    pub fn root_content(&self) -> (r: &MessageContent)
        ensures
            r@ == self@.root_content,
    {
        &self.root_content
    }
}

} // verus!
