use vstd::prelude::*;

use crate::shared::event::{ThreadCreated, ThreadEvent, ThreadReplied};

verus! {

/// A message as readers see it, numbered from 1 in order of arrival.
#[derive(Debug, PartialEq, Eq)]
pub struct Message {
    pub content: String,
    pub created_at: String,
    pub number: u16,
}

pub struct MessageView {
    pub content: Seq<char>,
    pub created_at: Seq<char>,
    pub number: u16,
}

impl View for Message {
    type V = MessageView;

    open spec fn view(&self) -> MessageView {
        MessageView { content: self.content@, created_at: self.created_at@, number: self.number }
    }
}

impl Clone for Message {
    fn clone(&self) -> (r: Self)
        ensures
            r@ == self@,
    {
        Message {
            content: self.content.clone(),
            created_at: self.created_at.clone(),
            number: self.number,
        }
    }
}

/// A thread as readers see it, kept up to date from its events.
#[derive(Debug, PartialEq, Eq)]
pub struct Thread {
    pub created_at: String,
    pub id: String,
    pub last_message: Message,
    pub messages: Vec<Message>,
    pub replies_count: u16,
    pub version: u32,
}

pub struct ThreadView {
    pub created_at: Seq<char>,
    pub id: Seq<char>,
    pub last_message: MessageView,
    pub messages: Seq<MessageView>,
    pub replies_count: u16,
    pub version: u32,
}

impl View for Thread {
    type V = ThreadView;

    open spec fn view(&self) -> ThreadView {
        ThreadView {
            created_at: self.created_at@,
            id: self.id@,
            last_message: self.last_message@,
            messages: self.messages@.map_values(|m: Message| m@),
            replies_count: self.replies_count,
            version: self.version,
        }
    }
}

/// A thread without its list of messages, for listings.
#[derive(Debug, PartialEq, Eq)]
pub struct ThreadWithoutMessages {
    pub created_at: String,
    pub id: String,
    pub last_message: Message,
    pub replies_count: u16,
    pub version: u32,
}

/// The projection that a `Created` event starts.
pub open spec fn project_created(e: ThreadCreated) -> ThreadView {
    let first = MessageView { content: e.content@, created_at: e.at@, number: 1 };
    ThreadView {
        created_at: e.at@,
        id: e.thread_id@,
        last_message: first,
        messages: seq![first],
        replies_count: 0,
        version: e.version,
    }
}

/// The projection `t` after a `Replied` event.
pub open spec fn project_replied(t: ThreadView, e: ThreadReplied) -> ThreadView {
    let replies = (t.replies_count + 1) as u16;
    let message = MessageView {
        content: e.content@,
        created_at: e.at@,
        number: (replies + 1) as u16,
    };
    ThreadView {
        last_message: message,
        messages: t.messages.push(message),
        replies_count: replies,
        version: e.version,
        ..t
    }
}

/// The projection `t` after event `e`; a `Created` event leaves it as it is,
/// for no stream holds one past its start.
pub open spec fn project_step(t: ThreadView, e: ThreadEvent) -> ThreadView {
    match e {
        ThreadEvent::Created(_) => t,
        ThreadEvent::Replied(r) => project_replied(t, r),
    }
}

/// The projection of a whole stream, folded from its last event back.
pub open spec fn project(s: Seq<ThreadEvent>) -> ThreadView
    decreases s.len(),
{
    if s.len() <= 1 {
        match s[0] {
            ThreadEvent::Created(c) => project_created(c),
            ThreadEvent::Replied(_) => arbitrary(),
        }
    } else {
        project_step(project(s.drop_last()), s.last())
    }
}

/// The projection `t` after each of `rest` in turn, from the front.
pub open spec fn project_each(t: ThreadView, rest: Seq<ThreadEvent>) -> ThreadView
    decreases rest.len(),
{
    if rest.len() == 0 {
        t
    } else {
        project_each(project_step(t, rest[0]), rest.drop_first())
    }
}

/// Events that the projection can fold: a `Created` first and `Replied` after
/// it, each one version past the one before, and few enough to number in a
/// `u16`.
pub open spec fn is_projectable(s: Seq<ThreadEvent>) -> bool {
    &&& 1 <= s.len() <= u16::MAX
    &&& s[0] is Created
    &&& forall|i: int| 1 <= i < s.len() ==> #[trigger] s[i] is Replied
    &&& forall|i: int|
        1 <= i < s.len() ==> #[trigger] s[i].version_spec() == s[i - 1].version_spec() + 1
}

/// The projection of a stream keeps one message per event, numbered in order,
/// counts the replies, and stands at the version of the last event.
pub open spec fn projection_facts(s: Seq<ThreadEvent>, t: ThreadView) -> bool {
    &&& t.messages.len() == s.len()
    &&& t.replies_count == s.len() - 1
    &&& t.version == s.last().version_spec()
    &&& t.last_message == t.messages.last()
    &&& forall|i: int| 0 <= i < s.len() ==> (#[trigger] t.messages[i]).number == i + 1
    &&& forall|i: int| 0 <= i < s.len() ==> (#[trigger] t.messages[i]).content == s[i].content_text()
}

/// What the projection of a stream holds.
pub proof fn lemma_project_facts(s: Seq<ThreadEvent>)
    requires
        is_projectable(s),
    ensures
        projection_facts(s, project(s)),
    decreases s.len(),
{
    if s.len() > 1 {
        let p = s.drop_last();
        assert(is_projectable(p)) by {
            assert forall|i: int| 1 <= i < p.len() implies #[trigger] p[i] is Replied by {
                assert(s[i] is Replied);
            }
            assert forall|i: int| 1 <= i < p.len() implies #[trigger] p[i].version_spec()
                == p[i - 1].version_spec() + 1 by {
                assert(s[i].version_spec() == s[i - 1].version_spec() + 1);
            }
        }
        lemma_project_facts(p);
        assert(s.last() is Replied);
        let t = project(s);
        assert forall|i: int| 0 <= i < s.len() implies (#[trigger] t.messages[i]).content
            == s[i].content_text() by {
            if i < p.len() {
                assert(s[i] == p[i]);
            }
        }
    }
}

/// Folding events one `apply` at a time onto the projection of the first one
/// gives the projection of the whole stream.
pub proof fn lemma_replay_equals_apply_each(s: Seq<ThreadEvent>)
    requires
        1 <= s.len(),
    ensures
        project_each(project(s.take(1)), s.drop_first()) == project(s),
    decreases s.len(),
{
    if s.len() > 1 {
        let p = s.drop_last();
        lemma_replay_equals_apply_each(p);
        assert(p.take(1) =~= s.take(1));
        assert(p.drop_first() =~= s.drop_first().drop_last());
        lemma_project_each_push(project(s.take(1)), s.drop_first());
        assert(s.drop_last() =~= p);
    } else {
        assert(s.take(1) =~= s);
    }
}

/// Folding one event more from the front adds one step at the end.
pub proof fn lemma_project_each_push(t: ThreadView, rest: Seq<ThreadEvent>)
    requires
        1 <= rest.len(),
    ensures
        project_each(t, rest) == project_step(project_each(t, rest.drop_last()), rest.last()),
    decreases rest.len(),
{
    if rest.len() > 1 {
        let u = project_step(t, rest[0]);
        lemma_project_each_push(u, rest.drop_first());
        assert(rest.drop_first().drop_last() =~= rest.drop_last().drop_first());
        assert(rest.drop_first().last() == rest.last());
        assert(rest.drop_last()[0] == rest[0]);
        assert(project_each(t, rest) == project_each(u, rest.drop_first()));
        assert(project_each(t, rest.drop_last()) == project_each(u, rest.drop_last().drop_first()));
    } else {
        assert(rest.drop_first() =~= Seq::<ThreadEvent>::empty());
        assert(rest.drop_last() =~= Seq::<ThreadEvent>::empty());
        assert(project_each(t, rest) == project_each(project_step(t, rest[0]), rest.drop_first()));
    }
}

impl Thread {
    /// The projection of a whole event stream.
    pub fn replay(events: Vec<ThreadEvent>) -> (r: Self)
        requires
            is_projectable(events@),
        ensures
            r@ == project(events@),
    {
        let ghost s = events@;
        let mut thread = match &events[0] {
            ThreadEvent::Created(event) => {
                let first = Message {
                    content: event.content.clone(),
                    created_at: event.at.clone(),
                    number: 1,
                };
                Thread {
                    created_at: event.at.clone(),
                    id: event.thread_id.clone(),
                    last_message: first.clone(),
                    messages: vec![first],
                    replies_count: 0,
                    version: event.version,
                }
            },
            ThreadEvent::Replied(_) => unreached(),
        };
        proof {
            assert(thread@.messages =~= project(s.take(1)).messages);
            assert(s.take(1).len() == 1);
            lemma_project_facts(s.take(1));
        }
        let mut i: usize = 1;
        while i < events.len()
            invariant
                s == events@,
                is_projectable(s),
                1 <= i <= s.len(),
                thread@ == project(s.take(i as int)),
            decreases s.len() - i,
        {
            proof {
                assert(is_projectable(s.take(i as int))) by {
                    let p = s.take(i as int);
                    assert forall|k: int| 1 <= k < p.len() implies #[trigger] p[k] is Replied by {
                        assert(s[k] is Replied);
                    }
                    assert forall|k: int| 1 <= k < p.len() implies #[trigger] p[k].version_spec()
                        == p[k - 1].version_spec() + 1 by {
                        assert(s[k].version_spec() == s[k - 1].version_spec() + 1);
                    }
                }
                lemma_project_facts(s.take(i as int));
                assert(s[i as int] is Replied);
                assert(s[i as int].version_spec() == s[i - 1].version_spec() + 1);
                assert(s.take(i as int).last() == s[i - 1]);
            }
            thread.apply(events[i].clone());
            proof {
                assert(s.take(i + 1).drop_last() =~= s.take(i as int));
                assert(s.take(i + 1).last() == s[i as int]);
            }
            i = i + 1;
        }
        assert(s.take(s.len() as int) =~= s);
        thread
    }

    /// Folds one more event, a `Replied` one version past this projection.
    pub fn apply(&mut self, event: ThreadEvent)
        requires
            event is Replied,
            event.version_spec() == old(self).version + 1,
            old(self).replies_count + 2 <= u16::MAX,
            old(self).messages@.len() < usize::MAX,
        ensures
            final(self)@ == project_step(old(self)@, event),
    {
        match event {
            ThreadEvent::Created(_) => unreached(),
            ThreadEvent::Replied(event) => {
                let replies = self.replies_count + 1;
                let message = Message {
                    content: event.content,
                    created_at: event.at,
                    number: replies + 1,
                };
                self.last_message = message.clone();
                self.messages.push(message);
                self.replies_count = replies;
                self.version = event.version;
                proof {
                    assert(self@.messages =~= old(self)@.messages.push(message@));
                }
            },
        }
    }

    /// A copy of this projection.
    pub fn duplicate(&self) -> (r: Self)
        ensures
            r@ == self@,
    {
        let mut messages: Vec<Message> = Vec::new();
        let mut i: usize = 0;
        while i < self.messages.len()
            invariant
                0 <= i <= self.messages@.len(),
                messages@.len() == i,
                forall|k: int| 0 <= k < i ==> (#[trigger] messages@[k])@ == self.messages@[k]@,
            decreases self.messages@.len() - i,
        {
            messages.push(self.messages[i].clone());
            i = i + 1;
        }
        let r = Thread {
            created_at: self.created_at.clone(),
            id: self.id.clone(),
            last_message: self.last_message.clone(),
            messages,
            replies_count: self.replies_count,
            version: self.version,
        };
        assert(r@.messages =~= self@.messages);
        r
    }

    /// This projection without its list of messages.
    pub fn without_messages(&self) -> (r: ThreadWithoutMessages)
        ensures
            r.created_at@ == self.created_at@,
            r.id@ == self.id@,
            r.last_message@ == self.last_message@,
            r.replies_count == self.replies_count,
            r.version == self.version,
    {
        ThreadWithoutMessages {
            created_at: self.created_at.clone(),
            id: self.id.clone(),
            last_message: self.last_message.clone(),
            replies_count: self.replies_count,
            version: self.version,
        }
    }
}

impl From<Thread> for ThreadWithoutMessages {
    fn from(thread: Thread) -> (r: Self)
        ensures
            r.created_at == thread.created_at,
            r.id == thread.id,
            r.last_message == thread.last_message,
            r.replies_count == thread.replies_count,
            r.version == thread.version,
    {
        ThreadWithoutMessages {
            created_at: thread.created_at,
            id: thread.id,
            last_message: thread.last_message,
            replies_count: thread.replies_count,
            version: thread.version,
        }
    }
}

impl vstd::std_specs::convert::FromSpecImpl<Thread> for ThreadWithoutMessages {
    open spec fn obeys_from_spec() -> bool {
        true
    }

    open spec fn from_spec(thread: Thread) -> ThreadWithoutMessages {
        ThreadWithoutMessages {
            created_at: thread.created_at,
            id: thread.id,
            last_message: thread.last_message,
            replies_count: thread.replies_count,
            version: thread.version,
        }
    }
}

impl Clone for Thread {
    fn clone(&self) -> (r: Self)
        ensures
            r@ == self@,
    {
        self.duplicate()
    }
}

} // verus!
