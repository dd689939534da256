use std::collections::BTreeMap;
use vstd::prelude::*;
use vstd::laws_cmp::obeys_cmp;
use vstd::std_specs::cmp::OrdSpec;
use vstd::std_specs::btree::increasing_seq;
use vstd::std_specs::iter::IteratorSpec;

use crate::port::{ThreadReader, ThreadReaderError, ThreadRepository, ThreadRepositoryError};
use crate::read::thread::{
    is_projectable, lemma_project_facts, project, Thread as ReadThread, ThreadView,
    ThreadWithoutMessages,
};
use crate::shared::event::{
    check_events_fit, event_fits, events_fit, is_stream_of, ThreadEvent,
};
use crate::shared::id::{is_v4_text, uuid_parse_of, ThreadId};
use crate::write::thread::{replay_state, Thread as WriteThread};
use crate::write::version::Version;

verus! {

broadcast use vstd::std_specs::btree::group_btree_axioms;

/// The events of one thread and the projection folded from them.
struct Stream {
    id: ThreadId,
    events: Vec<ThreadEvent>,
    read: ReadThread,
}

/// The thread that a batch of events is for: the one its first event names.
pub open spec fn batch_thread(events: Seq<ThreadEvent>) -> Option<u128> {
    if events.len() > 0 && is_v4_text(events[0].thread_id_text()) {
        uuid_parse_of(events[0].thread_id_text())
    } else {
        None
    }
}

/// The outcome of appending `events` for thread `id` to `log` when the caller
/// expects the stream at `expected` (`None`: no stream yet): `r` is the result
/// and `new_log` the log afterwards. The version is checked before the events.
pub open spec fn append_outcome(
    log: Map<u128, Seq<ThreadEvent>>,
    expected: Option<Version>,
    events: Seq<ThreadEvent>,
    id: u128,
    r: Result<(), ThreadRepositoryError>,
    new_log: Map<u128, Seq<ThreadEvent>>,
) -> bool {
    match expected {
        None => if log.dom().contains(id) {
            &&& r matches Err(ThreadRepositoryError::VersionMismatch { actual, expected })
            &&& actual@ == log[id].len()
            &&& expected is None
            &&& new_log == log
        } else if events_fit(events, 0, id) {
            r is Ok && new_log == log.insert(id, events)
        } else {
            r matches Err(ThreadRepositoryError::InternalError(_)) && new_log == log
        },
        Some(v) => if !log.dom().contains(id) {
            r matches Err(ThreadRepositoryError::NotFound(t)) && t@ == id && new_log == log
        } else if log[id].len() != v@ {
            &&& r matches Err(ThreadRepositoryError::VersionMismatch { actual, expected })
            &&& actual@ == log[id].len()
            &&& expected == Some(v)
            &&& new_log == log
        } else if events_fit(events, log[id].len() as int, id) {
            r is Ok && new_log == log.insert(id, log[id] + events)
        } else {
            r matches Err(ThreadRepositoryError::InternalError(_)) && new_log == log
        },
    }
}

/// The check of optimistic concurrency, for a thread whose stream stands at
/// `stored` (`None`: it has no stream) when a caller expects `expected`
/// (`None`: no stream yet): the append may go on only when both agree.
pub open spec fn append_check(
    stored: Option<Version>,
    id: u128,
    expected: Option<Version>,
    r: Result<(), ThreadRepositoryError>,
) -> bool {
    match (expected, stored) {
        (None, None) => r is Ok,
        (None, Some(actual)) => r == Err::<(), ThreadRepositoryError>(
            ThreadRepositoryError::VersionMismatch { actual, expected: None },
        ),
        (Some(_), None) => r matches Err(ThreadRepositoryError::NotFound(t)) && t@ == id,
        (Some(v), Some(actual)) => if actual@ == v@ {
            r is Ok
        } else {
            r == Err::<(), ThreadRepositoryError>(
                ThreadRepositoryError::VersionMismatch { actual, expected: Some(v) },
            )
        },
    }
}

/// Compares the version a caller expects with the version at which the stream
/// of `thread_id` is stored; any backend makes this check and the append it
/// allows at once.
pub fn check_append(stored: Option<Version>, thread_id: ThreadId, expected: Option<Version>) -> (r:
    Result<(), ThreadRepositoryError>)
    ensures
        append_check(stored, thread_id@, expected, r),
{
    match (expected, stored) {
        (None, None) => Ok(()),
        (None, Some(actual)) => Err(ThreadRepositoryError::VersionMismatch { actual, expected: None }),
        (Some(_), None) => Err(ThreadRepositoryError::NotFound(thread_id)),
        (Some(v), Some(actual)) => {
            if u32::from(actual) == u32::from(v) {
                Ok(())
            } else {
                Err(ThreadRepositoryError::VersionMismatch { actual, expected: Some(v) })
            }
        },
    }
}

/// Thread ids listed from the smallest to the largest.
pub open spec fn is_increasing(keys: Seq<u128>) -> bool {
    forall|i: int, j: int| 0 <= i < j < keys.len() ==> keys[i] < keys[j]
}

/// A store that keeps every event stream and its projection in memory, by
/// thread id. Callers that share it hold one lock around the whole store, so
/// that each append is checked and made at once.
pub struct InMemoryStore {
    streams: BTreeMap<u128, Stream>,
}

impl InMemoryStore {
    /// The event stream of each thread, by thread id.
    pub closed spec fn log(&self) -> Map<u128, Seq<ThreadEvent>> {
        self.streams@.map_values(|s: Stream| s.events@)
    }

    /// Each stream is whole, of the thread it is kept under, and its
    /// projection is folded from it.
    pub closed spec fn wf(&self) -> bool {
        forall|k: u128| #[trigger]
            self.streams@.contains_key(k) ==> {
                &&& self.streams@[k].id@ == k
                &&& is_stream_of(self.streams@[k].events@, k)
                &&& self.streams@[k].read@ == project(self.streams@[k].events@)
            }
    }

    /// What a well-formed store holds: whole streams, each under its own thread.
    pub proof fn lemma_wf(&self)
        requires
            self.wf(),
        ensures
            forall|k: u128| #[trigger] self.log().dom().contains(k) ==> is_stream_of(self.log()[k], k),
    {
        assert forall|k: u128| #[trigger] self.log().dom().contains(k) implies is_stream_of(
            self.log()[k],
            k,
        ) by {
            assert(self.streams@.contains_key(k));
        }
    }

    pub fn new() -> (r: Self)
        ensures
            r.wf(),
            r.log() == Map::<u128, Seq<ThreadEvent>>::empty(),
    {
        let r = InMemoryStore { streams: BTreeMap::new() };
        assert(r.log() =~= Map::<u128, Seq<ThreadEvent>>::empty());
        r
    }

    /// Rebuilds the aggregate of thread `id` from its whole stream.
    pub fn find(&self, id: &ThreadId) -> (r: Result<Option<WriteThread>, ThreadRepositoryError>)
        requires
            self.wf(),
        ensures
            match r {
                Ok(Some(thread)) => self.log().dom().contains(id@) && thread@ == replay_state(
                    self.log()[id@],
                ),
                Ok(None) => !self.log().dom().contains(id@),
                Err(_) => false,
            },
    {
        match self.streams.get(&id.as_u128()) {
            Some(stream) => {
                proof {
                    assert(self.streams@.contains_key(id@));
                    lemma_stream_facts(stream.events@, id@);
                }
                Ok(Some(WriteThread::replay(stream.events.as_slice())))
            },
            None => Ok(None),
        }
    }

    /// The projection of thread `id`, as it is kept.
    pub fn get_thread(&self, id: &ThreadId) -> (r: Result<Option<ReadThread>, ThreadReaderError>)
        requires
            self.wf(),
        ensures
            match r {
                Ok(Some(thread)) => self.log().dom().contains(id@) && thread@ == project(
                    self.log()[id@],
                ),
                Ok(None) => !self.log().dom().contains(id@),
                Err(_) => false,
            },
    {
        match self.streams.get(&id.as_u128()) {
            Some(stream) => {
                proof {
                    assert(self.streams@.contains_key(id@));
                }
                Ok(Some(stream.read.duplicate()))
            },
            None => Ok(None),
        }
    }

    /// The projection of every thread without its messages, in increasing
    /// order of thread id.
    pub fn list_threads(&self) -> (r: Result<Vec<ThreadWithoutMessages>, ThreadReaderError>)
        requires
            self.wf(),
        ensures
            match r {
                Ok(threads) => exists|keys: Seq<u128>|
                    {
                        &&& is_increasing(keys)
                        &&& keys.to_set() == self.log().dom()
                        &&& threads@.len() == keys.len()
                        &&& forall|i: int|
                            0 <= i < keys.len() ==> summarizes(
                                #[trigger] threads@[i],
                                project(self.log()[keys[i]]),
                            )
                    },
                Err(_) => false,
            },
    {
        let mut threads: Vec<ThreadWithoutMessages> = Vec::new();
        let all = self.streams.values();
        let ghost keys = choose|keys: Seq<u128>|
            {
                &&& increasing_seq(keys)
                &&& keys.to_set() == self.streams@.dom()
                &&& keys.no_duplicates()
                &&& IteratorSpec::remaining(&all) == keys.map(|i: int, k| &self.streams@[k])
            };
        proof {
            assert(is_increasing(keys)) by {
                broadcast use vstd::laws_cmp::group_laws_cmp;
                broadcast use vstd::std_specs::btree::axiom_increasing_seq_meaning;

                assert(obeys_cmp::<u128>());
                assert forall|i: int, j: int| 0 <= i < j < keys.len() implies keys[i] < keys[j] by {
                    assert(keys[i].cmp_spec(&keys[j]) is Less);
                }
            }
        }
        for stream in it: all
            invariant
                self.wf(),
                threads@.len() == it.index(),
                it.seq() == keys.map(|i: int, k| &self.streams@[k]),
                keys.to_set() == self.streams@.dom(),
                forall|i: int|
                    0 <= i < it.index() ==> summarizes(
                        #[trigger] threads@[i],
                        project(self.log()[keys[i]]),
                    ),
        {
            proof {
                let k = keys[it.index()];
                assert(keys.to_set().contains(k));
                assert(self.streams@.contains_key(k));
            }
            threads.push(stream.read.without_messages());
        }
        assert(self.log().dom() =~= self.streams@.dom());
        Ok(threads)
    }

    /// Appends `events` to the stream of the thread that the first of them
    /// names, if the stream stands at `version` (`None`: if there is no stream
    /// yet), and folds them into its projection at once. An empty batch is
    /// accepted and changes nothing. A refused append changes nothing.
    pub fn store(&mut self, version: Option<Version>, events: &[ThreadEvent]) -> (r: Result<
        (),
        ThreadRepositoryError,
    >)
        requires
            old(self).wf(),
        ensures
            final(self).wf(),
            r is Err ==> *final(self) == *old(self),
            events@.len() == 0 ==> r is Ok && *final(self) == *old(self),
            events@.len() > 0 && batch_thread(events@) is None ==> r matches Err(
                ThreadRepositoryError::InternalError(_),
            ),
            batch_thread(events@) matches Some(id) ==> append_outcome(
                old(self).log(),
                version,
                events@,
                id,
                r,
                final(self).log(),
            ),
    {
        if events.len() == 0 {
            return Ok(());
        }
        let thread_id = match events[0].checked_thread_id() {
            Some(thread_id) => thread_id,
            None => {
                return Err(
                    ThreadRepositoryError::InternalError(
                        String::from_str("the first event does not name a thread"),
                    ),
                );
            },
        };
        let id = thread_id.as_u128();
        let (stored, start) = match self.streams.get(&id) {
            Some(stream) => {
                proof {
                    assert(self.streams@.contains_key(id));
                }
                (Some(tail_version(stream, id)), stream.events.len())
            },
            None => (None, 0),
        };
        match check_append(stored, thread_id, version) {
            Ok(()) => {},
            Err(e) => {
                return Err(e);
            },
        }
        if !check_events_fit(events, start, id) {
            return Err(
                ThreadRepositoryError::InternalError(
                    String::from_str("the events do not continue the stream"),
                ),
            );
        }
        if start == 0 {
            self.open_stream(thread_id, events);
        } else {
            self.append_to_stream(id, events);
        }
        Ok(())
    }

    /// Keeps `events` as the stream of a thread that has none yet.
    fn open_stream(&mut self, thread_id: ThreadId, events: &[ThreadEvent])
        requires
            old(self).wf(),
            !old(self).log().dom().contains(thread_id@),
            events_fit(events@, 0, thread_id@),
            events@.len() > 0,
            crate::shared::id::uuid_version_of(thread_id@) == 4,
        ensures
            final(self).wf(),
            final(self).log() == old(self).log().insert(thread_id@, events@),
    {
        let copy = copy_events(events);
        proof {
            lemma_stream_facts(events@, thread_id@);
        }
        let read = ReadThread::replay(copy_events(events));
        self.streams.insert(thread_id.as_u128(), Stream { id: thread_id, events: copy, read });
        proof {
            assert(self.log() =~= old(self).log().insert(thread_id@, events@));
        }
    }

    /// Appends `events` to the stream of thread `id` and folds them into its
    /// projection.
    fn append_to_stream(&mut self, id: u128, events: &[ThreadEvent])
        requires
            old(self).wf(),
            old(self).streams@.contains_key(id),
            events_fit(events@, old(self).streams@[id].events@.len() as int, id),
        ensures
            final(self).wf(),
            final(self).log() == old(self).log().insert(id, old(self).log()[id] + events@),
    {
        let ghost old_stream = self.streams@[id];
        let ghost whole = old_stream.events@ + events@;
        let mut stream = match self.streams.remove(&id) {
            Some(stream) => stream,
            None => unreached(),
        };
        let ghost start = stream.events@.len();
        proof {
            lemma_fit_concat(stream.events@, events@, id);
        }
        let mut j: usize = 0;
        while j < events.len()
            invariant
                is_stream_of(whole, id),
                1 <= start,
                whole.len() == start + events@.len(),
                whole == old_stream.events@ + events@,
                start == old_stream.events@.len(),
                stream.id == old_stream.id,
                old_stream.id@ == id,
                0 <= j <= events@.len(),
                stream.events@ == whole.take(start + j),
                stream.read@ == project(stream.events@),
            decreases events@.len() - j,
        {
            proof {
                lemma_next_fits(whole, id, start + j);
                assert(whole[start + j] == events@[j as int]);
            }
            stream.read.apply(events[j].clone());
            stream.events.push(events[j].clone());
            proof {
                assert(stream.events@ =~= whole.take(start + j + 1));
            }
            j = j + 1;
        }
        assert(stream.events@ =~= whole);
        self.streams.insert(id, stream);
        proof {
            assert(self.log() =~= old(self).log().insert(id, old(self).log()[id] + events@));
        }
    }
}

/// The version of the last event of a whole stream of thread `id`.
fn tail_version(stream: &Stream, id: u128) -> (r: Version)
    requires
        is_stream_of(stream.events@, id),
    ensures
        r@ == stream.events@.len(),
{
    let events = &stream.events;
    proof {
        assert(event_fits(events@[events@.len() - 1], events@.len() - 1, id));
    }
    events[events.len() - 1].version()
}

/// For every thread of a well-formed store, the aggregate that `find` rebuilds
/// and the projection that `get_thread` and `list_threads` report agree on the
/// version and on the number of messages.
pub proof fn lemma_find_agrees_with_projection(store: InMemoryStore, id: u128)
    requires
        store.wf(),
        store.log().dom().contains(id),
    ensures
        replay_state(store.log()[id]).version == project(store.log()[id]).version,
        replay_state(store.log()[id]).message_count == project(store.log()[id]).replies_count + 1,
{
    store.lemma_wf();
    lemma_stream_facts(store.log()[id], id);
    lemma_project_facts(store.log()[id]);
}

/// Two writers that saw thread `id` at its current version `v` append in turn:
/// the first append is made, and the second is refused with a version
/// mismatch that reports the version the first one reached, leaving the log
/// as the first left it.
pub proof fn lemma_one_of_two_writers_wins(
    log: Map<u128, Seq<ThreadEvent>>,
    id: u128,
    v: Version,
    first: Seq<ThreadEvent>,
    second: Seq<ThreadEvent>,
    r1: Result<(), ThreadRepositoryError>,
    log1: Map<u128, Seq<ThreadEvent>>,
    r2: Result<(), ThreadRepositoryError>,
    log2: Map<u128, Seq<ThreadEvent>>,
)
    requires
        log.dom().contains(id),
        log[id].len() == v@,
        first.len() > 0,
        events_fit(first, v@ as int, id),
        append_outcome(log, Some(v), first, id, r1, log1),
        append_outcome(log1, Some(v), second, id, r2, log2),
    ensures
        r1 is Ok,
        r2 matches Err(ThreadRepositoryError::VersionMismatch { actual, expected }),
        r2 matches Err(ThreadRepositoryError::VersionMismatch { actual, expected }) ==> actual@
            == v@ + first.len() && expected == Some(v),
        log2 == log1,
{
    assert(log1[id] == log[id] + first);
}

/// Two writers that both believe thread `id` is new append in turn: the first
/// opens the stream and the second is refused with a version mismatch.
pub proof fn lemma_one_of_two_openers_wins(
    log: Map<u128, Seq<ThreadEvent>>,
    id: u128,
    first: Seq<ThreadEvent>,
    second: Seq<ThreadEvent>,
    r1: Result<(), ThreadRepositoryError>,
    log1: Map<u128, Seq<ThreadEvent>>,
    r2: Result<(), ThreadRepositoryError>,
    log2: Map<u128, Seq<ThreadEvent>>,
)
    requires
        !log.dom().contains(id),
        events_fit(first, 0, id),
        append_outcome(log, None, first, id, r1, log1),
        append_outcome(log1, None, second, id, r2, log2),
    ensures
        r1 is Ok,
        r2 matches Err(ThreadRepositoryError::VersionMismatch { actual, expected }),
        log2 == log1,
{
}

/// `t` lists projection `p` without its messages.
pub open spec fn summarizes(t: ThreadWithoutMessages, p: ThreadView) -> bool {
    &&& t.created_at@ == p.created_at
    &&& t.id@ == p.id
    &&& t.last_message@ == p.last_message
    &&& t.replies_count == p.replies_count
    &&& t.version == p.version
}

/// A copy of a batch of events.
fn copy_events(events: &[ThreadEvent]) -> (r: Vec<ThreadEvent>)
    ensures
        r@ == events@,
{
    let mut r: Vec<ThreadEvent> = Vec::new();
    let mut j: usize = 0;
    while j < events.len()
        invariant
            0 <= j <= events@.len(),
            r@ == events@.take(j as int),
        decreases events@.len() - j,
    {
        r.push(events[j].clone());
        proof {
            assert(r@ =~= events@.take(j + 1));
        }
        j = j + 1;
    }
    assert(r@ =~= events@);
    r
}

/// Events that fit a stream from its start can be folded by the projection,
/// and form a whole stream when they name a version-4 thread.
pub proof fn lemma_stream_facts(s: Seq<ThreadEvent>, id: u128)
    requires
        events_fit(s, 0, id),
        s.len() > 0,
    ensures
        is_projectable(s),
        crate::shared::id::uuid_version_of(id) == 4 ==> crate::shared::event::is_stream(s),
{
    assert(event_fits(s[0], 0, id));
    assert forall|i: int| 1 <= i < s.len() implies #[trigger] s[i] is Replied by {
        assert(event_fits(s[i], i, id));
    }
    assert forall|i: int| 1 <= i < s.len() implies #[trigger] s[i].version_spec() == s[i
        - 1].version_spec() + 1 by {
        assert(event_fits(s[i], i, id));
        assert(event_fits(s[i - 1], i - 1, id));
    }
}

/// Every non-empty prefix of a whole stream is a whole stream.
pub proof fn lemma_stream_prefix(s: Seq<ThreadEvent>, id: u128, n: int)
    requires
        is_stream_of(s, id),
        1 <= n <= s.len(),
    ensures
        is_stream_of(s.take(n), id),
{
    assert forall|j: int| 0 <= j < s.take(n).len() implies event_fits(
        #[trigger] s.take(n)[j],
        j,
        id,
    ) by {
        assert(s.take(n)[j] == s[j]);
    }
}

/// What appending the event at position `n` of a whole stream needs: the
/// events before it form a stream whose projection stands one version behind.
pub proof fn lemma_next_fits(whole: Seq<ThreadEvent>, id: u128, n: int)
    requires
        is_stream_of(whole, id),
        1 <= n < whole.len(),
    ensures
        project(whole.take(n)).version == n,
        project(whole.take(n)).replies_count == n - 1,
        project(whole.take(n)).messages.len() == n,
        whole[n] is Replied,
        whole[n].version_spec() == n + 1,
        whole.take(n + 1).drop_last() == whole.take(n),
        whole.take(n + 1).last() == whole[n],
{
    lemma_stream_prefix(whole, id, n);
    lemma_stream_facts(whole.take(n), id);
    lemma_project_facts(whole.take(n));
    assert(event_fits(whole[n], n, id));
    assert(event_fits(whole[n - 1], n - 1, id));
    assert(whole.take(n).last() == whole[n - 1]);
    assert(whole.take(n + 1).drop_last() =~= whole.take(n));
}

/// A stream followed by events that fit after it is a whole stream.
pub proof fn lemma_fit_concat(s: Seq<ThreadEvent>, more: Seq<ThreadEvent>, id: u128)
    requires
        is_stream_of(s, id),
        events_fit(more, s.len() as int, id),
    ensures
        is_stream_of(s + more, id),
{
    let w = s + more;
    assert forall|j: int| 0 <= j < w.len() implies event_fits(#[trigger] w[j], j, id) by {
        if j < s.len() {
            assert(w[j] == s[j]);
        } else {
            assert(w[j] == more[j - s.len()]);
        }
    }
}

impl ThreadReader for InMemoryStore {
    open spec fn reader_ready(&self) -> bool {
        self.wf()
    }

    fn get_thread(&self, id: &ThreadId) -> (r: Result<Option<ReadThread>, ThreadReaderError>) {
        InMemoryStore::get_thread(self, id)
    }

    fn list_threads(&self) -> (r: Result<Vec<ThreadWithoutMessages>, ThreadReaderError>) {
        InMemoryStore::list_threads(self)
    }
}

impl ThreadRepository for InMemoryStore {
    open spec fn repository_ready(&self) -> bool {
        self.wf()
    }

    fn find(&self, id: &ThreadId) -> (r: Result<Option<WriteThread>, ThreadRepositoryError>) {
        InMemoryStore::find(self, id)
    }

    fn store(&mut self, version: Option<Version>, events: &[ThreadEvent]) -> (r: Result<
        (),
        ThreadRepositoryError,
    >) {
        InMemoryStore::store(self, version, events)
    }
}

impl crate::store::Store for InMemoryStore {

}

} // verus!
