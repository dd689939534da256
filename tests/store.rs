use bbbs::handler::create::{handler as create_thread, MessageCreateError, ThreadCreateRequestBody};
use bbbs::handler::get::{handler as get_thread, ThreadGetError};
use bbbs::handler::list::handler as list_threads;
use bbbs::handler::reply::{handler as reply_to_thread, ThreadReplyError, ThreadReplyRequestBody};
use bbbs::port::ThreadRepositoryError;
use bbbs::shared::event::{ThreadEvent, ThreadReplied};
use bbbs::shared::id::ThreadId;
use bbbs::store::InMemoryStore;
use bbbs::write::{Message, MessageContent, Thread, Version};

fn message(text: &str) -> Message {
    Message::create(MessageContent::try_from(text.to_owned()).unwrap())
}

fn opened(store: &mut InMemoryStore, text: &str) -> (Thread, Vec<ThreadEvent>) {
    let (thread, events) = Thread::create(message(text)).unwrap();
    store.store(None, &events).unwrap();
    (thread, events)
}

#[test]
fn store_create_reply_and_stale_reply() {
    let mut store = InMemoryStore::new();
    let (created, events) = Thread::create(message("Hello")).unwrap();
    assert_eq!(u32::from(created.version()), 1);
    assert_eq!(events.len(), 1);
    match &events[0] {
        ThreadEvent::Created(event) => assert_eq!(event.content, "Hello"),
        ThreadEvent::Replied(_) => panic!("the first event opens the thread"),
    }
    store.store(None, &events).unwrap();

    let found = store.find(created.id()).unwrap().unwrap();
    let (replied, reply_events) = found.reply(message("World")).unwrap();
    store.store(Some(Version::from(1)), &reply_events).unwrap();
    assert_eq!(u32::from(replied.version()), 2);
    assert_eq!(reply_events.len(), 1);
    assert!(matches!(reply_events[0], ThreadEvent::Replied(_)));

    let (_, stale_events) = found.reply(message("Again")).unwrap();
    match store.store(Some(Version::from(1)), &stale_events) {
        Err(ThreadRepositoryError::VersionMismatch { actual, expected }) => {
            assert_eq!(u32::from(actual), 2);
            assert_eq!(expected, Some(Version::from(1)));
        }
        _ => panic!("a stale version is refused"),
    }
}

#[test]
fn store_without_version_on_existing_stream_is_refused() {
    let mut store = InMemoryStore::new();
    let (created, events) = opened(&mut store, "root");
    match store.store(None, &events) {
        Err(ThreadRepositoryError::VersionMismatch { actual, expected }) => {
            assert_eq!(u32::from(actual), 1);
            assert_eq!(expected, None);
        }
        _ => panic!("an existing stream cannot be opened again"),
    }
    let found = store.find(created.id()).unwrap().unwrap();
    assert_eq!(u32::from(found.version()), 1);
    assert_eq!(store.get_thread(created.id()).unwrap().unwrap().messages.len(), 1);
}

#[test]
fn store_with_wrong_version_writes_nothing() {
    let mut store = InMemoryStore::new();
    let (created, _) = opened(&mut store, "root");
    let (_, events) = created.reply(message("reply")).unwrap();
    match store.store(Some(Version::from(7)), &events) {
        Err(ThreadRepositoryError::VersionMismatch { actual, expected }) => {
            assert_eq!(u32::from(actual), 1);
            assert_eq!(expected, Some(Version::from(7)));
        }
        _ => panic!("a wrong version is refused"),
    }
    let projection = store.get_thread(created.id()).unwrap().unwrap();
    assert_eq!(projection.version, 1);
    assert_eq!(projection.replies_count, 0);
    assert_eq!(u32::from(store.find(created.id()).unwrap().unwrap().version()), 1);
}

#[test]
fn store_with_right_version_keeps_both_sides_in_step() {
    let mut store = InMemoryStore::new();
    let (created, _) = opened(&mut store, "root");
    let (replied, events) = created.reply(message("reply")).unwrap();
    store.store(Some(created.version()), &events).unwrap();
    let (_, more) = replied.reply(message("more")).unwrap();
    store.store(Some(replied.version()), &more).unwrap();

    let found = store.find(created.id()).unwrap().unwrap();
    let projection = store.get_thread(created.id()).unwrap().unwrap();
    assert_eq!(u32::from(found.version()), projection.version);
    assert_eq!(found.message_count(), projection.replies_count as usize + 1);
    let listed = store.list_threads().unwrap();
    assert_eq!(listed.len(), 1);
    assert_eq!(listed[0].version, 3);
    assert_eq!(listed[0].replies_count, 2);
    assert_eq!(listed[0].last_message.content, "more");
    assert_eq!(listed[0].last_message.number, 3);
}

#[test]
fn two_writers_with_the_same_version_one_wins() {
    let mut store = InMemoryStore::new();
    let (created, _) = opened(&mut store, "root");
    let first_view = store.find(created.id()).unwrap().unwrap();
    let second_view = store.find(created.id()).unwrap().unwrap();
    let (_, first) = first_view.reply(message("first")).unwrap();
    let (_, second) = second_view.reply(message("second")).unwrap();
    assert!(store.store(Some(first_view.version()), &first).is_ok());
    match store.store(Some(second_view.version()), &second) {
        Err(ThreadRepositoryError::VersionMismatch { actual, expected }) => {
            assert_eq!(u32::from(actual), 2);
            assert_eq!(expected, Some(Version::from(1)));
        }
        _ => panic!("the second writer loses"),
    }
    let projection = store.get_thread(created.id()).unwrap().unwrap();
    assert_eq!(projection.last_message.content, "first");
}

#[test]
fn store_edge_cases() {
    let mut store = InMemoryStore::new();
    assert!(store.store(None, &[]).is_ok());
    assert!(store.list_threads().unwrap().is_empty());

    let (created, events) = Thread::create(message("root")).unwrap();
    match store.store(Some(Version::initial()), &events) {
        Err(ThreadRepositoryError::NotFound(id)) => assert_eq!(&id, created.id()),
        _ => panic!("there is no stream to append to"),
    }
    assert!(store.find(created.id()).unwrap().is_none());
    assert!(store.get_thread(created.id()).unwrap().is_none());

    let stray = ThreadEvent::Replied(ThreadReplied {
        at: "2023-10-01T01:00:00.000Z".to_owned(),
        content: "stray".to_owned(),
        id: "4f24e399-d53a-4779-af3e-3fdfdd00f8c5".to_owned(),
        message_id: "0d9e8f7a-6b5c-4d3e-8f2a-1b0c9d8e7f6a".to_owned(),
        thread_id: created.id().to_string(),
        version: 1,
    });
    assert!(matches!(
        store.store(None, &[stray]),
        Err(ThreadRepositoryError::InternalError(_))
    ));
    let unnamed = ThreadEvent::Replied(ThreadReplied {
        at: "2023-10-01T01:00:00.000Z".to_owned(),
        content: "stray".to_owned(),
        id: "4f24e399-d53a-4779-af3e-3fdfdd00f8c5".to_owned(),
        message_id: "0d9e8f7a-6b5c-4d3e-8f2a-1b0c9d8e7f6a".to_owned(),
        thread_id: "123".to_owned(),
        version: 1,
    });
    assert!(matches!(
        store.store(None, &[unnamed]),
        Err(ThreadRepositoryError::InternalError(_))
    ));
    assert!(store.list_threads().unwrap().is_empty());
}

#[test]
fn list_threads_in_order_of_thread_id() {
    let mut store = InMemoryStore::new();
    let (a, _) = opened(&mut store, "New thread content");
    let (b, _) = opened(&mut store, "Test Thread 2");
    let (c, _) = opened(&mut store, "Third");
    let mut ids = vec![a.id().as_u128(), b.id().as_u128(), c.id().as_u128()];
    ids.sort();
    let listed = store.list_threads().unwrap();
    assert_eq!(listed.len(), 3);
    for (summary, id) in listed.iter().zip(ids) {
        let thread_id = ThreadId::from_parsed(Some(id)).unwrap();
        assert_eq!(summary.id, thread_id.to_string());
        let projection = store.get_thread(&thread_id).unwrap().unwrap();
        assert_eq!(summary.last_message, projection.last_message);
    }
}

#[test]
fn handlers_create_get_reply_and_list() {
    let mut store = InMemoryStore::new();
    let created = create_thread(
        &mut store,
        ThreadCreateRequestBody { content: "New thread content".to_owned() },
    )
    .unwrap();
    assert_eq!(created.id.len(), 36);

    let got = get_thread(&store, created.id.clone()).unwrap();
    assert_eq!(got.thread.messages[0].content, "New thread content");

    let replied = reply_to_thread(
        &mut store,
        created.id.clone(),
        ThreadReplyRequestBody { content: "Reply content".to_owned(), version: 1 },
    )
    .unwrap();
    assert_eq!(replied.id, created.id);

    let stale = reply_to_thread(
        &mut store,
        created.id.clone(),
        ThreadReplyRequestBody { content: "Late".to_owned(), version: 1 },
    );
    match stale {
        Err(ThreadReplyError::Store(ThreadRepositoryError::VersionMismatch { actual, expected })) => {
            assert_eq!(u32::from(actual), 2);
            assert_eq!(expected, Some(Version::from(1)));
        }
        _ => panic!("a stale reply is refused"),
    }

    let listed = list_threads(&store).unwrap();
    assert_eq!(listed.threads.len(), 1);
    assert_eq!(listed.threads[0].replies_count, 1);
}

#[test]
fn handlers_refuse_bad_input() {
    let mut store = InMemoryStore::new();
    assert!(matches!(
        create_thread(&mut store, ThreadCreateRequestBody { content: "   ".to_owned() }),
        Err(MessageCreateError::InvalidMessageContent(_))
    ));
    assert!(matches!(
        get_thread(&store, "1df49bbd-3f94-475b-a057-d9d4c827449f".to_owned()),
        Err(ThreadGetError::NotFound)
    ));
    assert!(matches!(
        get_thread(&store, "nope".to_owned()),
        Err(ThreadGetError::InvalidId(_))
    ));
    assert!(matches!(
        reply_to_thread(
            &mut store,
            "nope".to_owned(),
            ThreadReplyRequestBody { content: "x".to_owned(), version: 1 }
        ),
        Err(ThreadReplyError::InvalidThreadId(_))
    ));
    let missing = ThreadId::generate();
    assert!(matches!(
        reply_to_thread(
            &mut store,
            missing.to_string(),
            ThreadReplyRequestBody { content: "x".to_owned(), version: 1 }
        ),
        Err(ThreadReplyError::NotFound(_))
    ));
}
