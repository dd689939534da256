use bbbs::read::Thread as ReadThread;
use bbbs::shared::event::{ThreadCreated, ThreadEvent, ThreadReplied};
use bbbs::write::{Message, MessageContent, Thread, Version};

fn message(text: &str) -> Message {
    Message::create(MessageContent::try_from(text.to_owned()).unwrap())
}

#[test]
fn thread_test_create() {
    let message = Message::new_for_testing();
    let (created, _events) = Thread::create(message.clone()).unwrap();
    assert!(!created.id().to_string().is_empty());
    assert_eq!(created.version(), Version::initial());
}

#[test]
fn thread_test_replay() {
    let message = Message::new_for_testing();
    let (created, created_events) = Thread::create(message.clone()).unwrap();
    let (replied, replied_events) = created.reply(Message::new_for_testing()).unwrap();
    let replayed = Thread::replay(
        &created_events
            .into_iter()
            .chain(replied_events.into_iter())
            .collect::<Vec<_>>(),
    );

    assert_eq!(replayed.id(), replied.id());
    assert_eq!(replayed.version(), replied.version());
    assert_eq!(replayed.message_count(), replied.message_count());
}

#[test]
fn thread_test_reply() {
    let root_message = Message::new_for_testing();
    let (created, _events) = Thread::create(root_message.clone()).unwrap();
    let reply_message = Message::new_for_testing();
    let (replied, _events) = created.reply(reply_message.clone()).unwrap();

    assert_eq!(replied.id(), created.id());
    assert_eq!(replied.version(), created.version().next());

    // 1000 messages limit
    let mut t = replied;
    for _ in 0..998 {
        (t, _) = t.reply(Message::new_for_testing()).unwrap();
    }
    assert!(t.reply(Message::new_for_testing()).is_err());
}

#[test]
fn read_thread_test_replay() {
    let events = vec![
        ThreadEvent::Created(ThreadCreated {
            at: "2023-10-01T00:00:00Z".to_string(),
            content: "Root message".to_string(),
            id: "99164b55-98d0-4e7c-98cf-95f7c43da68f".to_string(),
            message_id: "6a8f0d3e-2c1b-4f5a-9e7d-1b2c3d4e5f60".to_string(),
            thread_id: "c4ac95d6-45c7-4006-b768-2a172dee3f81".to_string(),
            version: 1,
        }),
        ThreadEvent::Replied(ThreadReplied {
            at: "2023-10-01T01:00:00Z".to_string(),
            content: "Reply message".to_string(),
            id: "4f24e399-d53a-4779-af3e-3fdfdd00f8c5".to_string(),
            message_id: "0d9e8f7a-6b5c-4d3e-8f2a-1b0c9d8e7f6a".to_string(),
            thread_id: "c4ac95d6-45c7-4006-b768-2a172dee3f81".to_string(),
            version: 2,
        }),
    ];

    let thread = ReadThread::replay(events);
    assert_eq!(thread.created_at, "2023-10-01T00:00:00Z");
    assert_eq!(thread.id, "c4ac95d6-45c7-4006-b768-2a172dee3f81");
    assert_eq!(thread.messages.len(), 2);
    assert_eq!(thread.messages[0].content, "Root message");
    assert_eq!(thread.messages[1].content, "Reply message");
    assert_eq!(thread.replies_count, 1);
    assert_eq!(thread.version, 2);
}

#[test]
fn create_then_replay_gives_first_version_and_one_message() {
    let (created, events) = Thread::create(message("Hello")).unwrap();
    assert_eq!(events.len(), 1);
    let replayed = Thread::replay(&events);
    assert_eq!(replayed.version(), Version::initial());
    assert_eq!(u32::from(replayed.version()), 1);
    assert_eq!(replayed.message_count(), 1);
    assert_eq!(replayed.id(), created.id());
    assert_eq!(replayed.root_content().as_str(), "Hello");
    match &events[0] {
        ThreadEvent::Created(event) => {
            assert_eq!(event.content, "Hello");
            assert_eq!(event.version, 1);
            assert_eq!(event.thread_id, created.id().to_string());
            assert_eq!(event.message_id.len(), 36);
            assert_eq!(event.id.len(), 36);
        }
        ThreadEvent::Replied(_) => panic!("the first event opens the thread"),
    }
}

#[test]
fn replay_after_replies_counts_them() {
    let (mut thread, mut stream) = Thread::create(message("root")).unwrap();
    for n in 0..5u32 {
        let replayed = Thread::replay(&stream);
        assert_eq!(u32::from(replayed.version()), 1 + n);
        assert_eq!(replayed.message_count(), n as usize + 1);
        let (next, events) = thread.reply(message("more")).unwrap();
        stream.extend(events);
        thread = next;
    }
    assert_eq!(u32::from(Thread::replay(&stream).version()), 6);
}

#[test]
fn reply_at_the_limit_gives_no_event() {
    let (mut thread, _) = Thread::create(message("root")).unwrap();
    for _ in 0..999 {
        (thread, _) = thread.reply(message("again")).unwrap();
    }
    assert_eq!(thread.message_count(), 1000);
    assert_eq!(u32::from(thread.version()), 1000);
    assert!(thread.reply(message("one too many")).is_err());
    assert_eq!(
        thread.reply(message("one too many")).unwrap_err().to_string(),
        "thread error"
    );
}

#[test]
fn reply_event_carries_content_and_next_version() {
    let (thread, _) = Thread::create(message("root")).unwrap();
    let (replied, events) = thread.reply(message("World")).unwrap();
    assert_eq!(events.len(), 1);
    assert_eq!(u32::from(replied.version()), 2);
    assert_eq!(events[0].version(), Version::from(2));
    assert_eq!(events[0].thread_id(), *thread.id());
    match &events[0] {
        ThreadEvent::Replied(event) => assert_eq!(event.content, "World"),
        ThreadEvent::Created(_) => panic!("a reply does not open a thread"),
    }
}

#[test]
fn projection_fold_equals_replay() {
    let (mut thread, mut stream) = Thread::create(message("first")).unwrap();
    for text in ["second", "third", "fourth"] {
        let (next, events) = thread.reply(message(text)).unwrap();
        stream.extend(events);
        thread = next;
    }
    let whole = ReadThread::replay(stream.clone());
    let mut folded = ReadThread::replay(vec![stream[0].clone()]);
    for event in &stream[1..] {
        folded.apply(event.clone());
    }
    assert_eq!(folded, whole);
    assert_eq!(whole.replies_count, 3);
    assert_eq!(whole.version, 4);
    assert_eq!(whole.messages[3].number, 4);
    assert_eq!(whole.last_message.content, "fourth");
    assert_eq!(whole.messages[0].content, "first");
}

#[test]
fn checked_thread_id_refuses_bad_text() {
    let event = ThreadEvent::from(ThreadReplied {
        at: "2023-10-01T01:00:00.000Z".to_string(),
        content: "x".to_string(),
        id: "4f24e399-d53a-4779-af3e-3fdfdd00f8c5".to_string(),
        message_id: "0d9e8f7a-6b5c-4d3e-8f2a-1b0c9d8e7f6a".to_string(),
        thread_id: "not a thread".to_string(),
        version: 2,
    });
    assert!(event.checked_thread_id().is_none());
}

#[test]
fn summary_drops_only_the_messages() {
    let (mut thread, mut stream) = Thread::create(message("first")).unwrap();
    let (next, events) = thread.reply(message("second")).unwrap();
    stream.extend(events);
    thread = next;
    let projection = ReadThread::replay(stream);
    let summary = bbbs::read::ThreadWithoutMessages::from(projection.clone());
    assert_eq!(summary.id, thread.id().to_string());
    assert_eq!(summary.replies_count, 1);
    assert_eq!(summary.version, 2);
    assert_eq!(summary.last_message, projection.last_message);
    assert_eq!(summary.created_at, projection.created_at);
}

#[test]
fn events_name_the_thread_by_its_canonical_text() {
    let (thread, created) = Thread::create(message("root")).unwrap();
    let (_, replied) = thread.reply(message("reply")).unwrap();
    for event in created.iter().chain(replied.iter()) {
        let (id, message_id, thread_id, at) = match event {
            ThreadEvent::Created(e) => (&e.id, &e.message_id, &e.thread_id, &e.at),
            ThreadEvent::Replied(e) => (&e.id, &e.message_id, &e.thread_id, &e.at),
        };
        assert_eq!(*thread_id, thread.id().to_string());
        assert!(bbbs::shared::id::EventId::from_str(id).is_ok());
        assert!(bbbs::shared::id::MessageId::from_str(message_id).is_ok());
        assert!(bbbs::date_time::DateTime::from_str(at).is_ok());
    }
}
