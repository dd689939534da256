use bbbs::write::{Message, MessageContent, MessageContentError};

#[test]
fn test_string_conversion() {
    let s = "Hello, World!".to_owned();
    let content = MessageContent::try_from(s.clone()).unwrap();
    assert_eq!(String::from(content), s);

    let s = String::default();
    assert!(MessageContent::try_from(s).is_err());

    let s = " 　".to_owned();
    assert!(MessageContent::try_from(s).is_err());

    let s = "x".repeat(255);
    assert_eq!(String::from(MessageContent::try_from(s.clone()).unwrap()), s);
    let s = "x".repeat(256);
    assert!(MessageContent::try_from(s).is_err());
}

#[test]
fn message_content_test_new_for_testing() {
    let content1 = MessageContent::new_for_testing();
    let content2 = MessageContent::new_for_testing();
    assert_ne!(content1, content2);
}

#[test]
fn message_content_errors_name_the_reason() {
    assert_eq!(
        MessageContent::try_from("  \t\n".to_owned()).unwrap_err(),
        MessageContentError::Empty
    );
    assert_eq!(
        MessageContent::try_from("x".repeat(256)).unwrap_err(),
        MessageContentError::TooLong(256)
    );
    let padded = format!("  {}  ", "y".repeat(255));
    assert_eq!(
        String::from(MessageContent::try_from(padded.clone()).unwrap()),
        padded
    );
    assert_eq!(
        MessageContent::try_from("é".repeat(256)).unwrap_err(),
        MessageContentError::TooLong(256)
    );
}

#[test]
fn message_content_keeps_text_untrimmed() {
    let content = MessageContent::try_from(" hi ".to_owned()).unwrap();
    assert_eq!(content.as_str(), " hi ");
}

#[test]
fn message_test_create() {
    let content = MessageContent::new_for_testing();
    let message = Message::create(content.clone());
    assert_eq!(message.content, content);
}

#[test]
fn message_test_new_for_testing() {
    let message1 = Message::new_for_testing();
    let message2 = Message::new_for_testing();
    assert_ne!(message1, message2);
}
