use render_baby::message::{Message, MessagePopupPipe, MAX_MESSAGE_LENGTH};

#[test]
fn short_message_is_kept() {
    let m = Message::new("Title", "hello");
    assert_eq!(m.title(), "Title");
    assert_eq!(m.message(), "hello");
    assert_eq!(m.to_text(), "Title: hello");
}

#[test]
fn long_message_is_clipped() {
    let text: String = "ä".repeat(200);
    let m = Message::new("T", &text);
    assert_eq!(m.message().chars().count(), MAX_MESSAGE_LENGTH + 3);
    assert!(m.message().ends_with("..."));
    assert_eq!(Message::cut_length("x".repeat(150)), "x".repeat(150));
    assert_eq!(Message::cut_length("x".repeat(151)), format!("{}...", "x".repeat(150)));
}

#[test]
fn error_message_title() {
    let m = Message::from_error("boom");
    assert_eq!(m.title(), "Error");
    assert_eq!(m.message(), "boom");
}

#[test]
fn pipe_shows_latest_first() {
    let mut p = MessagePopupPipe::new();
    assert!(p.last().is_none());
    p.push_message(Message::new("a", "1"));
    p.push_message(Message::new("b", "2"));
    assert_eq!(p.len(), 2);
    assert_eq!(p.last().unwrap().title(), "b");
    p.pop_last();
    assert_eq!(p.last().unwrap().title(), "a");
    p.pop_last();
    p.pop_last();
    assert_eq!(p.len(), 0);
}

#[test]
fn default_handle_pushes_errors_only() {
    let mut p = MessagePopupPipe::new();
    p.default_handle::<u32>(Ok(3));
    assert_eq!(p.len(), 0);
    p.default_handle::<u32>(Err("disk full".to_string()));
    assert_eq!(p.len(), 1);
    let m = p.last().unwrap();
    assert_eq!(m.title(), "Error");
    assert_eq!(m.message(), "disk full");
}
