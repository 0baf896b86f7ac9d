use chat_relay::error::LogError;
use chat_relay::log::MessageLog;
use chat_relay::message::{compose, join_lines};

#[test]
fn compose_puts_colon_and_space_between() {
    assert_eq!(compose("A", "hi"), "A: hi");
    assert_eq!(compose("", ""), ": ");
    assert_eq!(compose("bob", "a: b"), "bob: a: b");
}

#[test]
fn join_lines_ends_every_message_with_a_line_feed() {
    let none: Vec<String> = Vec::new();
    assert_eq!(join_lines(&none), "");
    assert_eq!(join_lines(&[String::from("a")]), "a\n");
    assert_eq!(join_lines(&[String::from("a"), String::new(), String::from("b")]), "a\n\nb\n");
}

#[test]
fn append_returns_the_position() {
    let mut log = MessageLog::new();
    assert_eq!(log.len(), 0);
    assert_eq!(log.append(String::from("x")), 0);
    assert_eq!(log.append(String::from("y")), 1);
    assert_eq!(log.append(String::from("x")), 2);
    assert_eq!(log.len(), 3);
}

#[test]
fn slice_from_returns_the_tail_in_order() {
    let mut log = MessageLog::new();
    log.append(String::from("x"));
    log.append(String::from("y"));
    log.append(String::from("z"));
    let all = [String::from("x"), String::from("y"), String::from("z")];
    assert_eq!(log.slice_from(0), Ok(&all[..]));
    assert_eq!(log.slice_from(1), Ok(&all[1..]));
    assert_eq!(log.slice_from(2), Ok(&all[2..]));
}

#[test]
fn slice_from_the_end_is_empty() {
    let mut log = MessageLog::new();
    let none: [String; 0] = [];
    assert_eq!(log.slice_from(0), Ok(&none[..]));
    log.append(String::from("x"));
    assert_eq!(log.slice_from(1), Ok(&none[..]));
}

#[test]
fn slice_from_beyond_the_end_is_refused() {
    let mut log = MessageLog::new();
    assert_eq!(log.slice_from(1), Err(LogError::IndexOutOfRange));
    log.append(String::from("x"));
    assert_eq!(log.slice_from(2), Err(LogError::IndexOutOfRange));
    assert_eq!(log.slice_from(usize::MAX), Err(LogError::IndexOutOfRange));
}

#[test]
fn earlier_positions_stay_valid_after_appends() {
    let mut log = MessageLog::new();
    log.append(String::from("x"));
    let first = log.slice_from(0).unwrap()[0].clone();
    log.append(String::from("y"));
    log.append(String::from("z"));
    assert_eq!(log.slice_from(0).unwrap()[0], first);
    assert_eq!(log.slice_from(0).unwrap().len(), 3);
}

#[test]
fn new_message_signal_is_the_fixed_token() {
    assert_eq!(chat_relay::message::NEW_MESSAGE_SIGNAL, "new_message");
}
