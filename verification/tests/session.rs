use telnet_bridge::channel::CommandQueue;
use telnet_bridge::session::{
    decode_message, frame_command, handle_read, message_event_name, next_transmission,
    SessionRead, CR, LF, POLL_INTERVAL_MS,
};

#[test]
fn a_frame_is_the_command_bytes_followed_by_cr_lf() {
    assert_eq!(frame_command("look"), b"look\r\n".to_vec());
    assert_eq!(frame_command(""), b"\r\n".to_vec());
    assert_eq!(CR, b'\r');
    assert_eq!(LF, b'\n');
}

#[test]
fn non_ascii_commands_are_framed_as_their_utf8_bytes() {
    let frame = frame_command("héllo");
    let mut expected = "héllo".as_bytes().to_vec();
    expected.push(b'\r');
    expected.push(b'\n');
    assert_eq!(frame, expected);
}

#[test]
fn two_quick_writes_are_transmitted_in_order_as_distinct_frames() {
    let mut queue = CommandQueue::new();
    queue.submit(String::from("look"));
    queue.submit(String::from("inventory"));

    let first = next_transmission(&mut queue);
    let second = next_transmission(&mut queue);
    let third = next_transmission(&mut queue);

    assert_eq!(first, Some(b"look\r\n".to_vec()));
    assert_eq!(second, Some(b"inventory\r\n".to_vec()));
    assert_eq!(third, None);
}

#[test]
fn next_transmission_leaves_an_empty_queue_empty() {
    let mut queue = CommandQueue::new();
    assert_eq!(next_transmission(&mut queue), None);
    assert_eq!(queue.len(), 0);
}

#[test]
fn received_bytes_are_decoded_lossily_and_trimmed() {
    assert_eq!(decode_message(b"  hello world \r\n"), "hello world");
    assert_eq!(decode_message(&[0x68, 0x69, 0xFF]), "hi\u{FFFD}");
    assert_eq!(decode_message(b""), "");
}

#[test]
fn a_payload_is_published_even_when_empty_after_trimming() {
    let decision = handle_read(SessionRead::Data(b" \r\n ".to_vec()));
    assert!(decision.proceed);
    assert_eq!(decision.publish, Some(String::new()));
}

#[test]
fn a_payload_is_published_under_the_message_event() {
    let decision = handle_read(SessionRead::Data(b"You are standing in a field.\r\n".to_vec()));
    assert!(decision.proceed);
    assert_eq!(
        decision.publish,
        Some(String::from("You are standing in a field."))
    );
    assert_eq!(message_event_name(), "message");
}

#[test]
fn no_data_means_proceed_with_nothing_to_publish() {
    let decision = handle_read(SessionRead::NoData);
    assert!(decision.proceed);
    assert_eq!(decision.publish, None);
}

#[test]
fn a_failed_read_is_fatal_to_the_loop() {
    let decision = handle_read(SessionRead::Failed);
    assert!(!decision.proceed);
    assert_eq!(decision.publish, None);
}

#[test]
fn the_polling_interval_is_fifty_milliseconds() {
    assert_eq!(POLL_INTERVAL_MS, 50);
}
