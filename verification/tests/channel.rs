use telnet_bridge::channel::{CommandQueue, SubmitOutcome, CHANNEL_CAPACITY};

#[test]
fn submit_on_open_capacity_returns_at_once() {
    let mut queue = CommandQueue::new();
    let outcome = queue.submit(String::from("look"));
    assert!(matches!(outcome, SubmitOutcome::Enqueued));
    assert_eq!(queue.len(), 1);
}

#[test]
fn capacity_is_one_hundred() {
    assert_eq!(CHANNEL_CAPACITY, 100);
}

#[test]
fn submit_at_capacity_reports_full_until_a_slot_frees() {
    let mut queue = CommandQueue::new();
    for i in 0..CHANNEL_CAPACITY {
        let outcome = queue.submit(format!("command {}", i));
        assert!(matches!(outcome, SubmitOutcome::Enqueued));
    }
    assert_eq!(queue.len(), CHANNEL_CAPACITY);

    let overflow = queue.submit(String::from("one too many"));
    match overflow {
        SubmitOutcome::Full(rejected) => assert_eq!(rejected, "one too many"),
        SubmitOutcome::Enqueued => panic!("a command was enqueued past capacity"),
    }
    assert_eq!(queue.len(), CHANNEL_CAPACITY);

    let taken = queue.try_take();
    assert_eq!(taken, Some(String::from("command 0")));

    let retried = queue.submit(String::from("one too many"));
    assert!(matches!(retried, SubmitOutcome::Enqueued));
    assert_eq!(queue.len(), CHANNEL_CAPACITY);
}

#[test]
fn commands_come_out_in_submission_order() {
    let mut queue = CommandQueue::new();
    queue.submit(String::from("north"));
    queue.submit(String::from("south"));
    queue.submit(String::from("east"));
    assert_eq!(queue.try_take(), Some(String::from("north")));
    assert_eq!(queue.try_take(), Some(String::from("south")));
    assert_eq!(queue.try_take(), Some(String::from("east")));
    assert_eq!(queue.try_take(), None);
}

#[test]
fn try_take_on_empty_queue_returns_none() {
    let mut queue = CommandQueue::new();
    assert_eq!(queue.try_take(), None);
    assert_eq!(queue.len(), 0);
}
