use crabler::{CrablerError, PendingCounter, Response, WorkInput, WorkSender};

fn visit(url: &str) -> WorkInput {
    WorkInput::Navigate(url.to_string())
}

fn counter_at(value: usize) -> PendingCounter {
    let mut counter = PendingCounter::new();
    counter.increment_by(value);
    counter
}

#[test]
fn full_counter_refuses_more_work() {
    let mut sender = WorkSender::new(counter_at(usize::MAX - 1));
    assert!(!sender.send_all(vec![visit("a"), visit("b")]));
    assert_eq!(sender.outstanding(), usize::MAX - 1);
    assert_eq!(sender.send(visit("a")), None);
    assert!(!sender.ready());
    assert_eq!(sender.send(visit("b")), Some(visit("b")));
    assert_eq!(sender.outstanding(), usize::MAX);
    let mut response = Response::new(200, "u".to_string(), None, sender.fork());
    assert_eq!(
        response.navigate("c".to_string()),
        Err(CrablerError::AsyncSendError("c".to_string()))
    );
    assert_eq!(sender.into_queued(), vec![visit("a")]);
}

#[test]
fn send_counts_and_keeps_order() {
    let mut sender = WorkSender::new(counter_at(2));
    assert!(sender.ready());
    assert_eq!(sender.send(visit("a")), None);
    assert_eq!(sender.outstanding(), 3);
    assert_eq!(sender.send(visit("b")), None);
    assert_eq!(sender.outstanding(), 4);
    assert_eq!(sender.drain(), vec![visit("a"), visit("b")]);
    assert_eq!(sender.outstanding(), 4);
    assert_eq!(sender.drain(), vec![]);
}

#[test]
fn closed_sender_gives_the_item_back() {
    let mut sender = WorkSender::new(PendingCounter::new());
    sender.close();
    assert!(sender.closed());
    assert!(!sender.ready());
    assert_eq!(sender.send(visit("a")), Some(visit("a")));
    assert_eq!(sender.outstanding(), 0);
    assert_eq!(sender.into_queued(), vec![]);
}

#[test]
fn send_all_takes_all_or_nothing() {
    let mut sender = WorkSender::new(PendingCounter::new());
    assert!(sender.send_all(vec![visit("a"), visit("b"), WorkInput::Exit]));
    assert_eq!(sender.outstanding(), 3);
    sender.close();
    assert!(!sender.send_all(vec![visit("c")]));
    assert!(sender.send_all(vec![]));
    assert_eq!(sender.outstanding(), 3);
    assert_eq!(sender.into_queued(), vec![visit("a"), visit("b"), WorkInput::Exit]);
}

#[test]
fn fork_counts_on_and_holds_nothing() {
    let mut sender = WorkSender::new(counter_at(5));
    sender.send(visit("a"));
    let fork = sender.fork();
    assert_eq!(fork.outstanding(), 6);
    assert!(!fork.closed());
    assert_eq!(fork.into_queued(), vec![]);
    sender.close();
    assert!(sender.fork().closed());
}

#[test]
fn sentinels_are_not_counted() {
    let mut sender = WorkSender::new(counter_at(1));
    sender.send_uncounted(WorkInput::Exit);
    assert_eq!(sender.outstanding(), 1);
    assert_eq!(sender.retire(), 0);
    assert_eq!(sender.drain(), vec![WorkInput::Exit]);
}

#[test]
fn response_navigate_counts_at_call_time() {
    let mut response = Response::new(
        200,
        "https://example.test/".to_string(),
        None,
        WorkSender::new(counter_at(1)),
    );
    assert_eq!(response.workinput_tx.outstanding(), 1);
    assert_eq!(response.navigate("https://example.test/a".to_string()), Ok(()));
    assert_eq!(response.workinput_tx.outstanding(), 2);
    assert_eq!(
        response.download_file("https://example.test/d".to_string(), "out.bin".to_string()),
        Ok(())
    );
    assert_eq!(response.workinput_tx.outstanding(), 3);
    assert_eq!(response.url, "https://example.test/");
    assert_eq!(response.status, 200);
    assert_eq!(response.download_destination, None);
    assert_eq!(
        response.workinput_tx.into_queued(),
        vec![
            visit("https://example.test/a"),
            WorkInput::Download {
                url: "https://example.test/d".to_string(),
                destination: "out.bin".to_string()
            }
        ]
    );
}

#[test]
fn response_on_closed_channel_refuses() {
    let mut sender = WorkSender::new(PendingCounter::new());
    sender.close();
    let mut response = Response::new(304, "u".to_string(), None, sender);
    assert_eq!(
        response.navigate("https://example.test/a".to_string()),
        Err(CrablerError::AsyncSendError("https://example.test/a".to_string()))
    );
    assert_eq!(
        response.download_file("https://example.test/d".to_string(), "out.bin".to_string()),
        Err(CrablerError::AsyncSendError("https://example.test/d".to_string()))
    );
    assert_eq!(response.workinput_tx.outstanding(), 0);
    assert_eq!(response.workinput_tx.into_queued(), vec![]);
}
