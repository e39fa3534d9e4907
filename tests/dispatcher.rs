use sqsproxyd::dispatcher::{DispatchAction, Dispatcher, ReceiveStep};
use sqsproxyd::Message;

fn numbered(n: usize) -> Vec<Message> {
    (0..n)
        .map(|i| Message {
            body: format!("body{}", i),
            receipt_handle: format!("r{}", i),
            message_id: format!("m{}", i),
            md5_of_body: "dummy".to_string(),
        })
        .collect()
}

#[test]
fn empty_batch_sleeps() {
    let mut d = Dispatcher::new(2, 10, 1500);
    assert_eq!(d.on_received(Some(Vec::new())), ReceiveStep::Sleep { msec: 1500 });
    assert_eq!(d.outstanding(), 0);
}

#[test]
fn absent_batch_sleeps() {
    let mut d = Dispatcher::new(2, 10, 1500);
    assert_eq!(d.on_received(None), ReceiveStep::Sleep { msec: 1500 });
    assert_eq!(d.outstanding(), 0);
}

#[test]
fn failed_receive_sleeps() {
    let mut d = Dispatcher::new(2, 10, 700);
    assert_eq!(d.on_receive_failed(), ReceiveStep::Sleep { msec: 700 });
    assert_eq!(d.next_action(), DispatchAction::Receive { max: 10 });
}

#[test]
fn batch_is_dispatched_in_order() {
    let mut d = Dispatcher::new(4, 10, 1000);
    assert_eq!(d.next_action(), DispatchAction::Receive { max: 10 });
    assert_eq!(d.on_received(Some(numbered(3))), ReceiveStep::Dispatch(numbered(3)));
    assert_eq!(d.outstanding(), 3);
    assert_eq!(d.backlog_len(), 0);
    assert_eq!(d.next_action(), DispatchAction::Receive { max: 10 });
}

#[test]
fn receive_asks_for_configured_batch() {
    let d = Dispatcher::new(1, 5, 1000);
    assert_eq!(d.next_action(), DispatchAction::Receive { max: 5 });
}

#[test]
fn dispatcher_waits_when_workers_are_behind() {
    let mut d = Dispatcher::new(2, 10, 1000);
    assert_eq!(d.on_received(Some(numbered(2))), ReceiveStep::Dispatch(numbered(2)));
    assert_eq!(d.next_action(), DispatchAction::WaitForWorker);
    assert_eq!(d.on_taken(), Vec::new());
    assert_eq!(d.outstanding(), 1);
    assert_eq!(d.next_action(), DispatchAction::Receive { max: 10 });
}

#[test]
fn oversized_batch_loses_nothing() {
    let mut d = Dispatcher::new(2, 10, 1000);
    let all = numbered(5);
    let mut handed = Vec::new();
    match d.on_received(Some(all.clone())) {
        ReceiveStep::Dispatch(ms) => handed.extend(ms),
        ReceiveStep::Sleep { .. } => panic!("batch not dispatched"),
    }
    assert_eq!(handed, all[..2].to_vec());
    assert_eq!(d.outstanding(), 2);
    assert_eq!(d.backlog_len(), 3);
    assert_eq!(d.next_action(), DispatchAction::WaitForWorker);
    while d.backlog_len() > 0 {
        let out = d.on_taken();
        assert_eq!(out.len(), 1);
        assert!(d.outstanding() <= 2);
        handed.extend(out);
    }
    assert_eq!(handed, all);
    assert_eq!(d.next_action(), DispatchAction::WaitForWorker);
    assert_eq!(d.on_taken(), Vec::new());
    assert_eq!(d.next_action(), DispatchAction::Receive { max: 10 });
}

#[test]
fn later_batch_queues_behind_backlog() {
    let mut d = Dispatcher::new(1, 10, 1000);
    let first = numbered(3);
    assert_eq!(d.on_received(Some(first.clone())), ReceiveStep::Dispatch(first[..1].to_vec()));
    let extra = vec![Message {
        body: "late".to_string(),
        receipt_handle: "rl".to_string(),
        message_id: "ml".to_string(),
        md5_of_body: "dummy".to_string(),
    }];
    assert_eq!(d.on_received(Some(extra.clone())), ReceiveStep::Dispatch(Vec::new()));
    assert_eq!(d.backlog_len(), 3);
    let mut handed = first[..1].to_vec();
    for _ in 0..3 {
        handed.extend(d.on_taken());
    }
    let mut expected = first.clone();
    expected.extend(extra);
    assert_eq!(handed, expected);
}

#[test]
fn taken_never_goes_below_zero() {
    let mut d = Dispatcher::new(1, 1, 1000);
    assert_eq!(d.on_taken(), Vec::new());
    assert_eq!(d.outstanding(), 0);
}

#[test]
fn dispatcher_stops_on_shutdown() {
    let mut d = Dispatcher::new(3, 10, 1000);
    d.on_shutdown();
    assert_eq!(d.next_action(), DispatchAction::Stop);
}
