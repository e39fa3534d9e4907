use sqsproxyd::worker::{Worker, WorkerAction};
use sqsproxyd::Message;

/// Answers each call a worker asks for, and returns the calls in order, ending
/// with the wait for the next message (or the exit).
fn drive(
    worker: &mut Worker,
    first: WorkerAction,
    post: Option<(bool, &str)>,
    forward_ok: bool,
) -> Vec<WorkerAction> {
    let mut calls = Vec::new();
    let mut action = first;
    loop {
        let next = match &action {
            WorkerAction::Post { .. } => match post {
                Some((success, body)) => worker.on_post_answered(success, body.to_string()),
                None => worker.on_post_failed(),
            },
            WorkerAction::Forward { .. } => worker.on_forward_answered(forward_ok),
            WorkerAction::Delete { .. } => worker.on_delete_done(),
            WorkerAction::Take | WorkerAction::Exit => {
                calls.push(action);
                return calls;
            }
        };
        calls.push(action);
        action = next;
    }
}

fn post(body: &str, message_id: &str) -> WorkerAction {
    WorkerAction::Post { body: body.to_string(), message_id: message_id.to_string() }
}

fn forward(body: &str) -> WorkerAction {
    WorkerAction::Forward { body: body.to_string() }
}

fn delete(receipt_handle: &str) -> WorkerAction {
    WorkerAction::Delete { receipt_handle: receipt_handle.to_string() }
}

fn dummy_message() -> Message {
    Message {
        receipt_handle: "receipt_handle".to_string(),
        body: "{\"key1\": 1}".to_string(),
        md5_of_body: "dummy".to_string(),
        message_id: "message_id".to_string(),
    }
}

fn sum_message() -> Message {
    Message {
        body: "{\"x\":1,\"y\":2}".to_string(),
        receipt_handle: "r1".to_string(),
        message_id: "m1".to_string(),
        md5_of_body: "bffc6d75bad8781eab9aaad022985e6b".to_string(),
    }
}

fn count(calls: &[WorkerAction], f: impl Fn(&WorkerAction) -> bool) -> usize {
    calls.iter().filter(|a| f(a)).count()
}

#[test]
fn test_process_message_with_output() {
    let mut worker = Worker::new(true);
    let first = worker.process_message(dummy_message());
    let calls = drive(&mut worker, first, Some((true, "result")), true);
    assert_eq!(
        calls,
        vec![
            post("{\"key1\": 1}", "message_id"),
            forward("result"),
            delete("receipt_handle"),
            WorkerAction::Take,
        ]
    );
}

#[test]
fn test_process_message_without_output() {
    let mut worker = Worker::new(false);
    let first = worker.process_message(dummy_message());
    let calls = drive(&mut worker, first, Some((true, "result")), true);
    assert_eq!(
        calls,
        vec![post("{\"key1\": 1}", "message_id"), delete("receipt_handle"), WorkerAction::Take]
    );
}

#[test]
fn test_process_message_if_failed_not_deleted() {
    let mut worker = Worker::new(true);
    let first = worker.process_message(dummy_message());
    let calls = drive(&mut worker, first, Some((false, "result")), true);
    assert_eq!(count(&calls, |a| matches!(a, WorkerAction::Delete { .. })), 0);
    assert_eq!(count(&calls, |a| matches!(a, WorkerAction::Forward { .. })), 0);
    assert_eq!(calls, vec![post("{\"key1\": 1}", "message_id"), WorkerAction::Take]);
}

#[test]
fn happy_path_without_output_queue() {
    let mut worker = Worker::new(false);
    let first = worker.on_message(sum_message());
    let calls = drive(&mut worker, first, Some((true, "3")), true);
    assert_eq!(calls, vec![post("{\"x\":1,\"y\":2}", "m1"), delete("r1"), WorkerAction::Take]);
    assert_eq!(count(&calls, |a| *a == delete("r1")), 1);
    assert_eq!(count(&calls, |a| matches!(a, WorkerAction::Forward { .. })), 0);
}

#[test]
fn happy_path_with_output_queue() {
    let mut worker = Worker::new(true);
    let first = worker.on_message(sum_message());
    let calls = drive(&mut worker, first, Some((true, "3")), true);
    assert_eq!(
        calls,
        vec![post("{\"x\":1,\"y\":2}", "m1"), forward("3"), delete("r1"), WorkerAction::Take]
    );
}

#[test]
fn post_returning_500_is_not_acknowledged() {
    let mut worker = Worker::new(true);
    let first = worker.on_message(sum_message());
    let calls = drive(&mut worker, first, Some((false, "Internal Server Error")), true);
    assert_eq!(calls, vec![post("{\"x\":1,\"y\":2}", "m1"), WorkerAction::Take]);
}

#[test]
fn unreachable_endpoint_is_not_acknowledged() {
    let mut worker = Worker::new(false);
    let first = worker.on_message(sum_message());
    let calls = drive(&mut worker, first, None, true);
    assert_eq!(calls, vec![post("{\"x\":1,\"y\":2}", "m1"), WorkerAction::Take]);
}

#[test]
fn md5_mismatch_is_dropped() {
    let mut worker = Worker::new(true);
    let message = Message {
        body: "hoge".to_string(),
        receipt_handle: "r1".to_string(),
        message_id: "m1".to_string(),
        md5_of_body: "AAAAAAAAAAAAAAAAAAAAAAAAAAAAAAAA".to_string(),
    };
    let first = worker.on_message(message);
    let calls = drive(&mut worker, first, Some((true, "3")), true);
    assert_eq!(calls, vec![WorkerAction::Take]);
}

#[test]
fn failed_forward_is_not_deleted() {
    let mut worker = Worker::new(true);
    let first = worker.on_message(sum_message());
    let calls = drive(&mut worker, first, Some((true, "3")), false);
    assert_eq!(calls, vec![post("{\"x\":1,\"y\":2}", "m1"), forward("3"), WorkerAction::Take]);
}

#[test]
fn identical_deliveries_are_posted_twice() {
    let mut worker = Worker::new(false);
    let first = worker.on_message(sum_message());
    let mut calls = drive(&mut worker, first, Some((true, "3")), true);
    let second = worker.on_message(sum_message());
    calls.extend(drive(&mut worker, second, Some((true, "3")), true));
    assert_eq!(count(&calls, |a| *a == post("{\"x\":1,\"y\":2}", "m1")), 2);
    assert_eq!(count(&calls, |a| *a == delete("r1")), 2);
}

#[test]
fn shutdown_lets_post_in_flight_finish() {
    let mut worker = Worker::new(false);
    let first = worker.on_message(sum_message());
    assert_eq!(first, post("{\"x\":1,\"y\":2}", "m1"));
    assert_eq!(worker.on_shutdown(), post("{\"x\":1,\"y\":2}", "m1"));
    assert_eq!(worker.on_post_answered(true, "3".to_string()), delete("r1"));
    assert_eq!(worker.on_delete_done(), WorkerAction::Exit);
}

#[test]
fn shutdown_finishes_message_with_output() {
    let mut worker = Worker::new(true);
    let first = worker.on_message(sum_message());
    assert_eq!(first, post("{\"x\":1,\"y\":2}", "m1"));
    assert_eq!(worker.on_shutdown(), post("{\"x\":1,\"y\":2}", "m1"));
    assert_eq!(
        worker.on_post_answered(true, "3".to_string()),
        forward("3")
    );
    assert_eq!(worker.on_forward_answered(true), delete("r1"));
    assert_eq!(worker.on_delete_done(), WorkerAction::Exit);
}

#[test]
fn no_post_after_shutdown() {
    let mut worker = Worker::new(false);
    assert_eq!(worker.on_shutdown(), WorkerAction::Exit);
    assert_eq!(worker.on_message(sum_message()), WorkerAction::Exit);
    assert_eq!(worker.process_message(sum_message()), WorkerAction::Exit);
}

#[test]
fn idle_workers_exit_on_shutdown() {
    let mut workers: Vec<Worker> = (0..4).map(|_| Worker::new(false)).collect();
    for w in workers.iter() {
        assert_eq!(w.next_action(), WorkerAction::Take);
    }
    for w in workers.iter_mut() {
        assert_eq!(w.on_shutdown(), WorkerAction::Exit);
    }
    for w in workers.iter() {
        assert_eq!(w.next_action(), WorkerAction::Exit);
    }
}

#[test]
fn answers_out_of_turn_change_nothing() {
    let mut worker = Worker::new(true);
    assert_eq!(worker.on_post_answered(true, "3".to_string()), WorkerAction::Take);
    assert_eq!(worker.on_forward_answered(true), WorkerAction::Take);
    assert_eq!(worker.on_delete_done(), WorkerAction::Take);
    let first = worker.on_message(sum_message());
    assert_eq!(first, post("{\"x\":1,\"y\":2}", "m1"));
    assert_eq!(worker.on_message(sum_message()), post("{\"x\":1,\"y\":2}", "m1"));
}
