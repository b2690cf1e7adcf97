use cyan_fleet_control::message_handler::Message;
use cyan_fleet_control::operation_queue::OperationQueue;

fn turn(queue: &mut OperationQueue) -> Message {
    let kind = queue.begin().expect("an idle queue hands out its head");
    queue.finish();
    kind
}

#[test]
fn all_lists_the_kinds_in_declaration_order() {
    assert_eq!(
        Message::all(),
        vec![
            Message::GetFleet,
            Message::GetWaypoints,
            Message::GetContracts,
            Message::GetShipyards
        ]
    );
}

#[test]
fn queue_hands_out_the_kinds_in_order() {
    let mut queue = OperationQueue::new();
    let seen: Vec<Message> = (0..4).map(|_| turn(&mut queue)).collect();
    assert_eq!(seen, Message::all());
}

#[test]
fn queue_starts_over_after_a_full_round() {
    let mut queue = OperationQueue::new();
    let seen: Vec<Message> = (0..9).map(|_| turn(&mut queue)).collect();
    assert_eq!(
        seen,
        vec![
            Message::GetFleet,
            Message::GetWaypoints,
            Message::GetContracts,
            Message::GetShipyards,
            Message::GetFleet,
            Message::GetWaypoints,
            Message::GetContracts,
            Message::GetShipyards,
            Message::GetFleet,
        ]
    );
}

#[test]
fn every_window_of_four_turns_runs_each_kind_once() {
    for offset in 0..7 {
        let mut queue = OperationQueue::new();
        for _ in 0..offset {
            turn(&mut queue);
        }
        let window: Vec<Message> = (0..4).map(|_| turn(&mut queue)).collect();
        for kind in Message::all() {
            let times = window.iter().filter(|seen| **seen == kind).count();
            assert_eq!(times, 1, "{:?} in the window that starts at turn {}", kind, offset);
        }
    }
}

#[test]
fn nothing_starts_while_a_kind_is_being_executed() {
    let mut queue = OperationQueue::new();
    assert_eq!(queue.begin(), Some(Message::GetFleet));
    assert_eq!(queue.begin(), None);
    assert_eq!(queue.begin(), None);
    queue.finish();
    assert_eq!(queue.begin(), Some(Message::GetWaypoints));
}

#[test]
fn a_failed_operation_returns_to_the_tail_like_any_other() {
    // The queue does not know how a turn went: `finish` is all it is told.
    let mut queue = OperationQueue::new();
    assert_eq!(turn(&mut queue), Message::GetFleet);
    assert_eq!(turn(&mut queue), Message::GetWaypoints);
    assert_eq!(turn(&mut queue), Message::GetContracts);
    assert_eq!(turn(&mut queue), Message::GetShipyards);
    assert_eq!(turn(&mut queue), Message::GetFleet);
}

#[test]
fn finish_without_begin_changes_nothing() {
    let mut queue = OperationQueue::new();
    queue.finish();
    queue.finish();
    assert_eq!(turn(&mut queue), Message::GetFleet);
    assert_eq!(turn(&mut queue), Message::GetWaypoints);
}
