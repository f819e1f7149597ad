use soundscape::queue::CommandQueue;
use soundscape::soundscape::{
    check_schedule, is_cmd_now, load_at, load_background, play_at, retire_at, Cmd, FutureCmd,
    Origin,
};

#[test]
fn constructors_stamp_commands() {
    assert_eq!(play_at(7), FutureCmd { command: Cmd::Play, at_tick: 7 });
    assert_eq!(
        load_at(2, Origin::Remote, 9),
        FutureCmd { command: Cmd::Load(2, Origin::Remote), at_tick: 9 }
    );
    assert_eq!(load_background(0), FutureCmd { command: Cmd::LoadBackground, at_tick: 0 });
    assert_eq!(retire_at(100), FutureCmd { command: Cmd::Retire, at_tick: 100 });
    assert_eq!(check_schedule(10_000), FutureCmd { command: Cmd::CheckSchedule, at_tick: 10_000 });
}

// The queue always hands out an earliest deadline: popped deadlines come out
// in non-decreasing order whatever the push order was.
#[test]
fn pops_are_monotone() {
    let mut q = CommandQueue::new();
    for t in [5i64, 3, 9, 3, 7, 0] {
        q.push(play_at(t));
    }
    let mut popped = Vec::new();
    while let Some(c) = q.pop() {
        popped.push(c.at_tick);
    }
    assert_eq!(popped, vec![0, 3, 3, 5, 7, 9]);
}

// Among equal deadlines the earliest-pushed command leaves first.
#[test]
fn ties_break_toward_the_earliest_push() {
    let mut q = CommandQueue::with_capacity(8);
    q.push(load_at(1, Origin::Internal, 4));
    q.push(play_at(4));
    q.push(retire_at(4));
    assert_eq!(q.pop().unwrap().command, Cmd::Load(1, Origin::Internal));
    assert_eq!(q.pop().unwrap().command, Cmd::Play);
    assert_eq!(q.pop().unwrap().command, Cmd::Retire);
    assert_eq!(q.pop(), None);
}

#[test]
fn peek_does_not_remove() {
    let mut q = CommandQueue::new();
    assert_eq!(q.peek(), None);
    q.push(play_at(12));
    q.push(play_at(3));
    assert_eq!(q.peek().unwrap().at_tick, 3);
    assert_eq!(q.len(), 2);
    assert_eq!(q.pop().unwrap().at_tick, 3);
    assert_eq!(q.len(), 1);
}

#[test]
fn due_test_compares_deadline_to_clock() {
    let cmd = play_at(100);
    assert!(is_cmd_now(Some(&cmd), &100));
    assert!(is_cmd_now(Some(&cmd), &150));
    assert!(!is_cmd_now(Some(&cmd), &99));
    assert!(!is_cmd_now(None, &1_000_000));
}
