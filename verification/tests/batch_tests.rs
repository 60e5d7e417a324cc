use m3u8_download::batch::{BatchAction, BatchState};

#[test]
fn batch_respects_the_concurrency_bound() {
    let mut b = BatchState::new(20, 4);
    for i in 0..4 {
        match b.next_action() {
            BatchAction::Launch(j) => assert_eq!(j, i),
            _ => panic!("a permit is owed while the pool has room"),
        }
        b.on_launched();
    }
    assert_eq!(b.next_action(), BatchAction::Wait);
}

#[test]
fn batch_fails_fast_and_drains() {
    let mut b = BatchState::new(20, 4);
    for _ in 0..4 {
        assert!(matches!(b.next_action(), BatchAction::Launch(_)));
        b.on_launched();
    }
    b.on_success();
    assert!(matches!(b.next_action(), BatchAction::Launch(_)));
    b.on_launched();
    b.on_failure();
    // the failure is observed: never another permit, only draining
    assert_eq!(b.next_action(), BatchAction::Wait);
    b.on_success();
    assert_eq!(b.next_action(), BatchAction::Wait);
    b.on_failure();
    assert_eq!(b.next_action(), BatchAction::Wait);
    b.on_success();
    assert_eq!(b.next_action(), BatchAction::Aborted);
    // progress advanced only on the three successes
    assert_eq!(b.progress(), 3);
}

#[test]
fn batch_finishes_when_every_unit_succeeds() {
    let mut b = BatchState::new(2, 4);
    assert_eq!(b.next_action(), BatchAction::Launch(0));
    b.on_launched();
    assert_eq!(b.next_action(), BatchAction::Launch(1));
    b.on_launched();
    assert_eq!(b.next_action(), BatchAction::Wait);
    b.on_success();
    b.on_success();
    assert_eq!(b.next_action(), BatchAction::Done);
    assert_eq!(b.progress(), 2);
}

#[test]
fn empty_batch_is_done_at_once() {
    let b = BatchState::new(0, 4);
    assert_eq!(b.next_action(), BatchAction::Done);
}
