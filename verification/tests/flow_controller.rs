use h2_state::flow::{FlowController, WindowUnderflow, MAX_WINDOW_SIZE, MIN_WINDOW_SIZE};

#[test]
fn new_controller_has_full_window_and_nothing_pending() {
    let fc = FlowController::new(65535);
    assert_eq!(fc.window, 65535);
    assert_eq!(fc.pending, 0);
}

#[test]
fn grow_adds_capacity_and_records_pending_credit() {
    let mut fc = FlowController::new(1000);
    fc.grow_window(234);
    assert_eq!(fc.window, 1234);
    assert_eq!(fc.pending, 234);
    fc.grow_window(66);
    assert_eq!(fc.window, 1300);
    assert_eq!(fc.pending, 300);
}

#[test]
fn grow_by_zero_is_a_no_op() {
    let mut fc = FlowController::new(1000);
    fc.grow_window(0);
    assert_eq!(fc.window, 1000);
    assert_eq!(fc.pending, 0);
}

#[test]
fn grow_clamps_at_protocol_maximum() {
    let mut fc = FlowController::new(MAX_WINDOW_SIZE);
    fc.grow_window(5);
    assert_eq!(fc.window, MAX_WINDOW_SIZE as i64);
    assert_eq!(fc.pending, 0);

    let mut fc = FlowController::new(MAX_WINDOW_SIZE - 10);
    fc.grow_window(25);
    assert_eq!(fc.window, MAX_WINDOW_SIZE as i64);
    assert_eq!(fc.pending, 10);
}

#[test]
fn shrink_may_drive_the_window_negative() {
    let mut fc = FlowController::new(100);
    fc.shrink_window(350);
    assert_eq!(fc.window, -250);
    assert_eq!(fc.pending, 0);
}

#[test]
fn shrink_by_zero_is_a_no_op() {
    let mut fc = FlowController::new(100);
    fc.shrink_window(0);
    assert_eq!(fc.window, 100);
}

#[test]
fn shrink_saturates_at_protocol_minimum() {
    let mut fc = FlowController::new(0);
    fc.shrink_window(u32::MAX);
    assert_eq!(fc.window, MIN_WINDOW_SIZE);
    fc.shrink_window(u32::MAX);
    assert_eq!(fc.window, MIN_WINDOW_SIZE);
}

#[test]
fn claim_debits_the_window() {
    let mut fc = FlowController::new(65535);
    assert_eq!(fc.claim_window(100), Ok(()));
    assert_eq!(fc.window, 65435);
}

#[test]
fn claim_past_available_capacity_fails_and_changes_nothing() {
    let mut fc = FlowController::new(100);
    assert_eq!(fc.claim_window(101), Err(WindowUnderflow));
    assert_eq!(fc.window, 100);
    assert_eq!(fc.claim_window(100), Ok(()));
    assert_eq!(fc.window, 0);
    assert_eq!(fc.claim_window(1), Err(WindowUnderflow));
    assert_eq!(fc.window, 0);
}

#[test]
fn any_claim_on_a_negative_window_fails() {
    let mut fc = FlowController::new(100);
    fc.shrink_window(200);
    assert_eq!(fc.window, -100);
    assert_eq!(fc.claim_window(0), Err(WindowUnderflow));
    assert_eq!(fc.claim_window(1), Err(WindowUnderflow));
    assert_eq!(fc.window, -100);
    fc.grow_window(150);
    assert_eq!(fc.window, 50);
    assert_eq!(fc.claim_window(50), Ok(()));
    assert_eq!(fc.window, 0);
}

#[test]
fn claim_of_zero_on_a_zero_window_succeeds() {
    let mut fc = FlowController::new(0);
    assert_eq!(fc.claim_window(0), Ok(()));
    assert_eq!(fc.window, 0);
}

#[test]
fn shrink_then_grow_then_claim() {
    let mut fc = FlowController::new(1000);
    fc.shrink_window(1000);
    assert_eq!(fc.window, 0);
    assert_eq!(fc.claim_window(1), Err(WindowUnderflow));
    fc.grow_window(500);
    assert_eq!(fc.claim_window(500), Ok(()));
    assert_eq!(fc.window, 0);
}

#[test]
fn take_window_update_drains_once() {
    let mut fc = FlowController::new(1000);
    fc.grow_window(200);
    fc.grow_window(100);
    assert_eq!(fc.take_window_update(), Some(300));
    assert_eq!(fc.take_window_update(), None);
}

#[test]
fn take_window_update_on_a_fresh_controller_is_none() {
    let mut fc = FlowController::new(1000);
    assert_eq!(fc.take_window_update(), None);
}

#[test]
fn shrink_leaves_pending_credit_untouched() {
    let mut fc = FlowController::new(1000);
    fc.grow_window(300);
    fc.shrink_window(800);
    assert_eq!(fc.window, 500);
    assert_eq!(fc.take_window_update(), Some(300));
}
