use resumable_fetch::pacing::{
    PacingController, FLOOR_MS, INCREMENT_END_MS, INCREMENT_MIN_MS, RATCHET_LIMIT_MS, SPAN_MS,
};

#[test]
fn the_constants_of_pacing() {
    assert_eq!(FLOOR_MS, 50);
    assert_eq!(SPAN_MS, 50);
    assert_eq!(INCREMENT_MIN_MS, 40);
    assert_eq!(INCREMENT_END_MS, 60);
}

#[test]
fn the_ratchet_starts_at_the_floor() {
    let pacing = PacingController::new();
    assert_eq!(pacing.ratchet(), 50);
    assert!(pacing.can_record());
}

#[test]
fn delays_fall_within_the_span_above_the_ratchet() {
    let pacing = PacingController::new();
    for _ in 0..2000 {
        let delay = pacing.next_delay();
        assert!(50 <= delay && delay < 100, "delay {}", delay);
    }
}

#[test]
fn delays_are_not_all_the_same() {
    let pacing = PacingController::new();
    let first = pacing.next_delay();
    let mut differs = false;
    for _ in 0..2000 {
        if pacing.next_delay() != first {
            differs = true;
        }
    }
    assert!(differs);
}

#[test]
fn delays_follow_the_ratchet() {
    let mut pacing = PacingController::new();
    pacing.record_with(true, 59);
    pacing.record_with(true, 41);
    assert_eq!(pacing.ratchet(), 150);
    for _ in 0..2000 {
        let delay = pacing.next_delay();
        assert!(150 <= delay && delay < 200, "delay {}", delay);
    }
}

#[test]
fn increments_fall_within_their_range() {
    let pacing = PacingController::new();
    let mut seen_differs = false;
    let first = pacing.next_increment();
    for _ in 0..2000 {
        let increment = pacing.next_increment();
        assert!(40 <= increment && increment < 60, "increment {}", increment);
        if increment != first {
            seen_differs = true;
        }
    }
    assert!(seen_differs);
}

#[test]
fn a_fetch_without_retry_leaves_the_ratchet() {
    let mut pacing = PacingController::new();
    pacing.record(false);
    assert_eq!(pacing.ratchet(), 50);
    pacing.record_with(false, 45);
    assert_eq!(pacing.ratchet(), 50);
}

#[test]
fn a_retried_fetch_raises_the_ratchet_by_the_increment() {
    let mut pacing = PacingController::new();
    pacing.record_with(true, 40);
    assert_eq!(pacing.ratchet(), 90);
    pacing.record_with(true, 59);
    assert_eq!(pacing.ratchet(), 149);
    pacing.record_with(false, 59);
    assert_eq!(pacing.ratchet(), 149);
}

#[test]
fn a_retried_fetch_raises_the_ratchet_by_a_drawn_increment() {
    for _ in 0..200 {
        let mut pacing = PacingController::new();
        pacing.record(true);
        let ratchet = pacing.ratchet();
        assert!(90 <= ratchet && ratchet < 110, "ratchet {}", ratchet);
    }
}

#[test]
fn three_retried_items_leave_the_ratchet_above_the_floor() {
    let mut pacing = PacingController::new();
    let mut before = pacing.ratchet();
    for _ in 0..3 {
        pacing.record(true);
        pacing.record(false);
        let after = pacing.ratchet();
        assert!(after > before);
        assert!(after - before >= 40 && after - before < 60);
        before = after;
    }
    let ratchet = pacing.ratchet();
    assert!(ratchet > FLOOR_MS);
    assert!(50 + 3 * 40 <= ratchet && ratchet <= 50 + 3 * 59);
    for _ in 0..500 {
        let delay = pacing.next_delay();
        assert!(ratchet <= delay && delay < ratchet + SPAN_MS);
    }
}

#[test]
fn the_ratchet_never_decreases() {
    let mut pacing = PacingController::new();
    let mut before = pacing.ratchet();
    for round in 0..300 {
        pacing.record(round % 3 == 0);
        let after = pacing.ratchet();
        assert!(after >= before);
        before = after;
    }
}

#[test]
fn headroom_ends_at_the_limit() {
    let mut pacing = PacingController::new();
    let mut rounds = 0u64;
    while pacing.can_record() && rounds < 1000 {
        pacing.record_with(true, 59);
        rounds += 1;
    }
    assert_eq!(rounds, 1000);
    assert_eq!(pacing.ratchet(), 50 + 59 * 1000);
    assert!(pacing.ratchet() <= RATCHET_LIMIT_MS);
}
