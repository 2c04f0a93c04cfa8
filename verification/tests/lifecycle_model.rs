use embedder::lifecycle::request_step;
use embedder::lifecycle::would_construct;
use embedder::lifecycle::SlotStatus;

#[test]
fn cold_slot_constructs() {
    assert!(would_construct(SlotStatus::Absent));
}

#[test]
fn ready_slot_does_not_construct() {
    assert!(!would_construct(SlotStatus::Ready));
}

#[test]
fn successful_construction_makes_ready() {
    assert_eq!(request_step(SlotStatus::Absent, true), SlotStatus::Ready);
}

#[test]
fn failed_construction_leaves_absent() {
    assert_eq!(request_step(SlotStatus::Absent, false), SlotStatus::Absent);
}

#[test]
fn ready_is_terminal_whatever_the_outcome() {
    assert_eq!(request_step(SlotStatus::Ready, true), SlotStatus::Ready);
    assert_eq!(request_step(SlotStatus::Ready, false), SlotStatus::Ready);
}

#[test]
fn ten_cold_requests_construct_once() {
    // Ten requests race on a cold slot; the lock grants access one at a
    // time, so they run as ten transitions in a row. Exactly the first one
    // runs the initializer when its construction succeeds.
    let mut status = SlotStatus::Absent;
    let mut constructions: usize = 0;
    let mut k: usize = 0;
    while k < 10 {
        if would_construct(status) {
            constructions += 1;
        }
        status = request_step(status, true);
        k += 1;
    }
    assert_eq!(constructions, 1);
    assert_eq!(status, SlotStatus::Ready);
}

#[test]
fn failed_attempts_retry_until_one_succeeds() {
    // Two construction failures are not sticky: every following request
    // retries until one succeeds, and the slot is ready from then on.
    let outcomes: Vec<bool> = vec![false, false, true, true];
    let mut status = SlotStatus::Absent;
    let mut constructions: usize = 0;
    let mut k: usize = 0;
    while k < outcomes.len() {
        if would_construct(status) {
            constructions += 1;
        }
        status = request_step(status, outcomes[k]);
        k += 1;
    }
    assert_eq!(constructions, 3);
    assert_eq!(status, SlotStatus::Ready);
}
