use embedder::errors::EmbedError;
use embedder::slot::AppState;

// These tests drive the real engine. Whether model weights can be acquired
// depends on the environment, so each test accepts both outcomes and asserts
// what must hold on each: a success has the model's fixed dimensionality, a
// cold-slot failure is a recoverable construction failure.

#[test]
fn first_request_constructs_and_returns_fixed_dimension_or_fails_recoverably() {
    let state = AppState::new();
    let r = state.get_embedding(String::from("hello world"));
    match r {
        Ok(v) => assert_eq!(v.len(), 384),
        Err(e) => {
            assert!(matches!(e, EmbedError::ConstructionFailure(_)));
            assert!(e.is_recoverable());
        }
    }
}

#[test]
fn failed_construction_is_retried_by_the_next_request() {
    let state = AppState::new();
    let first = state.get_embedding(String::from("hello"));
    let second = state.get_embedding(String::from("hello"));
    match (first, second) {
        // Post-warm determinism: the same text yields bit-identical vectors.
        (Ok(a), Ok(b)) => assert_eq!(a, b),
        // A failed construction leaves the slot absent: the second request
        // makes a fresh attempt and reports the same failure kind, rather
        // than failing on a poisoned slot.
        (Err(a), Err(b)) => {
            assert!(matches!(a, EmbedError::ConstructionFailure(_)));
            assert!(matches!(b, EmbedError::ConstructionFailure(_)));
        }
        // One attempt failing and a later one succeeding is the retry
        // working as designed; nothing more to assert.
        _ => {}
    }
}

#[test]
fn empty_input_returns_without_fault() {
    let state = AppState::new();
    let r = state.get_embedding(String::new());
    match r {
        Ok(v) => assert_eq!(v.len(), 384),
        Err(e) => assert!(e.is_recoverable()),
    }
}
