//! The start/finish lifecycle and its protocol violations.
use rkyv_intern::{InternAction, InternError, Interner, InterningState};

#[test]
fn first_sighting_is_started_then_finished() {
    let mut interner = Interner::new();
    let state = match interner.start_interning("alice") {
        InterningState::Started(state) => state,
        _ => panic!("first sighting must be Started"),
    };
    assert!(interner.finish_interning(state, 17).is_ok());
    match interner.start_interning("alice") {
        InterningState::Finished(pos) => assert_eq!(pos, 17),
        _ => panic!("a finished value must answer Finished"),
    }
}

#[test]
fn position_zero_is_reported_as_zero() {
    let mut interner = Interner::new();
    let state = match interner.start_interning("alice") {
        InterningState::Started(state) => state,
        _ => panic!("first sighting must be Started"),
    };
    assert!(interner.finish_interning(state, 0).is_ok());
    match interner.start_interning("alice") {
        InterningState::Finished(pos) => assert_eq!(pos, 0),
        _ => panic!("a finished value must answer Finished"),
    }
}

#[test]
fn other_values_do_not_disturb_an_entry() {
    let mut interner = Interner::new();
    let state = match interner.start_interning("alice") {
        InterningState::Started(state) => state,
        _ => panic!("first sighting must be Started"),
    };
    assert!(interner.finish_interning(state, 3).is_ok());
    let other = match interner.start_interning("bob") {
        InterningState::Started(state) => state,
        _ => panic!("a value not seen before must be Started"),
    };
    assert!(interner.finish_interning(other, 9).is_ok());
    match interner.start_interning("alice") {
        InterningState::Finished(pos) => assert_eq!(pos, 3),
        _ => panic!("a finished value must answer Finished"),
    }
}

#[test]
fn mid_flight_collision_is_pending() {
    let mut interner = Interner::new();
    assert!(matches!(
        interner.start_interning("alice"),
        InterningState::Started(_)
    ));
    assert!(matches!(
        interner.start_interning("alice"),
        InterningState::Pending
    ));
}

#[test]
fn pending_becomes_cyclic_error() {
    let mut interner = Interner::new();
    let _ = interner.start_interning("alice");
    let action: Result<InternAction<_>, InternError> =
        interner.start_interning("alice").into_action();
    assert_eq!(action.unwrap_err(), InternError::CyclicInternedValue);
}

#[test]
fn finish_twice_is_already_finished() {
    let mut interner = Interner::new();
    let state = match interner.start_interning("alice") {
        InterningState::Started(state) => state,
        _ => panic!("first sighting must be Started"),
    };
    assert!(interner.finish_interning(state, 5).is_ok());
    assert_eq!(
        interner.finish_interning(state, 6),
        Err(InternError::AlreadyFinished)
    );
    match interner.start_interning("alice") {
        InterningState::Finished(pos) => assert_eq!(pos, 5),
        _ => panic!("the first recorded position must stand"),
    }
}

#[test]
fn finish_without_start_is_not_started() {
    let mut started = Interner::new();
    let mut fresh = Interner::new();
    let state = match started.start_interning("alice") {
        InterningState::Started(state) => state,
        _ => panic!("first sighting must be Started"),
    };
    assert_eq!(
        fresh.finish_interning(state, 4),
        Err(InternError::NotStarted)
    );
    assert_eq!(fresh.len(), 0);
}

#[test]
fn error_messages() {
    assert_eq!(
        InternError::NotStarted.message(),
        "value was not started interning"
    );
    assert_eq!(
        InternError::AlreadyFinished.message(),
        "value was already finished interning"
    );
    assert_eq!(
        InternError::CyclicInternedValue.message(),
        "encountered cyclic shared pointers while interning"
    );
}

#[test]
fn len_and_iter_follow_the_entries() {
    let mut interner = Interner::new();
    assert_eq!(interner.len(), 0);
    assert!(interner.iter().is_empty());

    let state = match interner.start_interning("alice") {
        InterningState::Started(state) => state,
        _ => panic!("first sighting must be Started"),
    };
    assert!(interner.finish_interning(state, 11).is_ok());
    let _ = interner.start_interning("bob");
    assert_eq!(interner.len(), 2);

    let mut pairs: Vec<(String, Option<usize>)> = interner
        .iter()
        .into_iter()
        .map(|(key, entry)| (key, entry.position()))
        .collect();
    pairs.sort();
    assert_eq!(
        pairs,
        vec![
            ("alice".to_string(), Some(11)),
            ("bob".to_string(), None),
        ]
    );
}

#[test]
fn default_is_empty() {
    let interner = Interner::default();
    assert_eq!(interner.len(), 0);
}
