use pixelbridge::session::{SessionError, SessionManager};

#[test]
fn two_offers_get_distinct_ids_and_both_are_registered() {
    let mut m = SessionManager::new();
    let id1 = m.register_offer(b"v=0 first").unwrap();
    let id2 = m.register_offer(b"v=0 second").unwrap();
    assert_ne!(id1, id2);
    assert!(m.contains(id1));
    assert!(m.contains(id2));
    assert_eq!(m.session_count(), 2);
}

#[test]
fn closing_one_session_leaves_the_other_untouched() {
    let mut m = SessionManager::new();
    let id1 = m.register_offer(b"v=0 first").unwrap();
    let id2 = m.register_offer(b"v=0 second").unwrap();
    assert!(m.close(id1));
    assert!(!m.contains(id1));
    assert!(m.contains(id2));
    assert_eq!(m.session_count(), 1);
    // closing again reports that nothing was there
    assert!(!m.close(id1));
}

#[test]
fn empty_sdp_is_rejected_and_nothing_is_registered() {
    let mut m = SessionManager::new();
    let r = m.register_offer(b"");
    assert!(matches!(r, Err(SessionError::EmptySdp)));
    assert_eq!(m.session_count(), 0);
}

#[test]
fn local_description_cannot_be_published_before_gathering_completes() {
    let mut m = SessionManager::new();
    let id = m.register_offer(b"v=0").unwrap();
    m.apply_remote(id).unwrap();
    // gathering has not completed: publication is refused
    assert!(matches!(m.publish_local(id), Err(SessionError::IceIncomplete)));
    // after gathering with a non-empty candidate set it goes through
    m.complete_gathering(id, 2).unwrap();
    m.publish_local(id).unwrap();
    m.deliver_answer(id).unwrap();
    assert!(m.contains(id));
}

#[test]
fn gathering_without_candidates_is_fatal_for_that_session_only() {
    let mut m = SessionManager::new();
    let id1 = m.register_offer(b"v=0 first").unwrap();
    let id2 = m.register_offer(b"v=0 second").unwrap();
    m.apply_remote(id1).unwrap();
    let r = m.complete_gathering(id1, 0);
    assert!(matches!(r, Err(SessionError::NoCandidates)));
    assert!(!m.contains(id1));
    assert!(m.contains(id2));
}

#[test]
fn steps_demand_the_right_phase_and_a_known_session() {
    let mut m = SessionManager::new();
    assert!(matches!(m.apply_remote(7), Err(SessionError::UnknownSession)));
    assert!(matches!(m.publish_local(7), Err(SessionError::UnknownSession)));
    assert!(matches!(m.deliver_answer(7), Err(SessionError::UnknownSession)));
    let id = m.register_offer(b"v=0").unwrap();
    // the answer cannot be delivered before the earlier steps
    assert!(matches!(m.deliver_answer(id), Err(SessionError::WrongPhase)));
    // gathering completion needs the remote description applied first
    assert!(matches!(m.complete_gathering(id, 3), Err(SessionError::WrongPhase)));
}

#[test]
fn error_descriptions_are_stable() {
    assert_eq!(SessionError::EmptySdp.describe(), "offer contains an empty sdp");
    assert_eq!(SessionError::UnknownSession.describe(), "unknown session");
    assert_eq!(SessionError::NoCandidates.describe(), "ice gathering yielded no candidates");
}
