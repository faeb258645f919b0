//! Per-peer session lifecycle and the shared peer registry.
//!
//! One session is created per received offer and walks the phases
//! `Created → OfferReceived → AnswerReady → Active`; a closed session is
//! removed from the registry. The driver applies the remote description,
//! reports ICE-gathering completion, publishes the local description and
//! finally delivers the answer; the registry gates each step so that the
//! local description can only ever be published after gathering has
//! completed with at least one candidate — the returned answer therefore
//! always carries a complete, non-empty candidate set.
//!
//! The registry itself is a single map from minted identifier to session
//! record. Identifiers are minted from a strictly increasing counter, so two
//! registrations always yield distinct identifiers, and removing one session
//! never touches another.

use vstd::prelude::*;

use std::collections::HashMap;

verus! {

broadcast use vstd::std_specs::hash::group_hash_axioms;

/// Lifecycle phase of one peer session.
#[derive(Clone, Copy)]
pub enum SessionPhase {
    /// Identifier minted, registry slot taken, track attached.
    Created,
    /// The remote offer has been applied.
    OfferReceived,
    /// ICE gathering finished and the local description is published.
    AnswerReady,
    /// The answer has been delivered to the caller.
    Active,
}

/// One registered peer session.
#[derive(Clone, Copy)]
pub struct PeerSession {
    pub phase: SessionPhase,
    /// Whether the shared outbound video track is attached.
    pub track_attached: bool,
    /// Whether ICE candidate gathering has completed.
    pub ice_complete: bool,
    /// Number of ICE candidates gathered when gathering completed.
    pub ice_candidates: u64,
    /// Whether the local description has been published.
    pub local_published: bool,
}

/// Why a negotiation step was rejected.
#[derive(Clone, Copy, Debug)]
pub enum SessionError {
    /// The offer carried an empty session description.
    EmptySdp,
    /// No session with the given identifier is registered.
    UnknownSession,
    /// The session is not in the phase the step expects.
    WrongPhase,
    /// ICE gathering completed without yielding any candidate.
    NoCandidates,
    /// The local description may not be published before gathering completes.
    IceIncomplete,
    /// The identifier space is exhausted.
    IdSpaceExhausted,
}

/// Caller-visible description of a negotiation error.
pub open spec fn session_error_text(e: SessionError) -> Seq<char> {
    match e {
        SessionError::EmptySdp => "offer contains an empty sdp"@,
        SessionError::UnknownSession => "unknown session"@,
        SessionError::WrongPhase => "session is not in the expected phase"@,
        SessionError::NoCandidates => "ice gathering yielded no candidates"@,
        SessionError::IceIncomplete => "ice gathering has not completed"@,
        SessionError::IdSpaceExhausted => "session identifier space exhausted"@,
    }
}

impl SessionError {
    /// The text reported to the requesting client for this error.
    pub fn describe(&self) -> (s: &'static str)
        ensures
            s@ == session_error_text(*self),
    {
        match self {
            SessionError::EmptySdp => "offer contains an empty sdp",
            SessionError::UnknownSession => "unknown session",
            SessionError::WrongPhase => "session is not in the expected phase",
            SessionError::NoCandidates => "ice gathering yielded no candidates",
            SessionError::IceIncomplete => "ice gathering has not completed",
            SessionError::IdSpaceExhausted => "session identifier space exhausted",
        }
    }
}

/// The registry of live peer sessions, keyed by minted identifier.
pub struct SessionManager {
    pub peers: HashMap<u64, PeerSession>,
    pub next_id: u64,
}

impl SessionManager {
    /// Registry soundness: every key was minted below the counter, a
    /// published local description implies completed gathering with at least
    /// one candidate, and the two later phases imply publication.
    pub open spec fn wf(self) -> bool {
        &&& forall|id: u64| self.peers@.contains_key(id) ==> id < self.next_id
        &&& forall|id: u64|
            self.peers@.contains_key(id) ==> {
                let s = #[trigger] self.peers@[id];
                &&& (s.ice_complete ==> s.ice_candidates >= 1)
                &&& (s.local_published ==> s.ice_complete)
                &&& (s.phase is AnswerReady || s.phase is Active ==> s.local_published)
                &&& s.track_attached
            }
    }

    /// An empty registry.
    pub fn new() -> (m: SessionManager)
        ensures
            m.wf(),
            m.peers@ == Map::<u64, PeerSession>::empty(),
            m.next_id == 0,
    {
        SessionManager { peers: HashMap::new(), next_id: 0 }
    }

    /// Register a freshly received offer: validate it, mint an identifier
    /// and reserve the registry slot with the shared track attached.
    ///
    /// An offer with an empty session description is rejected and nothing is
    /// registered. On success the returned identifier is new — it was never
    /// in the registry before — and the session starts in `Created`.
    pub fn register_offer(&mut self, sdp: &[u8]) -> (r: Result<u64, SessionError>)
        requires
            old(self).wf(),
        ensures
            final(self).wf(),
            sdp@.len() == 0 ==> r matches Err(SessionError::EmptySdp),
            match r {
                Ok(id) => {
                    &&& sdp@.len() > 0
                    &&& !old(self).peers@.contains_key(id)
                    &&& id == old(self).next_id
                    &&& final(self).next_id == old(self).next_id + 1
                    &&& final(self).peers@ == old(self).peers@.insert(
                        id,
                        PeerSession {
                            phase: SessionPhase::Created,
                            track_attached: true,
                            ice_complete: false,
                            ice_candidates: 0,
                            local_published: false,
                        },
                    )
                },
                Err(e) => {
                    &&& *final(self) == *old(self)
                    &&& (e matches SessionError::EmptySdp ==> sdp@.len() == 0)
                    &&& (e matches SessionError::IdSpaceExhausted ==> old(self).next_id
                        == u64::MAX)
                    &&& (e matches SessionError::EmptySdp || e
                        matches SessionError::IdSpaceExhausted)
                },
            },
    {
        if sdp.len() == 0 {
            return Err(SessionError::EmptySdp);
        }
        if self.next_id == u64::MAX {
            return Err(SessionError::IdSpaceExhausted);
        }
        let id = self.next_id;
        self.next_id = self.next_id + 1;
        let session = PeerSession {
            phase: SessionPhase::Created,
            track_attached: true,
            ice_complete: false,
            ice_candidates: 0,
            local_published: false,
        };
        self.peers.insert(id, session);
        Ok(id)
    }

    /// Record that the remote description of a registered session has been
    /// applied: `Created → OfferReceived`. Only the addressed session
    /// changes.
    pub fn apply_remote(&mut self, id: u64) -> (r: Result<(), SessionError>)
        requires
            old(self).wf(),
        ensures
            final(self).wf(),
            final(self).next_id == old(self).next_id,
            match r {
                Ok(()) => {
                    &&& old(self).peers@.contains_key(id)
                    &&& old(self).peers@[id].phase is Created
                    &&& final(self).peers@ == old(self).peers@.insert(
                        id,
                        PeerSession { phase: SessionPhase::OfferReceived, ..old(self).peers@[id] },
                    )
                },
                Err(e) => {
                    &&& *final(self) == *old(self)
                    &&& (e matches SessionError::UnknownSession ==> !old(self).peers@.contains_key(id))
                    &&& (e matches SessionError::WrongPhase ==> old(self).peers@.contains_key(id)
                        && !(old(self).peers@[id].phase is Created))
                    &&& (e matches SessionError::UnknownSession || e
                        matches SessionError::WrongPhase)
                },
            },
    {
        match self.peers.get(&id) {
            None => Err(SessionError::UnknownSession),
            Some(s) => {
                match s.phase {
                    SessionPhase::Created => {
                        let updated = PeerSession { phase: SessionPhase::OfferReceived, ..*s };
                        self.peers.insert(id, updated);
                        Ok(())
                    },
                    _ => Err(SessionError::WrongPhase),
                }
            },
        }
    }

    /// Record that ICE candidate gathering for the session has completed
    /// with `candidates` gathered.
    ///
    /// Gathering that yields no candidate at all leaves the session unable
    /// to ever produce a complete answer; that is fatal for this session
    /// only — it is deregistered, every other session is untouched.
    pub fn complete_gathering(&mut self, id: u64, candidates: u64) -> (r: Result<
        (),
        SessionError,
    >)
        requires
            old(self).wf(),
        ensures
            final(self).wf(),
            final(self).next_id == old(self).next_id,
            match r {
                Ok(()) => {
                    &&& old(self).peers@.contains_key(id)
                    &&& old(self).peers@[id].phase is OfferReceived
                    &&& candidates >= 1
                    &&& final(self).peers@ == old(self).peers@.insert(
                        id,
                        PeerSession {
                            ice_complete: true,
                            ice_candidates: candidates,
                            ..old(self).peers@[id]
                        },
                    )
                },
                Err(e) => {
                    &&& (e matches SessionError::UnknownSession ==> !old(self).peers@.contains_key(id) && *final(self) == *old(self))
                    &&& (e matches SessionError::WrongPhase ==> old(self).peers@.contains_key(id)
                        && !(old(self).peers@[id].phase is OfferReceived) && *final(self) == *old(self))
                    &&& (e matches SessionError::NoCandidates ==> old(self).peers@.contains_key(id)
                        && old(self).peers@[id].phase is OfferReceived && candidates == 0 && final(self).peers@ == old(self).peers@.remove(id))
                    &&& (e matches SessionError::UnknownSession || e
                        matches SessionError::WrongPhase || e matches SessionError::NoCandidates)
                },
            },
    {
        match self.peers.get(&id) {
            None => Err(SessionError::UnknownSession),
            Some(s) => {
                match s.phase {
                    SessionPhase::OfferReceived => {
                        if candidates == 0 {
                            self.peers.remove(&id);
                            Err(SessionError::NoCandidates)
                        } else {
                            let updated = PeerSession {
                                ice_complete: true,
                                ice_candidates: candidates,
                                ..*s
                            };
                            self.peers.insert(id, updated);
                            Ok(())
                        }
                    },
                    _ => Err(SessionError::WrongPhase),
                }
            },
        }
    }

    /// Publish the local description: `OfferReceived → AnswerReady`.
    ///
    /// Publication is refused — and nothing changes — unless ICE gathering
    /// has already completed for this session, so a published description
    /// always carries the complete candidate set.
    pub fn publish_local(&mut self, id: u64) -> (r: Result<(), SessionError>)
        requires
            old(self).wf(),
        ensures
            final(self).wf(),
            final(self).next_id == old(self).next_id,
            match r {
                Ok(()) => {
                    &&& old(self).peers@.contains_key(id)
                    &&& old(self).peers@[id].phase is OfferReceived
                    &&& old(self).peers@[id].ice_complete
                    &&& old(self).peers@[id].ice_candidates >= 1
                    &&& final(self).peers@ == old(self).peers@.insert(
                        id,
                        PeerSession {
                            phase: SessionPhase::AnswerReady,
                            local_published: true,
                            ..old(self).peers@[id]
                        },
                    )
                },
                Err(e) => {
                    &&& *final(self) == *old(self)
                    &&& (e matches SessionError::UnknownSession ==> !old(self).peers@.contains_key(id))
                    &&& (e matches SessionError::WrongPhase ==> old(self).peers@.contains_key(id)
                        && !(old(self).peers@[id].phase is OfferReceived))
                    &&& (e matches SessionError::IceIncomplete ==> old(self).peers@.contains_key(
                        id,
                    ) && !old(self).peers@[id].ice_complete)
                    &&& (e matches SessionError::UnknownSession || e
                        matches SessionError::WrongPhase || e matches SessionError::IceIncomplete)
                },
            },
    {
        match self.peers.get(&id) {
            None => Err(SessionError::UnknownSession),
            Some(s) => {
                match s.phase {
                    SessionPhase::OfferReceived => {
                        if !s.ice_complete {
                            Err(SessionError::IceIncomplete)
                        } else {
                            let updated = PeerSession {
                                phase: SessionPhase::AnswerReady,
                                local_published: true,
                                ..*s
                            };
                            self.peers.insert(id, updated);
                            Ok(())
                        }
                    },
                    _ => Err(SessionError::WrongPhase),
                }
            },
        }
    }

    /// Deliver the answer to the caller: `AnswerReady → Active`. The session
    /// then stays registered indefinitely.
    pub fn deliver_answer(&mut self, id: u64) -> (r: Result<(), SessionError>)
        requires
            old(self).wf(),
        ensures
            final(self).wf(),
            final(self).next_id == old(self).next_id,
            match r {
                Ok(()) => {
                    &&& old(self).peers@.contains_key(id)
                    &&& old(self).peers@[id].phase is AnswerReady
                    &&& final(self).peers@ == old(self).peers@.insert(
                        id,
                        PeerSession { phase: SessionPhase::Active, ..old(self).peers@[id] },
                    )
                },
                Err(e) => {
                    &&& *final(self) == *old(self)
                    &&& (e matches SessionError::UnknownSession ==> !old(self).peers@.contains_key(id))
                    &&& (e matches SessionError::WrongPhase ==> old(self).peers@.contains_key(id)
                        && !(old(self).peers@[id].phase is AnswerReady))
                    &&& (e matches SessionError::UnknownSession || e
                        matches SessionError::WrongPhase)
                },
            },
    {
        match self.peers.get(&id) {
            None => Err(SessionError::UnknownSession),
            Some(s) => {
                match s.phase {
                    SessionPhase::AnswerReady => {
                        let updated = PeerSession { phase: SessionPhase::Active, ..*s };
                        self.peers.insert(id, updated);
                        Ok(())
                    },
                    _ => Err(SessionError::WrongPhase),
                }
            },
        }
    }

    /// Deregister a session (peer disconnect or shutdown). Removal is the
    /// sole cancellation mechanism: the track fans out to every registered
    /// session, so a removed session receives nothing further, and every
    /// other session is left exactly as it was.
    pub fn close(&mut self, id: u64) -> (existed: bool)
        requires
            old(self).wf(),
        ensures
            final(self).wf(),
            final(self).next_id == old(self).next_id,
            existed == old(self).peers@.contains_key(id),
            final(self).peers@ == old(self).peers@.remove(id),
    {
        let removed = self.peers.remove(&id);
        proof {
            if !old(self).peers@.contains_key(id) {
                assert(final(self).peers@ =~= old(self).peers@.remove(id));
            }
        }
        removed.is_some()
    }

    /// Whether a session is currently registered.
    pub fn contains(&self, id: u64) -> (present: bool)
        ensures
            present == self.peers@.contains_key(id),
    {
        self.peers.contains_key(&id)
    }

    /// Number of registered sessions.
    pub fn session_count(&self) -> (n: usize)
        ensures
            n == self.peers@.len(),
    {
        self.peers.len()
    }
}

/// Two concurrently registered offers always get distinct identifiers, both
/// stand in the registry afterwards, and closing the one leaves the other's
/// track delivery — its registry entry, track attachment included — intact.
pub proof fn lemma_independent_sessions(
    before: SessionManager,
    mid: SessionManager,
    after: SessionManager,
    id1: u64,
    id2: u64,
)
    requires
        before.wf(),
        // first registration succeeded
        !before.peers@.contains_key(id1),
        id1 == before.next_id,
        mid.next_id == before.next_id + 1,
        mid.peers@ == before.peers@.insert(
            id1,
            PeerSession {
                phase: SessionPhase::Created,
                track_attached: true,
                ice_complete: false,
                ice_candidates: 0,
                local_published: false,
            },
        ),
        // second registration succeeded
        !mid.peers@.contains_key(id2),
        id2 == mid.next_id,
        after.peers@ == mid.peers@.insert(
            id2,
            PeerSession {
                phase: SessionPhase::Created,
                track_attached: true,
                ice_complete: false,
                ice_candidates: 0,
                local_published: false,
            },
        ),
    ensures
        id1 != id2,
        after.peers@.contains_key(id1),
        after.peers@.contains_key(id2),
        after.peers@.remove(id1).contains_key(id2),
        after.peers@.remove(id1)[id2] == after.peers@[id2],
        after.peers@.remove(id1)[id2].track_attached,
{
}

/// The local description is published only after ICE gathering completed,
/// and with a non-empty candidate set; in particular every session that
/// reached `AnswerReady` or `Active` carries at least one candidate.
pub proof fn lemma_publication_after_gathering(m: SessionManager, id: u64)
    requires
        m.wf(),
        m.peers@.contains_key(id),
    ensures
        m.peers@[id].local_published ==> m.peers@[id].ice_complete && m.peers@[id].ice_candidates
            >= 1,
        m.peers@[id].phase is AnswerReady || m.peers@[id].phase is Active ==> m.peers@[id].ice_complete
            && m.peers@[id].ice_candidates >= 1,
{
}

} // verus!
