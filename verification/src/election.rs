//! The election of a lobby creator.
//!
//! Every client of a swarm consults one shared [`ElectionState`] when its
//! connection is ready. The first to find it unclaimed creates the lobby; the
//! others wait until the creator has published the lobby's identifier. The
//! caller provides the mutual exclusion: each method is one critical section.

use vstd::prelude::*;

verus! {

/// The shared state of the election.
#[derive(Debug, PartialEq, Eq)]
pub enum ElectionState {
    /// Nobody has undertaken to create the lobby.
    Unclaimed,
    /// One client is creating the lobby and has not heard back.
    ClaimInProgress,
    /// The lobby exists under this identifier.
    Resolved(String),
}

/// The mathematical value of an [`ElectionState`].
pub enum Election {
    Unclaimed,
    ClaimInProgress,
    Resolved(Seq<char>),
}

/// What a client that consults the election is told to do.
#[derive(Debug, PartialEq, Eq)]
pub enum Claim {
    /// The caller has won the election and must create the lobby.
    Create,
    /// Somebody else is creating the lobby: ask again later.
    Wait,
    /// The lobby exists: join it.
    Join(String),
}

/// The mathematical value of a [`Claim`].
pub enum Verdict {
    Create,
    Wait,
    Join(Seq<char>),
}

impl View for ElectionState {
    type V = Election;

    open spec fn view(&self) -> Election {
        match *self {
            ElectionState::Unclaimed => Election::Unclaimed,
            ElectionState::ClaimInProgress => Election::ClaimInProgress,
            ElectionState::Resolved(id) => Election::Resolved(id@),
        }
    }
}

impl View for Claim {
    type V = Verdict;

    open spec fn view(&self) -> Verdict {
        match *self {
            Claim::Create => Verdict::Create,
            Claim::Wait => Verdict::Wait,
            Claim::Join(id) => Verdict::Join(id@),
        }
    }
}

impl Election {
    /// What a consulting client is told in this state.
    pub open spec fn verdict(self) -> Verdict {
        match self {
            Election::Unclaimed => Verdict::Create,
            Election::ClaimInProgress => Verdict::Wait,
            Election::Resolved(id) => Verdict::Join(id),
        }
    }

    /// The state after a consultation: an unclaimed election is now claimed,
    /// by the client that consulted it.
    pub open spec fn consulted(self) -> Election {
        match self {
            Election::Unclaimed => Election::ClaimInProgress,
            _ => self,
        }
    }

    /// The state after the creator has reported the lobby `id`. Only a claim
    /// in progress is resolved; a resolved election keeps its identifier.
    pub open spec fn resolved(self, id: Seq<char>) -> Election {
        match self {
            Election::ClaimInProgress => Election::Resolved(id),
            _ => self,
        }
    }

    /// The state after the creator has given up: a claim in progress is
    /// open again, and nothing else changes.
    pub open spec fn released(self) -> Election {
        match self {
            Election::ClaimInProgress => Election::Unclaimed,
            _ => self,
        }
    }
}

impl Election {
    /// Only one consultation finds the election unclaimed: after any
    /// consultation the election is claimed or resolved, and the next caller
    /// is not told to create the lobby.
    pub proof fn lemma_single_winner(self)
        ensures
            self.consulted() != Election::Unclaimed,
            self.consulted().verdict() != Verdict::Create,
            self.verdict() == Verdict::Create <==> self == Election::Unclaimed,
    {
    }

    /// A resolved election never changes: whatever is done to it, it stays
    /// resolved to the same lobby, and every caller is told to join that
    /// lobby.
    pub proof fn lemma_resolved_is_final(self, other: Seq<char>)
        requires
            self is Resolved,
        ensures
            self.consulted() == self,
            self.resolved(other) == self,
            self.released() == self,
            self.verdict() == Verdict::Join(self->Resolved_0),
    {
    }

    /// A claim that is given up leaves the election as it was before the
    /// claim: the next caller is the one to create the lobby.
    pub proof fn lemma_release_reopens()
        ensures
            Election::Unclaimed.consulted() == Election::ClaimInProgress,
            Election::ClaimInProgress.released() == Election::Unclaimed,
            Election::ClaimInProgress.released().verdict() == Verdict::Create,
    {
    }
}

impl ElectionState {
    /// An election that nobody has claimed.
    pub fn new() -> (state: ElectionState)
        ensures
            state@ == Election::Unclaimed,
    {
        ElectionState::Unclaimed
    }

    /// Consults the election. Exactly the caller that finds it unclaimed is
    /// told to create the lobby, and the claim is recorded in the same step.
    pub fn claim_or_wait(&mut self) -> (claim: Claim)
        ensures
            claim@ == old(self)@.verdict(),
            final(self)@ == old(self)@.consulted(),
    {
        match self {
            ElectionState::Unclaimed => {
                *self = ElectionState::ClaimInProgress;
                Claim::Create
            },
            ElectionState::ClaimInProgress => Claim::Wait,
            ElectionState::Resolved(id) => Claim::Join(id.clone()),
        }
    }

    /// Publishes the identifier of the lobby that the creator was given.
    /// Returns whether a claim was in progress; if none was, nothing changes.
    pub fn resolve(&mut self, lobby_id: String) -> (published: bool)
        ensures
            published == (old(self)@ == Election::ClaimInProgress),
            final(self)@ == old(self)@.resolved(lobby_id@),
    {
        match self {
            ElectionState::ClaimInProgress => {
                *self = ElectionState::Resolved(lobby_id);
                true
            },
            _ => false,
        }
    }

    /// Gives up a claim in progress, so that another client can be elected.
    /// Returns whether a claim was in progress; if none was, nothing changes.
    pub fn release(&mut self) -> (reopened: bool)
        ensures
            reopened == (old(self)@ == Election::ClaimInProgress),
            final(self)@ == old(self)@.released(),
    {
        match self {
            ElectionState::ClaimInProgress => {
                *self = ElectionState::Unclaimed;
                true
            },
            _ => false,
        }
    }

    /// The lobby's identifier, once the election is resolved.
    pub fn lobby_id(&self) -> (id: Option<String>)
        ensures
            match self@ {
                Election::Resolved(lobby) => id matches Some(s) && s@ == lobby,
                _ => id is None,
            },
    {
        match self {
            ElectionState::Resolved(id) => Some(id.clone()),
            _ => None,
        }
    }
}

} // verus!
