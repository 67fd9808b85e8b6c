//! The swarm as a whole, as a mathematical model.
//!
//! The clients of a swarm share one election and take their steps one at a
//! time: whoever runs them keeps each step inside the election's critical
//! section. A run of the swarm is therefore a sequence of events, each for
//! one client. What no single client can promise is proved here of every
//! such run: that the lobby is created once, that the clients agree on it,
//! and that an election in progress always has a client that will end it.

use vstd::prelude::*;
use crate::card::Card;
use crate::election::Election;
use crate::message::{PalaceOutMessage, Request};
use crate::session::{rejection, Reaction, Session};

verus! {

/// The clients of a swarm and the election they share.
pub struct Swarm {
    pub election: Election,
    pub clients: Seq<Session>,
}

/// One step of one client, named by its place in the swarm.
pub enum Event {
    /// The client's connection is ready, or the client looks at the
    /// election again.
    Open { client: int },
    /// A message from the server has arrived for the client; `play` is what
    /// the client chooses to play if the turn is its own.
    Message { client: int, msg: PalaceOutMessage, play: Seq<Card> },
    /// The client's connection is gone.
    Close { client: int },
}

impl Event {
    /// The client that the event is for.
    pub open spec fn client(self) -> int {
        match self {
            Event::Open { client } => client,
            Event::Message { client, .. } => client,
            Event::Close { client } => client,
        }
    }

    /// Whether the event is a failure from outside: a lost connection, or
    /// an error from the server.
    pub open spec fn disturbs(self) -> bool {
        match self {
            Event::Open { .. } => false,
            Event::Message { msg, .. } => rejection(msg) is Some,
            Event::Close { .. } => true,
        }
    }
}

/// Whether every event of `events` is free of failures from outside.
pub open spec fn undisturbed(events: Seq<Event>) -> bool {
    forall|i: int| 0 <= i < events.len() ==> !(#[trigger] events[i]).disturbs()
}

/// 1 where somebody has undertaken to create the lobby or has created it,
/// 0 where nobody has.
pub open spec fn claimed(election: Election) -> nat {
    if election == Election::Unclaimed {
        0
    } else {
        1
    }
}

impl Swarm {
    /// A swarm of `workers` new clients, each expecting `num_players`
    /// players, with the election unclaimed.
    pub open spec fn fresh(workers: nat, num_players: u8) -> Swarm {
        Swarm {
            election: Election::Unclaimed,
            clients: Seq::new(workers, |i: int| Session::initial(num_players)),
        }
    }

    /// Whether `event` is for a client of this swarm.
    pub open spec fn concerns(self, event: Event) -> bool {
        0 <= event.client() < self.clients.len()
    }

    /// What the client that `event` is for makes of it.
    pub open spec fn reaction(self, event: Event) -> Reaction {
        let session = self.clients[event.client()];
        match event {
            Event::Open { .. } => session.open(self.election),
            Event::Message { msg, play, .. } => session.receive(self.election, msg, play),
            Event::Close { .. } => session.close(self.election),
        }
    }

    /// The swarm after `event`. An event for no client of the swarm changes
    /// nothing.
    pub open spec fn step(self, event: Event) -> Swarm {
        if self.concerns(event) {
            Swarm {
                election: self.reaction(event).election,
                clients: self.clients.update(event.client(), self.reaction(event).session),
            }
        } else {
            self
        }
    }

    /// The request that goes to the server on `event`, if any.
    pub open spec fn sent(self, event: Event) -> Option<Request> {
        if self.concerns(event) {
            match self.reaction(event).reply {
                Ok(request) => request,
                Err(_) => None,
            }
        } else {
            None
        }
    }

    /// Whether `event` makes a client ask the server for a new lobby.
    pub open spec fn creates(self, event: Event) -> bool {
        self.sent(event) matches Some(Request::NewLobby { .. })
    }

    /// Whether `event` makes the creator give the election back.
    pub open spec fn reopens(self, event: Event) -> bool {
        self.election == Election::ClaimInProgress && self.step(event).election
            == Election::Unclaimed
    }

    /// The swarm after `events`, in order.
    pub open spec fn run(self, events: Seq<Event>) -> Swarm
        decreases events.len(),
    {
        if events.len() == 0 {
            self
        } else {
            self.run(events.drop_last()).step(events.last())
        }
    }

    /// How many times a new lobby is asked for in the course of `events`.
    pub open spec fn creations(self, events: Seq<Event>) -> nat
        decreases events.len(),
    {
        if events.len() == 0 {
            0
        } else {
            self.creations(events.drop_last()) + if self.run(events.drop_last()).creates(
                events.last(),
            ) {
                1nat
            } else {
                0nat
            }
        }
    }

    /// How many times the election is given back in the course of `events`.
    pub open spec fn reopenings(self, events: Seq<Event>) -> nat
        decreases events.len(),
    {
        if events.len() == 0 {
            0
        } else {
            self.reopenings(events.drop_last()) + if self.run(events.drop_last()).reopens(
                events.last(),
            ) {
                1nat
            } else {
                0nat
            }
        }
    }

    /// Whether the clients and the election fit together: every client is
    /// well formed, only one client at a time is creating the lobby, the
    /// election is in progress exactly while one is, and a client that knows
    /// a lobby knows the one that the election was resolved to.
    pub open spec fn coherent(self) -> bool {
        &&& forall|i: int| 0 <= i < self.clients.len() ==> (#[trigger] self.clients[i]).wf()
        &&& forall|i: int|
            0 <= i < self.clients.len() && (#[trigger] self.clients[i]).holds_claim()
                ==> self.election == Election::ClaimInProgress
        &&& forall|i: int, j: int|
            0 <= i < self.clients.len() && 0 <= j < self.clients.len() && (
            #[trigger] self.clients[i]).holds_claim() && (#[trigger] self.clients[j]).holds_claim()
                ==> i == j
        &&& forall|i: int|
            0 <= i < self.clients.len() && (#[trigger] self.clients[i]).lobby_id is Some
                ==> self.election == Election::Resolved(self.clients[i].lobby_id->0)
        &&& self.election == Election::ClaimInProgress ==> exists|i: int|
            0 <= i < self.clients.len() && (#[trigger] self.clients[i]).holds_claim()
    }

    /// On every event, a new lobby is asked for exactly when the election
    /// passes from unclaimed to claimed, and the election becomes unclaimed
    /// again only by being given back.
    pub proof fn lemma_step_accounts(self, event: Event)
        ensures
            claimed(self.election) + (if self.creates(event) {
                1nat
            } else {
                0nat
            }) == claimed(self.step(event).election) + (if self.reopens(event) {
                1nat
            } else {
                0nat
            }),
    {
    }

    /// In every run, each request for a new lobby beyond the first follows
    /// an election that was given back: the requests, counted with a claim
    /// that stood at the start, are the times the election was given back,
    /// counted with a claim that stands at the end.
    pub proof fn lemma_creations_accounted(self, events: Seq<Event>)
        ensures
            claimed(self.election) + self.creations(events) == claimed(self.run(events).election)
                + self.reopenings(events),
        decreases events.len(),
    {
        if events.len() > 0 {
            self.lemma_creations_accounted(events.drop_last());
            self.run(events.drop_last()).lemma_step_accounts(events.last());
        }
    }

    /// An event that is no failure from outside does not make the creator
    /// give the election back.
    pub proof fn lemma_quiet_step_keeps_claim(self, event: Event)
        requires
            !event.disturbs(),
        ensures
            !self.reopens(event),
    {
    }

    /// A run free of failures from outside never gives the election back.
    pub proof fn lemma_undisturbed_never_reopens(self, events: Seq<Event>)
        requires
            undisturbed(events),
        ensures
            self.reopenings(events) == 0,
        decreases events.len(),
    {
        if events.len() > 0 {
            let earlier = events.drop_last();
            assert forall|i: int| 0 <= i < earlier.len() implies !(#[trigger] earlier[i]).disturbs() by {
                assert(earlier[i] == events[i]);
            }
            self.lemma_undisturbed_never_reopens(earlier);
            assert(!events[events.len() - 1].disturbs());
            self.run(earlier).lemma_quiet_step_keeps_claim(events.last());
        }
    }

    /// However many clients there are and in whatever order they take their
    /// steps, a swarm that starts afresh and meets no failure from outside
    /// asks for a new lobby at most once, and exactly once if the election
    /// has been claimed at all.
    pub proof fn lemma_single_creation(workers: nat, num_players: u8, events: Seq<Event>)
        requires
            undisturbed(events),
        ensures
            Swarm::fresh(workers, num_players).creations(events) <= 1,
            Swarm::fresh(workers, num_players).creations(events) == 1 <==> Swarm::fresh(
                workers,
                num_players,
            ).run(events).election != Election::Unclaimed,
    {
        let swarm = Swarm::fresh(workers, num_players);
        swarm.lemma_creations_accounted(events);
        swarm.lemma_undisturbed_never_reopens(events);
    }

    /// A client that looks at an unclaimed election for the first time
    /// claims it: once any client of the swarm has opened, the election is
    /// no longer unclaimed unless it was given back.
    pub proof fn lemma_open_claims(self, client: int)
        requires
            0 <= client < self.clients.len(),
            self.clients[client].awaits_election(),
        ensures
            self.step(Event::Open { client }).election != Election::Unclaimed,
            self.election == Election::Unclaimed ==> self.creates(Event::Open { client }),
    {
    }

    /// A resolved election stays resolved to the same lobby, whatever
    /// happens.
    pub proof fn lemma_resolved_is_final(self, events: Seq<Event>)
        requires
            self.election is Resolved,
        ensures
            self.run(events).election == self.election,
        decreases events.len(),
    {
        if events.len() > 0 {
            self.lemma_resolved_is_final(events.drop_last());
        }
    }

    /// A request for a seat names the lobby that the election is resolved
    /// to.
    pub proof fn lemma_join_names_resolved_lobby(self, event: Event)
        requires
            self.sent(event) matches Some(Request::JoinLobby { .. }),
        ensures
            self.election == Election::Resolved(self.sent(event)->0->JoinLobby_lobby_id),
            self.step(event).election == self.election,
    {
    }

    /// A new swarm is coherent.
    pub proof fn lemma_fresh_is_coherent(workers: nat, num_players: u8)
        ensures
            Swarm::fresh(workers, num_players).coherent(),
    {
    }

    /// Every event leaves a coherent swarm coherent.
    pub proof fn lemma_step_keeps_coherent(self, event: Event)
        requires
            self.coherent(),
        ensures
            self.step(event).coherent(),
    {
        if self.concerns(event) {
            let k = event.client();
            let after = self.step(event);
            assert(self.clients[k].wf());
            assert(after.clients[k] == self.reaction(event).session);
            assert forall|i: int| 0 <= i < after.clients.len() && i != k implies (
            #[trigger] after.clients[i]) == self.clients[i] by {}
            if after.election == Election::ClaimInProgress && !after.clients[k].holds_claim() {
                // The election was in progress before, and its holder is
                // another client, which the event has left alone.
                let holder = choose|i: int|
                    0 <= i < self.clients.len() && (#[trigger] self.clients[i]).holds_claim();
                assert(after.clients[holder].holds_claim());
            }
        }
    }

    /// Every run leaves a coherent swarm coherent.
    pub proof fn lemma_run_keeps_coherent(self, events: Seq<Event>)
        requires
            self.coherent(),
        ensures
            self.run(events).coherent(),
        decreases events.len(),
    {
        if events.len() > 0 {
            self.lemma_run_keeps_coherent(events.drop_last());
            self.run(events.drop_last()).lemma_step_keeps_coherent(events.last());
        }
    }

    /// However a swarm that started afresh has run, failures included: at
    /// most one client is creating the lobby, an election in progress has a
    /// running client that will resolve it or give it back, and all clients
    /// that know a lobby know the same one, the one that the election is
    /// resolved to.
    pub proof fn lemma_agreement(workers: nat, num_players: u8, events: Seq<Event>)
        ensures
            Swarm::fresh(workers, num_players).run(events).coherent(),
            forall|i: int, j: int|
                #![trigger
                    Swarm::fresh(workers, num_players).run(events).clients[i],
                    Swarm::fresh(workers, num_players).run(events).clients[j]
                ]
                ({
                    let swarm = Swarm::fresh(workers, num_players).run(events);
                    0 <= i < swarm.clients.len() && 0 <= j < swarm.clients.len()
                        && swarm.clients[i].lobby_id is Some && swarm.clients[j].lobby_id is Some
                        ==> swarm.clients[i].lobby_id == swarm.clients[j].lobby_id
                }),
    {
        Swarm::lemma_fresh_is_coherent(workers, num_players);
        Swarm::fresh(workers, num_players).lemma_run_keeps_coherent(events);
    }
}

} // verus!
