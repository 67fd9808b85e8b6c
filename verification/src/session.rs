//! The protocol as one bot sees it, as a mathematical model.
//!
//! A [`Session`] is what a client knows and where it stands. Each step that a
//! client can take is a function here, from the session, the election and
//! what arrived, to the session and the election afterwards and the request
//! to send. The contracts of the executable client are stated over these
//! functions, and the laws of the protocol are proved of them.

use vstd::prelude::*;
use crate::card::{Card, PublicGameState};
use crate::election::Election;
use crate::message::{
    ChooseFaceupError, HandResponse, JoinLobbyError, MakePlayError, NewLobbyError,
    NewLobbyResponse, PalaceOutMessage, PlayerJoinEvent, ReconnectError, Request,
    StartGameError,
};
use crate::play::is_play_from;

verus! {

/// Seats in the lobby that the elected client opens.
pub const MAX_PLAYERS: u8 = 4;

/// The password of the swarm's lobby.
pub open spec fn lobby_password() -> Seq<char> {
    "eggs"@
}

/// The name of the swarm's lobby.
pub open spec fn lobby_name() -> Seq<char> {
    "brennan_test_lobby"@
}

/// The name under which the elected client opens the lobby.
pub open spec fn host_name() -> Seq<char> {
    "bot_host"@
}

/// The name under which the other clients join.
pub open spec fn guest_name() -> Seq<char> {
    "brennan"@
}

/// Where a client stands in the protocol.
#[derive(Copy, Clone, Debug, PartialEq, Eq, Structural)]
pub enum ClientState {
    /// The connection is not ready yet.
    Connecting,
    /// The election is undecided: the client is creating the lobby, or
    /// waiting for the one that is.
    Electing,
    /// The client has asked for a seat in the lobby.
    Joining,
    /// The client is seated and the game has not begun.
    AwaitingStart,
    /// The game is on.
    Playing,
    /// The client has stopped for good.
    Terminated,
}

/// Why a client has stopped.
#[derive(Copy, Clone, Debug, PartialEq, Eq, Structural)]
pub enum ClientError {
    NewLobby(NewLobbyError),
    JoinLobby(JoinLobbyError),
    ChooseFaceup(ChooseFaceupError),
    MakePlay(MakePlayError),
    Reconnect(ReconnectError),
    StartGame(StartGameError),
    /// It was the client's turn and its hand was empty.
    EmptyHand,
    /// The connection was closed or broke.
    ConnectionClosed,
}

/// The mathematical value of a [`Client`](crate::client::Client): what it
/// has learned so far, and where it stands.
pub struct Session {
    pub state: ClientState,
    pub failure: Option<ClientError>,
    pub player_id: Option<Seq<char>>,
    pub lobby_id: Option<Seq<char>>,
    pub player_index: Option<u8>,
    pub is_host: bool,
    pub num_players: u8,
    pub hand: Option<Seq<Card>>,
}

/// The outcome of a step that concerns the client alone: the client after
/// it, and the request to send or the error that stopped the client.
pub struct Step {
    pub session: Session,
    pub reply: Result<Option<Request>, ClientError>,
}

/// The outcome of a step that may concern the election: the client and the
/// election after it, and the request to send or the error that stopped the
/// client.
pub struct Reaction {
    pub session: Session,
    pub election: Election,
    pub reply: Result<Option<Request>, ClientError>,
}

impl Step {
    /// The same outcome beside an election that the step leaves alone.
    pub open spec fn beside(self, election: Election) -> Reaction {
        Reaction { session: self.session, election, reply: self.reply }
    }
}

/// The error that a message from the server carries, if it carries one.
pub open spec fn rejection(msg: PalaceOutMessage) -> Option<ClientError> {
    match msg {
        PalaceOutMessage::NewLobbyResponse(Err(e)) => Some(ClientError::NewLobby(e)),
        PalaceOutMessage::JoinLobbyResponse(Err(e)) => Some(ClientError::JoinLobby(e)),
        PalaceOutMessage::ChooseFaceupResponse(Err(e)) => Some(ClientError::ChooseFaceup(e)),
        PalaceOutMessage::MakePlayResponse(Err(e)) => Some(ClientError::MakePlay(e)),
        PalaceOutMessage::ReconnectResponse(Err(e)) => Some(ClientError::Reconnect(e)),
        PalaceOutMessage::StartGameResponse(Err(e)) => Some(ClientError::StartGame(e)),
        _ => None,
    }
}

/// The request to open the swarm's lobby.
pub open spec fn new_lobby_request() -> Request {
    Request::NewLobby {
        max_players: MAX_PLAYERS,
        password: lobby_password(),
        lobby_name: lobby_name(),
        player_name: host_name(),
    }
}

/// The request for a seat in the lobby `lobby_id`.
pub open spec fn join_lobby_request(lobby_id: Seq<char>) -> Request {
    Request::JoinLobby { lobby_id, player_name: guest_name(), password: lobby_password() }
}

impl Session {
    /// A client that has not heard of anything yet.
    pub open spec fn initial(num_players: u8) -> Session {
        Session {
            state: ClientState::Connecting,
            failure: None,
            player_id: None,
            lobby_id: None,
            player_index: None,
            is_host: false,
            num_players,
            hand: None,
        }
    }

    /// What each state guarantees: nobody is the lobby's creator before its
    /// connection is ready, and a client has learned what its state needs.
    pub open spec fn wf(self) -> bool {
        &&& self.state == ClientState::Connecting ==> !self.is_host
        &&& self.state == ClientState::Joining ==> self.lobby_id is Some
        &&& self.state == ClientState::AwaitingStart ==> self.lobby_id is Some
            && self.player_id is Some
        &&& self.state == ClientState::Playing ==> self.lobby_id is Some && self.player_id is Some
            && self.player_index is Some && self.hand is Some
        &&& self.state == ClientState::Terminated ==> self.failure is Some
    }

    /// Whether the client still has to learn how the election went.
    pub open spec fn awaits_election(self) -> bool {
        self.state == ClientState::Connecting || (self.state == ClientState::Electing
            && !self.is_host)
    }

    /// Whether the client has undertaken to create the lobby and has not
    /// heard back.
    pub open spec fn holds_claim(self) -> bool {
        self.state == ClientState::Electing && self.is_host
    }

    /// The cards the client holds; none before the deal.
    pub open spec fn held(self) -> Seq<Card> {
        match self.hand {
            Some(hand) => hand,
            None => Seq::empty(),
        }
    }

    /// Whether `msg` tells the client that it is its turn.
    pub open spec fn turn_due(self, msg: PalaceOutMessage) -> bool {
        &&& self.state == ClientState::Playing
        &&& msg matches PalaceOutMessage::PublicGameStateEvent(game)
        &&& self.player_index == Some(game.active_player)
    }

    /// The step in which nothing happens.
    pub open spec fn idle(self, election: Election) -> Reaction {
        Reaction { session: self, election, reply: Ok(None) }
    }

    /// The step in which the client sends `request` and stays as it is.
    pub open spec fn send(self, election: Election, request: Request) -> Reaction {
        Reaction { session: self, election, reply: Ok(Some(request)) }
    }

    /// The step in which the client stops with `error`. A client that was
    /// creating the lobby gives the election back.
    pub open spec fn fail(self, election: Election, error: ClientError) -> Reaction {
        Reaction {
            session: Session { state: ClientState::Terminated, failure: Some(error), ..self },
            election: if self.holds_claim() {
                election.released()
            } else {
                election
            },
            reply: Err(error),
        }
    }

    /// The step taken when the connection is ready, and again whenever a
    /// waiting client looks at the election. The client that finds the
    /// election unclaimed claims it and asks the server for the lobby; one
    /// that finds the lobby's identifier asks for a seat; one that finds a
    /// claim in progress waits. A client that is past the election does
    /// nothing.
    pub open spec fn open(self, election: Election) -> Reaction {
        if !self.awaits_election() {
            self.idle(election)
        } else {
            match election {
                Election::Unclaimed => Reaction {
                    session: Session { state: ClientState::Electing, is_host: true, ..self },
                    election: Election::ClaimInProgress,
                    reply: Ok(Some(new_lobby_request())),
                },
                Election::ClaimInProgress => Reaction {
                    session: Session { state: ClientState::Electing, ..self },
                    election,
                    reply: Ok(None),
                },
                Election::Resolved(id) => Reaction {
                    session: Session { state: ClientState::Joining, lobby_id: Some(id), ..self },
                    election,
                    reply: Ok(Some(join_lobby_request(id))),
                },
            }
        }
    }

    /// The step taken when the connection is gone. A client that had
    /// stopped before keeps the reason it stopped for.
    pub open spec fn close(self, election: Election) -> Reaction {
        if self.state == ClientState::Terminated {
            self.idle(election)
        } else {
            self.fail(election, ClientError::ConnectionClosed)
        }
    }

    /// The step in which a client that is playing submits `play`: the cards
    /// go to the server, and the hand stays as it is until the server
    /// answers. With nothing to play the client stops. A client that is not
    /// playing does nothing.
    pub open spec fn submit(self, play: Seq<Card>) -> Step {
        if self.state != ClientState::Playing {
            Step { session: self, reply: Ok(None) }
        } else if play.len() == 0 {
            Step {
                session: Session {
                    state: ClientState::Terminated,
                    failure: Some(ClientError::EmptyHand),
                    ..self
                },
                reply: Err(ClientError::EmptyHand),
            }
        } else {
            Step {
                session: self,
                reply: Ok(
                    Some(
                        Request::MakePlay {
                            cards: play,
                            lobby_id: self.lobby_id->0,
                            player_id: self.player_id->0,
                        },
                    ),
                ),
            }
        }
    }

    /// What a client that is creating the lobby, or waiting for the one
    /// that is, does with `msg`. The creator learns both identifiers from
    /// the server's answer and publishes the lobby's; the creation seats it,
    /// so it asks for no other seat.
    pub open spec fn receive_electing(self, election: Election, msg: PalaceOutMessage) -> Reaction {
        match msg {
            PalaceOutMessage::NewLobbyResponse(Ok(lobby)) if self.is_host => Reaction {
                session: Session {
                    state: ClientState::AwaitingStart,
                    player_id: Some(lobby.player_id@),
                    lobby_id: Some(lobby.lobby_id@),
                    ..self
                },
                election: election.resolved(lobby.lobby_id@),
                reply: Ok(None),
            },
            _ => self.idle(election),
        }
    }

    /// What a client that has asked for a seat does with `msg`.
    pub open spec fn receive_joining(self, election: Election, msg: PalaceOutMessage) -> Reaction {
        match msg {
            PalaceOutMessage::JoinLobbyResponse(Ok(seat)) => Reaction {
                session: Session {
                    state: ClientState::AwaitingStart,
                    player_id: Some(seat.player_id@),
                    ..self
                },
                election,
                reply: Ok(None),
            },
            _ => self.idle(election),
        }
    }

    /// What a seated client does with `msg` before the game. The lobby's
    /// creator starts the game when the lobby has filled up.
    pub open spec fn receive_awaiting_start(
        self,
        election: Election,
        msg: PalaceOutMessage,
    ) -> Reaction {
        match msg {
            PalaceOutMessage::PlayerJoinEvent(joined) if self.is_host && joined.num_players
                == self.num_players => self.send(
                election,
                Request::StartGame { lobby_id: self.lobby_id->0, player_id: self.player_id->0 },
            ),
            PalaceOutMessage::GameStartedEvent(deal) => Reaction {
                session: Session {
                    state: ClientState::Playing,
                    player_index: Some(deal.turn_number),
                    hand: Some(deal.hand@),
                    ..self
                },
                election,
                reply: Ok(None),
            },
            _ => self.idle(election),
        }
    }

    /// What a playing client does with `msg`, where `play` is what it would
    /// play if the turn were its own.
    pub open spec fn receive_playing(
        self,
        election: Election,
        msg: PalaceOutMessage,
        play: Seq<Card>,
    ) -> Reaction {
        match msg {
            PalaceOutMessage::PublicGameStateEvent(game) if self.player_index == Some(
                game.active_player,
            ) => self.submit(play).beside(election),
            PalaceOutMessage::MakePlayResponse(Ok(response)) => Reaction {
                session: Session { hand: Some(response.hand@), ..self },
                election,
                reply: Ok(None),
            },
            _ => self.idle(election),
        }
    }

    /// The step taken on a message from the server, where `play` is what the
    /// client would play if the turn were its own. A stopped client does
    /// nothing. An error in the message stops the client, whatever its state.
    /// Otherwise the client's state decides; a message that it has no use for
    /// in that state changes nothing.
    pub open spec fn receive(
        self,
        election: Election,
        msg: PalaceOutMessage,
        play: Seq<Card>,
    ) -> Reaction {
        if self.state == ClientState::Terminated {
            self.idle(election)
        } else if rejection(msg) is Some {
            self.fail(election, rejection(msg)->0)
        } else {
            match self.state {
                ClientState::Electing => self.receive_electing(election, msg),
                ClientState::Joining => self.receive_joining(election, msg),
                ClientState::AwaitingStart => self.receive_awaiting_start(election, msg),
                ClientState::Playing => self.receive_playing(election, msg, play),
                _ => self.idle(election),
            }
        }
    }
}

impl ClientState {
    /// How far along the protocol a state is.
    pub open spec fn rank(self) -> nat {
        match self {
            ClientState::Connecting => 0,
            ClientState::Electing => 1,
            ClientState::Joining => 2,
            ClientState::AwaitingStart => 3,
            ClientState::Playing => 4,
            ClientState::Terminated => 5,
        }
    }
}

impl Session {
    /// Whether this session can come after `earlier`: the client has not
    /// moved backwards, and nothing that it had learned is unset.
    pub open spec fn extends(self, earlier: Session) -> bool {
        &&& earlier.state.rank() <= self.state.rank()
        &&& earlier.failure is Some ==> self.failure is Some
        &&& earlier.player_id is Some ==> self.player_id is Some
        &&& earlier.lobby_id is Some ==> self.lobby_id is Some
        &&& earlier.player_index is Some ==> self.player_index is Some
        &&& earlier.hand is Some ==> self.hand is Some
        &&& earlier.is_host ==> self.is_host
        &&& earlier.num_players == self.num_players
    }

    /// A new client is well formed.
    pub proof fn lemma_initial_wf(num_players: u8)
        ensures
            Session::initial(num_players).wf(),
    {
    }

    /// Every step leaves a well-formed client well formed.
    pub proof fn lemma_steps_keep_wf(
        self,
        election: Election,
        msg: PalaceOutMessage,
        play: Seq<Card>,
    )
        requires
            self.wf(),
        ensures
            self.open(election).session.wf(),
            self.receive(election, msg, play).session.wf(),
            self.close(election).session.wf(),
            self.submit(play).session.wf(),
    {
    }

    /// No step moves a client backwards or unsets what it had learned.
    pub proof fn lemma_steps_extend(
        self,
        election: Election,
        msg: PalaceOutMessage,
        play: Seq<Card>,
    )
        ensures
            self.open(election).session.extends(self),
            self.receive(election, msg, play).session.extends(self),
            self.close(election).session.extends(self),
            self.submit(play).session.extends(self),
    {
    }

    /// A stopped client takes no further step: whatever arrives, it sends
    /// nothing and changes nothing, and the election is left alone.
    pub proof fn lemma_terminated_is_final(
        self,
        election: Election,
        msg: PalaceOutMessage,
        play: Seq<Card>,
    )
        requires
            self.state == ClientState::Terminated,
        ensures
            self.open(election) == self.idle(election),
            self.receive(election, msg, play) == self.idle(election),
            self.close(election) == self.idle(election),
            self.submit(play).beside(election) == self.idle(election),
    {
    }

    /// An error from the server stops a running client, whatever its state:
    /// the error is handed back and nothing is sent.
    pub proof fn lemma_rejection_terminates(
        self,
        election: Election,
        msg: PalaceOutMessage,
        play: Seq<Card>,
    )
        requires
            self.state != ClientState::Terminated,
            rejection(msg) is Some,
        ensures
            self.receive(election, msg, play).reply == Err::<Option<Request>, ClientError>(
                rejection(msg)->0,
            ),
            self.receive(election, msg, play).session.state == ClientState::Terminated,
            self.receive(election, msg, play).session.failure == rejection(msg),
    {
    }

    /// A client that learns of a game state in which another seat is active
    /// sends nothing and stays as it is.
    pub proof fn lemma_idle_out_of_turn(
        self,
        election: Election,
        game: PublicGameState,
        play: Seq<Card>,
    )
        requires
            self.wf(),
            self.player_index != Some(game.active_player),
        ensures
            self.receive(election, PalaceOutMessage::PublicGameStateEvent(game), play)
                == self.idle(election),
    {
    }

    /// A playing client that learns of a game state in which its own seat is
    /// active sends one request, a play of the one card chosen from its
    /// hand, and keeps its hand until the server answers.
    pub proof fn lemma_plays_in_turn(
        self,
        election: Election,
        game: PublicGameState,
        play: Seq<Card>,
    )
        requires
            self.wf(),
            self.state == ClientState::Playing,
            self.player_index == Some(game.active_player),
            self.held().len() > 0,
            is_play_from(play, self.held()),
        ensures
            play.len() == 1,
            self.held().contains(play[0]),
            self.receive(election, PalaceOutMessage::PublicGameStateEvent(game), play)
                == self.send(
                election,
                Request::MakePlay {
                    cards: play,
                    lobby_id: self.lobby_id->0,
                    player_id: self.player_id->0,
                },
            ),
    {
    }

    /// When the server accepts a play, the hand that it reports replaces the
    /// client's hand, card for card; nothing else changes and nothing is
    /// sent.
    pub proof fn lemma_hand_replaced(
        self,
        election: Election,
        response: HandResponse,
        play: Seq<Card>,
    )
        requires
            self.state == ClientState::Playing,
        ensures
            self.receive(election, PalaceOutMessage::MakePlayResponse(Ok(response)), play)
                == (Reaction {
                session: Session { hand: Some(response.hand@), ..self },
                election,
                reply: Ok(None),
            }),
    {
    }

    /// The lobby's creator asks for the game to start exactly when the
    /// number of players reported equals the number it expects.
    pub proof fn lemma_start_when_full(
        self,
        election: Election,
        joined: PlayerJoinEvent,
        play: Seq<Card>,
    )
        requires
            self.state == ClientState::AwaitingStart,
        ensures
            self.receive(election, PalaceOutMessage::PlayerJoinEvent(joined), play) == if self.is_host
                && joined.num_players == self.num_players {
                self.send(
                    election,
                    Request::StartGame {
                        lobby_id: self.lobby_id->0,
                        player_id: self.player_id->0,
                    },
                )
            } else {
                self.idle(election)
            },
    {
    }

    /// When the server has created the lobby, the client that asked records
    /// its seat and the lobby, publishes the lobby for the others, and waits
    /// for the game without asking for another seat.
    pub proof fn lemma_created_lobby_is_published(
        self,
        lobby: NewLobbyResponse,
        play: Seq<Card>,
    )
        requires
            self.holds_claim(),
        ensures
            self.receive(
                Election::ClaimInProgress,
                PalaceOutMessage::NewLobbyResponse(Ok(lobby)),
                play,
            ) == (Reaction {
                session: Session {
                    state: ClientState::AwaitingStart,
                    player_id: Some(lobby.player_id@),
                    lobby_id: Some(lobby.lobby_id@),
                    ..self
                },
                election: Election::Resolved(lobby.lobby_id@),
                reply: Ok(None),
            }),
    {
    }

    /// Once the lobby is published, every client that still has to learn
    /// how the election went asks for a seat in that lobby when it looks,
    /// and none asks for a new lobby.
    pub proof fn lemma_open_joins_published_lobby(self, lobby_id: Seq<char>)
        requires
            self.awaits_election(),
        ensures
            self.open(Election::Resolved(lobby_id)) == (Reaction {
                session: Session {
                    state: ClientState::Joining,
                    lobby_id: Some(lobby_id),
                    ..self
                },
                election: Election::Resolved(lobby_id),
                reply: Ok(Some(join_lobby_request(lobby_id))),
            }),
    {
    }

    /// When the server refuses to create the lobby, the client that asked
    /// stops with the server's reason and the election is open again: the
    /// next client to look at it is the one to create the lobby.
    pub proof fn lemma_rejected_creation_reopens(
        self,
        error: NewLobbyError,
        play: Seq<Card>,
        next: Session,
    )
        requires
            self.holds_claim(),
            next.awaits_election(),
        ensures
            ({
                let rejected = self.receive(
                    Election::ClaimInProgress,
                    PalaceOutMessage::NewLobbyResponse(Err(error)),
                    play,
                );
                let retried = next.open(rejected.election);
                &&& rejected.reply == Err::<Option<Request>, ClientError>(
                    ClientError::NewLobby(error),
                )
                &&& rejected.session.state == ClientState::Terminated
                &&& rejected.election == Election::Unclaimed
                &&& retried.reply == Ok::<Option<Request>, ClientError>(Some(new_lobby_request()))
                &&& retried.election == Election::ClaimInProgress
                &&& retried.session.holds_claim()
            }),
    {
    }
}

} // verus!
