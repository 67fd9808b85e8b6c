//! One bot's side of the protocol.
//!
//! A [`Client`] is a state machine. Its owner tells it when the connection is
//! ready, hands it each message from the server in the order of arrival, and
//! tells it when the connection is gone. The client answers with the request
//! to send, if any. It never touches the connection itself.

use vstd::prelude::*;
use crate::card::Card;
use crate::election::{Claim, Election, ElectionState};
use crate::message::{
    JoinLobbyMessage, MakePlayMessage, NewLobbyMessage, PalaceMessage, PalaceOutMessage, Request,
    StartGameMessage,
};
use crate::play::{choose_play, is_play_from};
use crate::session::{
    rejection, ClientError, ClientState, Reaction, Session, Step, MAX_PLAYERS,
};

verus! {

/// The mathematical value of a text that may be missing.
spec fn text_view(text: Option<String>) -> Option<Seq<char>> {
    match text {
        Some(text) => Some(text@),
        None => None,
    }
}

/// The mathematical value of what a step hands back.
pub open spec fn reply_view(reply: Result<Option<PalaceMessage>, ClientError>) -> Result<
    Option<Request>,
    ClientError,
> {
    match reply {
        Ok(Some(request)) => Ok(Some(request@)),
        Ok(None) => Ok(None),
        Err(error) => Err(error),
    }
}

/// The cards that a reply submits to the server; none unless it is a play.
pub open spec fn sent_cards(reply: Result<Option<PalaceMessage>, ClientError>) -> Seq<Card> {
    match reply {
        Ok(Some(PalaceMessage::MakePlay(play))) => play.cards@,
        _ => Seq::empty(),
    }
}

/// Whether a client and a reply are what `step` says.
pub open spec fn follows(
    step: Step,
    session: Session,
    reply: Result<Option<PalaceMessage>, ClientError>,
) -> bool {
    session == step.session && reply_view(reply) == step.reply
}

/// Whether a client, an election and a reply are what `reaction` says.
pub open spec fn accords(
    reaction: Reaction,
    session: Session,
    election: Election,
    reply: Result<Option<PalaceMessage>, ClientError>,
) -> bool {
    session == reaction.session && election == reaction.election && reply_view(reply)
        == reaction.reply
}

/// One bot: the state of its session with the server.
#[derive(Debug)]
pub struct Client {
    state: ClientState,
    failure: Option<ClientError>,
    player_id: Option<String>,
    player_index: Option<u8>,
    lobby_id: Option<String>,
    num_players: u8,
    is_host: bool,
    hand: Option<Vec<Card>>,
}

impl View for Client {
    type V = Session;

    closed spec fn view(&self) -> Session {
        Session {
            state: self.state,
            failure: self.failure,
            player_id: text_view(self.player_id),
            lobby_id: text_view(self.lobby_id),
            player_index: self.player_index,
            is_host: self.is_host,
            num_players: self.num_players,
            hand: match self.hand {
                Some(hand) => Some(hand@),
                None => None,
            },
        }
    }
}

/// The error that `msg` carries, if it carries one.
pub fn rejected(msg: &PalaceOutMessage) -> (error: Option<ClientError>)
    ensures
        error == rejection(*msg),
{
    match msg {
        PalaceOutMessage::NewLobbyResponse(Err(e)) => Some(ClientError::NewLobby(*e)),
        PalaceOutMessage::JoinLobbyResponse(Err(e)) => Some(ClientError::JoinLobby(*e)),
        PalaceOutMessage::ChooseFaceupResponse(Err(e)) => Some(ClientError::ChooseFaceup(*e)),
        PalaceOutMessage::MakePlayResponse(Err(e)) => Some(ClientError::MakePlay(*e)),
        PalaceOutMessage::ReconnectResponse(Err(e)) => Some(ClientError::Reconnect(*e)),
        PalaceOutMessage::StartGameResponse(Err(e)) => Some(ClientError::StartGame(*e)),
        _ => None,
    }
}

impl Client {
    /// Every client is well formed, at all times.
    #[verifier::type_invariant]
    closed spec fn inv(&self) -> bool {
        self@.wf()
    }

    /// A client for a game of `num_players`, before its connection is ready.
    pub fn new(num_players: u8) -> (client: Client)
        ensures
            client@ == Session::initial(num_players),
            client@.wf(),
    {
        Client {
            state: ClientState::Connecting,
            failure: None,
            player_id: None,
            player_index: None,
            lobby_id: None,
            num_players,
            is_host: false,
            hand: None,
        }
    }

    /// Where the client stands.
    pub fn state(&self) -> (state: ClientState)
        ensures
            state == self@.state,
    {
        self.state
    }

    /// Why the client has stopped, if it has.
    pub fn failure(&self) -> (failure: Option<ClientError>)
        ensures
            failure == self@.failure,
    {
        self.failure
    }

    /// The identifier that the server gave this player.
    pub fn player_id(&self) -> (id: Option<&String>)
        ensures
            match id {
                Some(id) => self@.player_id == Some(id@),
                None => self@.player_id is None,
            },
    {
        match &self.player_id {
            Some(id) => Some(id),
            None => None,
        }
    }

    /// The identifier of the lobby that the client joins or has opened.
    pub fn lobby_id(&self) -> (id: Option<&String>)
        ensures
            match id {
                Some(id) => self@.lobby_id == Some(id@),
                None => self@.lobby_id is None,
            },
    {
        match &self.lobby_id {
            Some(id) => Some(id),
            None => None,
        }
    }

    /// The client's seat at the table.
    pub fn player_index(&self) -> (seat: Option<u8>)
        ensures
            seat == self@.player_index,
    {
        self.player_index
    }

    /// Whether the client opened the lobby, or has undertaken to.
    pub fn is_host(&self) -> (host: bool)
        ensures
            host == self@.is_host,
    {
        self.is_host
    }

    /// The number of players at which the lobby's creator starts the game.
    pub fn num_players(&self) -> (count: u8)
        ensures
            count == self@.num_players,
    {
        self.num_players
    }

    /// The cards that the client holds, once they are dealt.
    pub fn hand(&self) -> (hand: Option<&Vec<Card>>)
        ensures
            match hand {
                Some(hand) => self@.hand == Some(hand@),
                None => self@.hand is None,
            },
    {
        match &self.hand {
            Some(hand) => Some(hand),
            None => None,
        }
    }

    /// Whether the client still has to learn how the election went: its
    /// owner should let it look at the election again when that has changed.
    pub fn awaits_election(&self) -> (waiting: bool)
        ensures
            waiting == self@.awaits_election(),
    {
        match self.state {
            ClientState::Connecting => true,
            ClientState::Electing => !self.is_host,
            _ => false,
        }
    }

    /// Stops the client with `error`, giving back the election if the client
    /// was creating the lobby.
    fn fail(&mut self, election: &mut ElectionState, error: ClientError) -> (reply: Result<
        Option<PalaceMessage>,
        ClientError,
    >)
        ensures
            accords(old(self)@.fail(old(election)@, error), final(self)@, final(election)@, reply),
    {
        proof {
            use_type_invariant(&*self);
        }
        let claimant = match self.state {
            ClientState::Electing => self.is_host,
            _ => false,
        };
        if claimant {
            election.release();
        }
        self.failure = Some(error);
        self.state = ClientState::Terminated;
        Err(error)
    }

    /// Call when the connection is ready, inside the election's critical
    /// section, and again whenever a waiting client should look at the
    /// election. Hands back the request to send once the section is left: the
    /// creation of the lobby for the one client that finds the election
    /// unclaimed, a request for a seat where the lobby is known, nothing
    /// while the creation is under way.
    pub fn on_open(&mut self, election: &mut ElectionState) -> (reply: Result<
        Option<PalaceMessage>,
        ClientError,
    >)
        ensures
            accords(old(self)@.open(old(election)@), final(self)@, final(election)@, reply),
            final(self)@.wf(),
    {
        proof {
            use_type_invariant(&*self);
        }
        if !self.awaits_election() {
            return Ok(None);
        }
        match election.claim_or_wait() {
            Claim::Create => {
                self.state = ClientState::Electing;
                self.is_host = true;
                Ok(
                    Some(
                        PalaceMessage::NewLobby(
                            NewLobbyMessage {
                                max_players: MAX_PLAYERS,
                                password: String::from_str("eggs"),
                                lobby_name: String::from_str("brennan_test_lobby"),
                                player_name: String::from_str("bot_host"),
                            },
                        ),
                    ),
                )
            },
            Claim::Wait => {
                self.state = ClientState::Electing;
                Ok(None)
            },
            Claim::Join(lobby_id) => {
                self.lobby_id = Some(lobby_id.clone());
                self.state = ClientState::Joining;
                Ok(
                    Some(
                        PalaceMessage::JoinLobby(
                            JoinLobbyMessage {
                                lobby_id,
                                player_name: String::from_str("brennan"),
                                password: String::from_str("eggs"),
                            },
                        ),
                    ),
                )
            },
        }
    }

    /// Call when the connection is closed or has broken, inside the
    /// election's critical section. The client stops; if it was creating the
    /// lobby, the election is open again.
    pub fn on_close(&mut self, election: &mut ElectionState)
        ensures
            final(self)@ == old(self)@.close(old(election)@).session,
            final(election)@ == old(self)@.close(old(election)@).election,
            final(self)@.wf(),
    {
        proof {
            use_type_invariant(&*self);
        }
        match self.state {
            ClientState::Terminated => {},
            _ => {
                let _ = self.fail(election, ClientError::ConnectionClosed);
            },
        }
    }

    /// Submits `cards` as the client's play. The hand stays as it is until
    /// the server answers. Whether the play is legal is for the server to
    /// say. With no cards the client stops; a client that is not playing
    /// does nothing.
    pub fn submit_play(&mut self, cards: Vec<Card>) -> (reply: Result<
        Option<PalaceMessage>,
        ClientError,
    >)
        ensures
            follows(old(self)@.submit(cards@), final(self)@, reply),
            final(self)@.wf(),
    {
        proof {
            use_type_invariant(&*self);
        }
        match self.state {
            ClientState::Playing => {},
            _ => {
                return Ok(None);
            },
        }
        if cards.len() == 0 {
            self.failure = Some(ClientError::EmptyHand);
            self.state = ClientState::Terminated;
            return Err(ClientError::EmptyHand);
        }
        match (&self.lobby_id, &self.player_id) {
            (Some(lobby_id), Some(player_id)) => Ok(
                Some(
                    PalaceMessage::MakePlay(
                        MakePlayMessage {
                            cards,
                            lobby_id: lobby_id.clone(),
                            player_id: player_id.clone(),
                        },
                    ),
                ),
            ),
            _ => Ok(None),
        }
    }

    /// Takes a turn: chooses a play from the hand and submits it. The reply
    /// is what submitting the cards it carries gives, and a playing client's
    /// cards are one card of its hand, or none where the hand is empty.
    pub fn take_turn(&mut self) -> (reply: Result<Option<PalaceMessage>, ClientError>)
        ensures
            follows(old(self)@.submit(sent_cards(reply)), final(self)@, reply),
            old(self)@.state == ClientState::Playing ==> is_play_from(
                sent_cards(reply),
                old(self)@.held(),
            ),
            final(self)@.wf(),
    {
        proof {
            use_type_invariant(&*self);
        }
        match self.state {
            ClientState::Playing => {},
            _ => {
                return Ok(None);
            },
        }
        let cards = match &self.hand {
            Some(hand) => choose_play(hand),
            None => Vec::new(),
        };
        self.submit_play(cards)
    }

    fn on_electing(&mut self, msg: PalaceOutMessage, election: &mut ElectionState) -> (reply:
        Result<Option<PalaceMessage>, ClientError>)
        requires
            old(self)@.state == ClientState::Electing,
            rejection(msg) is None,
        ensures
            accords(
                old(self)@.receive_electing(old(election)@, msg),
                final(self)@,
                final(election)@,
                reply,
            ),
    {
        match msg {
            PalaceOutMessage::NewLobbyResponse(Ok(lobby)) => {
                if self.is_host {
                    self.player_id = Some(lobby.player_id);
                    self.lobby_id = Some(lobby.lobby_id.clone());
                    self.state = ClientState::AwaitingStart;
                    election.resolve(lobby.lobby_id);
                }
                Ok(None)
            },
            _ => Ok(None),
        }
    }

    fn on_joining(&mut self, msg: PalaceOutMessage) -> (reply: Result<
        Option<PalaceMessage>,
        ClientError,
    >)
        requires
            old(self)@.state == ClientState::Joining,
            rejection(msg) is None,
        ensures
            forall|election: Election|
                accords(
                    #[trigger] old(self)@.receive_joining(election, msg),
                    final(self)@,
                    election,
                    reply,
                ),
    {
        proof {
            use_type_invariant(&*self);
        }
        match msg {
            PalaceOutMessage::JoinLobbyResponse(Ok(seat)) => {
                self.player_id = Some(seat.player_id);
                self.state = ClientState::AwaitingStart;
                Ok(None)
            },
            _ => Ok(None),
        }
    }

    fn on_awaiting_start(&mut self, msg: PalaceOutMessage) -> (reply: Result<
        Option<PalaceMessage>,
        ClientError,
    >)
        requires
            old(self)@.state == ClientState::AwaitingStart,
            rejection(msg) is None,
        ensures
            forall|election: Election|
                accords(
                    #[trigger] old(self)@.receive_awaiting_start(election, msg),
                    final(self)@,
                    election,
                    reply,
                ),
    {
        proof {
            use_type_invariant(&*self);
        }
        match msg {
            PalaceOutMessage::PlayerJoinEvent(joined) => {
                if self.is_host && joined.num_players == self.num_players {
                    match (&self.lobby_id, &self.player_id) {
                        (Some(lobby_id), Some(player_id)) => Ok(
                            Some(
                                PalaceMessage::StartGame(
                                    StartGameMessage {
                                        lobby_id: lobby_id.clone(),
                                        player_id: player_id.clone(),
                                    },
                                ),
                            ),
                        ),
                        _ => Ok(None),
                    }
                } else {
                    Ok(None)
                }
            },
            PalaceOutMessage::GameStartedEvent(deal) => {
                self.player_index = Some(deal.turn_number);
                self.hand = Some(deal.hand);
                self.state = ClientState::Playing;
                Ok(None)
            },
            _ => Ok(None),
        }
    }

    fn on_playing(&mut self, msg: PalaceOutMessage) -> (reply: Result<
        Option<PalaceMessage>,
        ClientError,
    >)
        requires
            old(self)@.state == ClientState::Playing,
            rejection(msg) is None,
        ensures
            forall|election: Election|
                accords(
                    #[trigger] old(self)@.receive_playing(election, msg, sent_cards(reply)),
                    final(self)@,
                    election,
                    reply,
                ),
            old(self)@.turn_due(msg) ==> is_play_from(sent_cards(reply), old(self)@.held()),
    {
        proof {
            use_type_invariant(&*self);
        }
        match msg {
            PalaceOutMessage::PublicGameStateEvent(game) => {
                let active = match self.player_index {
                    Some(seat) => game.turn_of(seat),
                    None => false,
                };
                if active {
                    self.take_turn()
                } else {
                    Ok(None)
                }
            },
            PalaceOutMessage::MakePlayResponse(Ok(response)) => {
                self.hand = Some(response.hand);
                Ok(None)
            },
            _ => Ok(None),
        }
    }

    /// Call for each message from the server, in the order of arrival, inside
    /// the election's critical section. Hands back the request to send once
    /// the section is left, or the error that stopped the client.
    ///
    /// The reply is what [`Session::receive`] gives for the cards that the
    /// reply carries. Where the message makes it the client's turn, those
    /// cards are one card of its hand, or none where the hand is empty; which
    /// card is left to chance.
    pub fn on_message(&mut self, msg: PalaceOutMessage, election: &mut ElectionState) -> (reply:
        Result<Option<PalaceMessage>, ClientError>)
        ensures
            accords(
                old(self)@.receive(old(election)@, msg, sent_cards(reply)),
                final(self)@,
                final(election)@,
                reply,
            ),
            old(self)@.turn_due(msg) ==> is_play_from(sent_cards(reply), old(self)@.held()),
            final(self)@.wf(),
    {
        proof {
            use_type_invariant(&*self);
        }
        match self.state {
            ClientState::Terminated => {
                return Ok(None);
            },
            _ => {},
        }
        match rejected(&msg) {
            Some(error) => {
                return self.fail(election, error);
            },
            None => {},
        }
        match self.state {
            ClientState::Electing => self.on_electing(msg, election),
            ClientState::Joining => self.on_joining(msg),
            ClientState::AwaitingStart => self.on_awaiting_start(msg),
            ClientState::Playing => self.on_playing(msg),
            _ => Ok(None),
        }
    }
}

} // verus!
