//! The vocabulary of the protocol: what a client asks of the server, and what
//! the server answers or announces. How a message is put on the wire is not
//! decided here.

use vstd::prelude::*;
use crate::card::{Card, PublicGameState};

verus! {

/// Asks the server to open a lobby; the sender becomes its owner.
#[derive(Debug, PartialEq, Eq)]
pub struct NewLobbyMessage {
    pub max_players: u8,
    pub password: String,
    pub lobby_name: String,
    pub player_name: String,
}

/// Asks the server for a seat in an existing lobby.
#[derive(Debug, PartialEq, Eq)]
pub struct JoinLobbyMessage {
    pub lobby_id: String,
    pub player_name: String,
    pub password: String,
}

/// Asks the server to start the game; only the lobby's owner may.
#[derive(Debug, PartialEq, Eq)]
pub struct StartGameMessage {
    pub lobby_id: String,
    pub player_id: String,
}

/// Names the three cards a player turns face up during setup.
#[derive(Debug, PartialEq, Eq)]
pub struct ChooseFaceupMessage {
    pub lobby_id: String,
    pub player_id: String,
    pub card_one: Card,
    pub card_two: Card,
    pub card_three: Card,
}

/// Plays cards from the sender's hand.
#[derive(Debug, PartialEq, Eq)]
pub struct MakePlayMessage {
    pub cards: Vec<Card>,
    pub lobby_id: String,
    pub player_id: String,
}

/// Asks the server to take a player back after a lost connection.
#[derive(Debug, PartialEq, Eq)]
pub struct ReconnectMessage {
    pub player_id: String,
    pub lobby_id: String,
}

/// A request from a client to the server.
#[derive(Debug, PartialEq, Eq)]
pub enum PalaceMessage {
    NewLobby(NewLobbyMessage),
    JoinLobby(JoinLobbyMessage),
    ListLobbies,
    StartGame(StartGameMessage),
    ChooseFaceup(ChooseFaceupMessage),
    MakePlay(MakePlayMessage),
    Reconnect(ReconnectMessage),
}

/// The mathematical value of a [`PalaceMessage`].
pub enum Request {
    NewLobby { max_players: u8, password: Seq<char>, lobby_name: Seq<char>, player_name: Seq<char> },
    JoinLobby { lobby_id: Seq<char>, player_name: Seq<char>, password: Seq<char> },
    ListLobbies,
    StartGame { lobby_id: Seq<char>, player_id: Seq<char> },
    ChooseFaceup {
        lobby_id: Seq<char>,
        player_id: Seq<char>,
        card_one: Card,
        card_two: Card,
        card_three: Card,
    },
    MakePlay { cards: Seq<Card>, lobby_id: Seq<char>, player_id: Seq<char> },
    Reconnect { player_id: Seq<char>, lobby_id: Seq<char> },
}

impl View for PalaceMessage {
    type V = Request;

    open spec fn view(&self) -> Request {
        match *self {
            PalaceMessage::NewLobby(m) => Request::NewLobby {
                max_players: m.max_players,
                password: m.password@,
                lobby_name: m.lobby_name@,
                player_name: m.player_name@,
            },
            PalaceMessage::JoinLobby(m) => Request::JoinLobby {
                lobby_id: m.lobby_id@,
                player_name: m.player_name@,
                password: m.password@,
            },
            PalaceMessage::ListLobbies => Request::ListLobbies,
            PalaceMessage::StartGame(m) => Request::StartGame {
                lobby_id: m.lobby_id@,
                player_id: m.player_id@,
            },
            PalaceMessage::ChooseFaceup(m) => Request::ChooseFaceup {
                lobby_id: m.lobby_id@,
                player_id: m.player_id@,
                card_one: m.card_one,
                card_two: m.card_two,
                card_three: m.card_three,
            },
            PalaceMessage::MakePlay(m) => Request::MakePlay {
                cards: m.cards@,
                lobby_id: m.lobby_id@,
                player_id: m.player_id@,
            },
            PalaceMessage::Reconnect(m) => Request::Reconnect {
                player_id: m.player_id@,
                lobby_id: m.lobby_id@,
            },
        }
    }
}

/// The server opened the lobby and seated its owner.
#[derive(Debug, PartialEq, Eq)]
pub struct NewLobbyResponse {
    pub player_id: String,
    pub lobby_id: String,
}

/// Why the server would not open a lobby.
#[derive(Copy, Clone, Debug, PartialEq, Eq, Structural)]
pub enum NewLobbyError {
    LessThanTwoMaxPlayers,
    EmptyLobbyName,
    EmptyPlayerName,
}

/// The server seated the player.
#[derive(Debug, PartialEq, Eq)]
pub struct JoinLobbyResponse {
    pub player_id: String,
}

/// Why the server would not seat a player.
#[derive(Copy, Clone, Debug, PartialEq, Eq, Structural)]
pub enum JoinLobbyError {
    LobbyNotFound,
    LobbyFull,
    BadPassword,
    GameStarted,
}

/// The hand a player holds after the server has accepted a move.
#[derive(Debug, PartialEq, Eq)]
pub struct HandResponse {
    pub hand: Vec<Card>,
}

/// Why the server would not accept a face-up selection.
#[derive(Copy, Clone, Debug, PartialEq, Eq, Structural)]
pub enum ChooseFaceupError {
    LobbyNotFound,
    GameNotStarted,
    PlayerNotFound,
    NotYourTurn,
}

/// Why the server would not accept a play.
#[derive(Copy, Clone, Debug, PartialEq, Eq, Structural)]
pub enum MakePlayError {
    LobbyNotFound,
    GameNotStarted,
    PlayerNotFound,
    NotYourTurn,
}

/// Why the server would not take a player back.
#[derive(Copy, Clone, Debug, PartialEq, Eq, Structural)]
pub enum ReconnectError {
    LobbyNotFound,
    PlayerNotFound,
}

/// Why the server would not start the game.
#[derive(Copy, Clone, Debug, PartialEq, Eq, Structural)]
pub enum StartGameError {
    LobbyNotFound,
    NotLobbyOwner,
    LessThanTwoPlayers,
}

/// The game has begun: the receiver's hand and seat.
#[derive(Debug, PartialEq, Eq)]
pub struct GameStartedEvent {
    pub hand: Vec<Card>,
    pub turn_number: u8,
}

/// A player has taken a seat; `num_players` are now in the lobby.
#[derive(Debug, PartialEq, Eq)]
pub struct PlayerJoinEvent {
    pub num_players: u8,
}

/// One line of the server's list of lobbies.
#[derive(Debug, PartialEq, Eq)]
pub struct LobbyDisplay {
    pub cur_players: u8,
    pub max_players: u8,
    pub started: bool,
    pub has_password: bool,
    pub owner: String,
    pub name: String,
    pub age: u64,
}

/// A message from the server: the answer to a request, or an event.
#[derive(Debug, PartialEq, Eq)]
pub enum PalaceOutMessage {
    NewLobbyResponse(Result<NewLobbyResponse, NewLobbyError>),
    JoinLobbyResponse(Result<JoinLobbyResponse, JoinLobbyError>),
    LobbyList(Vec<LobbyDisplay>),
    ChooseFaceupResponse(Result<HandResponse, ChooseFaceupError>),
    MakePlayResponse(Result<HandResponse, MakePlayError>),
    ReconnectResponse(Result<(), ReconnectError>),
    PublicGameStateEvent(PublicGameState),
    GameStartedEvent(GameStartedEvent),
    PlayerJoinEvent(PlayerJoinEvent),
    StartGameResponse(Result<(), StartGameError>),
}

} // verus!
