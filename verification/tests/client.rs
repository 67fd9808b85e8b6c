use palace_swarm::card::{Card, CardSuit, CardValue, GamePhase, PublicGameState};
use palace_swarm::client::{rejected, Client};
use palace_swarm::election::ElectionState;
use palace_swarm::message::{
    ChooseFaceupError, GameStartedEvent, HandResponse, JoinLobbyError, JoinLobbyMessage,
    JoinLobbyResponse, LobbyDisplay, MakePlayError, MakePlayMessage, NewLobbyError,
    NewLobbyMessage, NewLobbyResponse, PalaceMessage, PalaceOutMessage, PlayerJoinEvent,
    ReconnectError, StartGameError, StartGameMessage,
};
use palace_swarm::session::{ClientError, ClientState, MAX_PLAYERS};

fn card(value: CardValue, suit: CardSuit) -> Card {
    Card::new(value, suit)
}

fn sample_hand() -> Vec<Card> {
    vec![
        card(CardValue::Two, CardSuit::Clubs),
        card(CardValue::Jack, CardSuit::Diamonds),
        card(CardValue::Queen, CardSuit::Hearts),
    ]
}

fn game_with_active(seat: u8) -> PublicGameState {
    PublicGameState {
        hands: vec![3, 3, 3, 3],
        face_up_three: vec![vec![], vec![], vec![], vec![]],
        face_down_three: vec![3, 3, 3, 3],
        top_card: None,
        pile_size: 30,
        cleared_size: 0,
        cur_phase: GamePhase::Play,
        active_player: seat,
        last_cards_played: vec![],
    }
}

fn created(player_id: &str, lobby_id: &str) -> PalaceOutMessage {
    PalaceOutMessage::NewLobbyResponse(Ok(NewLobbyResponse {
        player_id: String::from(player_id),
        lobby_id: String::from(lobby_id),
    }))
}

fn seated(player_id: &str) -> PalaceOutMessage {
    PalaceOutMessage::JoinLobbyResponse(Ok(JoinLobbyResponse { player_id: String::from(player_id) }))
}

fn joined(num_players: u8) -> PalaceOutMessage {
    PalaceOutMessage::PlayerJoinEvent(PlayerJoinEvent { num_players })
}

fn started(hand: Vec<Card>, turn_number: u8) -> PalaceOutMessage {
    PalaceOutMessage::GameStartedEvent(GameStartedEvent { hand, turn_number })
}

fn new_lobby_request() -> PalaceMessage {
    PalaceMessage::NewLobby(NewLobbyMessage {
        max_players: 4,
        password: String::from("eggs"),
        lobby_name: String::from("brennan_test_lobby"),
        player_name: String::from("bot_host"),
    })
}

fn join_request(lobby_id: &str) -> PalaceMessage {
    PalaceMessage::JoinLobby(JoinLobbyMessage {
        lobby_id: String::from(lobby_id),
        player_name: String::from("brennan"),
        password: String::from("eggs"),
    })
}

/// A host that has opened the lobby `lobby-7` as player `host-1`.
fn host_in_lobby(num_players: u8, election: &mut ElectionState) -> Client {
    let mut host = Client::new(num_players);
    assert_eq!(host.on_open(election), Ok(Some(new_lobby_request())));
    assert_eq!(host.on_message(created("host-1", "lobby-7"), election), Ok(None));
    host
}

/// A guest seated in the lobby of a resolved election as player `guest-1`.
fn guest_in_lobby(election: &mut ElectionState) -> Client {
    let mut guest = Client::new(4);
    assert!(matches!(guest.on_open(election), Ok(Some(PalaceMessage::JoinLobby(_)))));
    assert_eq!(guest.on_message(seated("guest-1"), election), Ok(None));
    guest
}

/// A guest that plays at `seat` with `hand`.
fn playing_guest(hand: Vec<Card>, seat: u8) -> (Client, ElectionState) {
    let mut election = ElectionState::Resolved(String::from("lobby-7"));
    let mut guest = guest_in_lobby(&mut election);
    assert_eq!(guest.on_message(started(hand, seat), &mut election), Ok(None));
    assert_eq!(guest.state(), ClientState::Playing);
    (guest, election)
}

#[test]
fn new_client_knows_nothing() {
    let client = Client::new(4);
    assert_eq!(client.state(), ClientState::Connecting);
    assert_eq!(client.failure(), None);
    assert_eq!(client.player_id(), None);
    assert_eq!(client.lobby_id(), None);
    assert_eq!(client.player_index(), None);
    assert!(!client.is_host());
    assert_eq!(client.num_players(), 4);
    assert_eq!(client.hand(), None);
    assert!(client.awaits_election());
    assert_eq!(MAX_PLAYERS, 4);
}

#[test]
fn four_workers_agree_on_one_lobby() {
    let mut election = ElectionState::new();
    let mut a = Client::new(4);
    let mut b = Client::new(4);
    let mut c = Client::new(4);
    let mut d = Client::new(4);

    assert_eq!(a.on_open(&mut election), Ok(Some(new_lobby_request())));
    assert!(a.is_host());
    assert_eq!(a.state(), ClientState::Electing);
    assert!(!a.awaits_election());
    assert_eq!(election, ElectionState::ClaimInProgress);

    assert_eq!(b.on_open(&mut election), Ok(None));
    assert_eq!(c.on_open(&mut election), Ok(None));
    assert_eq!(d.on_open(&mut election), Ok(None));
    assert_eq!(b.on_open(&mut election), Ok(None));
    for waiting in [&b, &c, &d] {
        assert_eq!(waiting.state(), ClientState::Electing);
        assert!(waiting.awaits_election());
        assert!(!waiting.is_host());
    }

    assert_eq!(a.on_message(created("host-1", "lobby-7"), &mut election), Ok(None));
    assert_eq!(election, ElectionState::Resolved(String::from("lobby-7")));
    assert_eq!(a.state(), ClientState::AwaitingStart);
    assert_eq!(a.lobby_id(), Some(&String::from("lobby-7")));
    assert_eq!(a.player_id(), Some(&String::from("host-1")));

    for worker in [&mut b, &mut c, &mut d] {
        assert_eq!(worker.on_open(&mut election), Ok(Some(join_request("lobby-7"))));
        assert_eq!(worker.state(), ClientState::Joining);
        assert_eq!(worker.lobby_id(), Some(&String::from("lobby-7")));
        assert!(!worker.is_host());
        assert!(!worker.awaits_election());
        assert_eq!(worker.on_open(&mut election), Ok(None));
    }
    assert_eq!(a.on_open(&mut election), Ok(None));
    assert_eq!(election, ElectionState::Resolved(String::from("lobby-7")));
}

#[test]
fn host_starts_game_only_when_lobby_is_full() {
    let mut election = ElectionState::new();
    let mut host = host_in_lobby(4, &mut election);
    assert_eq!(host.on_message(joined(3), &mut election), Ok(None));
    assert_eq!(
        host.on_message(joined(4), &mut election),
        Ok(Some(PalaceMessage::StartGame(StartGameMessage {
            lobby_id: String::from("lobby-7"),
            player_id: String::from("host-1"),
        })))
    );
    assert_eq!(host.state(), ClientState::AwaitingStart);
}

#[test]
fn host_ignores_a_count_above_the_expected_one() {
    let mut election = ElectionState::new();
    let mut host = host_in_lobby(2, &mut election);
    assert_eq!(host.on_message(joined(1), &mut election), Ok(None));
    assert_eq!(host.on_message(joined(3), &mut election), Ok(None));
    assert!(matches!(
        host.on_message(joined(2), &mut election),
        Ok(Some(PalaceMessage::StartGame(_)))
    ));
}

#[test]
fn guest_never_starts_the_game() {
    let mut election = ElectionState::Resolved(String::from("lobby-7"));
    let mut guest = guest_in_lobby(&mut election);
    assert_eq!(guest.state(), ClientState::AwaitingStart);
    assert_eq!(guest.player_id(), Some(&String::from("guest-1")));
    assert_eq!(guest.on_message(joined(4), &mut election), Ok(None));
}

#[test]
fn lobby_full_terminates_the_worker() {
    let mut election = ElectionState::Resolved(String::from("lobby-7"));
    let mut worker = Client::new(4);
    assert_eq!(worker.on_open(&mut election), Ok(Some(join_request("lobby-7"))));
    assert_eq!(
        worker.on_message(
            PalaceOutMessage::JoinLobbyResponse(Err(JoinLobbyError::LobbyFull)),
            &mut election
        ),
        Err(ClientError::JoinLobby(JoinLobbyError::LobbyFull))
    );
    assert_eq!(worker.state(), ClientState::Terminated);
    assert_eq!(worker.failure(), Some(ClientError::JoinLobby(JoinLobbyError::LobbyFull)));

    assert_eq!(worker.on_message(seated("late"), &mut election), Ok(None));
    assert_eq!(worker.on_message(joined(4), &mut election), Ok(None));
    assert_eq!(worker.on_message(started(sample_hand(), 0), &mut election), Ok(None));
    assert_eq!(
        worker.on_message(PalaceOutMessage::PublicGameStateEvent(game_with_active(0)), &mut election),
        Ok(None)
    );
    assert_eq!(worker.on_open(&mut election), Ok(None));
    assert_eq!(worker.take_turn(), Ok(None));
    assert_eq!(worker.submit_play(sample_hand()), Ok(None));
    assert_eq!(worker.state(), ClientState::Terminated);
    assert_eq!(worker.failure(), Some(ClientError::JoinLobby(JoinLobbyError::LobbyFull)));
    assert_eq!(worker.player_id(), None);
    assert_eq!(worker.hand(), None);
    assert_eq!(election, ElectionState::Resolved(String::from("lobby-7")));
}

#[test]
fn game_start_records_seat_and_hand() {
    let (guest, _) = playing_guest(sample_hand(), 2);
    assert_eq!(guest.player_index(), Some(2));
    assert_eq!(guest.hand(), Some(&sample_hand()));
}

#[test]
fn idle_when_another_seat_is_active() {
    let (mut guest, mut election) = playing_guest(sample_hand(), 2);
    for seat in [0u8, 1, 3, 255] {
        assert_eq!(
            guest.on_message(
                PalaceOutMessage::PublicGameStateEvent(game_with_active(seat)),
                &mut election
            ),
            Ok(None)
        );
    }
    assert_eq!(guest.state(), ClientState::Playing);
    assert_eq!(guest.hand(), Some(&sample_hand()));
    assert_eq!(election, ElectionState::Resolved(String::from("lobby-7")));
}

#[test]
fn plays_one_card_of_its_hand_when_active() {
    for _ in 0..50 {
        let (mut guest, mut election) = playing_guest(sample_hand(), 2);
        let reply = guest.on_message(
            PalaceOutMessage::PublicGameStateEvent(game_with_active(2)),
            &mut election,
        );
        match reply {
            Ok(Some(PalaceMessage::MakePlay(play))) => {
                assert_eq!(play.cards.len(), 1);
                assert!(sample_hand().contains(&play.cards[0]));
                assert_eq!(play.lobby_id, "lobby-7");
                assert_eq!(play.player_id, "guest-1");
            }
            other => panic!("expected a play, got {:?}", other),
        }
        assert_eq!(guest.state(), ClientState::Playing);
        assert_eq!(guest.hand(), Some(&sample_hand()));
    }
}

#[test]
fn plays_in_the_setup_phase_too() {
    let (mut guest, mut election) = playing_guest(sample_hand(), 0);
    let mut game = game_with_active(0);
    game.cur_phase = GamePhase::Setup;
    assert!(matches!(
        guest.on_message(PalaceOutMessage::PublicGameStateEvent(game), &mut election),
        Ok(Some(PalaceMessage::MakePlay(_)))
    ));
}

#[test]
fn hand_is_replaced_by_server_hand() {
    let (mut guest, mut election) = playing_guest(sample_hand(), 2);
    let fresh = vec![card(CardValue::Ace, CardSuit::Spades), card(CardValue::Ace, CardSuit::Spades)];
    assert_eq!(
        guest.on_message(
            PalaceOutMessage::MakePlayResponse(Ok(HandResponse { hand: fresh.clone() })),
            &mut election
        ),
        Ok(None)
    );
    assert_eq!(guest.hand(), Some(&fresh));
    assert_eq!(
        guest.on_message(
            PalaceOutMessage::MakePlayResponse(Ok(HandResponse { hand: vec![] })),
            &mut election
        ),
        Ok(None)
    );
    assert_eq!(guest.hand(), Some(&Vec::new()));
    assert_eq!(guest.state(), ClientState::Playing);
    assert_eq!(guest.player_index(), Some(2));
}

#[test]
fn face_up_answer_leaves_the_hand() {
    let (mut guest, mut election) = playing_guest(sample_hand(), 2);
    assert_eq!(
        guest.on_message(
            PalaceOutMessage::ChooseFaceupResponse(Ok(HandResponse { hand: vec![] })),
            &mut election
        ),
        Ok(None)
    );
    assert_eq!(guest.hand(), Some(&sample_hand()));
}

#[test]
fn empty_hand_on_turn_stops_the_client() {
    let (mut guest, mut election) = playing_guest(vec![], 1);
    assert_eq!(
        guest.on_message(PalaceOutMessage::PublicGameStateEvent(game_with_active(1)), &mut election),
        Err(ClientError::EmptyHand)
    );
    assert_eq!(guest.state(), ClientState::Terminated);
    assert_eq!(guest.failure(), Some(ClientError::EmptyHand));
}

#[test]
fn submit_play_sends_the_cards_given() {
    let (mut guest, _) = playing_guest(sample_hand(), 2);
    let cards = vec![card(CardValue::Queen, CardSuit::Hearts), card(CardValue::Two, CardSuit::Clubs)];
    assert_eq!(
        guest.submit_play(cards.clone()),
        Ok(Some(PalaceMessage::MakePlay(MakePlayMessage {
            cards,
            lobby_id: String::from("lobby-7"),
            player_id: String::from("guest-1"),
        })))
    );
    assert_eq!(guest.hand(), Some(&sample_hand()));
    assert_eq!(guest.submit_play(vec![]), Err(ClientError::EmptyHand));
    assert_eq!(guest.state(), ClientState::Terminated);
}

#[test]
fn take_turn_before_the_game_does_nothing() {
    let mut election = ElectionState::Resolved(String::from("lobby-7"));
    let mut guest = guest_in_lobby(&mut election);
    assert_eq!(guest.take_turn(), Ok(None));
    assert_eq!(guest.submit_play(sample_hand()), Ok(None));
    assert_eq!(guest.state(), ClientState::AwaitingStart);
}

#[test]
fn take_turn_plays_a_card_of_the_hand() {
    let (mut guest, _) = playing_guest(sample_hand(), 2);
    match guest.take_turn() {
        Ok(Some(PalaceMessage::MakePlay(play))) => {
            assert_eq!(play.cards.len(), 1);
            assert!(sample_hand().contains(&play.cards[0]));
        }
        other => panic!("expected a play, got {:?}", other),
    }
}

#[test]
fn rejected_creation_reopens_election() {
    let mut election = ElectionState::new();
    let mut first = Client::new(4);
    let mut second = Client::new(4);
    assert_eq!(first.on_open(&mut election), Ok(Some(new_lobby_request())));
    assert_eq!(second.on_open(&mut election), Ok(None));
    assert_eq!(
        first.on_message(
            PalaceOutMessage::NewLobbyResponse(Err(NewLobbyError::EmptyLobbyName)),
            &mut election
        ),
        Err(ClientError::NewLobby(NewLobbyError::EmptyLobbyName))
    );
    assert_eq!(first.state(), ClientState::Terminated);
    assert_eq!(election, ElectionState::Unclaimed);

    assert_eq!(second.on_open(&mut election), Ok(Some(new_lobby_request())));
    assert!(second.is_host());
    assert_eq!(election, ElectionState::ClaimInProgress);
    assert_eq!(second.on_message(created("host-2", "lobby-9"), &mut election), Ok(None));
    assert_eq!(election, ElectionState::Resolved(String::from("lobby-9")));
    assert_eq!(first.on_open(&mut election), Ok(None));
}

#[test]
fn closing_claimant_reopens_election() {
    let mut election = ElectionState::new();
    let mut first = Client::new(4);
    assert!(first.on_open(&mut election).is_ok());
    first.on_close(&mut election);
    assert_eq!(first.state(), ClientState::Terminated);
    assert_eq!(first.failure(), Some(ClientError::ConnectionClosed));
    assert_eq!(election, ElectionState::Unclaimed);
}

#[test]
fn closing_waiter_leaves_the_claim() {
    let mut election = ElectionState::new();
    let mut first = Client::new(4);
    let mut second = Client::new(4);
    assert!(first.on_open(&mut election).is_ok());
    assert_eq!(second.on_open(&mut election), Ok(None));
    second.on_close(&mut election);
    assert_eq!(second.failure(), Some(ClientError::ConnectionClosed));
    assert_eq!(election, ElectionState::ClaimInProgress);
}

#[test]
fn closing_after_resolution_keeps_the_lobby() {
    let mut election = ElectionState::new();
    let mut host = host_in_lobby(4, &mut election);
    host.on_close(&mut election);
    assert_eq!(host.state(), ClientState::Terminated);
    assert_eq!(election, ElectionState::Resolved(String::from("lobby-7")));
    assert_eq!(host.lobby_id(), Some(&String::from("lobby-7")));
    assert_eq!(host.player_id(), Some(&String::from("host-1")));
}

#[test]
fn close_keeps_the_first_failure() {
    let mut election = ElectionState::Resolved(String::from("lobby-7"));
    let mut worker = Client::new(4);
    assert!(worker.on_open(&mut election).is_ok());
    assert!(worker
        .on_message(
            PalaceOutMessage::JoinLobbyResponse(Err(JoinLobbyError::BadPassword)),
            &mut election
        )
        .is_err());
    worker.on_close(&mut election);
    assert_eq!(worker.failure(), Some(ClientError::JoinLobby(JoinLobbyError::BadPassword)));
}

#[test]
fn every_error_answer_stops_the_client() {
    let cases = vec![
        (
            PalaceOutMessage::NewLobbyResponse(Err(NewLobbyError::LessThanTwoMaxPlayers)),
            ClientError::NewLobby(NewLobbyError::LessThanTwoMaxPlayers),
        ),
        (
            PalaceOutMessage::NewLobbyResponse(Err(NewLobbyError::EmptyPlayerName)),
            ClientError::NewLobby(NewLobbyError::EmptyPlayerName),
        ),
        (
            PalaceOutMessage::JoinLobbyResponse(Err(JoinLobbyError::LobbyNotFound)),
            ClientError::JoinLobby(JoinLobbyError::LobbyNotFound),
        ),
        (
            PalaceOutMessage::JoinLobbyResponse(Err(JoinLobbyError::GameStarted)),
            ClientError::JoinLobby(JoinLobbyError::GameStarted),
        ),
        (
            PalaceOutMessage::ChooseFaceupResponse(Err(ChooseFaceupError::NotYourTurn)),
            ClientError::ChooseFaceup(ChooseFaceupError::NotYourTurn),
        ),
        (
            PalaceOutMessage::MakePlayResponse(Err(MakePlayError::NotYourTurn)),
            ClientError::MakePlay(MakePlayError::NotYourTurn),
        ),
        (
            PalaceOutMessage::MakePlayResponse(Err(MakePlayError::GameNotStarted)),
            ClientError::MakePlay(MakePlayError::GameNotStarted),
        ),
        (
            PalaceOutMessage::ReconnectResponse(Err(ReconnectError::PlayerNotFound)),
            ClientError::Reconnect(ReconnectError::PlayerNotFound),
        ),
        (
            PalaceOutMessage::StartGameResponse(Err(StartGameError::NotLobbyOwner)),
            ClientError::StartGame(StartGameError::NotLobbyOwner),
        ),
        (
            PalaceOutMessage::StartGameResponse(Err(StartGameError::LessThanTwoPlayers)),
            ClientError::StartGame(StartGameError::LessThanTwoPlayers),
        ),
    ];
    for (msg, error) in cases {
        assert_eq!(rejected(&msg), Some(error));
        let (mut guest, mut election) = playing_guest(sample_hand(), 0);
        assert_eq!(guest.on_message(msg, &mut election), Err(error));
        assert_eq!(guest.state(), ClientState::Terminated);
        assert_eq!(guest.failure(), Some(error));
        assert_eq!(election, ElectionState::Resolved(String::from("lobby-7")));
    }
}

#[test]
fn claimant_stopped_by_any_error_reopens_election() {
    let mut election = ElectionState::new();
    let mut first = Client::new(4);
    assert!(first.on_open(&mut election).is_ok());
    assert_eq!(
        first.on_message(
            PalaceOutMessage::StartGameResponse(Err(StartGameError::LobbyNotFound)),
            &mut election
        ),
        Err(ClientError::StartGame(StartGameError::LobbyNotFound))
    );
    assert_eq!(election, ElectionState::Unclaimed);
}

#[test]
fn answers_without_an_error_are_not_rejections() {
    assert_eq!(rejected(&created("p", "l")), None);
    assert_eq!(rejected(&seated("p")), None);
    assert_eq!(rejected(&joined(2)), None);
    assert_eq!(rejected(&started(vec![], 0)), None);
    assert_eq!(rejected(&PalaceOutMessage::ReconnectResponse(Ok(()))), None);
    assert_eq!(rejected(&PalaceOutMessage::StartGameResponse(Ok(()))), None);
    assert_eq!(rejected(&PalaceOutMessage::LobbyList(vec![])), None);
    assert_eq!(rejected(&PalaceOutMessage::PublicGameStateEvent(game_with_active(0))), None);
}

#[test]
fn messages_of_no_use_in_a_state_change_nothing() {
    let mut election = ElectionState::new();
    let mut fresh = Client::new(4);
    assert_eq!(fresh.on_message(created("p", "l"), &mut election), Ok(None));
    assert_eq!(fresh.on_message(started(sample_hand(), 1), &mut election), Ok(None));
    assert_eq!(fresh.state(), ClientState::Connecting);
    assert_eq!(fresh.player_id(), None);
    assert_eq!(fresh.hand(), None);
    assert_eq!(election, ElectionState::Unclaimed);

    let mut election = ElectionState::Resolved(String::from("lobby-7"));
    let mut guest = Client::new(4);
    assert!(guest.on_open(&mut election).is_ok());
    assert_eq!(guest.on_message(created("p", "other"), &mut election), Ok(None));
    assert_eq!(guest.on_message(joined(4), &mut election), Ok(None));
    assert_eq!(guest.on_message(started(sample_hand(), 1), &mut election), Ok(None));
    assert_eq!(guest.state(), ClientState::Joining);
    assert_eq!(guest.player_index(), None);
    assert_eq!(election, ElectionState::Resolved(String::from("lobby-7")));

    let lobbies = vec![LobbyDisplay {
        cur_players: 1,
        max_players: 4,
        started: false,
        has_password: true,
        owner: String::from("bot_host"),
        name: String::from("brennan_test_lobby"),
        age: 12,
    }];
    assert_eq!(guest.on_message(PalaceOutMessage::LobbyList(lobbies), &mut election), Ok(None));
    assert_eq!(guest.on_message(PalaceOutMessage::ReconnectResponse(Ok(())), &mut election), Ok(None));
    assert_eq!(guest.on_message(PalaceOutMessage::StartGameResponse(Ok(())), &mut election), Ok(None));
    assert_eq!(guest.state(), ClientState::Joining);
}

#[test]
fn waiting_client_ignores_a_creation_answer() {
    let mut election = ElectionState::new();
    let mut host = Client::new(4);
    let mut waiter = Client::new(4);
    assert!(host.on_open(&mut election).is_ok());
    assert_eq!(waiter.on_open(&mut election), Ok(None));
    assert_eq!(waiter.on_message(created("p", "stray"), &mut election), Ok(None));
    assert_eq!(election, ElectionState::ClaimInProgress);
    assert_eq!(waiter.state(), ClientState::Electing);
    assert_eq!(waiter.lobby_id(), None);
}
