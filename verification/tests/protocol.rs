use secrethitler::error::Rejection;
use secrethitler::game_state::{CardColor, GameState, PlayerType, TurnPhase};
use secrethitler::protocol::{
    answer, is_blank, may_host, ClientProtocol, HostError, JoinError, PlayerConnection, Reply,
    ServerProtocol, IDLE_LIMIT,
};

const L: CardColor = CardColor::Liberal;
const F: CardColor = CardColor::Facist;

fn lobby_of(n: u128) -> GameState {
    let mut deck = vec![L; 6];
    deck.extend(vec![F; 11]);
    let mut game = GameState::with_deck(deck).expect("a full deck");
    for id in 1..=n {
        assert_eq!(game.join(id, 1000 + id, format!("player{}", id)), Ok(()));
    }
    game
}

fn five() -> GameState {
    let mut game = lobby_of(5);
    let roles = vec![
        PlayerType::Liberal,
        PlayerType::Liberal,
        PlayerType::Liberal,
        PlayerType::Facist,
        PlayerType::Hitler,
    ];
    assert_eq!(game.start_with(1, roles, vec![1, 2, 3, 4, 5]), Ok(()));
    game
}

#[test]
fn a_blank_nickname_cannot_host() {
    assert!(is_blank(""));
    assert!(is_blank("   "));
    assert!(is_blank(" \t\n\u{2003}"));
    assert!(!is_blank(" a "));
    assert!(!is_blank("ann"));
    assert_eq!(may_host(false, "ann"), Ok(()));
    assert_eq!(may_host(false, "  "), Err(HostError::EmptyNickname));
    assert_eq!(may_host(true, "ann"), Err(HostError::InGame));
    assert_eq!(may_host(true, ""), Err(HostError::InGame));
    assert_eq!(HostError::EmptyNickname.message(), "Your nickname cannot be empty.");
    assert_eq!(
        HostError::InGame.message(),
        "You cannot join another game while you are currently in a game!"
    );
}

#[test]
fn joining_files_name_and_secret() {
    let mut game = GameState::new();
    assert_eq!(game.join(7, 70, "ann".to_string()), Ok(()));
    assert_eq!(game.get_player_secret(&7), Some(70));
    assert_eq!(game.project(7).players[0].name, "ann");
    assert_eq!(game.project(7).host, Some(7));
    assert_eq!(game.chat_log()[0].message, "ann has joined the game");
}

#[test]
fn a_stranger_cannot_join_a_started_game() {
    let mut game = five();
    assert_eq!(game.join(42, 1, "eve".to_string()), Err(JoinError::AlreadyStarted));
    assert!(!game.has_player(42));
    assert_eq!(game.get_player_secret(&42), None);
    assert_eq!(JoinError::AlreadyStarted.message(), "This game has already started!");
}

#[test]
fn coming_back_takes_the_secret_on_file() {
    let mut game = five();
    game.disconnect(2, 500);
    assert_eq!(game.rejoin(2, Some(9), "player2".to_string()), Err(JoinError::WrongSecret));
    assert_eq!(game.rejoin(2, None, "player2".to_string()), Err(JoinError::WrongSecret));
    assert_eq!(game.rejoin(42, Some(1042), "eve".to_string()), Err(JoinError::UnknownPlayer));
    assert_eq!(game.project(1).players[1].name, "player2");
    assert_eq!(game.rejoin(2, Some(1002), "bob".to_string()), Ok(()));
    assert_eq!(game.project(1).players[1].name, "bob");
    assert_eq!(game.project(1).players.len(), 5);
    assert_eq!(game.project(1).turn_phase, TurnPhase::Electing);
    assert_eq!(JoinError::WrongSecret.message(), "Invalid player secret passed to server!");
    assert_eq!(
        JoinError::UnknownPlayer.message(),
        "The player you are trying to join as does not exist!"
    );
}

#[test]
fn who_lost_the_seat_before_the_start_cannot_come_back_later() {
    let mut game = lobby_of(6);
    game.disconnect(6, 500);
    assert_eq!(game.start(1), Ok(()));
    assert_eq!(game.rejoin(6, Some(1006), "player6".to_string()), Err(JoinError::AlreadyStarted));
    assert_eq!(game.project(1).players.len(), 5);
}

#[test]
fn coming_back_to_the_lobby_takes_the_seat_again() {
    let mut game = lobby_of(3);
    game.disconnect(2, 500);
    assert!(!game.has_player(2));
    assert_eq!(game.rejoin(2, Some(1002), "player2".to_string()), Ok(()));
    assert!(game.has_player(2));
    assert_eq!(game.chat_log().last().unwrap().message, "player2 has reconnected");
}

#[test]
fn a_session_is_given_up_after_five_idle_minutes() {
    assert_eq!(IDLE_LIMIT, 300);
    let mut game = five();
    assert_eq!(game.timeout(), None);
    assert!(!game.is_abandoned(1_000_000));
    for id in 1..=4u128 {
        game.disconnect(id, 1000 + id as u64);
        assert_eq!(game.timeout(), None);
    }
    game.disconnect(5, 2000);
    assert_eq!(game.timeout(), Some(2000));
    assert!(!game.is_abandoned(2000));
    assert!(!game.is_abandoned(2300));
    assert!(game.is_abandoned(2301));
    assert!(!game.is_abandoned(100));
    // whoever comes back, or tries to, keeps the session
    assert_eq!(game.rejoin(3, Some(9), "player3".to_string()), Err(JoinError::WrongSecret));
    assert_eq!(game.timeout(), None);
    assert!(!game.is_abandoned(1_000_000));
}

#[test]
fn a_session_with_a_live_connection_is_kept() {
    let mut game = lobby_of(2);
    // in the lobby the seats count: the last seat given up starts the clock,
    // but the connections on file are still up
    game.disconnect(1, 10);
    assert_eq!(game.timeout(), None);
    game.disconnect(2, 20);
    assert_eq!(game.timeout(), Some(20));
    assert!(!game.is_abandoned(10_000));
}

#[test]
fn an_empty_lobby_is_given_up() {
    let mut game = lobby_of(1);
    assert!(game.delete_player(1));
    game.disconnect(1, 20);
    assert_eq!(game.timeout(), Some(20));
    assert!(!game.is_abandoned(320));
    assert!(game.is_abandoned(321));
}

#[test]
fn moves_are_answered_by_a_broadcast_or_an_alert() {
    assert_eq!(answer(Ok(())), Reply::Broadcast);
    assert_eq!(answer(Err(Rejection::NotHost)), Reply::Alert(Rejection::NotHost));
    let mut game = lobby_of(5);
    assert_eq!(game.handle(2, ClientProtocol::StartGame), Reply::Alert(Rejection::NotHost));
    assert_eq!(game.handle(1, ClientProtocol::StartGame), Reply::Broadcast);
    let shown = game.project(1);
    assert_eq!(shown.turn_phase, TurnPhase::Electing);
    let president = shown.president.unwrap();
    let nominee = (1..=5u128).find(|id| *id != president).unwrap();
    assert_eq!(
        game.handle(nominee, ClientProtocol::ChooseChancellor { player: president }),
        Reply::Alert(Rejection::NotPresident)
    );
    assert_eq!(
        game.handle(president, ClientProtocol::ChooseChancellor { player: nominee }),
        Reply::Broadcast
    );
    assert_eq!(
        game.handle(president, ClientProtocol::PickCard { color: true }),
        Reply::Alert(Rejection::NotNow)
    );
    assert_eq!(game.handle(president, ClientProtocol::VetoCard), Reply::Alert(Rejection::VetoNotNow));
    assert_eq!(
        game.handle(president, ClientProtocol::PresidentialPower { player: None }),
        Reply::Alert(Rejection::NoPowerPending)
    );
    for voter in 1..=5u128 {
        assert_eq!(game.handle(voter, ClientProtocol::VoteChancellor { vote: true }), Reply::Broadcast);
    }
    assert_eq!(game.project(1).turn_phase, TurnPhase::PresidentSelect);
}

#[test]
fn a_card_pick_names_the_colour_by_a_flag() {
    let mut game = five();
    assert_eq!(game.handle(1, ClientProtocol::ChooseChancellor { player: 2 }), Reply::Broadcast);
    for voter in 1..=5u128 {
        assert_eq!(game.handle(voter, ClientProtocol::VoteChancellor { vote: true }), Reply::Broadcast);
    }
    // the hand holds three fascist cards
    assert_eq!(
        game.handle(1, ClientProtocol::PickCard { color: false }),
        Reply::Alert(Rejection::NotInHand)
    );
    assert_eq!(game.handle(1, ClientProtocol::PickCard { color: true }), Reply::Broadcast);
    assert_eq!(game.handle(2, ClientProtocol::VetoCard), Reply::Alert(Rejection::VetoLocked));
    assert_eq!(game.handle(2, ClientProtocol::PickCard { color: true }), Reply::Broadcast);
    assert_eq!(game.project(1).facist_policies, 1);
}

#[test]
fn chat_and_departure_go_through_the_session() {
    let mut game = lobby_of(3);
    let _ = game.take_chat();
    assert_eq!(
        game.handle(2, ClientProtocol::SendChat { message: "hello".to_string() }),
        Reply::Nothing
    );
    let waiting = game.take_chat();
    assert_eq!(waiting.len(), 1);
    assert_eq!(waiting[0].id, Some(2));
    assert_eq!(waiting[0].message, "hello");
    assert_eq!(game.handle(2, ClientProtocol::GetChatLog), Reply::ChatLog);
    assert_eq!(game.chat_log().len(), 4);
    assert_eq!(game.handle(2, ClientProtocol::Leave), Reply::Left);
    assert!(!game.has_player(2));
    assert_eq!(game.connection_ids(), vec![1, 3]);
    assert_eq!(game.take_chat()[0].message, "player2 has left the lobby");
    // messages that open or join a session are not for a session to handle
    assert_eq!(
        game.handle(1, ClientProtocol::HostGame { nickname: "x".to_string() }),
        Reply::Nothing
    );
    assert_eq!(
        game.handle(
            1,
            ClientProtocol::JoinGame {
                id: 5,
                nickname: "x".to_string(),
                player_id: None,
                player_secret: None
            }
        ),
        Reply::Nothing
    );
    assert_eq!(game.project(1).players.len(), 2);
    assert!(game.take_chat().is_empty());
}

#[test]
fn notices_carry_what_they_are_given() {
    let game = five();
    match game.send_game_state(2) {
        Some(ServerProtocol::GameState { state }) => {
            assert_eq!(state.players[1].role, Some(PlayerType::Liberal));
            assert_eq!(state.players[4].role, None);
        },
        other => panic!("not a view: {:?}", other),
    }
    let alert = ServerProtocol::Alert { message: Rejection::NotHost.message().to_string() };
    assert_eq!(format!("{:?}", alert), "Alert { message: \"Only the host may start the game!\" }");
    let fresh = PlayerConnection::new();
    assert!(fresh.connected);
}

#[test]
fn a_session_is_opened_by_its_host() {
    let mut game = GameState::hosted_by(7, 70, "ann".to_string());
    assert!(game.has_player(7));
    assert_eq!(game.get_player_secret(&7), Some(70));
    let shown = game.project(7);
    assert_eq!(shown.host, Some(7));
    assert_eq!(shown.turn_phase, TurnPhase::Lobby);
    assert_eq!(shown.players.len(), 1);
    assert_eq!(shown.players[0].name, "ann");
    assert_eq!(shown.cards_in_deck, 17);
    let greeting = game.send_chat();
    assert_eq!(greeting.len(), 1);
    assert_eq!(greeting[0].0, 7);
    assert_eq!(
        format!("{:?}", greeting[0].1),
        "ReceiveChat { id: None, message: \"ann has joined the game\" }"
    );
}

#[test]
fn a_chat_line_goes_to_every_connection_on_file() {
    let mut game = lobby_of(3);
    let _ = game.take_chat();
    // who lost the connection in the lobby stays on file
    assert!(game.remove_player(2));
    assert_eq!(
        game.handle(3, ClientProtocol::SendChat { message: "hi".to_string() }),
        Reply::Nothing
    );
    let notices = game.send_chat();
    let shown: Vec<(u128, String)> =
        notices.iter().map(|(to, notice)| (*to, format!("{:?}", notice))).collect();
    let gone = "ReceiveChat { id: None, message: \"player2 has disconnected\" }".to_string();
    let hi = "ReceiveChat { id: Some(3), message: \"hi\" }".to_string();
    assert_eq!(
        shown,
        vec![
            (1, gone.clone()),
            (2, gone.clone()),
            (3, gone),
            (1, hi.clone()),
            (2, hi.clone()),
            (3, hi)
        ]
    );
    assert!(game.send_chat().is_empty());
    assert!(game.take_chat().is_empty());
}

#[test]
fn an_alert_carries_the_notice_of_the_rejection() {
    assert_eq!(
        format!("{:?}", secrethitler::protocol::alert(Rejection::VetoLocked)),
        "Alert { message: \"You cannot veto policies until 5 facist policies have been passed.\" }"
    );
    let line = secrethitler::chat::ChatLine { id: Some(4), message: "x".to_string() };
    assert!(secrethitler::protocol::send_to_all(&Vec::new(), &line).is_empty());
}
