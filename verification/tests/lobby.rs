use secrethitler::chat::ChatLine;
use secrethitler::game_state::{GameState, PlayerType, TurnPhase};
use secrethitler::protocol::PlayerConnection;

fn named(name: &str, secret: u128) -> PlayerConnection {
    PlayerConnection { name: Some(name.to_string()), secret: Some(secret), connected: true }
}

fn messages(game: &GameState) -> Vec<String> {
    game.chat_log().into_iter().map(|line| line.message).collect()
}

fn started(n: u128) -> GameState {
    let mut game = GameState::new();
    for id in 1..=n {
        assert!(game.add_player(id, named(&format!("player{}", id), 100 + id)));
    }
    assert_eq!(game.start(1), Ok(()));
    game
}

#[test]
fn a_new_connection_is_live_and_anonymous() {
    let fresh = PlayerConnection::new();
    assert_eq!(fresh.name, None);
    assert_eq!(fresh.secret, None);
    assert!(fresh.connected);
    assert_eq!(fresh.name_or_default(), "");
    assert_eq!(named("ann", 1).name_or_default(), "ann");
}

#[test]
fn a_new_game_is_an_empty_lobby() {
    let game = GameState::new();
    assert!(!game.is_in_game());
    assert!(!game.has_connected_players());
    assert!(!game.has_player(1));
    assert_eq!(game.get_player_secret(&1), None);
    assert!(game.chat_log().is_empty());
    assert_eq!(game.timeout(), None);
    assert!(game.connection_ids().is_empty());
    assert!(game.broadcast_game_state().is_empty());
}

#[test]
fn the_first_to_join_hosts() {
    let mut game = GameState::new();
    assert!(game.add_player(7, named("ann", 70)));
    assert!(game.add_player(8, named("bob", 80)));
    let shown = game.project(8);
    assert_eq!(shown.host, Some(7));
    assert_eq!(shown.turn_phase, TurnPhase::Lobby);
    assert_eq!(shown.players.len(), 2);
    assert_eq!(shown.players[0].id, 7);
    assert_eq!(shown.players[0].name, "ann");
    assert_eq!(shown.players[1].name, "bob");
    assert_eq!(shown.players[1].role, Some(PlayerType::Liberal));
    assert!(!shown.players[0].dead);
    assert_eq!(shown.cards_in_deck, 17);
    assert_eq!(shown.liberal_cards, 6);
    assert_eq!(shown.facist_cards, 11);
    assert_eq!(shown.cards_in_discard, 0);
    assert_eq!(shown.president, None);
    assert_eq!(shown.votes, None);
    assert_eq!(shown.cards, None);
    assert_eq!(messages(&game), vec!["ann has joined the game", "bob has joined the game"]);
    assert_eq!(game.get_player_secret(&7), Some(70));
    assert_eq!(game.get_player_secret(&9), None);
    assert!(game.has_connected_players());
}

#[test]
fn a_nameless_player_joins_under_an_empty_name() {
    let mut game = GameState::new();
    assert!(game.add_player(7, PlayerConnection::new()));
    assert_eq!(messages(&game), vec![" has joined the game"]);
    assert_eq!(game.project(7).players[0].name, "");
    assert_eq!(game.get_player_secret(&7), None);
}

#[test]
fn joining_twice_replaces_the_connection() {
    let mut game = GameState::new();
    assert!(game.add_player(7, named("ann", 70)));
    assert!(game.add_player(7, named("anna", 71)));
    assert_eq!(game.project(7).players.len(), 1);
    assert_eq!(game.project(7).players[0].name, "anna");
    assert_eq!(game.get_player_secret(&7), Some(71));
    assert_eq!(messages(&game), vec!["ann has joined the game"]);
    assert_eq!(game.connection_ids(), vec![7]);
}

#[test]
fn a_lost_connection_gives_up_the_seat_in_the_lobby() {
    let mut game = GameState::new();
    assert!(game.add_player(7, named("ann", 70)));
    assert!(game.add_player(8, named("bob", 80)));
    assert!(game.add_player(9, named("cat", 90)));
    assert!(game.remove_player(7));
    let shown = game.project(8);
    assert_eq!(shown.players.len(), 2);
    // the host's office passes to the first who stays
    assert_eq!(shown.host, Some(8));
    assert!(!game.has_player(7));
    // the connection stays on file
    assert_eq!(game.get_player_secret(&7), Some(70));
    assert_eq!(game.connection_ids(), vec![7, 8, 9]);
    assert_eq!(messages(&game).last().unwrap(), "ann has disconnected");
    // who comes back is greeted as such and does not get the office back
    assert!(game.add_player(7, named("ann", 70)));
    assert_eq!(messages(&game).last().unwrap(), "ann has reconnected");
    let shown = game.project(8);
    assert_eq!(shown.host, Some(8));
    assert_eq!(shown.players.iter().map(|p| p.id).collect::<Vec<u128>>(), vec![8, 9, 7]);
}

#[test]
fn losing_a_player_who_is_not_host_keeps_the_host() {
    let mut game = GameState::new();
    assert!(game.add_player(7, named("ann", 70)));
    assert!(game.add_player(8, named("bob", 80)));
    assert!(game.remove_player(8));
    assert_eq!(game.project(7).host, Some(7));
    assert!(game.remove_player(99));
    assert_eq!(game.project(7).players.len(), 1);
    assert_eq!(messages(&game).len(), 3);
}

#[test]
fn the_last_to_go_leaves_no_host() {
    let mut game = GameState::new();
    assert!(game.add_player(7, named("ann", 70)));
    assert!(game.remove_player(7));
    assert!(!game.has_connected_players());
    assert!(game.add_player(8, named("bob", 80)));
    assert_eq!(game.project(8).host, Some(8));
}

#[test]
fn leaving_the_lobby_gives_up_seat_and_connection() {
    let mut game = GameState::new();
    assert!(game.add_player(7, named("ann", 70)));
    assert!(game.add_player(8, named("bob", 80)));
    assert!(game.delete_player(7));
    assert!(!game.has_player(7));
    assert_eq!(game.get_player_secret(&7), None);
    assert_eq!(game.connection_ids(), vec![8]);
    assert_eq!(game.project(8).host, Some(8));
    assert_eq!(messages(&game).last().unwrap(), "ann has left the lobby");
    // a stranger leaves without a word
    assert!(game.delete_player(99));
    assert_eq!(messages(&game).len(), 3);
    // who lost the connection first and leaves then is announced twice
    assert!(game.remove_player(8));
    assert!(game.delete_player(8));
    assert_eq!(
        messages(&game),
        vec![
            "ann has joined the game",
            "bob has joined the game",
            "ann has left the lobby",
            "bob has disconnected",
            "bob has left the lobby"
        ]
    );
}

#[test]
fn a_started_game_keeps_its_players() {
    let mut game = started(5);
    assert!(game.is_in_game());
    // a lost connection is marked, the seat stays
    assert!(!game.remove_player(2));
    assert!(game.has_player(2));
    assert_eq!(game.project(1).players.len(), 5);
    assert!(game.has_connected_players());
    // a stranger is not admitted, a player is
    assert!(!game.add_player(42, named("eve", 1)));
    assert!(!game.has_player(42));
    assert_eq!(game.get_player_secret(&42), None);
    assert!(game.add_player(2, named("player2 again", 102)));
    assert_eq!(game.project(1).players[1].name, "player2 again");
    assert_eq!(game.project(1).players.len(), 5);
    // leaving is only announced
    let before = messages(&game).len();
    assert!(!game.delete_player(3));
    assert!(game.has_player(3));
    assert_eq!(messages(&game).len(), before + 1);
    assert_eq!(messages(&game).last().unwrap(), "player3 has left the game");
    assert!(!game.delete_player(42));
    assert_eq!(messages(&game).len(), before + 1);
}

#[test]
fn who_left_the_lobby_before_the_start_is_not_admitted_later() {
    let mut game = GameState::new();
    for id in 1..=6u128 {
        assert!(game.add_player(id, named(&format!("player{}", id), 100 + id)));
    }
    assert!(game.remove_player(6));
    assert_eq!(game.start(1), Ok(()));
    assert_eq!(game.get_player_secret(&6), Some(106));
    assert!(!game.add_player(6, named("player6", 106)));
    assert_eq!(game.project(1).players.len(), 5);
}

#[test]
fn nobody_is_there_once_every_connection_is_down() {
    let mut game = started(5);
    for id in 1..=4u128 {
        assert!(!game.remove_player(id));
        assert!(game.has_connected_players());
    }
    assert!(!game.remove_player(5));
    assert!(!game.has_connected_players());
    assert!(game.add_player(3, named("player3", 103)));
    assert!(game.has_connected_players());
}

#[test]
fn the_chat_keeps_its_newest_250_lines() {
    let mut game = GameState::new();
    for n in 0..260 {
        game.add_chat(ChatLine { id: Some(5), message: format!("line {}", n) });
    }
    let log = game.chat_log();
    assert_eq!(log.len(), 250);
    assert_eq!(log[0].message, "line 10");
    assert_eq!(log[0].id, Some(5));
    assert_eq!(log[249].message, "line 259");
}

#[test]
fn written_lines_wait_to_be_sent_once() {
    let mut game = GameState::new();
    assert!(game.add_player(7, named("ann", 70)));
    game.add_chat(ChatLine { id: Some(7), message: "hello".to_string() });
    let waiting = game.take_chat();
    assert_eq!(waiting.len(), 2);
    assert_eq!(waiting[0].id, None);
    assert_eq!(waiting[0].message, "ann has joined the game");
    assert_eq!(waiting[1].id, Some(7));
    assert_eq!(waiting[1].message, "hello");
    assert!(game.take_chat().is_empty());
    assert_eq!(game.chat_log().len(), 2);
    let system = ChatLine::system("note".to_string());
    assert_eq!(system.id, None);
    game.add_chat(system);
    assert_eq!(game.take_chat().len(), 1);
}

#[test]
fn a_seating_deals_legal_roles_and_orders_every_player_once() {
    let mut game = GameState::new();
    for id in 1..=5u128 {
        assert!(game.add_player(id, named(&format!("player{}", id), 100 + id)));
    }
    let roles = vec![
        PlayerType::Liberal,
        PlayerType::Hitler,
        PlayerType::Liberal,
        PlayerType::Facist,
        PlayerType::Liberal,
    ];
    assert!(game.is_seating(&roles, &vec![3, 1, 5, 2, 4]));
    assert!(!game.is_seating(&roles, &vec![3, 1, 5, 2]));
    assert!(!game.is_seating(&roles, &vec![3, 1, 5, 2, 2]));
    assert!(!game.is_seating(&roles, &vec![3, 1, 5, 2, 6]));
    assert!(!game.is_seating(&roles, &vec![3, 1, 5, 2, 4, 4]));
    let two_hitlers = vec![
        PlayerType::Liberal,
        PlayerType::Hitler,
        PlayerType::Hitler,
        PlayerType::Facist,
        PlayerType::Liberal,
    ];
    assert!(!game.is_seating(&two_hitlers, &vec![3, 1, 5, 2, 4]));
    assert!(!game.is_seating(&roles[..4].to_vec(), &vec![3, 1, 5, 2, 4]));
    assert_eq!(game.start_with(1, roles.clone(), vec![3, 1, 5, 2, 4]), Ok(()));
    let shown = game.project(4);
    assert_eq!(shown.turn_phase, TurnPhase::Electing);
    assert_eq!(shown.turn_order, vec![3, 1, 5, 2, 4]);
    assert_eq!(shown.president, Some(3));
    assert_eq!(
        shown.players.iter().map(|p| p.role.unwrap()).collect::<Vec<PlayerType>>(),
        roles
    );
    assert_eq!(shown.num_facists, 1);
}

#[test]
fn a_seating_is_not_asked_for_where_the_start_is_turned_down() {
    let mut game = GameState::new();
    for id in 1..=4u128 {
        assert!(game.add_player(id, named(&format!("player{}", id), 100 + id)));
    }
    assert_eq!(
        game.start_with(1, Vec::new(), Vec::new()),
        Err(secrethitler::error::Rejection::PlayerCount)
    );
    assert_eq!(
        game.start_with(2, Vec::new(), Vec::new()),
        Err(secrethitler::error::Rejection::NotHost)
    );
}
