use secrethitler::error::{ErrorKind, Rejection};
use secrethitler::game_state::{CardColor, GameState, PlayerType};
use secrethitler::protocol::PlayerConnection;

const L: CardColor = CardColor::Liberal;
const F: CardColor = CardColor::Facist;

fn seat(id: u128) -> PlayerConnection {
    PlayerConnection { name: Some(format!("player{}", id)), secret: Some(1000 + id), connected: true }
}

fn five() -> GameState {
    let mut deck = vec![L; 6];
    deck.extend(vec![F; 11]);
    let mut game = GameState::with_deck(deck).expect("a full deck");
    for id in 1..=5u128 {
        assert!(game.add_player(id, seat(id)));
    }
    let roles = vec![
        PlayerType::Liberal,
        PlayerType::Liberal,
        PlayerType::Liberal,
        PlayerType::Facist,
        PlayerType::Hitler,
    ];
    assert_eq!(game.start_with(1, roles, vec![1, 2, 3, 4, 5]), Ok(()));
    game
}

fn snapshot(game: &GameState) -> String {
    format!("{:?}{:?}", game.project(1), game.project(5))
}

#[test]
fn moves_in_the_lobby_are_turned_down() {
    let mut game = GameState::new();
    for id in 1..=5u128 {
        assert!(game.add_player(id, seat(id)));
    }
    let before = snapshot(&game);
    assert_eq!(game.choose_chancellor(1, 2), Err(Rejection::NotNow));
    assert_eq!(game.vote_chancellor(1, true), Err(Rejection::NotNow));
    assert_eq!(game.pick_card(1, L), Err(Rejection::NotNow));
    assert_eq!(game.veto(1), Err(Rejection::VetoNotNow));
    assert_eq!(game.execute_presidential_power(1, None), Err(Rejection::NotActingPresident));
    assert_eq!(snapshot(&game), before);
    assert_eq!(Rejection::NotNow.kind(), ErrorKind::WrongPhase);
}

#[test]
fn a_nomination_is_checked_step_by_step() {
    let mut game = five();
    let before = snapshot(&game);
    assert_eq!(game.choose_chancellor(2, 3), Err(Rejection::NotPresident));
    assert_eq!(game.choose_chancellor(99, 3), Err(Rejection::NotPresident));
    assert_eq!(game.choose_chancellor(1, 1), Err(Rejection::SelfNominated));
    assert_eq!(game.choose_chancellor(1, 99), Err(Rejection::NoSuchTarget));
    assert_eq!(snapshot(&game), before);
    assert_eq!(game.pick_card(1, F), Err(Rejection::NotNow));
    assert_eq!(game.execute_presidential_power(1, Some(2)), Err(Rejection::NoPowerPending));
    assert_eq!(game.choose_chancellor(1, 2), Ok(()));
    assert_eq!(game.choose_chancellor(1, 3), Err(Rejection::NotNow));
    assert_eq!(Rejection::NotPresident.kind(), ErrorKind::NotAuthorized);
    assert_eq!(Rejection::NoSuchTarget.kind(), ErrorKind::InvalidTarget);
}

#[test]
fn a_ballot_needs_a_living_player() {
    let mut game = five();
    assert_eq!(game.choose_chancellor(1, 2), Ok(()));
    let before = snapshot(&game);
    assert_eq!(game.vote_chancellor(99, true), Err(Rejection::NoSuchPlayer));
    assert_eq!(snapshot(&game), before);
    assert_eq!(Rejection::NoSuchPlayer.kind(), ErrorKind::PlayerNotFound);
}

#[test]
fn a_pick_needs_the_right_hand_and_the_right_card() {
    // top three cards: three fascist ones
    let mut game = five();
    assert_eq!(game.choose_chancellor(1, 2), Ok(()));
    for voter in 1..=5u128 {
        assert_eq!(game.vote_chancellor(voter, true), Ok(()));
    }
    let before = snapshot(&game);
    assert_eq!(game.pick_card(2, F), Err(Rejection::NotSelecting));
    assert_eq!(game.pick_card(99, F), Err(Rejection::NotSelecting));
    assert_eq!(game.pick_card(1, L), Err(Rejection::NotInHand));
    assert_eq!(game.vote_chancellor(1, true), Err(Rejection::NotNow));
    assert_eq!(game.choose_chancellor(1, 3), Err(Rejection::NotNow));
    assert_eq!(snapshot(&game), before);
    assert_eq!(game.pick_card(1, F), Ok(()));
    let before = format!("{:?}{:?}", game.project(1), game.project(2));
    assert_eq!(game.pick_card(1, F), Err(Rejection::NotSelecting));
    assert_eq!(game.pick_card(2, L), Err(Rejection::NotOnOffer));
    assert_eq!(format!("{:?}{:?}", game.project(1), game.project(2)), before);
    assert_eq!(Rejection::NotSelecting.kind(), ErrorKind::NotAuthorized);
    assert_eq!(Rejection::NotInHand.kind(), ErrorKind::InvalidChoice);
    assert_eq!(Rejection::NotOnOffer.kind(), ErrorKind::InvalidChoice);
}

const ALL: [Rejection; 24] = [
    Rejection::AlreadyStarted,
    Rejection::NotHost,
    Rejection::PlayerCount,
    Rejection::NotNow,
    Rejection::NotPresident,
    Rejection::SelfNominated,
    Rejection::TermLimited,
    Rejection::TargetDead,
    Rejection::NoSuchTarget,
    Rejection::VoterDead,
    Rejection::NoSuchPlayer,
    Rejection::VetoNotNow,
    Rejection::VetoLocked,
    Rejection::NotInGovernment,
    Rejection::NotSelecting,
    Rejection::NotInHand,
    Rejection::NotOnOffer,
    Rejection::NotActingPresident,
    Rejection::NoPowerPending,
    Rejection::SelfInvestigated,
    Rejection::NoTarget,
    Rejection::SelfElected,
    Rejection::SelfExecuted,
    Rejection::AlreadyDead,
];

#[test]
fn every_rejection_has_its_notice() {
    let notices = [
        "The game has already started!",
        "Only the host may start the game!",
        "There are too many or too few players to start a game!",
        "You cannot perform this action at this time!",
        "You are not the president, so you cannot choose the chancellor!",
        "You cannot choose yourself. You must choose another player as the chancellor.",
        "You cannot choose the last elected president or chancellor.",
        "That player is dead!",
        "That player does not exist!",
        "You are dead and therefore cannot vote!",
        "This player does not exist!",
        "You cannot veto a policy decision at this time!",
        "You cannot veto policies until 5 facist policies have been passed.",
        "Only the president and the chancellor may participate in the veto process.",
        "Only the president may select policies at this time.",
        "That policy is not a valid option.",
        "This policy is not available to enact.",
        "Only the current president may execute presidential powers.",
        "You cannot execute a presidential power at this time.",
        "You cannot investigate yourself!",
        "You must select a player!",
        "You cannot choose yourself!",
        "You cannot execute yourself!",
        "That player is already dead!",
    ];
    for (rejection, notice) in ALL.iter().zip(notices.iter()) {
        assert_eq!(rejection.message(), *notice);
    }
}

#[test]
fn every_rejection_has_its_kind() {
    let kinds = [
        ErrorKind::WrongPhase,
        ErrorKind::NotAuthorized,
        ErrorKind::WrongPhase,
        ErrorKind::WrongPhase,
        ErrorKind::NotAuthorized,
        ErrorKind::InvalidTarget,
        ErrorKind::InvalidTarget,
        ErrorKind::InvalidTarget,
        ErrorKind::InvalidTarget,
        ErrorKind::NotAuthorized,
        ErrorKind::PlayerNotFound,
        ErrorKind::WrongPhase,
        ErrorKind::PowerLocked,
        ErrorKind::NotAuthorized,
        ErrorKind::NotAuthorized,
        ErrorKind::InvalidChoice,
        ErrorKind::InvalidChoice,
        ErrorKind::NotAuthorized,
        ErrorKind::WrongPhase,
        ErrorKind::InvalidTarget,
        ErrorKind::InvalidTarget,
        ErrorKind::InvalidTarget,
        ErrorKind::InvalidTarget,
        ErrorKind::InvalidTarget,
    ];
    for (rejection, kind) in ALL.iter().zip(kinds.iter()) {
        assert_eq!(rejection.kind(), *kind);
    }
}
