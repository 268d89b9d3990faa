use secrethitler::cards::{
    count_cards, is_full, shuffle_deck, sorted_deck, CardColor, DECK_SIZE, FACIST_CARDS,
    LIBERAL_CARDS,
};
use secrethitler::game_state::{GameState, PlayerType, PresidentialPower};
use secrethitler::phase::power_after;
use secrethitler::protocol::PlayerConnection;
use secrethitler::game_state::PlayerType::{Facist, Hitler, Liberal};
use secrethitler::game_state::PresidentialPower::{
    CallSpecialElection, Execution, InvestigateLoyalty, PolicyPeek,
};
use secrethitler::roles::{
    assign_roles, count_role, facist_seats_for, is_assignment, MAX_PLAYERS, MIN_PLAYERS,
};

#[test]
fn the_stock_is_six_liberal_and_eleven_fascist_cards() {
    assert_eq!((LIBERAL_CARDS, FACIST_CARDS, DECK_SIZE), (6, 11, 17));
    let deck = sorted_deck();
    assert_eq!(deck.len(), 17);
    assert!(deck[..6].iter().all(|c| *c == CardColor::Liberal));
    assert!(deck[6..].iter().all(|c| *c == CardColor::Facist));
    assert_eq!(count_cards(&deck, CardColor::Liberal), 6);
    assert_eq!(count_cards(&deck, CardColor::Facist), 11);
    assert_eq!(count_cards(&Vec::new(), CardColor::Facist), 0);
    assert!(is_full(&deck));
    assert_eq!(CardColor::Liberal.name(), "liberal");
    assert_eq!(CardColor::Facist.name(), "facist");
}

#[test]
fn only_the_whole_stock_makes_a_game() {
    let mut deck = sorted_deck();
    assert!(GameState::with_deck(deck.clone()).is_some());
    deck.pop();
    assert!(!is_full(&deck));
    assert!(GameState::with_deck(deck.clone()).is_none());
    deck.push(CardColor::Liberal);
    assert!(!is_full(&deck));
    assert!(GameState::with_deck(deck.clone()).is_none());
    deck.push(CardColor::Facist);
    assert!(GameState::with_deck(deck).is_none());
    assert!(GameState::with_deck(Vec::new()).is_none());
}

#[test]
fn a_shuffled_deck_is_the_whole_stock_in_some_order() {
    let sorted = sorted_deck();
    let mut moved = false;
    for _ in 0..20 {
        let deck = shuffle_deck();
        assert!(is_full(&deck));
        assert_eq!(count_cards(&deck, CardColor::Liberal), 6);
        assert_eq!(count_cards(&deck, CardColor::Facist), 11);
        moved = moved || deck != sorted;
    }
    assert!(moved);
}

#[test]
fn new_games_differ_in_their_first_hand() {
    let mut hands = Vec::new();
    for _ in 0..60 {
        let mut game = GameState::new();
        for id in 1..=5u128 {
            assert!(game.add_player(id, PlayerConnection::new()));
        }
        assert_eq!(game.start(1), Ok(()));
        let president = game.project(1).president.unwrap();
        let nominee = (1..=5u128).find(|id| *id != president).unwrap();
        assert_eq!(game.choose_chancellor(president, nominee), Ok(()));
        for voter in 1..=5u128 {
            assert_eq!(game.vote_chancellor(voter, true), Ok(()));
        }
        hands.push((president, game.project(president).cards.unwrap()));
    }
    assert!(hands.iter().any(|(_, hand)| hand.contains(&CardColor::Liberal)));
    assert!(hands.iter().any(|(president, _)| *president != hands[0].0));
}

#[test]
fn the_table_decides_the_number_of_fascists() {
    assert_eq!((MIN_PLAYERS, MAX_PLAYERS), (5, 10));
    let seats: Vec<usize> = (5..=10).map(facist_seats_for).collect();
    assert_eq!(seats, vec![1, 1, 2, 2, 3, 3]);
}

#[test]
fn dealt_roles_are_a_legal_assignment() {
    for n in 5..=10usize {
        let mut orders = Vec::new();
        for _ in 0..20 {
            let roles = assign_roles(n);
            assert_eq!(roles.len(), n);
            assert_eq!(count_role(&roles, PlayerType::Hitler), 1);
            assert_eq!(count_role(&roles, PlayerType::Facist), facist_seats_for(n));
            assert_eq!(
                count_role(&roles, PlayerType::Liberal),
                n - 1 - facist_seats_for(n)
            );
            assert!(is_assignment(&roles, n));
            orders.push(roles);
        }
        assert!(orders.iter().any(|roles| *roles != orders[0]));
    }
}

#[test]
fn an_assignment_has_one_hitler_and_the_tables_fascists() {
    assert!(is_assignment(&vec![Liberal, Hitler, Liberal, Facist, Liberal], 5));
    assert!(!is_assignment(&vec![Liberal, Hitler, Liberal, Facist, Liberal], 6));
    assert!(!is_assignment(&vec![Liberal, Hitler, Hitler, Facist, Liberal], 5));
    assert!(!is_assignment(&vec![Liberal, Liberal, Liberal, Facist, Liberal], 5));
    assert!(!is_assignment(&vec![Liberal, Hitler, Facist, Facist, Liberal], 5));
    assert!(is_assignment(&vec![Liberal, Hitler, Facist, Facist, Liberal, Liberal, Liberal], 7));
    assert!(!is_assignment(&vec![Liberal, Hitler, Facist, Liberal, Liberal, Liberal, Liberal], 7));
    assert_eq!(count_role(&Vec::new(), Hitler), 0);
}

#[test]
fn powers_come_with_fascist_policies() {
    let expected: [(usize, [Option<PresidentialPower>; 5]); 6] = [
        (5, [None, None, Some(PolicyPeek), Some(Execution), Some(Execution)]),
        (6, [None, None, Some(PolicyPeek), Some(Execution), Some(Execution)]),
        (7, [None, Some(InvestigateLoyalty), Some(CallSpecialElection), Some(Execution), Some(Execution)]),
        (8, [None, Some(InvestigateLoyalty), Some(CallSpecialElection), Some(Execution), Some(Execution)]),
        (
            9,
            [
                Some(InvestigateLoyalty),
                Some(InvestigateLoyalty),
                Some(CallSpecialElection),
                Some(Execution),
                Some(Execution),
            ],
        ),
        (
            10,
            [
                Some(InvestigateLoyalty),
                Some(InvestigateLoyalty),
                Some(CallSpecialElection),
                Some(Execution),
                Some(Execution),
            ],
        ),
    ];
    for (players, powers) in expected {
        for (policies, power) in powers.iter().enumerate() {
            assert_eq!(power_after(players, policies as u8 + 1), *power);
        }
        assert_eq!(power_after(players, 0), None);
        assert_eq!(power_after(players, 6), None);
    }
}

#[test]
fn distinct_ids_are_told_from_repeated_ones() {
    assert!(secrethitler::lobby::all_distinct(&Vec::new()));
    assert!(secrethitler::lobby::all_distinct(&vec![4, 2, 9]));
    assert!(!secrethitler::lobby::all_distinct(&vec![4, 2, 4]));
    assert!(!secrethitler::lobby::all_distinct(&vec![4, 2, 9, 9]));
}
