//! What holds of every game.

use crate::cards::{CardColor, DECK_SIZE, FACIST_CARDS, LIBERAL_CARDS};
use crate::chat::ChatLineModel;
use crate::model::GameModel;
use crate::projection::{has_investigated, party_of};
use crate::roles::{facist_seats, lemma_roles_cover, role_count, PlayerType};
use crate::roster::{roles_of, ConnectionModel, PlayerId};
use crate::wellformed::lemma_piles_len;
use vstd::prelude::*;

verus! {

/// A legal start at a table of `n` deals exactly one
/// Hitler, exactly as many fascists as a table of `n` calls for, and liberals
/// to all other seats; nobody joins or leaves the table on the way.
pub proof fn law_role_distribution(pre: GameModel, player: PlayerId, post: GameModel)
    requires
        pre.wf(),
        pre.start_rejection(player) is None,
        pre.starts(post),
    ensures
        5 <= post.players.len() <= 10,
        post.players.len() == pre.players.len(),
        role_count(roles_of(post.players), PlayerType::Hitler) == 1,
        role_count(roles_of(post.players), PlayerType::Facist) == facist_seats(pre.players.len()),
        role_count(roles_of(post.players), PlayerType::Liberal) == pre.players.len() - 1
            - facist_seats(pre.players.len()),
{
    lemma_roles_cover(roles_of(post.players));
}

/// The roles stay as dealt for as long as the game lasts: in every game that
/// has started there is exactly one Hitler among five to ten players, with
/// as many fascists as the table calls for and liberals on all other seats.
pub proof fn law_roles_stay(game: GameModel)
    requires
        game.wf(),
        !(game.turn_phase is Lobby),
    ensures
        5 <= game.players.len() <= 10,
        role_count(roles_of(game.players), PlayerType::Hitler) == 1,
        role_count(roles_of(game.players), PlayerType::Facist) == facist_seats(game.players.len()),
        role_count(roles_of(game.players), PlayerType::Liberal) == game.players.len() - 1
            - facist_seats(game.players.len()),
        game.num_facists == facist_seats(game.players.len()),
{
    lemma_roles_cover(roles_of(game.players));
}

/// No card is lost or made: in every game the draw pile, the discard pile, the
/// hand and the policies on the board together are the seventeen cards of
/// the stock, six of them liberal and eleven fascist.
pub proof fn law_deck_conservation(game: GameModel)
    requires
        game.wf(),
    ensures
        game.cards.len() + game.discarded.len() + game.hand.len() + game.liberal_policies
            + game.facist_policies == DECK_SIZE,
        game.in_play(CardColor::Liberal) + game.liberal_policies == LIBERAL_CARDS,
        game.in_play(CardColor::Facist) + game.facist_policies == FACIST_CARDS,
{
    lemma_piles_len(game);
}

/// Before the first policy is enacted, that is as long as the board is
/// empty, the two piles and the hand alone hold all seventeen cards, six of
/// them liberal and eleven fascist.
pub proof fn law_deck_conservation_on_empty_board(game: GameModel)
    requires
        game.wf(),
        game.liberal_policies == 0,
        game.facist_policies == 0,
    ensures
        game.cards.len() + game.discarded.len() + game.hand.len() == DECK_SIZE,
        game.in_play(CardColor::Liberal) == LIBERAL_CARDS,
        game.in_play(CardColor::Facist) == FACIST_CARDS,
{
    lemma_piles_len(game);
}

/// A game that is over stays as it is: once the game is over, every move of the game is turned
/// down, whoever makes it and whatever its arguments are. A move that is
/// turned down leaves the game as it was, so board, phase and roles stay.
pub proof fn law_ended_is_final(
    game: GameModel,
    player: PlayerId,
    target: PlayerId,
    optional_target: Option<PlayerId>,
    color: CardColor,
)
    requires
        game.wf(),
        game.turn_phase is Ended,
    ensures
        game.start_rejection(player) is Some,
        game.nomination_rejection(player, target) is Some,
        game.ballot_rejection(player) is Some,
        game.pick_rejection(player, color) is Some,
        game.veto_rejection(player) is Some,
        game.power_rejection(player, optional_target) is Some,
{
}

/// The roster does not touch the board: once the game has started, and so also
/// once it is over, joining, losing the connection, leaving and chatting
/// change neither the board nor the phase nor any player's record.
pub proof fn law_roster_leaves_board(
    game: GameModel,
    link: ConnectionModel,
    id: PlayerId,
    line: ChatLineModel,
)
    requires
        game.wf(),
        !(game.turn_phase is Lobby),
    ensures
        game.admits(link.id) ==> game.joined(link).same_board(game),
        game.disconnected(id).same_board(game),
        game.departed(id).same_board(game),
        game.with_chat(line).same_board(game),
{
}

/// Whoever sat in the last elected government as president or
/// chancellor cannot be nominated, whoever nominates.
pub proof fn law_term_limit(game: GameModel, player: PlayerId, target: PlayerId)
    requires
        game.last_president == Some(target) || game.last_chancellor == Some(target),
    ensures
        game.nomination_rejection(player, target) is Some,
{
}

/// While the game runs, a liberal is shown the role of no other
/// player whom they have not investigated.
pub proof fn law_liberal_sees_no_role(game: GameModel, observer: PlayerId, seat: int)
    requires
        game.has_player(observer),
        game.player(observer).role == PlayerType::Liberal,
        !(game.turn_phase is Ended),
        0 <= seat < game.players.len(),
        game.players[seat].id != observer,
        !has_investigated(game.investigated, observer, game.players[seat].id),
    ensures
        game.projection(observer).players[seat].role is None,
{
}

/// What an investigation shows never tells Hitler from a
/// fascist. An observer who is not shown all roles sees of another player
/// whom they have investigated only the party.
pub proof fn law_investigation_shows_party(game: GameModel, observer: PlayerId, seat: int)
    requires
        game.has_player(observer),
        !game.sees_all_roles(observer),
        0 <= seat < game.players.len(),
        game.players[seat].id != observer,
        has_investigated(game.investigated, observer, game.players[seat].id),
    ensures
        game.projection(observer).players[seat].role == Some(party_of(game.players[seat].role)),
        game.projection(observer).players[seat].role != Some(PlayerType::Hitler),
{
}

/// While a vote is open, nobody is shown another player's
/// ballot, and everybody is shown their own.
pub proof fn law_ballots_are_secret(game: GameModel, observer: PlayerId, seat: int)
    requires
        game.turn_phase is Voting,
        0 <= seat < game.players.len(),
    ensures
        game.players[seat].id != observer ==> game.projection(observer).players[seat].vote
            is None,
        game.players[seat].id == observer ==> game.projection(observer).players[seat].vote
            == game.players[seat].vote,
{
}

/// Cards are shown to the president who must pick or may look,
/// and to the chancellor who must pick, and to nobody else.
pub proof fn law_hand_is_private(game: GameModel, observer: PlayerId)
    requires
        game.wf(),
        game.president != Some(observer),
        game.chancellor != Some(observer),
    ensures
        game.projection(observer).cards is None,
{
}

/// The lobby waits for the start: before the game has started, every move
/// of the game but the start is turned down.
pub proof fn law_lobby_waits_for_start(
    game: GameModel,
    player: PlayerId,
    target: PlayerId,
    optional_target: Option<PlayerId>,
    color: CardColor,
)
    requires
        game.wf(),
        game.turn_phase is Lobby,
    ensures
        game.nomination_rejection(player, target) is Some,
        game.ballot_rejection(player) is Some,
        game.pick_rejection(player, color) is Some,
        game.veto_rejection(player) is Some,
        game.power_rejection(player, optional_target) is Some,
{
}

/// The board stays within its tracks: at most five liberal and six fascist
/// policies, and fewer than three failed governments in a row. A full track
/// means that the game is over.
pub proof fn law_board_bounds(game: GameModel)
    requires
        game.wf(),
    ensures
        game.liberal_policies <= 5,
        game.facist_policies <= 6,
        game.election_tracker < 3,
        game.liberal_policies == 5 || game.facist_policies == 6 ==> game.turn_phase is Ended,
{
}

/// President and chancellor are never the same player, and the turn order
/// never holds a dead player.
pub proof fn law_offices_and_turn_order(game: GameModel, place: int)
    requires
        game.wf(),
    ensures
        game.president is Some ==> game.president != game.chancellor,
        !(game.turn_phase is Lobby) && 0 <= place < game.turn_order.len() ==> game.is_alive(
            game.turn_order[place],
        ),
{
}

} // verus!
