//! Why the moves of a turn keep a game well formed.

use crate::cards::{
    count_of, lemma_count_concat, lemma_count_empty, lemma_count_push, lemma_count_remove,
    lemma_count_split, lemma_counts_cover, CardColor, FACIST_CARDS, LIBERAL_CARDS,
};
use crate::model::GameModel;
use crate::phase::{PresidentialPower, TurnPhase};
use crate::roles::MAX_PLAYERS;
use crate::roster::{distinct_seats, has_seat, roles_of, seat_of, PlayerId, PlayerState};
use crate::rules::{drawn_from, first_of, replenished, without_card, without_votes};
use vstd::prelude::*;
use vstd::seq_lib::*;

verus! {

/// Two seatings with the same ids in the same places seat the same players
/// in the same places.
pub proof fn lemma_same_ids(before: Seq<PlayerState>, after: Seq<PlayerState>)
    requires
        distinct_seats(before),
        before.len() == after.len(),
        forall|i: int| 0 <= i < before.len() ==> (#[trigger] after[i]).id == before[i].id,
    ensures
        distinct_seats(after),
        forall|id: PlayerId| has_seat(after, id) == has_seat(before, id),
        forall|id: PlayerId| has_seat(before, id) ==> seat_of(after, id) == seat_of(before, id),
{
    assert forall|id: PlayerId| has_seat(after, id) == has_seat(before, id) by {
        if has_seat(before, id) {
            let i = seat_of(before, id);
            assert(after[i].id == id);
        }
    }
}

/// Where `color` is in `hand`, its first place is a place of `hand` that
/// holds `color`, and no earlier place does.
pub proof fn lemma_first_of(hand: Seq<CardColor>, color: CardColor)
    requires
        hand.contains(color),
    ensures
        0 <= first_of(hand, color) < hand.len(),
        hand[first_of(hand, color)] == color,
        forall|j: int| 0 <= j < first_of(hand, color) ==> hand[j] != color,
{
    let k = choose|k: int| 0 <= k < hand.len() && hand[k] == color;
    lemma_first_before(hand, color, k);
}

proof fn lemma_first_before(hand: Seq<CardColor>, color: CardColor, k: int)
    requires
        0 <= k < hand.len(),
        hand[k] == color,
    ensures
        exists|i: int|
            0 <= i < hand.len() && hand[i] == color && forall|j: int|
                0 <= j < i ==> hand[j] != color,
    decreases k,
{
    if forall|j: int| 0 <= j < k ==> hand[j] != color {
    } else {
        let j = choose|j: int| 0 <= j < k && hand[j] == color;
        lemma_first_before(hand, color, j);
    }
}

impl GameModel {
    /// What holds of a running game between the steps of a move, whatever
    /// the piles and the counter of the turn order are at.
    pub open spec fn turn_ready(self) -> bool {
        &&& self.roster_wf()
        &&& self.board_wf()
        &&& self.table_wf()
        &&& self.turn_phase.is_running()
        &&& self.turn_order.len() > 0
        &&& self.turn_counter <= MAX_PLAYERS
        &&& self.chancellor matches Some(c) ==> self.has_player(c) && self.president != Some(c)
    }

    /// What holds of a running game between the steps of a move, whatever
    /// the piles are at.
    pub open spec fn mid_turn_wf(self) -> bool {
        &&& self.turn_ready()
        &&& self.turn_counter < self.turn_order.len()
        &&& self.president matches Some(p) && self.turn_order.contains(p)
    }

    /// The hand is empty and `card` has left the piles without being on the
    /// board yet.
    pub open spec fn owes(self, card: CardColor) -> bool {
        &&& self.hand.len() == 0
        &&& self.in_play(CardColor::Liberal) + self.liberal_policies + (if card
            == CardColor::Liberal {
            1nat
        } else {
            0nat
        }) == LIBERAL_CARDS
        &&& self.in_play(CardColor::Facist) + self.facist_policies + (if card == CardColor::Facist {
            1nat
        } else {
            0nat
        }) == FACIST_CARDS
    }
}

/// The piles and the hand hold as many cards as they hold liberal and
/// fascist ones.
pub proof fn lemma_piles_len(m: GameModel)
    ensures
        m.cards.len() + m.discarded.len() + m.hand.len() == m.in_play(CardColor::Liberal)
            + m.in_play(CardColor::Facist),
{
    lemma_counts_cover(m.cards);
    lemma_counts_cover(m.discarded);
    lemma_counts_cover(m.hand);
}

/// A refill keeps every card and leaves a draw pile that can serve a draw,
/// provided the two piles hold three cards or more.
pub proof fn lemma_replenished(
    cards: Seq<CardColor>,
    discarded: Seq<CardColor>,
    new_cards: Seq<CardColor>,
    new_discarded: Seq<CardColor>,
)
    requires
        replenished(cards, discarded, new_cards, new_discarded),
    ensures
        forall|c: CardColor|
            count_of(new_cards, c) + count_of(new_discarded, c) == count_of(cards, c) + count_of(
                discarded,
                c,
            ),
        new_cards.len() + new_discarded.len() == cards.len() + discarded.len(),
        cards.len() + discarded.len() >= 3 ==> new_cards.len() >= 3,
{
    if cards.len() >= 3 {
    } else {
        broadcast use group_to_multiset_ensures;

        assert((cards + discarded).len() == (cards + discarded).to_multiset().len());
        assert forall|c: CardColor|
            count_of(new_cards, c) + count_of(new_discarded, c) == count_of(cards, c) + count_of(
                discarded,
                c,
            ) by {
            lemma_count_concat(cards, discarded, c);
        }
    }
}

/// Enacting a card that has left the piles makes a well-formed game.
pub proof fn lemma_enacts_wf(m: GameModel, card: CardColor, post: GameModel)
    requires
        m.mid_turn_wf(),
        m.owes(card),
        m.enacts(card, post),
    ensures
        post.wf(),
{
    lemma_replenished(m.cards, m.discarded, post.cards, post.discarded);
    lemma_piles_len(m);
}

/// Drawing the top card for a government in chaos leaves a game that is
/// ready to enact it.
pub proof fn lemma_drawn(m: GameModel, pile: Seq<CardColor>, rest: Seq<CardColor>)
    requires
        m.turn_ready(),
        m.turn_counter < m.turn_order.len(),
        m.president matches Some(p) && m.turn_order.contains(p),
        m.hand.len() == 0,
        m.cards_conserved(),
        drawn_from(m.cards, m.discarded, pile, rest),
        pile.len() > 0,
    ensures
        (GameModel { cards: pile.drop_last(), discarded: rest, ..m }).mid_turn_wf(),
        (GameModel { cards: pile.drop_last(), discarded: rest, ..m }).owes(pile.last()),
{
    let drawn = GameModel { cards: pile.drop_last(), discarded: rest, ..m };
    let top = pile.last();
    assert forall|c: CardColor|
        count_of(drawn.cards, c) + count_of(drawn.discarded, c) + (if top == c {
            1nat
        } else {
            0nat
        }) == count_of(m.cards, c) + count_of(m.discarded, c) by {
        lemma_count_remove(pile, pile.len() - 1, c);
        if m.cards.len() == 0 {
            lemma_count_empty(m.cards, c);
            lemma_count_empty(rest, c);
        }
    }
}

/// A government that fails with an empty hand leaves a well-formed game,
/// whether the presidency passes on or the country falls into chaos.
pub proof fn lemma_government_fails_wf(m: GameModel, post: GameModel)
    requires
        m.mid_turn_wf(),
        m.hand.len() == 0,
        m.cards_conserved(),
        m.government_fails(post),
    ensures
        post.wf(),
{
    let counted = GameModel { election_tracker: m.election_tracker + 1, ..m };
    lemma_piles_len(m);
    if counted.election_tracker >= 3 {
        let (pile, rest) = choose|pile: Seq<CardColor>, rest: Seq<CardColor>| #[trigger]
            counted.chaos_from(pile, rest, post);
        let calm = GameModel { election_tracker: 0, ..counted };
        lemma_drawn(calm, pile, rest);
        let drawn = GameModel { cards: pile.drop_last(), discarded: rest, ..calm };
        lemma_enacts_wf(drawn, pile.last(), post);
    } else {
        lemma_replenished(m.cards, m.discarded, post.cards, post.discarded);
    }
}

/// Taking the ballots back changes nothing but the ballots.
pub proof fn lemma_without_votes(m: GameModel)
    requires
        m.wf(),
        !(m.turn_phase is Lobby),
    ensures
        (GameModel { players: without_votes(m.players), ..m }).wf(),
{
    let post = GameModel { players: without_votes(m.players), ..m };
    lemma_same_ids(m.players, post.players);
    assert(roles_of(post.players) =~= roles_of(m.players));
}

/// Recording a ballot changes nothing but that ballot.
pub proof fn lemma_with_ballot(m: GameModel, player: PlayerId, vote: bool)
    requires
        m.wf(),
        !(m.turn_phase is Lobby),
        m.has_player(player),
    ensures
        m.with_ballot(player, vote).wf(),
        m.with_ballot(player, vote).turn_phase == m.turn_phase,
{
    let post = m.with_ballot(player, vote);
    lemma_same_ids(m.players, post.players);
    assert(roles_of(post.players) =~= roles_of(m.players));
}

/// A legal nomination leaves a well-formed game.
pub proof fn lemma_nominated_wf(m: GameModel, player: PlayerId, target: PlayerId)
    requires
        m.wf(),
        m.nomination_rejection(player, target) is None,
    ensures
        m.nominated(target).wf(),
{
    lemma_without_votes(m);
}

/// A legal ballot leaves a well-formed game.
pub proof fn lemma_votes_wf(m: GameModel, player: PlayerId, vote: bool, post: GameModel)
    requires
        m.wf(),
        m.ballot_rejection(player) is None,
        m.votes(player, vote, post),
    ensures
        post.wf(),
{
    lemma_with_ballot(m, player, vote);
    let cast = m.with_ballot(player, vote);
    if !cast.all_voted() {
    } else if cast.elected() {
        if cast.hitler_takes_office() {
        } else {
            let k = cast.cards.len() - 3;
            lemma_count_split(cast.cards, k, CardColor::Liberal);
            lemma_count_split(cast.cards, k, CardColor::Facist);
            lemma_count_empty(cast.hand, CardColor::Liberal);
            lemma_count_empty(cast.hand, CardColor::Facist);
        }
    } else {
        let open = GameModel { chancellor: None, ..cast };
        lemma_government_fails_wf(open, post);
    }
}

/// Setting one card of the hand aside keeps every card.
pub proof fn lemma_without_card(hand: Seq<CardColor>, color: CardColor)
    requires
        hand.contains(color),
    ensures
        without_card(hand, color).len() == hand.len() - 1,
        forall|c: CardColor|
            count_of(hand, c) == count_of(without_card(hand, color), c) + if color == c {
                1nat
            } else {
                0nat
            },
{
    lemma_first_of(hand, color);
    assert forall|c: CardColor|
        count_of(hand, c) == count_of(without_card(hand, color), c) + if color == c {
            1nat
        } else {
            0nat
        } by {
        lemma_count_remove(hand, first_of(hand, color), c);
    }
}

/// A legal pick leaves a well-formed game.
pub proof fn lemma_picks_wf(m: GameModel, player: PlayerId, color: CardColor, post: GameModel)
    requires
        m.wf(),
        m.pick_rejection(player, color) is None,
        m.picks(color, post),
    ensures
        post.wf(),
{
    lemma_without_card(m.hand, color);
    if m.turn_phase is PresidentSelect {
        lemma_count_push(m.discarded, color, CardColor::Liberal);
        lemma_count_push(m.discarded, color, CardColor::Facist);
    } else {
        let played = GameModel {
            hand: Seq::empty(),
            discarded: m.discarded + without_card(m.hand, color),
            ..m
        };
        lemma_count_concat(m.discarded, without_card(m.hand, color), CardColor::Liberal);
        lemma_count_concat(m.discarded, without_card(m.hand, color), CardColor::Facist);
        lemma_count_empty(played.hand, CardColor::Liberal);
        lemma_count_empty(played.hand, CardColor::Facist);
        lemma_enacts_wf(played, color, post);
    }
}

/// A legal consent to a veto leaves a well-formed game.
pub proof fn lemma_vetoes_wf(m: GameModel, player: PlayerId, post: GameModel)
    requires
        m.wf(),
        m.veto_rejection(player) is None,
        m.vetoes(player, post),
    ensures
        post.wf(),
{
    let agreed = m.consented(player);
    if agreed.president_veto && agreed.chancellor_veto {
        let tossed = GameModel {
            hand: Seq::empty(),
            discarded: agreed.discarded + agreed.hand,
            ..agreed
        };
        lemma_count_concat(m.discarded, m.hand, CardColor::Liberal);
        lemma_count_concat(m.discarded, m.hand, CardColor::Facist);
        lemma_count_empty(tossed.hand, CardColor::Liberal);
        lemma_count_empty(tossed.hand, CardColor::Facist);
        lemma_government_fails_wf(tossed, post);
    }
}

/// Striking a living player other than the president from the game leaves
/// a game that is ready for the presidency to pass on, with the president
/// still in the turn order.
pub proof fn lemma_struck(m: GameModel, target: PlayerId)
    requires
        m.mid_turn_wf(),
        m.is_alive(target),
        m.president != Some(target),
    ensures
        m.struck(target).turn_ready(),
        m.struck(target).president matches Some(p) && m.struck(target).turn_order.contains(p),
        forall|id: PlayerId| m.struck(target).has_player(id) == m.has_player(id),
{
    let post = m.struck(target);
    lemma_same_ids(m.players, post.players);
    assert(roles_of(post.players) =~= roles_of(m.players));
    let k = m.turn_order.index_of(target);
    let order = post.turn_order;
    assert forall|id: PlayerId| m.turn_order.contains(id) && id != target implies order.contains(
        id,
    ) by {
        let a = choose|a: int| 0 <= a < m.turn_order.len() && m.turn_order[a] == id;
        if a < k {
            assert(order[a] == id);
        } else {
            assert(order[a - 1] == id);
        }
    }
}

/// A legal use of a presidential power leaves a well-formed game.
pub proof fn lemma_uses_power_wf(m: GameModel, player: PlayerId, target: Option<PlayerId>)
    requires
        m.wf(),
        m.power_rejection(player, target) is None,
    ensures
        m.uses_power(player, target).wf(),
{
    if m.turn_phase == (TurnPhase::PresidentialPower { power: PresidentialPower::Execution }) {
        let victim = target->0;
        lemma_struck(m.announced(m.execution_line(victim)), victim);
    }
}

} // verus!
