//! The policy cards: their colours, the stock of seventeen, and how piles
//! are counted and shuffled.

use rand::seq::SliceRandom;
use rand::thread_rng;
use vstd::multiset::*;
use vstd::prelude::*;
use vstd::seq_lib::*;

verus! {

/// The colour of a policy card.
#[derive(Clone, Copy, Debug, PartialEq, Eq, Structural)]
pub enum CardColor {
    Facist,
    Liberal,
}

/// Number of liberal cards in the policy stock.
pub const LIBERAL_CARDS: usize = 6;

/// Number of fascist cards in the policy stock.
pub const FACIST_CARDS: usize = 11;

/// Size of the whole policy stock.
pub const DECK_SIZE: usize = 17;

/// How many cards of `color` lie in `pile`.
pub open spec fn count_of(pile: Seq<CardColor>, color: CardColor) -> nat {
    pile.to_multiset().count(color)
}

/// A pile that holds the whole stock: six liberal and eleven fascist cards.
pub open spec fn is_full_deck(pile: Seq<CardColor>) -> bool {
    &&& pile.len() == DECK_SIZE
    &&& count_of(pile, CardColor::Liberal) == LIBERAL_CARDS
    &&& count_of(pile, CardColor::Facist) == FACIST_CARDS
}

/// The text of a colour as it appears in announcements.
pub open spec fn color_name(color: CardColor) -> Seq<char> {
    match color {
        CardColor::Facist => "facist"@,
        CardColor::Liberal => "liberal"@,
    }
}

/// Every card is liberal or fascist, so the two counts make up the pile.
pub proof fn lemma_counts_cover(pile: Seq<CardColor>)
    ensures
        count_of(pile, CardColor::Liberal) + count_of(pile, CardColor::Facist) == pile.len(),
    decreases pile.len(),
{
    broadcast use group_multiset_axioms, group_to_multiset_ensures;

    if pile.len() == 0 {
    } else {
        let rest = pile.drop_last();
        lemma_counts_cover(rest);
        assert(pile =~= rest.push(pile.last()));
    }
}

/// An empty pile holds no card of any colour.
pub proof fn lemma_count_empty(pile: Seq<CardColor>, color: CardColor)
    requires
        pile.len() == 0,
    ensures
        count_of(pile, color) == 0,
{
    broadcast use group_multiset_axioms, group_to_multiset_ensures;

}

/// Putting a card on a pile raises the count of its colour by one.
pub proof fn lemma_count_push(pile: Seq<CardColor>, card: CardColor, color: CardColor)
    ensures
        count_of(pile.push(card), color) == count_of(pile, color) + if card == color {
            1nat
        } else {
            0nat
        },
{
    broadcast use group_multiset_axioms, group_to_multiset_ensures;

}

/// The count over two piles laid together is the sum of their counts.
pub proof fn lemma_count_concat(a: Seq<CardColor>, b: Seq<CardColor>, color: CardColor)
    ensures
        count_of(a + b, color) == count_of(a, color) + count_of(b, color),
{
    lemma_multiset_commutative(a, b);
}

/// Cutting a pile at `k` splits each count between the two parts.
pub proof fn lemma_count_split(pile: Seq<CardColor>, k: int, color: CardColor)
    requires
        0 <= k <= pile.len(),
    ensures
        count_of(pile, color) == count_of(pile.subrange(0, k), color) + count_of(
            pile.subrange(k, pile.len() as int),
            color,
        ),
{
    assert(pile =~= pile.subrange(0, k) + pile.subrange(k, pile.len() as int));
    lemma_count_concat(pile.subrange(0, k), pile.subrange(k, pile.len() as int), color);
}

/// Taking the card at `i` out of a pile lowers the count of its colour by one.
pub proof fn lemma_count_remove(pile: Seq<CardColor>, i: int, color: CardColor)
    requires
        0 <= i < pile.len(),
    ensures
        count_of(pile, color) == count_of(pile.remove(i), color) + if pile[i] == color {
            1nat
        } else {
            0nat
        },
{
    broadcast use group_multiset_axioms, group_to_multiset_ensures;

}

impl CardColor {
    /// The colour's name in announcements.
    pub fn name(&self) -> (text: &'static str)
        ensures
            text@ == color_name(*self),
    {
        match self {
            CardColor::Facist => "facist",
            CardColor::Liberal => "liberal",
        }
    }
}

/// Rearranges `items` with `rand::seq::SliceRandom::shuffle`, drawing from
/// `rand::thread_rng()`. The shuffle only swaps elements of the slice, so what
/// comes back holds the same items, each as often as before; nothing is said
/// of their order. `thread_rng` panics only when the operating system cannot
/// seed the generator.
#[verifier::external_body]
pub(crate) fn shuffle<T>(items: &mut Vec<T>)
    ensures
        final(items)@.to_multiset() == old(items)@.to_multiset(),
{
    items.shuffle(&mut thread_rng());
}

/// The whole stock in a fixed order: the liberal cards below the fascist ones.
pub fn sorted_deck() -> (deck: Vec<CardColor>)
    ensures
        deck@ == Seq::new(LIBERAL_CARDS as nat, |i: int| CardColor::Liberal) + Seq::new(
            FACIST_CARDS as nat,
            |i: int| CardColor::Facist,
        ),
        is_full_deck(deck@),
{
    let mut deck: Vec<CardColor> = Vec::new();
    let mut i: usize = 0;
    proof {
        lemma_count_empty(deck@, CardColor::Liberal);
        lemma_count_empty(deck@, CardColor::Facist);
    }
    while i < LIBERAL_CARDS
        invariant
            i <= LIBERAL_CARDS,
            deck@ == Seq::new(i as nat, |k: int| CardColor::Liberal),
            count_of(deck@, CardColor::Liberal) == i,
            count_of(deck@, CardColor::Facist) == 0,
        decreases LIBERAL_CARDS - i,
    {
        proof {
            lemma_count_push(deck@, CardColor::Liberal, CardColor::Liberal);
            lemma_count_push(deck@, CardColor::Liberal, CardColor::Facist);
        }
        deck.push(CardColor::Liberal);
        i += 1;
    }
    let mut j: usize = 0;
    while j < FACIST_CARDS
        invariant
            j <= FACIST_CARDS,
            deck@ == Seq::new(LIBERAL_CARDS as nat, |k: int| CardColor::Liberal) + Seq::new(
                j as nat,
                |k: int| CardColor::Facist,
            ),
            count_of(deck@, CardColor::Liberal) == LIBERAL_CARDS,
            count_of(deck@, CardColor::Facist) == j,
        decreases FACIST_CARDS - j,
    {
        proof {
            lemma_count_push(deck@, CardColor::Facist, CardColor::Liberal);
            lemma_count_push(deck@, CardColor::Facist, CardColor::Facist);
        }
        deck.push(CardColor::Facist);
        j += 1;
    }
    deck
}

/// A freshly shuffled stock of seventeen cards.
pub fn shuffle_deck() -> (deck: Vec<CardColor>)
    ensures
        is_full_deck(deck@),
{
    let mut deck = sorted_deck();
    let ghost before = deck@;
    shuffle(&mut deck);
    proof {
        broadcast use group_to_multiset_ensures;

        assert(before.len() == before.to_multiset().len());
    }
    deck
}

/// Counts the cards of `color` in `pile`.
pub fn count_cards(pile: &Vec<CardColor>, color: CardColor) -> (n: usize)
    ensures
        n == count_of(pile@, color),
{
    let mut n: usize = 0;
    let mut i: usize = 0;
    proof {
        lemma_count_empty(pile@.subrange(0, 0), color);
    }
    while i < pile.len()
        invariant
            i <= pile.len(),
            n == count_of(pile@.subrange(0, i as int), color),
            n <= i,
        decreases pile.len() - i,
    {
        proof {
            assert(pile@.subrange(0, i + 1) =~= pile@.subrange(0, i as int).push(pile@[i as int]));
            lemma_count_push(pile@.subrange(0, i as int), pile@[i as int], color);
        }
        if pile[i] == color {
            n += 1;
        }
        i += 1;
    }
    proof {
        assert(pile@.subrange(0, i as int) =~= pile@);
    }
    n
}

/// Whether `pile` holds the whole stock.
pub fn is_full(pile: &Vec<CardColor>) -> (full: bool)
    ensures
        full == is_full_deck(pile@),
{
    pile.len() == DECK_SIZE && count_cards(pile, CardColor::Liberal) == LIBERAL_CARDS
        && count_cards(pile, CardColor::Facist) == FACIST_CARDS
}

} // verus!
