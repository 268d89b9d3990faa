//! Selecting a policy, and the veto.

use crate::cards::CardColor;
use crate::error::Rejection;
use crate::game_state::GameState;
use crate::model::GameModel;
use crate::phase::TurnPhase;
use crate::roster::PlayerId;
use crate::rules::{first_of, without_card};
use crate::wellformed::{lemma_picks_wf, lemma_vetoes_wf, lemma_without_card};
use vstd::prelude::*;

verus! {

/// Takes the first card of `color` out of `hand`, if there is one, and says
/// whether there was.
pub(crate) fn take_card(hand: &mut Vec<CardColor>, color: CardColor) -> (found: bool)
    ensures
        found == old(hand)@.contains(color),
        found ==> final(hand)@ == without_card(old(hand)@, color),
        !found ==> final(hand)@ == old(hand)@,
{
    let mut i: usize = 0;
    while i < hand.len()
        invariant
            i <= hand.len(),
            hand@ == old(hand)@,
            forall|k: int| 0 <= k < i ==> hand@[k] != color,
        decreases hand.len() - i,
    {
        if hand[i] == color {
            proof {
                assert(first_of(hand@, color) == i);
            }
            let _ = hand.remove(i);
            return true;
        }
        i += 1;
    }
    false
}

impl GameState {
    /// A member of the government picks a card of `color` from the hand.
    /// The president sets it aside: it goes to the discard pile and the two
    /// cards left go to the chancellor. The chancellor enacts it: the card
    /// left over goes to the discard pile. A call that is turned down changes
    /// nothing.
    pub fn pick_card(&mut self, player: PlayerId, color: CardColor) -> (result: Result<
        (),
        Rejection,
    >)
        requires
            old(self)@.wf(),
        ensures
            final(self)@.wf(),
            match result {
                Ok(()) => old(self)@.pick_rejection(player, color) is None && old(self)@.picks(
                    color,
                    final(self)@,
                ),
                Err(why) => old(self)@.pick_rejection(player, color) == Some(why) && final(self)@
                    == old(self)@,
            },
    {
        match self.turn_phase {
            TurnPhase::PresidentSelect => {
                if self.president != Some(player) {
                    return Err(Rejection::NotSelecting);
                }
                if !take_card(&mut self.hand, color) {
                    return Err(Rejection::NotInHand);
                }
                self.discarded.push(color);
                self.president_veto = false;
                self.chancellor_veto = false;
                self.turn_phase = TurnPhase::ChancellorSelect;
                proof {
                    lemma_picks_wf(old(self)@, player, color, self@);
                }
                Ok(())
            },
            TurnPhase::ChancellorSelect => {
                if self.chancellor != Some(player) {
                    return Err(Rejection::NotSelecting);
                }
                if !take_card(&mut self.hand, color) {
                    return Err(Rejection::NotOnOffer);
                }
                self.discarded.append(&mut self.hand);
                proof {
                    let played = GameModel {
                        hand: Seq::empty(),
                        discarded: old(self)@.discarded + without_card(old(self)@.hand, color),
                        ..old(self)@
                    };
                    lemma_without_card(old(self)@.hand, color);
                    crate::cards::lemma_count_concat(
                        old(self)@.discarded,
                        without_card(old(self)@.hand, color),
                        CardColor::Liberal,
                    );
                    crate::cards::lemma_count_concat(
                        old(self)@.discarded,
                        without_card(old(self)@.hand, color),
                        CardColor::Facist,
                    );
                    crate::cards::lemma_count_empty(played.hand, CardColor::Liberal);
                    crate::cards::lemma_count_empty(played.hand, CardColor::Facist);
                }
                self.enact_policy(color);
                Ok(())
            },
            _ => Err(Rejection::NotNow),
        }
    }

    /// A member of the government agrees to veto the cards in the
    /// chancellor's hand, which takes five fascist policies on the board.
    /// Once president and chancellor both agree, the hand goes to the discard
    /// pile and the government counts as failed. A call that is turned down
    /// changes nothing.
    pub fn veto(&mut self, player: PlayerId) -> (result: Result<(), Rejection>)
        requires
            old(self)@.wf(),
        ensures
            final(self)@.wf(),
            match result {
                Ok(()) => old(self)@.veto_rejection(player) is None && old(self)@.vetoes(
                    player,
                    final(self)@,
                ),
                Err(why) => old(self)@.veto_rejection(player) == Some(why) && final(self)@ == old(self)@,
            },
    {
        if self.turn_phase != TurnPhase::ChancellorSelect {
            return Err(Rejection::VetoNotNow);
        }
        if self.facist_policies < 5 {
            return Err(Rejection::VetoLocked);
        }
        if self.chancellor == Some(player) {
            self.chancellor_veto = true;
        } else if self.president == Some(player) {
            self.president_veto = true;
        } else {
            return Err(Rejection::NotInGovernment);
        }
        let ghost agreed = old(self)@.consented(player);
        if self.president_veto && self.chancellor_veto {
            self.discarded.append(&mut self.hand);
            proof {
                let tossed = GameModel {
                    hand: Seq::empty(),
                    discarded: agreed.discarded + agreed.hand,
                    ..agreed
                };
                crate::cards::lemma_count_concat(
                    agreed.discarded,
                    agreed.hand,
                    CardColor::Liberal,
                );
                crate::cards::lemma_count_concat(agreed.discarded, agreed.hand, CardColor::Facist);
                crate::cards::lemma_count_empty(tossed.hand, CardColor::Liberal);
                crate::cards::lemma_count_empty(tossed.hand, CardColor::Facist);
            }
            self.government_fails();
        }
        proof {
            lemma_vetoes_wf(old(self)@, player, self@);
        }
        Ok(())
    }
}

} // verus!
