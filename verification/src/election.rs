//! Nominating a chancellor and voting on the government.

use crate::cards::CardColor;
use crate::error::Rejection;
use crate::game_state::GameState;
use crate::model::GameModel;
use crate::phase::TurnPhase;
use crate::roles::PlayerType;
use crate::roster::{find_seat, PlayerId, PlayerState};
use crate::rules::{ballots_cast, tally, without_votes};
use crate::wellformed::{lemma_drawn, lemma_nominated_wf, lemma_votes_wf, lemma_with_ballot};
use vstd::prelude::*;

verus! {

/// Takes every ballot back.
pub(crate) fn clear_votes(players: &mut Vec<PlayerState>)
    ensures
        final(players)@ == without_votes(old(players)@),
{
    let mut i: usize = 0;
    while i < players.len()
        invariant
            i <= players.len(),
            players.len() == old(players).len(),
            forall|k: int| 0 <= k < i ==> players@[k] == without_votes(old(players)@)[k],
            forall|k: int| i <= k < players.len() ==> players@[k] == old(players)@[k],
        decreases players.len() - i,
    {
        players[i].vote = None;
        i += 1;
    }
}

/// Whether every living player has voted.
pub(crate) fn everyone_voted(players: &Vec<PlayerState>) -> (all: bool)
    ensures
        all == (forall|i: int|
            0 <= i < players.len() ==> (#[trigger] players@[i]).dead || players@[i].vote is Some),
{
    let mut i: usize = 0;
    while i < players.len()
        invariant
            i <= players.len(),
            forall|k: int| 0 <= k < i ==> (#[trigger] players@[k]).dead || players@[k].vote is Some,
        decreases players.len() - i,
    {
        if !players[i].dead && players[i].vote.is_none() {
            return false;
        }
        i += 1;
    }
    true
}

/// Counts the living players whose ballot is `choice`.
pub(crate) fn count_ballots(players: &Vec<PlayerState>, choice: bool) -> (n: usize)
    ensures
        n == tally(players@, choice),
{
    let mut n: usize = 0;
    let mut i: usize = 0;
    while i < players.len()
        invariant
            i <= players.len(),
            n <= i,
            n == tally(players@.subrange(0, i as int), choice),
        decreases players.len() - i,
    {
        proof {
            assert(players@.subrange(0, i + 1).drop_last() =~= players@.subrange(0, i as int));
        }
        let cast = match players[i].vote {
            Some(v) => v == choice,
            None => false,
        };
        if !players[i].dead && cast {
            n += 1;
        }
        i += 1;
    }
    proof {
        assert(players@.subrange(0, i as int) =~= players@);
    }
    n
}

/// Counts the players who have cast a ballot.
pub(crate) fn count_cast(players: &Vec<PlayerState>) -> (n: usize)
    ensures
        n == ballots_cast(players@),
{
    let mut n: usize = 0;
    let mut i: usize = 0;
    while i < players.len()
        invariant
            i <= players.len(),
            n <= i,
            n == ballots_cast(players@.subrange(0, i as int)),
        decreases players.len() - i,
    {
        proof {
            assert(players@.subrange(0, i + 1).drop_last() =~= players@.subrange(0, i as int));
        }
        if players[i].vote.is_some() {
            n += 1;
        }
        i += 1;
    }
    proof {
        assert(players@.subrange(0, i as int) =~= players@);
    }
    n
}

impl GameState {
    /// The president nominates `target_player` as chancellor. The nominee
    /// must be a living player other than the president who sat in neither
    /// office of the last elected government. On success the vote is open and
    /// all ballots are blank. A call that is turned down changes nothing.
    pub fn choose_chancellor(&mut self, player: PlayerId, target_player: PlayerId) -> (result: Result<
        (),
        Rejection,
    >)
        requires
            old(self)@.wf(),
        ensures
            final(self)@.wf(),
            match result {
                Ok(()) => old(self)@.nomination_rejection(player, target_player) is None && final(self)@ == old(self)@.nominated(target_player),
                Err(why) => old(self)@.nomination_rejection(player, target_player) == Some(why)
                    && final(self)@ == old(self)@,
            },
            old(self)@.last_president == Some(target_player) || old(self)@.last_chancellor == Some(
                target_player,
            ) ==> result is Err,
    {
        if self.turn_phase != TurnPhase::Electing {
            return Err(Rejection::NotNow);
        }
        if self.president != Some(player) {
            return Err(Rejection::NotPresident);
        }
        if player == target_player {
            return Err(Rejection::SelfNominated);
        }
        if self.last_chancellor == Some(target_player) || self.last_president == Some(
            target_player,
        ) {
            return Err(Rejection::TermLimited);
        }
        match find_seat(&self.players, target_player) {
            Some(seat) => {
                if self.players[seat].dead {
                    return Err(Rejection::TargetDead);
                }
            },
            None => {
                return Err(Rejection::NoSuchTarget);
            },
        }
        self.turn_phase = TurnPhase::Voting;
        self.chancellor = Some(target_player);
        clear_votes(&mut self.players);
        proof {
            lemma_nominated_wf(old(self)@, player, target_player);
        }
        Ok(())
    }

    /// A living player votes on the nominated government. The ballot is
    /// recorded; once every living player has voted, the government is
    /// elected if more voted for it than against it, and fails otherwise.
    /// An elected president draws three cards, unless Hitler was elected
    /// chancellor with three or more fascist policies on the board, which
    /// ends the game. The third failure in a row enacts the top card of the
    /// draw pile. A call that is turned down changes nothing.
    pub fn vote_chancellor(&mut self, player: PlayerId, vote: bool) -> (result: Result<
        (),
        Rejection,
    >)
        requires
            old(self)@.wf(),
        ensures
            final(self)@.wf(),
            match result {
                Ok(()) => old(self)@.ballot_rejection(player) is None && old(self)@.votes(
                    player,
                    vote,
                    final(self)@,
                ),
                Err(why) => old(self)@.ballot_rejection(player) == Some(why) && final(self)@ == old(self)@,
            },
    {
        if self.turn_phase != TurnPhase::Voting {
            return Err(Rejection::NotNow);
        }
        match find_seat(&self.players, player) {
            Some(seat) => {
                if self.players[seat].dead {
                    return Err(Rejection::VoterDead);
                }
                self.players[seat].vote = Some(vote);
            },
            None => {
                return Err(Rejection::NoSuchPlayer);
            },
        }
        proof {
            lemma_with_ballot(old(self)@, player, vote);
        }
        if everyone_voted(&self.players) {
            let yes = count_ballots(&self.players, true);
            let no = count_ballots(&self.players, false);
            if yes > no {
                if self.hitler_takes_office() {
                    self.turn_phase = TurnPhase::Ended { winner: CardColor::Facist };
                } else {
                    self.turn_phase = TurnPhase::PresidentSelect;
                    self.election_tracker = 0;
                    let top = self.cards.len() - 3;
                    self.hand = self.cards.split_off(top);
                }
            } else {
                self.chancellor = None;
                self.government_fails();
            }
        }
        proof {
            lemma_votes_wf(old(self)@, player, vote, self@);
        }
        Ok(())
    }

    /// Whether electing the nominated chancellor ends the game.
    fn hitler_takes_office(&self) -> (ends: bool)
        requires
            self@.wf(),
        ensures
            ends == self@.hitler_takes_office(),
    {
        match self.chancellor {
            Some(c) => match find_seat(&self.players, c) {
                Some(seat) => self.players[seat].role == PlayerType::Hitler
                    && self.facist_policies >= 3,
                None => false,
            },
            None => false,
        }
    }

    /// Counts a government that failed with an empty hand. The third failure
    /// in a row resets the tracker and enacts the top card of the draw pile,
    /// which first takes in the discard pile if it is empty. Otherwise the
    /// presidency passes on, and the draw pile is refilled if it has run low.
    pub(crate) fn government_fails(&mut self)
        requires
            old(self)@.mid_turn_wf(),
            old(self)@.hand.len() == 0,
            old(self)@.cards_conserved(),
        ensures
            old(self)@.government_fails(final(self)@),
    {
        let ghost counted = GameModel {
            election_tracker: old(self)@.election_tracker + 1,
            ..old(self)@
        };
        self.election_tracker += 1;
        if self.election_tracker >= 3 {
            self.election_tracker = 0;
            if self.cards.len() == 0 {
                self.reshuffle_deck();
            }
            let ghost pile = self.cards@;
            let ghost rest = self.discarded@;
            let ghost calm = GameModel { election_tracker: 0, ..counted };
            proof {
                broadcast use vstd::seq_lib::group_to_multiset_ensures;

                lemma_drawn(calm, pile, rest);
            }
            match self.cards.pop() {
                Some(card) => {
                    self.enact_policy(card);
                    proof {
                        assert(counted.chaos_from(pile, rest, self@));
                    }
                },
                None => {},
            }
        } else {
            self.next_president();
            self.refill();
        }
    }
}

} // verus!
