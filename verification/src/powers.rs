//! The presidential powers.

use crate::chat::{
    investigated_message, killed_message, special_election_message, ChatLine,
};
use crate::error::Rejection;
use crate::game_state::{name_on_file, GameState};
use crate::phase::{PresidentialPower, TurnPhase};
use crate::roles::PlayerType;
use crate::roster::{find_seat, Investigation, PlayerId};
use crate::model::GameModel;
use crate::wellformed::lemma_uses_power_wf;
use vstd::prelude::*;

verus! {

/// Takes `id` out of a turn order that holds it once.
pub(crate) fn remove_id(order: &mut Vec<PlayerId>, id: PlayerId)
    requires
        old(order)@.no_duplicates(),
        old(order)@.contains(id),
    ensures
        final(order)@ == old(order)@.remove(old(order)@.index_of(id)),
{
    let ghost place = order@.index_of(id);
    let mut i: usize = 0;
    while i < order.len()
        invariant
            i <= order.len(),
            order@ == old(order)@,
            order@.no_duplicates(),
            0 <= place < order.len(),
            order@[place] == id,
            forall|k: int| 0 <= k < i ==> order@[k] != id,
        decreases order.len() - i,
    {
        if order[i] == id {
            let _ = order.remove(i);
            return ;
        }
        i += 1;
    }
}

impl GameState {
    /// Uses the pending presidential power. Investigation, special election
    /// and execution need a target other than the president; a look at the
    /// top of the draw pile takes none and only passes the presidency on.
    /// A call that is turned down changes nothing.
    pub fn execute_presidential_power(&mut self, player: PlayerId, target: Option<PlayerId>) -> (result:
        Result<(), Rejection>)
        requires
            old(self)@.wf(),
        ensures
            final(self)@.wf(),
            match result {
                Ok(()) => old(self)@.power_rejection(player, target) is None && final(self)@ == old(self)@.uses_power(player, target),
                Err(why) => old(self)@.power_rejection(player, target) == Some(why) && final(self)@
                    == old(self)@,
            },
    {
        if self.president != Some(player) {
            return Err(Rejection::NotActingPresident);
        }
        let power = match self.turn_phase {
            TurnPhase::PresidentialPower { power } => power,
            _ => {
                return Err(Rejection::NoPowerPending);
            },
        };
        proof {
            if old(self)@.power_rejection(player, target) is None {
                lemma_uses_power_wf(old(self)@, player, target);
            }
        }
        match power {
            PresidentialPower::InvestigateLoyalty => {
                let subject = match target {
                    Some(t) => t,
                    None => {
                        return Err(Rejection::NoTarget);
                    },
                };
                if find_seat(&self.players, subject).is_none() {
                    return Err(Rejection::NoSuchTarget);
                }
                if subject == player {
                    return Err(Rejection::SelfInvestigated);
                }
                self.investigate(player, subject);
                Ok(())
            },
            PresidentialPower::CallSpecialElection => {
                let candidate = match target {
                    Some(t) => t,
                    None => {
                        return Err(Rejection::NoTarget);
                    },
                };
                if candidate == player {
                    return Err(Rejection::SelfElected);
                }
                match find_seat(&self.players, candidate) {
                    Some(seat) => {
                        if self.players[seat].dead {
                            return Err(Rejection::TargetDead);
                        }
                    },
                    None => {
                        return Err(Rejection::NoSuchTarget);
                    },
                }
                self.call_special_election(candidate);
                Ok(())
            },
            PresidentialPower::Execution => {
                let victim = match target {
                    Some(t) => t,
                    None => {
                        return Err(Rejection::NoTarget);
                    },
                };
                if victim == player {
                    return Err(Rejection::SelfExecuted);
                }
                match find_seat(&self.players, victim) {
                    Some(seat) => {
                        if self.players[seat].dead {
                            return Err(Rejection::AlreadyDead);
                        }
                        self.execute(victim, seat);
                    },
                    None => {
                        return Err(Rejection::NoSuchTarget);
                    },
                }
                Ok(())
            },
            PresidentialPower::PolicyPeek => {
                self.next_president();
                Ok(())
            },
        }
    }

    /// Records and announces an investigation and passes the presidency on.
    fn investigate(&mut self, player: PlayerId, target: PlayerId)
        requires
            old(self)@.wf(),
            old(self)@.turn_phase.is_running(),
        ensures
            final(self)@ == old(self)@.investigates(player, target),
    {
        self.investigated.push(Investigation { investigator: player, target });
        let president = name_on_file(&self.conn, self.president);
        let subject = name_on_file(&self.conn, Some(target));
        match (president, subject) {
            (Some(p), Some(t)) => {
                let text = investigated_message(p.as_str(), t.as_str());
                self.say(ChatLine::system(text));
            },
            _ => {},
        }
        proof {
            assert(self@ == (GameModel {
                investigated: old(self)@.investigated.push(
                    Investigation { investigator: player, target },
                ),
                ..old(self)@
            }).announced(old(self)@.investigation_line(target)));
        }
        self.next_president();
    }

    /// Announces a special election and makes `target` president.
    fn call_special_election(&mut self, target: PlayerId)
        requires
            old(self)@.wf(),
        ensures
            final(self)@ == old(self)@.calls_election(target),
    {
        let president = name_on_file(&self.conn, self.president);
        let candidate = name_on_file(&self.conn, Some(target));
        match (president, candidate) {
            (Some(p), Some(t)) => {
                let text = special_election_message(p.as_str(), t.as_str());
                self.say(ChatLine::system(text));
            },
            _ => {},
        }
        self.last_president = self.president;
        self.last_chancellor = self.chancellor;
        self.chancellor = None;
        self.president = Some(target);
        self.turn_phase = TurnPhase::Electing;
    }

    /// Announces an execution, strikes the victim from the game, and ends
    /// the game if the victim was Hitler or passes the presidency on if not.
    fn execute(&mut self, target: PlayerId, seat: usize)
        requires
            old(self)@.wf(),
            old(self)@.turn_phase.is_running(),
            old(self)@.is_alive(target),
            old(self)@.president != Some(target),
            seat == crate::roster::seat_of(old(self)@.players, target),
        ensures
            final(self)@ == old(self)@.executes(target),
    {
        let president = name_on_file(&self.conn, self.president);
        let victim = name_on_file(&self.conn, Some(target));
        match (president, victim) {
            (Some(p), Some(t)) => {
                let text = killed_message(p.as_str(), t.as_str());
                self.say(ChatLine::system(text));
            },
            _ => {},
        }
        let ghost told = old(self)@.announced(old(self)@.execution_line(target));
        proof {
            crate::wellformed::lemma_struck(told, target);
        }
        let role = self.players[seat].role;
        self.players[seat].dead = true;
        remove_id(&mut self.turn_order, target);
        if role == PlayerType::Hitler {
            self.turn_phase = TurnPhase::Ended { winner: crate::cards::CardColor::Liberal };
        } else {
            self.next_president();
        }
    }
}

} // verus!
