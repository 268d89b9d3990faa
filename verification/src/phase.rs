//! The phases of a game and the powers of a president.

use crate::cards::CardColor;
use vstd::prelude::*;

verus! {

/// What a president may do after a fascist policy was enacted.
#[derive(Clone, Copy, Debug, PartialEq, Eq, Structural)]
pub enum PresidentialPower {
    InvestigateLoyalty,
    CallSpecialElection,
    PolicyPeek,
    Execution,
}

/// Where a game stands.
#[derive(Clone, Copy, Debug, PartialEq, Eq, Structural)]
pub enum TurnPhase {
    /// Players gather; the host may start the game.
    Lobby,
    /// The game is over.
    Ended { winner: CardColor },
    /// The president must nominate a chancellor.
    Electing,
    /// The living players vote on the nominated government.
    Voting,
    /// The president must set aside one of three drawn cards.
    PresidentSelect,
    /// The chancellor must enact one of the two cards left.
    ChancellorSelect,
    /// The president must use a power.
    PresidentialPower { power: PresidentialPower },
}

/// The power that the `facist_policies`-th fascist policy hands to the
/// president at a table of `players`, if any.
pub open spec fn power_for(players: nat, facist_policies: nat) -> Option<PresidentialPower> {
    if 5 <= players <= 6 && facist_policies == 3 {
        Some(PresidentialPower::PolicyPeek)
    } else if (9 <= players <= 10 && 1 <= facist_policies <= 2) || (7 <= players <= 8
        && facist_policies == 2) {
        Some(PresidentialPower::InvestigateLoyalty)
    } else if 7 <= players <= 10 && facist_policies == 3 {
        Some(PresidentialPower::CallSpecialElection)
    } else if 4 <= facist_policies <= 5 {
        Some(PresidentialPower::Execution)
    } else {
        None
    }
}

/// The power that the `facist_policies`-th fascist policy hands to the
/// president at a table of `players`, if any.
pub fn power_after(players: usize, facist_policies: u8) -> (power: Option<PresidentialPower>)
    ensures
        power == power_for(players as nat, facist_policies as nat),
{
    if 5 <= players && players <= 6 && facist_policies == 3 {
        Some(PresidentialPower::PolicyPeek)
    } else if (9 <= players && players <= 10 && 1 <= facist_policies && facist_policies <= 2) || (7
        <= players && players <= 8 && facist_policies == 2) {
        Some(PresidentialPower::InvestigateLoyalty)
    } else if 7 <= players && players <= 10 && facist_policies == 3 {
        Some(PresidentialPower::CallSpecialElection)
    } else if 4 <= facist_policies && facist_policies <= 5 {
        Some(PresidentialPower::Execution)
    } else {
        None
    }
}

impl TurnPhase {
    /// Whether cards are in someone's hand.
    pub open spec fn is_selection(self) -> bool {
        self is PresidentSelect || self is ChancellorSelect
    }

    /// Whether a game is under way: started and not over.
    pub open spec fn is_running(self) -> bool {
        !(self is Lobby) && !(self is Ended)
    }

    /// The number of cards that are in hand in this phase.
    pub open spec fn hand_size(self) -> nat {
        match self {
            TurnPhase::PresidentSelect => 3,
            TurnPhase::ChancellorSelect => 2,
            _ => 0,
        }
    }
}

} // verus!
