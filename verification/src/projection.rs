//! What a player is shown of a game.

use crate::cards::{count_cards, count_of, CardColor};
use crate::election::count_cast;
use crate::game_state::{name_on_file, GameState};
use crate::model::GameModel;
use crate::phase::{PresidentialPower, TurnPhase};
use crate::roles::PlayerType;
use crate::roster::{
    find_seat, name_of, name_or_empty, Investigation, PlayerId, PlayerState,
};
use crate::rules::ballots_cast;
use vstd::prelude::*;

verus! {

/// What an observer is shown of one player.
#[derive(Debug)]
pub struct PartialPlayerState {
    pub id: PlayerId,
    pub name: String,
    /// The player's role as far as the observer may know it. Knowledge from
    /// an investigation tells liberal from not liberal only: Hitler shows as
    /// a fascist.
    pub role: Option<PlayerType>,
    /// The player's ballot, unless it is hidden.
    pub vote: Option<bool>,
    pub dead: bool,
}

/// What an observer is shown of one player, as contracts see it.
#[verifier::ext_equal]
pub struct PartialPlayerModel {
    pub id: PlayerId,
    pub name: Seq<char>,
    pub role: Option<PlayerType>,
    pub vote: Option<bool>,
    pub dead: bool,
}

impl View for PartialPlayerState {
    type V = PartialPlayerModel;

    open spec fn view(&self) -> PartialPlayerModel {
        PartialPlayerModel {
            id: self.id,
            name: self.name@,
            role: self.role,
            vote: self.vote,
            dead: self.dead,
        }
    }
}

/// What one observer is shown of a game.
#[derive(Debug)]
pub struct Projection {
    pub liberal_policies: u8,
    pub facist_policies: u8,
    pub election_tracker: u8,
    /// Liberal cards in the draw pile.
    pub liberal_cards: usize,
    /// Fascist cards in the draw pile.
    pub facist_cards: usize,
    pub host: Option<PlayerId>,
    pub president: Option<PlayerId>,
    pub last_president: Option<PlayerId>,
    pub chancellor: Option<PlayerId>,
    pub last_chancellor: Option<PlayerId>,
    pub turn_phase: TurnPhase,
    pub turn_order: Vec<PlayerId>,
    pub cards_in_deck: usize,
    pub cards_in_discard: usize,
    pub num_facists: usize,
    pub players: Vec<PartialPlayerState>,
    /// While a vote is open, the number of ballots cast.
    pub votes: Option<usize>,
    /// The cards that the observer may look at, if any.
    pub cards: Option<Vec<CardColor>>,
}

/// What one observer is shown of a game, as contracts see it.
#[verifier::ext_equal]
pub struct ProjectionModel {
    pub liberal_policies: nat,
    pub facist_policies: nat,
    pub election_tracker: nat,
    pub liberal_cards: nat,
    pub facist_cards: nat,
    pub host: Option<PlayerId>,
    pub president: Option<PlayerId>,
    pub last_president: Option<PlayerId>,
    pub chancellor: Option<PlayerId>,
    pub last_chancellor: Option<PlayerId>,
    pub turn_phase: TurnPhase,
    pub turn_order: Seq<PlayerId>,
    pub cards_in_deck: nat,
    pub cards_in_discard: nat,
    pub num_facists: nat,
    pub players: Seq<PartialPlayerModel>,
    pub votes: Option<nat>,
    pub cards: Option<Seq<CardColor>>,
}

/// The shown players as contracts see them.
pub open spec fn shown_view(shown: Seq<PartialPlayerState>) -> Seq<PartialPlayerModel> {
    Seq::new(shown.len(), |i: int| shown[i]@)
}

impl View for Projection {
    type V = ProjectionModel;

    open spec fn view(&self) -> ProjectionModel {
        ProjectionModel {
            liberal_policies: self.liberal_policies as nat,
            facist_policies: self.facist_policies as nat,
            election_tracker: self.election_tracker as nat,
            liberal_cards: self.liberal_cards as nat,
            facist_cards: self.facist_cards as nat,
            host: self.host,
            president: self.president,
            last_president: self.last_president,
            chancellor: self.chancellor,
            last_chancellor: self.last_chancellor,
            turn_phase: self.turn_phase,
            turn_order: self.turn_order@,
            cards_in_deck: self.cards_in_deck as nat,
            cards_in_discard: self.cards_in_discard as nat,
            num_facists: self.num_facists as nat,
            players: shown_view(self.players@),
            votes: match self.votes {
                Some(n) => Some(n as nat),
                None => None,
            },
            cards: match self.cards {
                Some(cards) => Some(cards@),
                None => None,
            },
        }
    }
}

/// What an investigation tells of a role: liberal or not.
pub open spec fn party_of(role: PlayerType) -> PlayerType {
    match role {
        PlayerType::Liberal => PlayerType::Liberal,
        _ => PlayerType::Facist,
    }
}

/// Whether `observer` has investigated `target`.
pub open spec fn has_investigated(
    investigated: Seq<Investigation>,
    observer: PlayerId,
    target: PlayerId,
) -> bool {
    exists|i: int|
        0 <= i < investigated.len() && (#[trigger] investigated[i]).investigator == observer
            && investigated[i].target == target
}

impl GameModel {
    /// Whether `observer` is shown every role: everyone once the game is
    /// over, a fascist always, Hitler at a table of six or fewer.
    pub open spec fn sees_all_roles(self, observer: PlayerId) -> bool {
        ||| self.turn_phase is Ended
        ||| self.player(observer).role == PlayerType::Facist
        ||| (self.player(observer).role == PlayerType::Hitler && self.players.len() <= 6)
    }

    /// The role of `target` as `observer` is shown it: in full to who sees
    /// all roles and to the player themself; as liberal or not to who has
    /// investigated the player; not at all otherwise.
    pub open spec fn visible_role(self, observer: PlayerId, target: PlayerState) -> Option<
        PlayerType,
    > {
        if self.sees_all_roles(observer) || observer == target.id {
            Some(target.role)
        } else if has_investigated(self.investigated, observer, target.id) {
            Some(party_of(target.role))
        } else {
            None
        }
    }

    /// The ballot of `target` as `observer` is shown it: while the vote is
    /// open, only one's own.
    pub open spec fn visible_vote(self, observer: PlayerId, target: PlayerState) -> Option<bool> {
        if self.turn_phase is Voting && observer != target.id {
            None
        } else {
            target.vote
        }
    }

    /// The cards that `observer` may look at: the hand for the member of the
    /// government who must pick from it, the top three cards of the draw pile
    /// for a president who has the power to look at them.
    pub open spec fn visible_cards(self, observer: PlayerId) -> Option<Seq<CardColor>> {
        if self.turn_phase is PresidentSelect && self.president == Some(observer) {
            Some(self.hand)
        } else if self.turn_phase == (TurnPhase::PresidentialPower {
            power: PresidentialPower::PolicyPeek,
        }) && self.president == Some(observer) {
            Some(self.cards.subrange(self.cards.len() - 3, self.cards.len() as int))
        } else if self.turn_phase is ChancellorSelect && self.chancellor == Some(observer) {
            Some(self.hand)
        } else {
            None
        }
    }

    /// What `observer` is shown of `target`.
    pub open spec fn shown_player(self, observer: PlayerId, target: PlayerState) -> PartialPlayerModel {
        PartialPlayerModel {
            id: target.id,
            name: name_or_empty(name_of(self.conn, target.id)),
            role: self.visible_role(observer, target),
            vote: self.visible_vote(observer, target),
            dead: target.dead,
        }
    }

    /// What `observer` is shown of the game: the board, the offices, the
    /// phase and the turn order in full; of the piles only how many cards of
    /// which colour they hold, never their order; of each player what the
    /// observer's role and the phase allow.
    pub open spec fn projection(self, observer: PlayerId) -> ProjectionModel {
        ProjectionModel {
            liberal_policies: self.liberal_policies,
            facist_policies: self.facist_policies,
            election_tracker: self.election_tracker,
            liberal_cards: count_of(self.cards, CardColor::Liberal),
            facist_cards: count_of(self.cards, CardColor::Facist),
            host: self.host,
            president: self.president,
            last_president: self.last_president,
            chancellor: self.chancellor,
            last_chancellor: self.last_chancellor,
            turn_phase: self.turn_phase,
            turn_order: self.turn_order,
            cards_in_deck: self.cards.len(),
            cards_in_discard: self.discarded.len(),
            num_facists: self.num_facists,
            players: Seq::new(
                self.players.len(),
                |i: int| self.shown_player(observer, self.players[i]),
            ),
            votes: if self.turn_phase is Voting {
                Some(ballots_cast(self.players))
            } else {
                None
            },
            cards: self.visible_cards(observer),
        }
    }
}

/// Whether `observer` has investigated `target`.
pub(crate) fn investigated_by(
    investigated: &Vec<Investigation>,
    observer: PlayerId,
    target: PlayerId,
) -> (found: bool)
    ensures
        found == has_investigated(investigated@, observer, target),
{
    let mut i: usize = 0;
    while i < investigated.len()
        invariant
            i <= investigated.len(),
            forall|k: int|
                0 <= k < i ==> !((#[trigger] investigated@[k]).investigator == observer
                    && investigated@[k].target == target),
        decreases investigated.len() - i,
    {
        if investigated[i].investigator == observer && investigated[i].target == target {
            return true;
        }
        i += 1;
    }
    false
}

/// A copy of a pile.
pub(crate) fn copy_cards(pile: &Vec<CardColor>, from: usize) -> (copy: Vec<CardColor>)
    requires
        from <= pile.len(),
    ensures
        copy@ == pile@.subrange(from as int, pile.len() as int),
{
    let mut copy: Vec<CardColor> = Vec::new();
    let mut i: usize = from;
    while i < pile.len()
        invariant
            from <= i <= pile.len(),
            copy@ == pile@.subrange(from as int, i as int),
        decreases pile.len() - i,
    {
        copy.push(pile[i]);
        i += 1;
    }
    copy
}

/// A copy of a turn order.
pub(crate) fn copy_ids(ids: &Vec<PlayerId>) -> (copy: Vec<PlayerId>)
    ensures
        copy@ == ids@,
{
    let mut copy: Vec<PlayerId> = Vec::new();
    let mut i: usize = 0;
    while i < ids.len()
        invariant
            i <= ids.len(),
            copy@ == ids@.subrange(0, i as int),
        decreases ids.len() - i,
    {
        copy.push(ids[i]);
        i += 1;
    }
    copy
}

/// A game as seen by one of its players.
pub struct GameStatePlayerView<'a> {
    pub player: PlayerId,
    pub state: &'a GameState,
}

impl<'a> GameStatePlayerView<'a> {
    /// What the player is shown of the game.
    pub fn project(&self) -> (shown: Projection)
        requires
            self.state@.wf(),
            self.state@.has_player(self.player),
        ensures
            shown@ == self.state@.projection(self.player),
    {
        self.state.project(self.player)
    }
}

impl GameState {
    /// What `observer`, a player of this game, is shown of it.
    pub fn project(&self, observer: PlayerId) -> (shown: Projection)
        requires
            self@.wf(),
            self@.has_player(observer),
        ensures
            shown@ == self@.projection(observer),
    {
        let role = match find_seat(&self.players, observer) {
            Some(seat) => self.players[seat].role,
            None => PlayerType::Liberal,
        };
        let ended = match self.turn_phase {
            TurnPhase::Ended { winner: _ } => true,
            _ => false,
        };
        let voting = self.turn_phase == TurnPhase::Voting;
        let sees_all = ended || role == PlayerType::Facist || (role == PlayerType::Hitler
            && self.players.len() <= 6);
        let mut players: Vec<PartialPlayerState> = Vec::new();
        let mut i: usize = 0;
        while i < self.players.len()
            invariant
                i <= self.players.len(),
                self@.wf(),
                sees_all == self@.sees_all_roles(observer),
                voting == (self@.turn_phase is Voting),
                players@.len() == i,
                forall|k: int|
                    0 <= k < i ==> (#[trigger] players@[k])@ == self@.shown_player(
                        observer,
                        self@.players[k],
                    ),
            decreases self.players.len() - i,
        {
            let target = self.players[i];
            let name = match name_on_file(&self.conn, Some(target.id)) {
                Some(text) => text,
                None => String::new(),
            };
            let shown_role = if sees_all || observer == target.id {
                Some(target.role)
            } else if investigated_by(&self.investigated, observer, target.id) {
                Some(
                    match target.role {
                        PlayerType::Liberal => PlayerType::Liberal,
                        _ => PlayerType::Facist,
                    },
                )
            } else {
                None
            };
            let shown_vote = if voting && observer != target.id {
                None
            } else {
                target.vote
            };
            players.push(
                PartialPlayerState {
                    id: target.id,
                    name,
                    role: shown_role,
                    vote: shown_vote,
                    dead: target.dead,
                },
            );
            i += 1;
        }
        let president_looks = self.president == Some(observer);
        let cards = match self.turn_phase {
            TurnPhase::PresidentSelect => if president_looks {
                Some(copy_cards(&self.hand, 0))
            } else {
                None
            },
            TurnPhase::PresidentialPower { power: PresidentialPower::PolicyPeek } => if president_looks {
                Some(copy_cards(&self.cards, self.cards.len() - 3))
            } else {
                None
            },
            TurnPhase::ChancellorSelect => if self.chancellor == Some(observer) {
                Some(copy_cards(&self.hand, 0))
            } else {
                None
            },
            _ => None,
        };
        let shown = Projection {
            liberal_policies: self.liberal_policies,
            facist_policies: self.facist_policies,
            election_tracker: self.election_tracker,
            liberal_cards: count_cards(&self.cards, CardColor::Liberal),
            facist_cards: count_cards(&self.cards, CardColor::Facist),
            host: self.host,
            president: self.president,
            last_president: self.last_president,
            chancellor: self.chancellor,
            last_chancellor: self.last_chancellor,
            turn_phase: self.turn_phase,
            turn_order: copy_ids(&self.turn_order),
            cards_in_deck: self.cards.len(),
            cards_in_discard: self.discarded.len(),
            num_facists: self.num_facists,
            players,
            votes: if voting {
                Some(count_cast(&self.players))
            } else {
                None
            },
            cards,
        };
        shown
    }
}

} // verus!
