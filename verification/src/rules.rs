//! The rules of a turn: what each move makes of a game.
//!
//! A function named by a participle (`nominated`, `advanced`) gives the game
//! after the move. Where a shuffle has a part in the move, a function named
//! by a verb (`votes`, `enacts`) says instead whether one game is what the
//! move may have made of another: everything is fixed but the order of the
//! shuffled pile.

use crate::cards::{color_name, CardColor};
use crate::chat::{
    announcement, chaos_text, enacted_text, investigated_text, killed_text,
    special_election_text, ChatLineModel,
};
use crate::error::Rejection;
use crate::model::GameModel;
use crate::phase::{power_for, PresidentialPower, TurnPhase};
use crate::roles::PlayerType;
use crate::roster::{name_of, seat_of, Investigation, PlayerId, PlayerState};
use vstd::prelude::*;

verus! {

/// Whether `player` counts towards `choice`: alive, with that ballot cast.
pub open spec fn casts(player: PlayerState, choice: bool) -> bool {
    !player.dead && player.vote == Some(choice)
}

/// The number of living players whose ballot is `choice`.
pub open spec fn tally(players: Seq<PlayerState>, choice: bool) -> nat
    decreases players.len(),
{
    if players.len() == 0 {
        0
    } else {
        tally(players.drop_last(), choice) + if casts(players.last(), choice) {
            1nat
        } else {
            0nat
        }
    }
}

/// The number of players who have cast a ballot.
pub open spec fn ballots_cast(players: Seq<PlayerState>) -> nat
    decreases players.len(),
{
    if players.len() == 0 {
        0
    } else {
        ballots_cast(players.drop_last()) + if players.last().vote is Some {
            1nat
        } else {
            0nat
        }
    }
}

/// Every seat with its ballot taken back.
pub open spec fn without_votes(players: Seq<PlayerState>) -> Seq<PlayerState> {
    Seq::new(players.len(), |i: int| PlayerState { vote: None, ..players[i] })
}

/// The place of the first card of `color` in `hand`, where there is one.
pub open spec fn first_of(hand: Seq<CardColor>, color: CardColor) -> int {
    choose|i: int|
        0 <= i < hand.len() && hand[i] == color && forall|j: int| 0 <= j < i ==> hand[j] != color
}

/// `hand` without its first card of `color`.
pub open spec fn without_card(hand: Seq<CardColor>, color: CardColor) -> Seq<CardColor> {
    hand.remove(first_of(hand, color))
}

/// What a refill does to the piles: a draw pile of three or more cards stays
/// as it is; a smaller one takes in the discard pile and is shuffled, so that
/// it holds the cards of both in some order.
pub open spec fn replenished(
    cards: Seq<CardColor>,
    discarded: Seq<CardColor>,
    new_cards: Seq<CardColor>,
    new_discarded: Seq<CardColor>,
) -> bool {
    if cards.len() >= 3 {
        new_cards == cards && new_discarded == discarded
    } else {
        new_cards.to_multiset() == (cards + discarded).to_multiset() && new_discarded.len() == 0
    }
}

/// How the top card is drawn for a government in chaos: `pile` is the draw
/// pile it is taken from and `rest` the discard pile that is left. A draw
/// pile that is not empty serves as it is; an empty one first takes in the
/// discard pile and is shuffled.
pub open spec fn drawn_from(
    cards: Seq<CardColor>,
    discarded: Seq<CardColor>,
    pile: Seq<CardColor>,
    rest: Seq<CardColor>,
) -> bool {
    if cards.len() > 0 {
        pile == cards && rest == discarded
    } else {
        pile.to_multiset() == discarded.to_multiset() && rest.len() == 0
    }
}

impl GameModel {
    // ------------------------------------------------------------------
    // The presidency
    // ------------------------------------------------------------------
    /// The place in the turn order that the presidency passes to.
    pub open spec fn next_turn(self) -> nat {
        (((self.turn_counter + 1) as int) % (self.turn_order.len() as int)) as nat
    }

    /// The presidency passes on: the government in office is remembered as
    /// the last one, the chancellor's seat is vacated, and the next player in
    /// the turn order must nominate.
    pub open spec fn advanced(self) -> GameModel {
        GameModel {
            last_president: self.president,
            last_chancellor: self.chancellor,
            chancellor: None,
            turn_counter: self.next_turn(),
            turn_phase: TurnPhase::Electing,
            president: Some(self.turn_order[self.next_turn() as int]),
            ..self
        }
    }

    // ------------------------------------------------------------------
    // Enacting a policy
    // ------------------------------------------------------------------
    /// The announcement of an enacted policy: by the government if both its
    /// members have a name on file, as chaos otherwise.
    pub open spec fn enactment_line(self, card: CardColor) -> ChatLineModel {
        match (self.office_name(self.president), self.office_name(self.chancellor)) {
            (Some(president), Some(chancellor)) => announcement(
                enacted_text(president, chancellor, color_name(card)),
            ),
            _ => announcement(chaos_text(color_name(card))),
        }
    }

    /// The board and the phase after `card` was enacted. The sixth fascist or
    /// the fifth liberal policy ends the game; a fascist policy may hand the
    /// president a power; otherwise the presidency passes on.
    pub open spec fn settled(self, card: CardColor) -> GameModel {
        match card {
            CardColor::Facist => {
                let counted = GameModel { facist_policies: self.facist_policies + 1, ..self };
                if counted.facist_policies >= 6 {
                    GameModel { turn_phase: TurnPhase::Ended { winner: CardColor::Facist }, ..counted }
                } else {
                    match power_for(self.players.len(), counted.facist_policies) {
                        Some(power) => GameModel {
                            turn_phase: TurnPhase::PresidentialPower { power },
                            ..counted
                        },
                        None => counted.advanced(),
                    }
                }
            },
            CardColor::Liberal => {
                let counted = GameModel { liberal_policies: self.liberal_policies + 1, ..self };
                if counted.liberal_policies >= 5 {
                    GameModel { turn_phase: TurnPhase::Ended { winner: CardColor::Liberal }, ..counted }
                } else {
                    counted.advanced()
                }
            },
        }
    }

    /// The game after `card` was enacted, but for the piles: the enactment is
    /// announced and the board settled.
    pub open spec fn enacted(self, card: CardColor) -> GameModel {
        self.said(self.enactment_line(card)).settled(card)
    }

    /// `post` is this game after `card` was enacted: announced and settled,
    /// with the piles refilled where the draw pile had run low.
    pub open spec fn enacts(self, card: CardColor, post: GameModel) -> bool {
        &&& post == GameModel { cards: post.cards, discarded: post.discarded, ..self.enacted(card) }
        &&& replenished(self.cards, self.discarded, post.cards, post.discarded)
    }

    /// `post` is this game after the presidency passed on and the piles were
    /// refilled where the draw pile had run low.
    pub open spec fn passes_on(self, post: GameModel) -> bool {
        &&& post == GameModel { cards: post.cards, discarded: post.discarded, ..self.advanced() }
        &&& replenished(self.cards, self.discarded, post.cards, post.discarded)
    }

    /// `post` is this game after a government in chaos: the tracker is back
    /// at zero and the top card of `pile` is enacted, where `pile` and `rest`
    /// are the piles it was drawn from.
    pub open spec fn chaos_from(
        self,
        pile: Seq<CardColor>,
        rest: Seq<CardColor>,
        post: GameModel,
    ) -> bool {
        &&& drawn_from(self.cards, self.discarded, pile, rest)
        &&& pile.len() > 0
        &&& GameModel {
            election_tracker: 0,
            cards: pile.drop_last(),
            discarded: rest,
            ..self
        }.enacts(pile.last(), post)
    }

    /// `post` is this game after a government in chaos: the top card of the
    /// draw pile is enacted without a selection and the tracker is back at
    /// zero.
    pub open spec fn chaos(self, post: GameModel) -> bool {
        exists|pile: Seq<CardColor>, rest: Seq<CardColor>| #[trigger]
            self.chaos_from(pile, rest, post)
    }

    /// `post` is this game after a government failed (voted down or vetoed):
    /// the tracker has gone up by one; at three the country is in chaos,
    /// below that the presidency passes on.
    pub open spec fn government_fails(self, post: GameModel) -> bool {
        let counted = GameModel { election_tracker: self.election_tracker + 1, ..self };
        if counted.election_tracker >= 3 {
            counted.chaos(post)
        } else {
            counted.passes_on(post)
        }
    }

    // ------------------------------------------------------------------
    // Nominating a chancellor
    // ------------------------------------------------------------------
    /// Why `player` may not nominate `target`, if so.
    pub open spec fn nomination_rejection(self, player: PlayerId, target: PlayerId) -> Option<
        Rejection,
    > {
        if !(self.turn_phase is Electing) {
            Some(Rejection::NotNow)
        } else if self.president != Some(player) {
            Some(Rejection::NotPresident)
        } else if player == target {
            Some(Rejection::SelfNominated)
        } else if self.last_chancellor == Some(target) || self.last_president == Some(target) {
            Some(Rejection::TermLimited)
        } else if !self.has_player(target) {
            Some(Rejection::NoSuchTarget)
        } else if self.player(target).dead {
            Some(Rejection::TargetDead)
        } else {
            None
        }
    }

    /// The game after `target` was nominated: the vote is open and nobody has
    /// voted yet.
    pub open spec fn nominated(self, target: PlayerId) -> GameModel {
        GameModel {
            turn_phase: TurnPhase::Voting,
            chancellor: Some(target),
            players: without_votes(self.players),
            ..self
        }
    }

    // ------------------------------------------------------------------
    // Voting
    // ------------------------------------------------------------------
    /// Why `player` may not vote, if so.
    pub open spec fn ballot_rejection(self, player: PlayerId) -> Option<Rejection> {
        if !(self.turn_phase is Voting) {
            Some(Rejection::NotNow)
        } else if !self.has_player(player) {
            Some(Rejection::NoSuchPlayer)
        } else if self.player(player).dead {
            Some(Rejection::VoterDead)
        } else {
            None
        }
    }

    /// The game with the ballot of `player` recorded.
    pub open spec fn with_ballot(self, player: PlayerId, vote: bool) -> GameModel {
        GameModel {
            players: self.players.update(
                seat_of(self.players, player),
                PlayerState { vote: Some(vote), ..self.player(player) },
            ),
            ..self
        }
    }

    /// Whether every living player has voted.
    pub open spec fn all_voted(self) -> bool {
        forall|i: int|
            0 <= i < self.players.len() ==> (#[trigger] self.players[i]).dead
                || self.players[i].vote is Some
    }

    /// Whether the government has the vote: more living players for it than
    /// against it.
    pub open spec fn elected(self) -> bool {
        tally(self.players, true) > tally(self.players, false)
    }

    /// Whether electing this chancellor ends the game: the chancellor is
    /// Hitler and three or more fascist policies are on the board.
    pub open spec fn hitler_takes_office(self) -> bool {
        &&& self.chancellor matches Some(c)
        &&& self.has_player(c)
        &&& self.player(c).role == PlayerType::Hitler
        &&& self.facist_policies >= 3
    }

    /// The game after the government was elected: the tracker is back at
    /// zero and the president holds the top three cards of the draw pile.
    pub open spec fn government_formed(self) -> GameModel {
        GameModel {
            turn_phase: TurnPhase::PresidentSelect,
            election_tracker: 0,
            hand: self.cards.subrange(self.cards.len() - 3, self.cards.len() as int),
            cards: self.cards.subrange(0, self.cards.len() - 3),
            ..self
        }
    }

    /// `post` is this game after the ballot of `player` was recorded. While
    /// ballots are missing nothing else happens. Once all are in, the
    /// government is elected (which ends the game if Hitler takes office late
    /// enough) or fails.
    pub open spec fn votes(self, player: PlayerId, vote: bool, post: GameModel) -> bool {
        let cast = self.with_ballot(player, vote);
        if !cast.all_voted() {
            post == cast
        } else if cast.elected() {
            if cast.hitler_takes_office() {
                post == (GameModel {
                    turn_phase: TurnPhase::Ended { winner: CardColor::Facist },
                    ..cast
                })
            } else {
                post == cast.government_formed()
            }
        } else {
            GameModel { chancellor: None, ..cast }.government_fails(post)
        }
    }

    // ------------------------------------------------------------------
    // Selecting a policy
    // ------------------------------------------------------------------
    /// Why `player` may not pick a card of `color`, if so.
    pub open spec fn pick_rejection(self, player: PlayerId, color: CardColor) -> Option<Rejection> {
        match self.turn_phase {
            TurnPhase::PresidentSelect => {
                if self.president != Some(player) {
                    Some(Rejection::NotSelecting)
                } else if !self.hand.contains(color) {
                    Some(Rejection::NotInHand)
                } else {
                    None
                }
            },
            TurnPhase::ChancellorSelect => {
                if self.chancellor != Some(player) {
                    Some(Rejection::NotSelecting)
                } else if !self.hand.contains(color) {
                    Some(Rejection::NotOnOffer)
                } else {
                    None
                }
            },
            _ => Some(Rejection::NotNow),
        }
    }

    /// The game after the president set a card of `color` aside: it lies on
    /// the discard pile, the other two go to the chancellor, and no veto has
    /// been agreed to yet.
    pub open spec fn president_picked(self, color: CardColor) -> GameModel {
        GameModel {
            hand: without_card(self.hand, color),
            discarded: self.discarded.push(color),
            president_veto: false,
            chancellor_veto: false,
            turn_phase: TurnPhase::ChancellorSelect,
            ..self
        }
    }

    /// `post` is this game after the chancellor enacted a card of `color`:
    /// the other card of the hand lies on the discard pile.
    pub open spec fn chancellor_picks(self, color: CardColor, post: GameModel) -> bool {
        GameModel {
            hand: Seq::empty(),
            discarded: self.discarded + without_card(self.hand, color),
            ..self
        }.enacts(color, post)
    }

    /// `post` is this game after `player` picked a card of `color`.
    pub open spec fn picks(self, color: CardColor, post: GameModel) -> bool {
        if self.turn_phase is PresidentSelect {
            post == self.president_picked(color)
        } else {
            self.chancellor_picks(color, post)
        }
    }

    // ------------------------------------------------------------------
    // The veto
    // ------------------------------------------------------------------
    /// Why `player` may not agree to a veto, if so.
    pub open spec fn veto_rejection(self, player: PlayerId) -> Option<Rejection> {
        if !(self.turn_phase is ChancellorSelect) {
            Some(Rejection::VetoNotNow)
        } else if self.facist_policies < 5 {
            Some(Rejection::VetoLocked)
        } else if self.chancellor != Some(player) && self.president != Some(player) {
            Some(Rejection::NotInGovernment)
        } else {
            None
        }
    }

    /// The game with the consent of `player` to a veto recorded.
    pub open spec fn consented(self, player: PlayerId) -> GameModel {
        if self.chancellor == Some(player) {
            GameModel { chancellor_veto: true, ..self }
        } else {
            GameModel { president_veto: true, ..self }
        }
    }

    /// `post` is this game after `player` agreed to a veto. Once president
    /// and chancellor both have, the hand goes to the discard pile and the
    /// government fails.
    pub open spec fn vetoes(self, player: PlayerId, post: GameModel) -> bool {
        let agreed = self.consented(player);
        if agreed.president_veto && agreed.chancellor_veto {
            GameModel {
                hand: Seq::empty(),
                discarded: agreed.discarded + agreed.hand,
                ..agreed
            }.government_fails(post)
        } else {
            post == agreed
        }
    }

    // ------------------------------------------------------------------
    // Presidential powers
    // ------------------------------------------------------------------
    /// Why `player` may not use the pending power on `target`, if so.
    pub open spec fn power_rejection(self, player: PlayerId, target: Option<PlayerId>) -> Option<
        Rejection,
    > {
        if self.president != Some(player) {
            Some(Rejection::NotActingPresident)
        } else {
            match self.turn_phase {
                TurnPhase::PresidentialPower { power } => match power {
                    PresidentialPower::InvestigateLoyalty => match target {
                        None => Some(Rejection::NoTarget),
                        Some(t) => if !self.has_player(t) {
                            Some(Rejection::NoSuchTarget)
                        } else if t == player {
                            Some(Rejection::SelfInvestigated)
                        } else {
                            None
                        },
                    },
                    PresidentialPower::CallSpecialElection => match target {
                        None => Some(Rejection::NoTarget),
                        Some(t) => if t == player {
                            Some(Rejection::SelfElected)
                        } else if !self.has_player(t) {
                            Some(Rejection::NoSuchTarget)
                        } else if self.player(t).dead {
                            Some(Rejection::TargetDead)
                        } else {
                            None
                        },
                    },
                    PresidentialPower::Execution => match target {
                        None => Some(Rejection::NoTarget),
                        Some(t) => if t == player {
                            Some(Rejection::SelfExecuted)
                        } else if !self.has_player(t) {
                            Some(Rejection::NoSuchTarget)
                        } else if self.player(t).dead {
                            Some(Rejection::AlreadyDead)
                        } else {
                            None
                        },
                    },
                    PresidentialPower::PolicyPeek => None,
                },
                _ => Some(Rejection::NoPowerPending),
            }
        }
    }

    /// The game with `line` written to the chat, if there is one.
    pub open spec fn announced(self, line: Option<ChatLineModel>) -> GameModel {
        match line {
            Some(l) => self.said(l),
            None => self,
        }
    }

    /// The announcement of an investigation, made if president and target
    /// both have a name on file.
    pub open spec fn investigation_line(self, target: PlayerId) -> Option<ChatLineModel> {
        match (self.office_name(self.president), name_of(self.conn, target)) {
            (Some(p), Some(t)) => Some(announcement(investigated_text(p, t))),
            _ => None,
        }
    }

    /// The announcement of a special election, made if president and target
    /// both have a name on file.
    pub open spec fn special_election_line(self, target: PlayerId) -> Option<ChatLineModel> {
        match (self.office_name(self.president), name_of(self.conn, target)) {
            (Some(p), Some(t)) => Some(announcement(special_election_text(p, t))),
            _ => None,
        }
    }

    /// The announcement of an execution, made if president and target both
    /// have a name on file.
    pub open spec fn execution_line(self, target: PlayerId) -> Option<ChatLineModel> {
        match (self.office_name(self.president), name_of(self.conn, target)) {
            (Some(p), Some(t)) => Some(announcement(killed_text(p, t))),
            _ => None,
        }
    }

    /// The game after `player` investigated `target`: the investigation is on
    /// record and announced, and the presidency passes on. Investigating the
    /// same player again is allowed.
    pub open spec fn investigates(self, player: PlayerId, target: PlayerId) -> GameModel {
        GameModel {
            investigated: self.investigated.push(Investigation { investigator: player, target }),
            ..self
        }.announced(self.investigation_line(target)).advanced()
    }

    /// The game after the president called a special election for `target`:
    /// the government in office is remembered as the last one and `target`
    /// must nominate. The turn order's pointer stays where it was.
    pub open spec fn calls_election(self, target: PlayerId) -> GameModel {
        GameModel {
            last_president: self.president,
            last_chancellor: self.chancellor,
            chancellor: None,
            president: Some(target),
            turn_phase: TurnPhase::Electing,
            ..self.announced(self.special_election_line(target))
        }
    }

    /// The game with `target` dead and out of the turn order.
    pub open spec fn struck(self, target: PlayerId) -> GameModel {
        GameModel {
            players: self.players.update(
                seat_of(self.players, target),
                PlayerState { dead: true, ..self.player(target) },
            ),
            turn_order: self.turn_order.remove(self.turn_order.index_of(target)),
            ..self
        }
    }

    /// The game after the president executed `target`: the execution is
    /// announced in the name of the president who ordered it; the death of
    /// Hitler ends the game for the liberals, any other passes the presidency
    /// on.
    pub open spec fn executes(self, target: PlayerId) -> GameModel {
        let announced = self.announced(self.execution_line(target)).struck(target);
        if self.player(target).role == PlayerType::Hitler {
            GameModel { turn_phase: TurnPhase::Ended { winner: CardColor::Liberal }, ..announced }
        } else {
            announced.advanced()
        }
    }

    /// The game after the president used the pending power on `target`.
    /// A look at the top of the draw pile changes nothing but the presidency.
    pub open spec fn uses_power(self, player: PlayerId, target: Option<PlayerId>) -> GameModel {
        match self.turn_phase {
            TurnPhase::PresidentialPower { power } => match power {
                PresidentialPower::InvestigateLoyalty => self.investigates(player, target->0),
                PresidentialPower::CallSpecialElection => self.calls_election(target->0),
                PresidentialPower::Execution => self.executes(target->0),
                PresidentialPower::PolicyPeek => self.advanced(),
            },
            _ => self,
        }
    }
}

} // verus!
