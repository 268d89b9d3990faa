//! The session itself, and what every move ends with: enacting a policy
//! and passing the presidency on.

use crate::cards::{is_full, is_full_deck, shuffle, shuffle_deck};
use crate::chat::{append_line, chaos_message, enacted_message, lines_view, ChatLine};
use crate::model::{empty_lobby, lemma_empty_lobby_wf, GameModel};
use crate::phase::power_after;
use crate::roster::{
    distinct_links, find_link, links_view, name_of, ConnectionEntry, Investigation,
};
use crate::rules::replenished;
use crate::wellformed::lemma_enacts_wf;
use vstd::prelude::*;

pub use crate::cards::CardColor;
pub use crate::phase::{PresidentialPower, TurnPhase};
pub use crate::roles::PlayerType;
pub use crate::roster::{PlayerId, PlayerState};

verus! {

/// One session of the game: the roster, the chat, the piles, the board and
/// whose turn it is.
pub struct GameState {
    pub(crate) conn: Vec<ConnectionEntry>,
    pub(crate) chat_log: Vec<ChatLine>,
    pub(crate) outbox: Vec<ChatLine>,
    pub(crate) timeout: Option<u64>,
    pub(crate) players: Vec<PlayerState>,
    pub(crate) num_facists: usize,
    pub(crate) liberal_policies: u8,
    pub(crate) facist_policies: u8,
    pub(crate) election_tracker: u8,
    pub(crate) cards: Vec<CardColor>,
    pub(crate) discarded: Vec<CardColor>,
    pub(crate) hand: Vec<CardColor>,
    pub(crate) turn_phase: TurnPhase,
    pub(crate) turn_counter: usize,
    pub(crate) turn_order: Vec<PlayerId>,
    pub(crate) last_president: Option<PlayerId>,
    pub(crate) last_chancellor: Option<PlayerId>,
    pub(crate) president: Option<PlayerId>,
    pub(crate) chancellor: Option<PlayerId>,
    pub(crate) host: Option<PlayerId>,
    pub(crate) president_veto: bool,
    pub(crate) chancellor_veto: bool,
    pub(crate) investigated: Vec<Investigation>,
}

impl View for GameState {
    type V = GameModel;

    open(crate) spec fn view(&self) -> GameModel {
        GameModel {
            conn: links_view(self.conn@),
            chat_log: lines_view(self.chat_log@),
            outbox: lines_view(self.outbox@),
            timeout: self.timeout,
            players: self.players@,
            num_facists: self.num_facists as nat,
            liberal_policies: self.liberal_policies as nat,
            facist_policies: self.facist_policies as nat,
            election_tracker: self.election_tracker as nat,
            cards: self.cards@,
            discarded: self.discarded@,
            hand: self.hand@,
            turn_phase: self.turn_phase,
            turn_counter: self.turn_counter as nat,
            turn_order: self.turn_order@,
            last_president: self.last_president,
            last_chancellor: self.last_chancellor,
            president: self.president,
            chancellor: self.chancellor,
            host: self.host,
            president_veto: self.president_veto,
            chancellor_veto: self.chancellor_veto,
            investigated: self.investigated@,
        }
    }
}

/// A copy of the name on file for the holder of an office, if both exist.
pub(crate) fn name_on_file(conn: &Vec<ConnectionEntry>, holder: Option<PlayerId>) -> (name: Option<
    String,
>)
    requires
        distinct_links(links_view(conn@)),
    ensures
        match holder {
            Some(id) => match name {
                Some(text) => name_of(links_view(conn@), id) == Some(text@),
                None => name_of(links_view(conn@), id) is None,
            },
            None => name is None,
        },
{
    match holder {
        Some(id) => match find_link(conn, id) {
            Some(k) => {
                match &conn[k].connection.name {
                    Some(text) => Some(text.clone()),
                    None => None,
                }
            },
            None => None,
        },
        None => None,
    }
}

impl GameState {
    /// A game that nobody has joined yet, with a freshly shuffled draw pile.
    pub fn new() -> (game: GameState)
        ensures
            game@.wf(),
            game@ == empty_lobby(game@.cards),
            is_full_deck(game@.cards),
    {
        GameState::lobby(shuffle_deck())
    }

    /// A game that nobody has joined yet, with `deck` as its draw pile; none
    /// unless `deck` holds the whole stock. The last card of `deck` is on
    /// top.
    pub fn with_deck(deck: Vec<CardColor>) -> (game: Option<GameState>)
        ensures
            match game {
                Some(g) => is_full_deck(deck@) && g@ == empty_lobby(deck@) && g@.wf(),
                None => !is_full_deck(deck@),
            },
    {
        if is_full(&deck) {
            Some(GameState::lobby(deck))
        } else {
            None
        }
    }

    fn lobby(deck: Vec<CardColor>) -> (game: GameState)
        requires
            is_full_deck(deck@),
        ensures
            game@ == empty_lobby(deck@),
            game@.wf(),
    {
        let game = GameState {
            conn: Vec::new(),
            chat_log: Vec::new(),
            outbox: Vec::new(),
            timeout: None,
            players: Vec::new(),
            num_facists: 0,
            liberal_policies: 0,
            facist_policies: 0,
            election_tracker: 0,
            cards: deck,
            discarded: Vec::new(),
            hand: Vec::new(),
            turn_phase: TurnPhase::Lobby,
            turn_counter: 0,
            turn_order: Vec::new(),
            last_president: None,
            last_chancellor: None,
            president: None,
            chancellor: None,
            host: None,
            president_veto: false,
            chancellor_veto: false,
            investigated: Vec::new(),
        };
        proof {
            lemma_empty_lobby_wf(deck@);
        }
        game
    }

    /// Whether a game is under way: started and not over.
    pub fn is_in_game(&self) -> (running: bool)
        ensures
            running == self@.turn_phase.is_running(),
    {
        match self.turn_phase {
            TurnPhase::Lobby => false,
            TurnPhase::Ended { winner: _ } => false,
            _ => true,
        }
    }

    /// Writes `line` to the chat, which keeps its newest lines only, and
    /// queues it for sending.
    pub(crate) fn say(&mut self, line: ChatLine)
        ensures
            final(self)@ == old(self)@.said(line@),
    {
        let copy = ChatLine { id: line.id, message: line.message.clone() };
        self.outbox.push(copy);
        append_line(&mut self.chat_log, line);
    }

    /// Passes the presidency on to the next player in the turn order.
    pub(crate) fn next_president(&mut self)
        requires
            old(self)@.turn_ready(),
        ensures
            final(self)@ == old(self)@.advanced(),
            final(self)@.seats_wf(),
    {
        self.last_president = self.president;
        self.last_chancellor = self.chancellor;
        self.chancellor = None;
        self.turn_counter = (self.turn_counter + 1) % self.turn_order.len();
        self.turn_phase = TurnPhase::Electing;
        self.president = Some(self.turn_order[self.turn_counter]);
    }

    /// Moves the discard pile into the draw pile and shuffles the draw pile.
    pub(crate) fn reshuffle_deck(&mut self)
        ensures
            final(self)@ == (GameModel {
                cards: final(self)@.cards,
                discarded: final(self)@.discarded,
                ..old(self)@
            }),
            final(self)@.cards.to_multiset() == (old(self)@.cards + old(self)@.discarded).to_multiset(),
            final(self)@.discarded.len() == 0,
    {
        self.cards.append(&mut self.discarded);
        shuffle(&mut self.cards);
    }

    /// Refills the draw pile if it has run low: with fewer than three cards
    /// left it takes in the discard pile and is shuffled.
    pub(crate) fn refill(&mut self)
        ensures
            final(self)@ == (GameModel {
                cards: final(self)@.cards,
                discarded: final(self)@.discarded,
                ..old(self)@
            }),
            replenished(
                old(self)@.cards,
                old(self)@.discarded,
                final(self)@.cards,
                final(self)@.discarded,
            ),
    {
        if self.cards.len() < 3 {
            self.reshuffle_deck();
        }
    }

    /// Enacts `card`, which has left the piles already: announces it, refills
    /// the draw pile if it has run low, and settles the board.
    pub(crate) fn enact_policy(&mut self, card: CardColor)
        requires
            old(self)@.mid_turn_wf(),
            old(self)@.owes(card),
        ensures
            old(self)@.enacts(card, final(self)@),
            final(self)@.wf(),
    {
        let president = name_on_file(&self.conn, self.president);
        let chancellor = name_on_file(&self.conn, self.chancellor);
        let text = match (president, chancellor) {
            (Some(p), Some(c)) => enacted_message(p.as_str(), c.as_str(), card.name()),
            _ => chaos_message(card.name()),
        };
        self.say(ChatLine::system(text));
        self.refill();
        match card {
            CardColor::Facist => {
                self.facist_policies += 1;
                if self.facist_policies >= 6 {
                    self.turn_phase = TurnPhase::Ended { winner: CardColor::Facist };
                } else {
                    match power_after(self.players.len(), self.facist_policies) {
                        Some(power) => {
                            self.turn_phase = TurnPhase::PresidentialPower { power };
                        },
                        None => {
                            self.next_president();
                        },
                    }
                }
            },
            CardColor::Liberal => {
                self.liberal_policies += 1;
                if self.liberal_policies >= 5 {
                    self.turn_phase = TurnPhase::Ended { winner: CardColor::Liberal };
                } else {
                    self.next_president();
                }
            },
        }
        proof {
            lemma_enacts_wf(old(self)@, card, self@);
        }
    }
}

} // verus!
