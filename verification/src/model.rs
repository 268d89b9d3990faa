//! A game as contracts see it, and what makes it well formed.

use crate::cards::{count_of, is_full_deck, CardColor, FACIST_CARDS, LIBERAL_CARDS};
use crate::chat::{logged, ChatLineModel, CHAT_LIMIT};
use crate::phase::TurnPhase;
use crate::roles::{facist_seats, is_role_assignment, is_table_size, PlayerType};
use crate::roster::{
    distinct_links, distinct_seats, has_link, has_seat, name_of, roles_of, seat_of,
    ConnectionModel, Investigation, PlayerId, PlayerState,
};
use vstd::prelude::*;

verus! {

/// A game as contracts see it: every collection as a sequence, every counter
/// as a natural number.
#[verifier::ext_equal]
pub struct GameModel {
    /// The connections on file, one per participant who ever joined.
    pub conn: Seq<ConnectionModel>,
    /// The newest lines of the chat, oldest first.
    pub chat_log: Seq<ChatLineModel>,
    /// The lines that were written to the chat and are still to be sent to
    /// the participants, oldest first.
    pub outbox: Seq<ChatLineModel>,
    /// When the last participant went away, if nobody has come back since.
    pub timeout: Option<u64>,
    /// The seated players.
    pub players: Seq<PlayerState>,
    /// The number of fascists beside Hitler, once the roles are dealt.
    pub num_facists: nat,
    pub liberal_policies: nat,
    pub facist_policies: nat,
    /// Governments that failed in a row.
    pub election_tracker: nat,
    /// The draw pile; its last card is on top.
    pub cards: Seq<CardColor>,
    /// The discard pile.
    pub discarded: Seq<CardColor>,
    /// The cards that the government holds during a selection.
    pub hand: Seq<CardColor>,
    pub turn_phase: TurnPhase,
    /// The place in `turn_order` of the last regular president.
    pub turn_counter: nat,
    /// The living players in the order in which the presidency passes.
    pub turn_order: Seq<PlayerId>,
    pub last_president: Option<PlayerId>,
    pub last_chancellor: Option<PlayerId>,
    pub president: Option<PlayerId>,
    pub chancellor: Option<PlayerId>,
    pub host: Option<PlayerId>,
    pub president_veto: bool,
    pub chancellor_veto: bool,
    /// Every use of the power to investigate, oldest first.
    pub investigated: Seq<Investigation>,
}

impl GameModel {
    /// Whether `id` is a seated player.
    pub open spec fn has_player(self, id: PlayerId) -> bool {
        has_seat(self.players, id)
    }

    /// The record of the seated player `id`.
    pub open spec fn player(self, id: PlayerId) -> PlayerState {
        self.players[seat_of(self.players, id)]
    }

    /// Whether `id` is a seated player who has not been executed.
    pub open spec fn is_alive(self, id: PlayerId) -> bool {
        self.has_player(id) && !self.player(id).dead
    }

    /// The name on file for the holder of an office, if both exist.
    pub open spec fn office_name(self, holder: Option<PlayerId>) -> Option<Seq<char>> {
        match holder {
            Some(id) => name_of(self.conn, id),
            None => None,
        }
    }

    /// The game with `line` written to the chat: it is the newest line of the
    /// log, which forgets its oldest beyond the limit, and it waits to be sent.
    pub open spec fn said(self, line: ChatLineModel) -> GameModel {
        GameModel {
            chat_log: logged(self.chat_log, line),
            outbox: self.outbox.push(line),
            ..self
        }
    }

    /// Whether this game has the board, the phase and the players' records
    /// of `other`.
    pub open spec fn same_board(self, other: GameModel) -> bool {
        &&& self.liberal_policies == other.liberal_policies
        &&& self.facist_policies == other.facist_policies
        &&& self.election_tracker == other.election_tracker
        &&& self.turn_phase == other.turn_phase
        &&& self.players == other.players
    }

    /// How many cards of `color` are in the draw pile, the discard pile and
    /// the government's hand together.
    pub open spec fn in_play(self, color: CardColor) -> nat {
        count_of(self.cards, color) + count_of(self.discarded, color) + count_of(self.hand, color)
    }

    /// No card is lost or made: of each colour, the cards in play and the
    /// policies on the board make up the stock.
    pub open spec fn cards_conserved(self) -> bool {
        &&& self.in_play(CardColor::Liberal) + self.liberal_policies == LIBERAL_CARDS
        &&& self.in_play(CardColor::Facist) + self.facist_policies == FACIST_CARDS
    }

    /// The piles and the hand fit the phase: the hand holds three cards for
    /// the president, two for the chancellor and none otherwise, and outside a
    /// selection the draw pile can serve the next draw.
    pub open spec fn deck_wf(self) -> bool {
        &&& self.cards_conserved()
        &&& self.hand.len() == self.turn_phase.hand_size()
        &&& !self.turn_phase.is_selection() ==> self.cards.len() >= 3
    }

    /// Ids are unique, every player has a connection on file, the host is a
    /// player, and the chat is within its limit.
    pub open spec fn roster_wf(self) -> bool {
        &&& distinct_links(self.conn)
        &&& distinct_seats(self.players)
        &&& forall|i: int|
            0 <= i < self.players.len() ==> has_link(self.conn, (#[trigger] self.players[i]).id)
        &&& self.host matches Some(h) ==> has_seat(self.players, h)
        &&& self.host is None ==> self.players.len() == 0
        &&& self.chat_log.len() <= CHAT_LIMIT
    }

    /// The board is within bounds, and a full track ends the game.
    pub open spec fn board_wf(self) -> bool {
        &&& self.liberal_policies <= 5
        &&& self.facist_policies <= 6
        &&& self.election_tracker < 3
        &&& !(self.turn_phase is Ended) ==> self.liberal_policies < 5 && self.facist_policies < 6
    }

    /// Before the start nothing has happened yet.
    pub open spec fn lobby_wf(self) -> bool {
        self.turn_phase is Lobby ==> {
            &&& self.liberal_policies == 0
            &&& self.facist_policies == 0
            &&& self.election_tracker == 0
            &&& self.num_facists == 0
            &&& self.discarded.len() == 0
            &&& self.turn_order.len() == 0
            &&& self.turn_counter == 0
            &&& self.president is None
            &&& self.chancellor is None
            &&& self.last_president is None
            &&& self.last_chancellor is None
            &&& self.investigated.len() == 0
            &&& forall|i: int|
                0 <= i < self.players.len() ==> {
                    &&& (#[trigger] self.players[i]).role == PlayerType::Liberal
                    &&& !self.players[i].dead
                }
        }
    }

    /// The turn order holds exactly the living players, each once.
    pub open spec fn turn_order_wf(self) -> bool {
        &&& self.turn_order.no_duplicates()
        &&& self.turn_order.len() <= self.players.len()
        &&& forall|i: int|
            0 <= i < self.turn_order.len() ==> self.is_alive(#[trigger] self.turn_order[i])
        &&& forall|j: int|
            0 <= j < self.players.len() && !(#[trigger] self.players[j]).dead
                ==> self.turn_order.contains(self.players[j].id)
    }

    /// Once the game has started the table has five to ten players, one of
    /// them Hitler and as many fascists as the table calls for.
    pub open spec fn table_wf(self) -> bool {
        !(self.turn_phase is Lobby) ==> {
            &&& is_table_size(self.players.len())
            &&& is_role_assignment(roles_of(self.players), self.players.len())
            &&& self.num_facists == facist_seats(self.players.len())
            &&& self.turn_order_wf()
        }
    }

    /// President and chancellor are never the same player; while the game
    /// runs there is a living president; while a government is voted on or
    /// selects, there is a chancellor.
    pub open spec fn offices_wf(self) -> bool {
        &&& self.chancellor matches Some(c) ==> self.has_player(c) && self.president != Some(c)
        &&& self.turn_phase.is_running() ==> {
            &&& self.turn_counter < self.turn_order.len()
            &&& self.president matches Some(p) && self.turn_order.contains(p)
        }
        &&& (self.turn_phase is Voting || self.turn_phase.is_selection())
            ==> self.chancellor is Some
    }

    /// Everything that holds of a game but the state of the piles.
    pub open spec fn seats_wf(self) -> bool {
        &&& self.roster_wf()
        &&& self.board_wf()
        &&& self.lobby_wf()
        &&& self.table_wf()
        &&& self.offices_wf()
    }

    /// The invariant of a game: what every operation may rely on and must
    /// keep.
    pub open spec fn wf(self) -> bool {
        &&& self.seats_wf()
        &&& self.deck_wf()
    }
}

/// A game that nobody has joined yet, with `deck` as its draw pile.
pub open spec fn empty_lobby(deck: Seq<CardColor>) -> GameModel {
    GameModel {
        conn: Seq::empty(),
        chat_log: Seq::empty(),
        outbox: Seq::empty(),
        timeout: None,
        players: Seq::empty(),
        num_facists: 0,
        liberal_policies: 0,
        facist_policies: 0,
        election_tracker: 0,
        cards: deck,
        discarded: Seq::empty(),
        hand: Seq::empty(),
        turn_phase: TurnPhase::Lobby,
        turn_counter: 0,
        turn_order: Seq::empty(),
        last_president: None,
        last_chancellor: None,
        president: None,
        chancellor: None,
        host: None,
        president_veto: false,
        chancellor_veto: false,
        investigated: Seq::empty(),
    }
}

/// A game that nobody has joined yet is well formed if its pile is the whole
/// stock.
pub proof fn lemma_empty_lobby_wf(deck: Seq<CardColor>)
    requires
        is_full_deck(deck),
    ensures
        empty_lobby(deck).wf(),
{
    let m = empty_lobby(deck);
    crate::cards::lemma_count_empty(m.hand, CardColor::Liberal);
    crate::cards::lemma_count_empty(m.hand, CardColor::Facist);
}

} // verus!
