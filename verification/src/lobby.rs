//! The roster: joining, leaving, chatting, and starting the game.

use crate::cards::shuffle;
use crate::chat::{
    disconnected_message, joined_message, left_game_message, left_lobby_message,
    reconnected_message, ChatLine,
};
use crate::error::Rejection;
use crate::game_state::{name_on_file, GameState};
use crate::phase::TurnPhase;
use crate::roles::{assign_roles, facist_seats_for, PlayerType, MAX_PLAYERS, MIN_PLAYERS};
use crate::roster::{
    find_link, find_seat, ids_of, links_view, ConnectionEntry, PlayerConnection, PlayerId,
    PlayerState,
};
use crate::roles::is_assignment;
use crate::roster::has_seat;
use crate::seating::{
    lemma_departed_wf, lemma_disconnected_wf, lemma_joined_wf, lemma_seated_wf, lemma_turn_order_by_members, with_roles,
};
use vstd::prelude::*;

verus! {

/// The ids of the seats, in seating order.
pub(crate) fn seat_ids(players: &Vec<PlayerState>) -> (ids: Vec<PlayerId>)
    ensures
        ids@ == ids_of(players@),
{
    let mut ids: Vec<PlayerId> = Vec::new();
    let mut i: usize = 0;
    while i < players.len()
        invariant
            i <= players.len(),
            ids@.len() == i,
            forall|k: int| 0 <= k < i ==> ids@[k] == players@[k].id,
        decreases players.len() - i,
    {
        ids.push(players[i].id);
        i += 1;
    }
    ids
}

/// Deals `roles` to the seats in seating order.
pub(crate) fn deal_roles(players: &mut Vec<PlayerState>, roles: &Vec<PlayerType>)
    requires
        roles.len() == old(players).len(),
    ensures
        final(players)@ == with_roles(old(players)@, roles@),
{
    let mut i: usize = 0;
    while i < players.len()
        invariant
            i <= players.len(),
            players.len() == old(players).len(),
            roles.len() == players.len(),
            forall|k: int| 0 <= k < i ==> players@[k] == with_roles(old(players)@, roles@)[k],
            forall|k: int| i <= k < players.len() ==> players@[k] == old(players)@[k],
        decreases players.len() - i,
    {
        players[i].role = roles[i];
        i += 1;
    }
}

/// Whether no id occurs twice in `ids`.
pub fn all_distinct(ids: &Vec<PlayerId>) -> (distinct: bool)
    ensures
        distinct == ids@.no_duplicates(),
{
    let mut i: usize = 0;
    while i < ids.len()
        invariant
            i <= ids.len(),
            forall|a: int, b: int| 0 <= a < i && 0 <= b < a ==> ids@[a] != ids@[b],
        decreases ids.len() - i,
    {
        let mut j: usize = 0;
        while j < i
            invariant
                j <= i,
                i < ids.len(),
                forall|b: int| 0 <= b < j ==> ids@[i as int] != ids@[b],
            decreases i - j,
        {
            if ids[i] == ids[j] {
                return false;
            }
            j += 1;
        }
        i += 1;
    }
    true
}

/// Whether every id in `ids` has a seat among `players`.
pub fn all_seated(players: &Vec<PlayerState>, ids: &Vec<PlayerId>) -> (seated: bool)
    ensures
        seated == (forall|i: int| 0 <= i < ids@.len() ==> has_seat(players@, #[trigger] ids@[i])),
{
    let mut i: usize = 0;
    while i < ids.len()
        invariant
            i <= ids.len(),
            forall|k: int| 0 <= k < i ==> has_seat(players@, #[trigger] ids@[k]),
        decreases ids.len() - i,
    {
        if find_seat(players, ids[i]).is_none() {
            return false;
        }
        i += 1;
    }
    true
}

impl GameState {
    /// Whether `roles` and `turn_order` can be installed at this table:
    /// `roles` is a legal assignment for it, and `turn_order` holds the id of
    /// every player once.
    pub fn is_seating(&self, roles: &Vec<PlayerType>, turn_order: &Vec<PlayerId>) -> (fits: bool)
        requires
            self@.wf(),
        ensures
            fits == self@.is_seating(roles@, turn_order@),
    {
        proof {
            lemma_turn_order_by_members(self@.players, turn_order@);
        }
        is_assignment(roles, self.players.len()) && turn_order.len() == self.players.len()
            && all_distinct(turn_order) && all_seated(&self.players, turn_order)
    }

    /// Admits a participant: anyone while the lobby is open, later only who
    /// has a seat (which re-attaches the connection and changes nothing
    /// else). Says whether the participant was admitted; who is not leaves
    /// the game as it was.
    pub fn add_player(&mut self, player_id: PlayerId, player_connection: PlayerConnection) -> (admitted:
        bool)
        requires
            old(self)@.wf(),
        ensures
            final(self)@.wf(),
            admitted == old(self)@.admits(player_id),
            admitted ==> final(self)@ == old(self)@.joined(player_connection.filed(player_id)),
            !admitted ==> final(self)@ == old(self)@,
    {
        let seat = find_seat(&self.players, player_id);
        if self.turn_phase != TurnPhase::Lobby && seat.is_none() {
            return false;
        }
        let ghost link = player_connection.filed(player_id);
        let name = player_connection.name_or_default();
        let entry = ConnectionEntry { id: player_id, connection: player_connection };
        let is_new = match find_link(&self.conn, player_id) {
            Some(k) => {
                self.conn[k] = entry;
                false
            },
            None => {
                self.conn.push(entry);
                true
            },
        };
        if seat.is_none() {
            self.players.push(
                PlayerState { id: player_id, role: PlayerType::Liberal, vote: None, dead: false },
            );
            let text = if is_new {
                joined_message(name.as_str())
            } else {
                reconnected_message(name.as_str())
            };
            self.say(ChatLine::system(text));
        }
        if self.host.is_none() {
            self.host = Some(player_id);
        }
        proof {
            assert(self@ =~= old(self)@.joined(link));
            lemma_joined_wf(old(self)@, link);
        }
        true
    }

    /// The secret on file for a participant, if a connection is on file and
    /// has one.
    pub fn get_player_secret(&self, player_id: &PlayerId) -> (secret: Option<PlayerId>)
        requires
            self@.wf(),
        ensures
            secret == self@.secret_of(*player_id),
    {
        match find_link(&self.conn, *player_id) {
            Some(k) => {
                self.conn[k].connection.secret
            },
            None => None,
        }
    }

    /// Whether anyone is there: in the lobby, whether a seat is taken; once
    /// the game has started, whether a connection is up.
    pub fn has_connected_players(&self) -> (anyone: bool)
        ensures
            anyone == self@.anyone_connected(),
    {
        if self.turn_phase == TurnPhase::Lobby {
            return self.players.len() > 0;
        }
        let mut i: usize = 0;
        while i < self.conn.len()
            invariant
                i <= self.conn.len(),
                !(self.turn_phase is Lobby),
                forall|k: int| 0 <= k < i ==> !(#[trigger] links_view(self.conn@)[k]).connected,
            decreases self.conn.len() - i,
        {
            if self.conn[i].connection.connected {
                assert(self@.conn[i as int].connected);
                return true;
            }
            i += 1;
        }
        false
    }

    /// Writes a line to the chat, which keeps its newest 250 lines.
    pub fn add_chat(&mut self, line: ChatLine)
        requires
            old(self)@.wf(),
        ensures
            final(self)@.wf(),
            final(self)@ == old(self)@.with_chat(line@),
    {
        self.say(line);
    }

    /// Takes note of a broken connection. In the lobby the seat is given up
    /// (the host's office passes to the first player who stays) and the
    /// answer is true; once the game has started the connection is marked as
    /// down and the answer is false.
    pub fn remove_player(&mut self, player: PlayerId) -> (in_lobby: bool)
        requires
            old(self)@.wf(),
        ensures
            final(self)@.wf(),
            in_lobby == (old(self)@.turn_phase is Lobby),
            final(self)@ == old(self)@.disconnected(player),
    {
        if self.turn_phase == TurnPhase::Lobby {
            self.give_up_seat(player);
            match name_on_file(&self.conn, Some(player)) {
                Some(name) => {
                    let text = disconnected_message(name.as_str());
                    self.say(ChatLine::system(text));
                },
                None => {},
            }
            proof {
                lemma_disconnected_wf(old(self)@, player);
            }
            true
        } else {
            match find_link(&self.conn, player) {
                Some(k) => {
                    self.conn[k].connection.connected = false;
                },
                None => {},
            }
            proof {
                assert(self@ =~= old(self)@.disconnected(player));
                lemma_disconnected_wf(old(self)@, player);
            }
            false
        }
    }

    /// A participant leaves for good. In the lobby seat and connection are
    /// given up and the answer is true; once the game has started the
    /// departure is only announced and the answer is false.
    pub fn delete_player(&mut self, player: PlayerId) -> (in_lobby: bool)
        requires
            old(self)@.wf(),
        ensures
            final(self)@.wf(),
            in_lobby == (old(self)@.turn_phase is Lobby),
            final(self)@ == old(self)@.departed(player),
    {
        if self.turn_phase == TurnPhase::Lobby {
            self.give_up_seat(player);
            match find_link(&self.conn, player) {
                Some(k) => {
                    let entry = self.conn.remove(k);
                    let name = entry.connection.name_or_default();
                    let text = left_lobby_message(name.as_str());
                    self.say(ChatLine::system(text));
                },
                None => {},
            }
            proof {
                assert(self@ =~= old(self)@.departed(player));
                lemma_departed_wf(old(self)@, player);
            }
            true
        } else {
            match name_on_file(&self.conn, Some(player)) {
                Some(name) => {
                    let text = left_game_message(name.as_str());
                    self.say(ChatLine::system(text));
                },
                None => {},
            }
            false
        }
    }

    /// Gives up the seat of `player`, if it has one, and hands the host's
    /// office on if `player` held it.
    fn give_up_seat(&mut self, player: PlayerId)
        requires
            old(self)@.wf(),
        ensures
            final(self)@ == (crate::model::GameModel {
                players: crate::seating::unseated(old(self)@.players, player),
                host: old(self)@.host_without(player),
                ..old(self)@
            }),
    {
        match find_seat(&self.players, player) {
            Some(seat) => {
                let _ = self.players.remove(seat);
            },
            None => {},
        }
        if self.host == Some(player) {
            self.host = if self.players.len() > 0 {
                Some(self.players[0].id)
            } else {
                None
            };
        }
    }

    /// Why `player` may not start the game, if so.
    fn start_rejection(&self, player: PlayerId) -> (why: Option<Rejection>)
        ensures
            why == self@.start_rejection(player),
    {
        if self.turn_phase != TurnPhase::Lobby {
            Some(Rejection::AlreadyStarted)
        } else if self.host != Some(player) {
            Some(Rejection::NotHost)
        } else if self.players.len() < MIN_PLAYERS || self.players.len() > MAX_PLAYERS {
            Some(Rejection::PlayerCount)
        } else {
            None
        }
    }

    /// Deals `roles` in seating order, installs `turn_order`, and makes its
    /// first player president.
    fn seat(&mut self, roles: Vec<PlayerType>, turn_order: Vec<PlayerId>)
        requires
            old(self)@.wf(),
            old(self)@.host is Some,
            old(self)@.start_rejection(old(self)@.host->0) is None,
            old(self)@.is_seating(roles@, turn_order@),
        ensures
            final(self)@.wf(),
            final(self)@ == old(self)@.seated(roles@, turn_order@),
            old(self)@.starts(final(self)@),
    {
        proof {
            lemma_seated_wf(old(self)@, old(self)@.host->0, roles@, turn_order@);
        }
        self.num_facists = facist_seats_for(self.players.len());
        deal_roles(&mut self.players, &roles);
        self.president = Some(turn_order[0]);
        self.turn_order = turn_order;
        self.turn_phase = TurnPhase::Electing;
    }

    /// The host starts the game at a table of five to ten players: the roles
    /// are dealt at random, the players are put in a random turn order, and
    /// the first of them is president and must nominate. A call that is
    /// turned down changes nothing.
    pub fn start(&mut self, player: PlayerId) -> (result: Result<(), Rejection>)
        requires
            old(self)@.wf(),
        ensures
            final(self)@.wf(),
            match result {
                Ok(()) => old(self)@.start_rejection(player) is None && old(self)@.starts(
                    final(self)@,
                ),
                Err(why) => old(self)@.start_rejection(player) == Some(why) && final(self)@ == old(self)@,
            },
    {
        match self.start_rejection(player) {
            Some(why) => Err(why),
            None => {
                let roles = assign_roles(self.players.len());
                let mut turn_order = seat_ids(&self.players);
                shuffle(&mut turn_order);
                self.seat(roles, turn_order);
                Ok(())
            },
        }
    }

    /// Starts the game as `start` does, but with the given roles (dealt in
    /// seating order) and the given turn order in place of random ones.
    /// Where the start is legal, `roles` must be a legal assignment for the
    /// table and `turn_order` must hold the id of every player once.
    pub fn start_with(
        &mut self,
        player: PlayerId,
        roles: Vec<PlayerType>,
        turn_order: Vec<PlayerId>,
    ) -> (result: Result<(), Rejection>)
        requires
            old(self)@.wf(),
            old(self)@.start_rejection(player) is None ==> old(self)@.is_seating(
                roles@,
                turn_order@,
            ),
        ensures
            final(self)@.wf(),
            match result {
                Ok(()) => old(self)@.start_rejection(player) is None && final(self)@ == old(self)@.seated(
                    roles@,
                    turn_order@,
                ),
                Err(why) => old(self)@.start_rejection(player) == Some(why) && final(self)@ == old(self)@,
            },
    {
        match self.start_rejection(player) {
            Some(why) => Err(why),
            None => {
                self.seat(roles, turn_order);
                Ok(())
            },
        }
    }

    /// Whether `id` has a seat in this game.
    pub fn has_player(&self, id: PlayerId) -> (seated: bool)
        ensures
            seated == self@.has_player(id),
    {
        find_seat(&self.players, id).is_some()
    }
}

} // verus!
