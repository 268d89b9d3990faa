//! The rules of the roster and of the start, and why they keep a game well
//! formed.

use crate::chat::{
    announcement, disconnected_text, joined_text, left_game_text, left_lobby_text,
    reconnected_text, ChatLineModel,
};
use crate::error::Rejection;
use crate::model::GameModel;
use crate::phase::TurnPhase;
use crate::roles::{facist_seats, is_role_assignment, PlayerType, MAX_PLAYERS, MIN_PLAYERS};
use crate::roster::{
    fresh_player, has_link, has_seat, ids_of, link_of, name_of, name_or_empty, roles_of, seat_of,
    ConnectionModel, PlayerId, PlayerState,
};
use crate::wellformed::lemma_same_ids;
use vstd::prelude::*;
use vstd::seq_lib::*;

verus! {

/// The seats with `id` taken out, if it has one.
pub open spec fn unseated(players: Seq<PlayerState>, id: PlayerId) -> Seq<PlayerState> {
    if has_seat(players, id) {
        players.remove(seat_of(players, id))
    } else {
        players
    }
}

/// The seats with the roles of `roles` dealt to them in seating order.
pub open spec fn with_roles(players: Seq<PlayerState>, roles: Seq<PlayerType>) -> Seq<PlayerState> {
    Seq::new(players.len(), |i: int| PlayerState { role: roles[i], ..players[i] })
}

impl GameModel {
    // ------------------------------------------------------------------
    // Joining and leaving
    // ------------------------------------------------------------------
    /// Whether `id` may join: anyone while the lobby is open, later only who
    /// has a seat.
    pub open spec fn admits(self, id: PlayerId) -> bool {
        self.turn_phase is Lobby || self.has_player(id)
    }

    /// The connections with `link` on file: in place of the one that was
    /// filed under its id, or as a new one.
    pub open spec fn filed(self, link: ConnectionModel) -> Seq<ConnectionModel> {
        if has_link(self.conn, link.id) {
            self.conn.update(link_of(self.conn, link.id), link)
        } else {
            self.conn.push(link)
        }
    }

    /// The line that greets a participant who takes a seat: as someone who
    /// reconnects if a connection was on file, as someone new otherwise.
    pub open spec fn greeting(self, link: ConnectionModel) -> ChatLineModel {
        if has_link(self.conn, link.id) {
            announcement(reconnected_text(name_or_empty(link.name)))
        } else {
            announcement(joined_text(name_or_empty(link.name)))
        }
    }

    /// The game after the participant of `link` was admitted: the connection
    /// is on file; who had no seat has a fresh one and is greeted; a game
    /// without a host has this participant as host.
    pub open spec fn joined(self, link: ConnectionModel) -> GameModel {
        let seated = self.has_player(link.id);
        let greeted = if seated {
            self
        } else {
            self.said(self.greeting(link))
        };
        GameModel {
            conn: self.filed(link),
            players: if seated {
                self.players
            } else {
                self.players.push(fresh_player(link.id))
            },
            host: if self.host is None {
                Some(link.id)
            } else {
                self.host
            },
            ..greeted
        }
    }

    /// The host after `id` gave up its seat: as before unless `id` was the
    /// host, in which case the first of the remaining players takes over.
    pub open spec fn host_without(self, id: PlayerId) -> Option<PlayerId> {
        if self.host == Some(id) {
            let rest = unseated(self.players, id);
            if rest.len() > 0 {
                Some(rest[0].id)
            } else {
                None
            }
        } else {
            self.host
        }
    }

    /// The game after the connection of `id` broke. In the lobby the seat is
    /// given up and the loss announced if a name is on file, but the
    /// connection stays on file, so that the participant can come back. Once
    /// the game has started the connection is only marked as down.
    pub open spec fn disconnected(self, id: PlayerId) -> GameModel {
        if self.turn_phase is Lobby {
            GameModel {
                players: unseated(self.players, id),
                host: self.host_without(id),
                ..match name_of(self.conn, id) {
                    Some(name) => self.said(announcement(disconnected_text(name))),
                    None => self,
                }
            }
        } else if has_link(self.conn, id) {
            let k = link_of(self.conn, id);
            GameModel {
                conn: self.conn.update(k, ConnectionModel { connected: false, ..self.conn[k] }),
                ..self
            }
        } else {
            self
        }
    }

    /// The game after `id` left for good. In the lobby seat and connection
    /// are given up, and the departure is announced if a connection was on
    /// file. Once the game has started nothing but an announcement is made,
    /// and that only if a name is on file.
    pub open spec fn departed(self, id: PlayerId) -> GameModel {
        if self.turn_phase is Lobby {
            if has_link(self.conn, id) {
                let k = link_of(self.conn, id);
                GameModel {
                    players: unseated(self.players, id),
                    host: self.host_without(id),
                    conn: self.conn.remove(k),
                    ..self.said(announcement(left_lobby_text(name_or_empty(self.conn[k].name))))
                }
            } else {
                GameModel {
                    players: unseated(self.players, id),
                    host: self.host_without(id),
                    ..self
                }
            }
        } else {
            match name_of(self.conn, id) {
                Some(name) => self.said(announcement(left_game_text(name))),
                None => self,
            }
        }
    }

    /// Whether anyone is there: in the lobby, whether a seat is taken; once
    /// the game has started, whether a connection is up.
    pub open spec fn anyone_connected(self) -> bool {
        if self.turn_phase is Lobby {
            self.players.len() > 0
        } else {
            exists|i: int| 0 <= i < self.conn.len() && (#[trigger] self.conn[i]).connected
        }
    }

    /// The secret on file for `id`, if a connection is on file and has one.
    pub open spec fn secret_of(self, id: PlayerId) -> Option<PlayerId> {
        if has_link(self.conn, id) {
            self.conn[link_of(self.conn, id)].secret
        } else {
            None
        }
    }

    /// The game with `line` written to the chat.
    pub open spec fn with_chat(self, line: ChatLineModel) -> GameModel {
        self.said(line)
    }

    // ------------------------------------------------------------------
    // Starting the game
    // ------------------------------------------------------------------
    /// Why `player` may not start the game, if so.
    pub open spec fn start_rejection(self, player: PlayerId) -> Option<Rejection> {
        if !(self.turn_phase is Lobby) {
            Some(Rejection::AlreadyStarted)
        } else if self.host != Some(player) {
            Some(Rejection::NotHost)
        } else if self.players.len() < MIN_PLAYERS || self.players.len() > MAX_PLAYERS {
            Some(Rejection::PlayerCount)
        } else {
            None
        }
    }

    /// Whether `roles` and `order` can be installed at this table: `roles`
    /// is a legal assignment for it, and `order` holds the id of every
    /// player once.
    pub open spec fn is_seating(self, roles: Seq<PlayerType>, order: Seq<PlayerId>) -> bool {
        &&& is_role_assignment(roles, self.players.len())
        &&& order.to_multiset() == ids_of(self.players).to_multiset()
    }

    /// The game started with `roles` dealt in seating order and `order` as
    /// turn order: the first of the order is president and must nominate.
    pub open spec fn seated(self, roles: Seq<PlayerType>, order: Seq<PlayerId>) -> GameModel {
        GameModel {
            players: with_roles(self.players, roles),
            num_facists: facist_seats(self.players.len()),
            turn_order: order,
            president: Some(order[0]),
            turn_phase: TurnPhase::Electing,
            ..self
        }
    }

    /// `post` is this game started: with some legal assignment of roles and
    /// with the players in some order as turn order.
    pub open spec fn starts(self, post: GameModel) -> bool {
        &&& self.is_seating(roles_of(post.players), post.turn_order)
        &&& post == self.seated(roles_of(post.players), post.turn_order)
    }
}

/// Admitting a participant leaves a well-formed game.
pub proof fn lemma_joined_wf(m: GameModel, link: ConnectionModel)
    requires
        m.wf(),
        m.admits(link.id),
    ensures
        m.joined(link).wf(),
{
    let post = m.joined(link);
    let id = link.id;
    // the connections stay distinct, and every id that was on file still is
    assert forall|other: PlayerId| has_link(m.conn, other) || other == id implies has_link(
        post.conn,
        other,
    ) by {
        if has_link(m.conn, other) {
            let i = link_of(m.conn, other);
            assert(post.conn[i].id == other);
        } else {
            let i = if has_link(m.conn, id) {
                link_of(m.conn, id)
            } else {
                m.conn.len() as int
            };
            assert(post.conn[i].id == id);
        }
    }
    if !m.has_player(id) {
        assert(post.players[m.players.len() as int] == fresh_player(id));
    }
    if m.host is Some {
        let h = m.host->0;
        let s = seat_of(m.players, h);
        assert(post.players[s].id == h);
    }
}

/// Giving up a seat keeps the seats distinct and those who stay seated.
pub proof fn lemma_unseated(players: Seq<PlayerState>, id: PlayerId)
    requires
        crate::roster::distinct_seats(players),
    ensures
        crate::roster::distinct_seats(unseated(players, id)),
        !has_seat(unseated(players, id), id),
        forall|other: PlayerId|
            other != id ==> has_seat(unseated(players, id), other) == has_seat(players, other),
        forall|i: int|
            0 <= i < unseated(players, id).len() ==> players.contains(
                #[trigger] unseated(players, id)[i],
            ),
{
    let rest = unseated(players, id);
    if has_seat(players, id) {
        let k = seat_of(players, id);
        assert forall|other: PlayerId| other != id implies has_seat(rest, other) == has_seat(
            players,
            other,
        ) by {
            if has_seat(players, other) {
                let a = seat_of(players, other);
                let i = if a < k { a } else { a - 1 };
                assert(rest[i] == players[a]);
            }
            if has_seat(rest, other) {
                assert(rest[seat_of(rest, other)].id == other);
            }
        }
    }
}

/// A broken connection leaves a well-formed game.
pub proof fn lemma_disconnected_wf(m: GameModel, id: PlayerId)
    requires
        m.wf(),
    ensures
        m.disconnected(id).wf(),
{
    let post = m.disconnected(id);
    if m.turn_phase is Lobby {
        lemma_lobby_unseated(m, id, post);
    } else if has_link(m.conn, id) {
        assert forall|other: PlayerId| has_link(m.conn, other) implies has_link(
            post.conn,
            other,
        ) by {
            let i = link_of(m.conn, other);
            assert(post.conn[i].id == other);
        }
    }
}

/// In the lobby a game stays well formed when a seat is given up, the host's
/// office is handed on and the chat stays within its limit.
proof fn lemma_lobby_unseated(m: GameModel, id: PlayerId, post: GameModel)
    requires
        m.wf(),
        m.turn_phase is Lobby,
        post.chat_log.len() <= crate::chat::CHAT_LIMIT,
        post == (GameModel {
            players: unseated(m.players, id),
            host: m.host_without(id),
            chat_log: post.chat_log,
            outbox: post.outbox,
            ..m
        }),
    ensures
        post.wf(),
{
    lemma_unseated(m.players, id);
    assert(post.players == unseated(m.players, id));
}

/// A departure leaves a well-formed game.
pub proof fn lemma_departed_wf(m: GameModel, id: PlayerId)
    requires
        m.wf(),
    ensures
        m.departed(id).wf(),
{
    let post = m.departed(id);
    if m.turn_phase is Lobby {
        lemma_unseated(m.players, id);
        if has_link(m.conn, id) {
            let k = link_of(m.conn, id);
            let rest = post.players;
            let links = post.conn;
            assert forall|i: int| 0 <= i < rest.len() implies has_link(
                links,
                (#[trigger] rest[i]).id,
            ) && rest[i].role == PlayerType::Liberal && !rest[i].dead by {
                let l = link_of(m.conn, rest[i].id);
                let l2 = if l < k { l } else { l - 1 };
                assert(links[l2] == m.conn[l]);
            }
        }
    }
}

/// A legal start with a legal seating leaves a well-formed game in which
/// the first of the turn order must nominate.
pub proof fn lemma_seated_wf(
    m: GameModel,
    player: PlayerId,
    roles: Seq<PlayerType>,
    order: Seq<PlayerId>,
)
    requires
        m.wf(),
        m.start_rejection(player) is None,
        m.is_seating(roles, order),
    ensures
        m.seated(roles, order).wf(),
        m.seated(roles, order).turn_phase is Electing,
        roles_of(m.seated(roles, order).players) == roles,
        order.len() == m.players.len(),
{
    broadcast use group_to_multiset_ensures;

    let post = m.seated(roles, order);
    let ids = ids_of(m.players);
    lemma_same_ids(m.players, post.players);
    assert(roles_of(post.players) =~= roles);
    assert(ids.len() == ids.to_multiset().len());
    ids.lemma_multiset_has_no_duplicates();
    order.lemma_multiset_has_no_duplicates_conv();
    assert forall|i: int| 0 <= i < order.len() implies post.is_alive(#[trigger] order[i]) by {
        assert(ids.to_multiset().count(order[i]) > 0);
    }
    assert forall|j: int|
        0 <= j < post.players.len() && !(#[trigger] post.players[j]).dead implies order.contains(
        post.players[j].id,
    ) by {
        assert(order.to_multiset().count(ids[j]) > 0);
    }
}

/// The ids of distinct seats are distinct.
pub proof fn lemma_ids_distinct(players: Seq<PlayerState>)
    requires
        crate::roster::distinct_seats(players),
    ensures
        ids_of(players).no_duplicates(),
        forall|id: PlayerId| ids_of(players).contains(id) <==> has_seat(players, id),
{
    let ids = ids_of(players);
    assert forall|id: PlayerId| ids.contains(id) <==> has_seat(players, id) by {
        if has_seat(players, id) {
            let i = seat_of(players, id);
            assert(ids[i] == id);
        }
    }
}

/// An order holds the id of every player once exactly if it is as long as
/// the table, names no id twice, and names seated players only.
pub proof fn lemma_turn_order_by_members(players: Seq<PlayerState>, order: Seq<PlayerId>)
    requires
        crate::roster::distinct_seats(players),
    ensures
        order.to_multiset() == ids_of(players).to_multiset() <==> {
            &&& order.len() == players.len()
            &&& order.no_duplicates()
            &&& forall|i: int| 0 <= i < order.len() ==> has_seat(players, #[trigger] order[i])
        },
{
    broadcast use group_to_multiset_ensures;

    let ids = ids_of(players);
    lemma_ids_distinct(players);
    ids.lemma_multiset_has_no_duplicates();
    assert(ids.len() == ids.to_multiset().len());
    if order.to_multiset() == ids.to_multiset() {
        order.lemma_multiset_has_no_duplicates_conv();
        assert forall|i: int| 0 <= i < order.len() implies has_seat(players, #[trigger] order[i]) by {
            assert(ids.to_multiset().count(order[i]) > 0);
        }
    }
    if order.len() == players.len() && order.no_duplicates() && (forall|i: int|
        0 <= i < order.len() ==> has_seat(players, #[trigger] order[i])) {
        order.lemma_multiset_has_no_duplicates();
        order.unique_seq_to_set();
        ids.unique_seq_to_set();
        vstd::set_lib::lemma_subset_equality(order.to_set(), ids.to_set());
        assert forall|id: PlayerId| order.to_multiset().count(id) == ids.to_multiset().count(
            id,
        ) by {
            assert(order.to_set().contains(id) == ids.to_set().contains(id));
        }
        assert(order.to_multiset() =~= ids.to_multiset());
    }
}

} // verus!
