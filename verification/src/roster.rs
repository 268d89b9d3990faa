//! Players and connections, and how they are found by id.

use crate::roles::PlayerType;
use vstd::prelude::*;

verus! {

/// The identifier of a participant: the 128 bits of the identifier that the
/// transport layer issued.
pub type PlayerId = u128;

/// What the game keeps of one seated player.
#[derive(Clone, Copy, Debug)]
pub struct PlayerState {
    pub id: PlayerId,
    pub role: PlayerType,
    pub vote: Option<bool>,
    pub dead: bool,
}

/// One use of the power to investigate: `investigator` has seen the party of
/// `target`.
#[derive(Clone, Copy, Debug)]
pub struct Investigation {
    pub investigator: PlayerId,
    pub target: PlayerId,
}

/// What the game keeps of one participant's connection. The channel itself
/// stays with the transport layer, which finds it by the participant's id.
#[derive(Debug)]
pub struct PlayerConnection {
    pub name: Option<String>,
    pub secret: Option<PlayerId>,
    pub connected: bool,
}

/// A connection as contracts see it.
#[verifier::ext_equal]
pub struct ConnectionModel {
    pub id: PlayerId,
    pub name: Option<Seq<char>>,
    pub secret: Option<PlayerId>,
    pub connected: bool,
}

/// A connection filed under the id of its participant.
#[derive(Debug)]
pub struct ConnectionEntry {
    pub id: PlayerId,
    pub connection: PlayerConnection,
}

/// The text of a name that may be missing: a missing name reads as empty.
pub open spec fn name_or_empty(name: Option<Seq<char>>) -> Seq<char> {
    match name {
        Some(text) => text,
        None => Seq::empty(),
    }
}

impl PlayerConnection {
    /// The name as contracts see it.
    pub open spec fn name_text(&self) -> Option<Seq<char>> {
        match self.name {
            Some(text) => Some(text@),
            None => None,
        }
    }

    /// This connection as filed under `id`.
    pub open spec fn filed(&self, id: PlayerId) -> ConnectionModel {
        ConnectionModel {
            id,
            name: self.name_text(),
            secret: self.secret,
            connected: self.connected,
        }
    }

    /// A live connection that has no name and no secret yet.
    pub fn new() -> (connection: PlayerConnection)
        ensures
            connection.name is None,
            connection.secret is None,
            connection.connected,
    {
        PlayerConnection { name: None, secret: None, connected: true }
    }

    /// A copy of the name; empty where there is none.
    pub fn name_or_default(&self) -> (text: String)
        ensures
            text@ == name_or_empty(self.name_text()),
    {
        match &self.name {
            Some(name) => name.clone(),
            None => String::new(),
        }
    }
}

impl View for ConnectionEntry {
    type V = ConnectionModel;

    open spec fn view(&self) -> ConnectionModel {
        self.connection.filed(self.id)
    }
}

/// A fresh seat: liberal until the roles are dealt, alive, without a ballot.
pub open spec fn fresh_player(id: PlayerId) -> PlayerState {
    PlayerState { id, role: PlayerType::Liberal, vote: None, dead: false }
}

/// Whether `id` has a seat among `players`.
pub open spec fn has_seat(players: Seq<PlayerState>, id: PlayerId) -> bool {
    exists|i: int| 0 <= i < players.len() && (#[trigger] players[i]).id == id
}

/// The seat of `id` among `players`, where it has one.
pub open spec fn seat_of(players: Seq<PlayerState>, id: PlayerId) -> int {
    choose|i: int| 0 <= i < players.len() && (#[trigger] players[i]).id == id
}

/// No two seats belong to the same id.
pub open spec fn distinct_seats(players: Seq<PlayerState>) -> bool {
    forall|i: int, j: int|
        0 <= i < j < players.len() ==> (#[trigger] players[i]).id != (#[trigger] players[j]).id
}

/// The ids of the seats, in seating order.
pub open spec fn ids_of(players: Seq<PlayerState>) -> Seq<PlayerId> {
    Seq::new(players.len(), |i: int| players[i].id)
}

/// The roles of the seats, in seating order.
pub open spec fn roles_of(players: Seq<PlayerState>) -> Seq<PlayerType> {
    Seq::new(players.len(), |i: int| players[i].role)
}

/// Whether a connection is filed under `id`.
pub open spec fn has_link(conn: Seq<ConnectionModel>, id: PlayerId) -> bool {
    exists|i: int| 0 <= i < conn.len() && (#[trigger] conn[i]).id == id
}

/// The place of the connection filed under `id`, where there is one.
pub open spec fn link_of(conn: Seq<ConnectionModel>, id: PlayerId) -> int {
    choose|i: int| 0 <= i < conn.len() && (#[trigger] conn[i]).id == id
}

/// No two connections are filed under the same id.
pub open spec fn distinct_links(conn: Seq<ConnectionModel>) -> bool {
    forall|i: int, j: int|
        0 <= i < j < conn.len() ==> (#[trigger] conn[i]).id != (#[trigger] conn[j]).id
}

/// The name filed under `id`, if a connection is filed there and has one.
pub open spec fn name_of(conn: Seq<ConnectionModel>, id: PlayerId) -> Option<Seq<char>> {
    if has_link(conn, id) {
        conn[link_of(conn, id)].name
    } else {
        None
    }
}

/// The connections as contracts see them.
pub open spec fn links_view(conn: Seq<ConnectionEntry>) -> Seq<ConnectionModel> {
    Seq::new(conn.len(), |i: int| conn[i]@)
}

/// With distinct ids, the place of a connection is the one place where its id
/// is filed.
pub proof fn lemma_link_unique(conn: Seq<ConnectionModel>, i: int)
    requires
        distinct_links(conn),
        0 <= i < conn.len(),
    ensures
        has_link(conn, conn[i].id),
        link_of(conn, conn[i].id) == i,
{
    let id = conn[i].id;
    let j = link_of(conn, id);
}

/// Looks for the seat of `id`.
pub fn find_seat(players: &Vec<PlayerState>, id: PlayerId) -> (found: Option<usize>)
    ensures
        found is Some <==> has_seat(players@, id),
        found matches Some(i) ==> i < players.len() && players[i as int].id == id && (
        distinct_seats(players@) ==> i == seat_of(players@, id)),
{
    let mut i: usize = 0;
    while i < players.len()
        invariant
            i <= players.len(),
            forall|k: int| 0 <= k < i ==> (#[trigger] players[k]).id != id,
        decreases players.len() - i,
    {
        if players[i].id == id {
            return Some(i);
        }
        i += 1;
    }
    None
}

/// Looks for the connection filed under `id`.
pub fn find_link(conn: &Vec<ConnectionEntry>, id: PlayerId) -> (found: Option<usize>)
    ensures
        found is Some <==> has_link(links_view(conn@), id),
        found matches Some(i) ==> i < conn.len() && conn[i as int].id == id && (distinct_links(
            links_view(conn@),
        ) ==> i == link_of(links_view(conn@), id)),
{
    let mut i: usize = 0;
    while i < conn.len()
        invariant
            i <= conn.len(),
            forall|k: int| 0 <= k < i ==> (#[trigger] links_view(conn@)[k]).id != id,
        decreases conn.len() - i,
    {
        if conn[i].id == id {
            proof {
                if distinct_links(links_view(conn@)) {
                    lemma_link_unique(links_view(conn@), i as int);
                }
            }
            return Some(i);
        }
        i += 1;
    }
    None
}

} // verus!
