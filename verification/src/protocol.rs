//! What participants and server say to each other, and what a session
//! makes of a message.

use crate::chat::{lines_view, ChatLine, ChatLineModel};
use crate::error::Rejection;
use crate::game_state::GameState;
use crate::cards::is_full_deck;
use crate::model::{empty_lobby, GameModel};
use crate::projection::Projection;
use crate::roster::{links_view, ConnectionEntry, ConnectionModel, PlayerId};
use vstd::prelude::*;

pub use crate::cards::CardColor;
pub use crate::roles::PlayerType;
pub use crate::roster::PlayerConnection;

verus! {

/// The identifier of a session, as the registry of sessions issued it.
pub type SessionId = u128;

/// What a participant can ask for.
#[derive(Debug)]
#[allow(inconsistent_fields)]
pub enum ClientProtocol {
    HostGame { nickname: String },
    JoinGame {
        id: SessionId,
        nickname: String,
        player_id: Option<PlayerId>,
        player_secret: Option<PlayerId>,
    },
    SendChat { message: String },
    StartGame,
    ChooseChancellor { player: PlayerId },
    VoteChancellor { vote: bool },
    /// A card pick; `color` is true for a fascist card.
    PickCard { color: bool },
    VetoCard,
    PresidentialPower { player: Option<PlayerId> },
    GetChatLog,
    Leave,
}

/// What a participant can be told.
#[derive(Debug)]
pub enum ServerProtocol {
    SetIdentifiers { player_id: PlayerId, game_id: SessionId, secret: PlayerId },
    Alert { message: String },
    ReceiveChat { id: Option<PlayerId>, message: String },
    GameState { state: Projection },
    ChatLog { log: Vec<ChatLine> },
}

/// What is to be done once a participant's message has been handled.
#[derive(Clone, Copy, Debug, PartialEq, Eq, Structural)]
pub enum Reply {
    /// The game has changed: every player is sent what they are shown now.
    Broadcast,
    /// The message was turned down: the sender alone is told why.
    Alert(Rejection),
    /// The sender is sent the chat log.
    ChatLog,
    /// The sender has left: every player is sent what they are shown now,
    /// and the sender's connection is no longer in this session.
    Left,
    /// Nothing is to be done.
    Nothing,
}

/// Why a participant could not join a session.
#[derive(Clone, Copy, Debug, PartialEq, Eq, Structural)]
pub enum JoinError {
    /// The game has started and the participant has no seat in it.
    AlreadyStarted,
    /// The secret does not match the one on file for the player.
    WrongSecret,
    /// No secret is on file for the player.
    UnknownPlayer,
}

/// Why a participant could not host a session.
#[derive(Clone, Copy, Debug, PartialEq, Eq, Structural)]
pub enum HostError {
    /// The participant sits in a game that is under way.
    InGame,
    /// The nickname is empty or blank.
    EmptyNickname,
}

/// A session is given up after nobody has been there for this many seconds.
pub const IDLE_LIMIT: u64 = 300;

/// The colour that a card pick names.
pub open spec fn picked_color(color: bool) -> CardColor {
    if color {
        CardColor::Facist
    } else {
        CardColor::Liberal
    }
}

/// The reply that the outcome of a move calls for.
pub open spec fn reply_to(outcome: Result<(), Rejection>) -> Reply {
    match outcome {
        Ok(()) => Reply::Broadcast,
        Err(why) => Reply::Alert(why),
    }
}

/// Whether `c` is white space, as `char::is_whitespace` tells it: whether it
/// has the Unicode property White_Space.
pub uninterp spec fn is_white_space(c: char) -> bool;

/// Whether `text` holds nothing but white space.
pub open spec fn is_blank_text(text: Seq<char>) -> bool {
    forall|i: int| 0 <= i < text.len() ==> is_white_space(#[trigger] text[i])
}

/// Calls `char::is_whitespace`, which tells whether a character has the
/// Unicode property White_Space. The answer depends on the character alone.
#[verifier::external_body]
fn char_is_whitespace(c: char) -> (white: bool)
    ensures
        white == is_white_space(c),
{
    c.is_whitespace()
}

/// Whether `text` holds nothing but white space, so that nothing is left of
/// it once it is trimmed.
pub fn is_blank(text: &str) -> (blank: bool)
    ensures
        blank == is_blank_text(text@),
{
    for c in it: text.chars()
        invariant
            it.seq() == text@,
            forall|k: int| 0 <= k < it.index() ==> is_white_space(#[trigger] text@[k]),
    {
        if !char_is_whitespace(c) {
            return false;
        }
    }
    true
}

/// Whether a participant may host a session under `nickname`: not while
/// sitting in a game that is under way, and not under a blank nickname.
pub fn may_host(in_game: bool, nickname: &str) -> (result: Result<(), HostError>)
    ensures
        result == if in_game {
            Err::<(), HostError>(HostError::InGame)
        } else if is_blank_text(nickname@) {
            Err(HostError::EmptyNickname)
        } else {
            Ok(())
        },
{
    if in_game {
        Err(HostError::InGame)
    } else if is_blank(nickname) {
        Err(HostError::EmptyNickname)
    } else {
        Ok(())
    }
}

impl JoinError {
    /// The notice shown to the participant who could not join.
    pub open spec fn spec_message(self) -> Seq<char> {
        match self {
            JoinError::AlreadyStarted => "This game has already started!"@,
            JoinError::WrongSecret => "Invalid player secret passed to server!"@,
            JoinError::UnknownPlayer => "The player you are trying to join as does not exist!"@,
        }
    }

    /// The notice shown to the participant who could not join.
    pub fn message(&self) -> (text: &'static str)
        ensures
            text@ == self.spec_message(),
    {
        match self {
            JoinError::AlreadyStarted => "This game has already started!",
            JoinError::WrongSecret => "Invalid player secret passed to server!",
            JoinError::UnknownPlayer => "The player you are trying to join as does not exist!",
        }
    }
}

impl HostError {
    /// The notice shown to the participant who could not host.
    pub open spec fn spec_message(self) -> Seq<char> {
        match self {
            HostError::InGame => "You cannot join another game while you are currently in a game!"@,
            HostError::EmptyNickname => "Your nickname cannot be empty."@,
        }
    }

    /// The notice shown to the participant who could not host.
    pub fn message(&self) -> (text: &'static str)
        ensures
            text@ == self.spec_message(),
    {
        match self {
            HostError::InGame => "You cannot join another game while you are currently in a game!",
            HostError::EmptyNickname => "Your nickname cannot be empty.",
        }
    }
}

/// The connection of a participant who joins under `nickname` with
/// `secret`.
pub open spec fn joining_link(id: PlayerId, nickname: Seq<char>, secret: Option<PlayerId>) -> ConnectionModel {
    ConnectionModel { id, name: Some(nickname), secret, connected: true }
}

impl GameModel {
    /// Whether nobody has been there for longer than the idle limit at the
    /// time `now`: the last participant went away more than `IDLE_LIMIT`
    /// seconds earlier and no connection is up.
    pub open spec fn abandoned_at(self, now: u64) -> bool {
        &&& self.timeout matches Some(since)
        &&& since + IDLE_LIMIT < now
        &&& forall|i: int| 0 <= i < self.conn.len() ==> !(#[trigger] self.conn[i]).connected
    }

    /// The game after the connection of `id` broke at the time `now`: if
    /// nobody is there any more, the time is kept.
    pub open spec fn dropped(self, id: PlayerId, now: u64) -> GameModel {
        let gone = self.disconnected(id);
        if gone.anyone_connected() {
            gone
        } else {
            GameModel { timeout: Some(now), ..gone }
        }
    }

    /// `post` and `reply` are what handling `message` from `player` makes of
    /// this game. A move of the game is made, and answered by a broadcast if
    /// it was legal and by an alert if not. A chat line is written in the
    /// sender's name. A request for the chat log and a message that opens or
    /// joins a session change nothing.
    pub open spec fn handles(
        self,
        player: PlayerId,
        message: ClientProtocol,
        post: GameModel,
        reply: Reply,
    ) -> bool {
        match message {
            ClientProtocol::StartGame => match reply {
                Reply::Broadcast => self.start_rejection(player) is None && self.starts(post),
                Reply::Alert(why) => self.start_rejection(player) == Some(why) && post == self,
                _ => false,
            },
            ClientProtocol::ChooseChancellor { player: target } => match reply {
                Reply::Broadcast => self.nomination_rejection(player, target) is None && post
                    == self.nominated(target),
                Reply::Alert(why) => self.nomination_rejection(player, target) == Some(why)
                    && post == self,
                _ => false,
            },
            ClientProtocol::VoteChancellor { vote } => match reply {
                Reply::Broadcast => self.ballot_rejection(player) is None && self.votes(
                    player,
                    vote,
                    post,
                ),
                Reply::Alert(why) => self.ballot_rejection(player) == Some(why) && post == self,
                _ => false,
            },
            ClientProtocol::PickCard { color } => match reply {
                Reply::Broadcast => self.pick_rejection(player, picked_color(color)) is None
                    && self.picks(picked_color(color), post),
                Reply::Alert(why) => self.pick_rejection(player, picked_color(color)) == Some(why)
                    && post == self,
                _ => false,
            },
            ClientProtocol::VetoCard => match reply {
                Reply::Broadcast => self.veto_rejection(player) is None && self.vetoes(player, post),
                Reply::Alert(why) => self.veto_rejection(player) == Some(why) && post == self,
                _ => false,
            },
            ClientProtocol::PresidentialPower { player: target } => match reply {
                Reply::Broadcast => self.power_rejection(player, target) is None && post
                    == self.uses_power(player, target),
                Reply::Alert(why) => self.power_rejection(player, target) == Some(why) && post
                    == self,
                _ => false,
            },
            ClientProtocol::SendChat { message } => reply == Reply::Nothing && post == self.said(
                ChatLineModel { id: Some(player), message: message@ },
            ),
            ClientProtocol::GetChatLog => reply == Reply::ChatLog && post == self,
            ClientProtocol::Leave => reply == Reply::Left && post == self.departed(player),
            ClientProtocol::HostGame { .. } => reply == Reply::Nothing && post == self,
            ClientProtocol::JoinGame { .. } => reply == Reply::Nothing && post == self,
        }
    }
}

/// The notice that tells a participant why a move was turned down.
pub fn alert(why: Rejection) -> (notice: ServerProtocol)
    ensures
        notice matches ServerProtocol::Alert { message } && message@ == why.spec_message(),
{
    ServerProtocol::Alert { message: String::from_str(why.message()) }
}

/// What is to be sent when a chat line is written: the line, once for every
/// connection on file, in filing order.
pub fn send_to_all(conn: &Vec<ConnectionEntry>, line: &ChatLine) -> (notices: Vec<
    (PlayerId, ServerProtocol),
>)
    ensures
        notices@.len() == conn@.len(),
        forall|i: int|
            0 <= i < notices@.len() ==> {
                &&& (#[trigger] notices@[i]).0 == conn@[i].id
                &&& notices@[i].1 matches ServerProtocol::ReceiveChat { id, message }
                &&& id == line.id
                &&& message@ == line.message@
            },
{
    let mut notices: Vec<(PlayerId, ServerProtocol)> = Vec::new();
    let mut i: usize = 0;
    while i < conn.len()
        invariant
            i <= conn.len(),
            notices@.len() == i,
            forall|k: int|
                0 <= k < i ==> {
                    &&& (#[trigger] notices@[k]).0 == conn@[k].id
                    &&& notices@[k].1 matches ServerProtocol::ReceiveChat { id, message }
                    &&& id == line.id
                    &&& message@ == line.message@
                },
        decreases conn.len() - i,
    {
        notices.push(
            (conn[i].id, ServerProtocol::ReceiveChat { id: line.id, message: line.message.clone() }),
        );
        i += 1;
    }
    notices
}

impl GameState {
    /// A session opened by its first participant, who joins as `player_id`
    /// with `secret` under `nickname` and so becomes host.
    pub fn hosted_by(player_id: PlayerId, secret: PlayerId, nickname: String) -> (game: GameState)
        ensures
            game@.wf(),
            is_full_deck(game@.cards),
            game@ == empty_lobby(game@.cards).joined(
                joining_link(player_id, nickname@, Some(secret)),
            ),
            game@.host == Some(player_id),
            game@.has_player(player_id),
    {
        let mut game = GameState::new();
        let _ = game.join(player_id, secret, nickname);
        proof {
            assert(game@.players[0].id == player_id);
        }
        game
    }

    /// What is to be sent for the chat lines that wait: each line, oldest
    /// first, once for every connection on file. The lines are handed out
    /// once: afterwards none waits.
    pub fn send_chat(&mut self) -> (notices: Vec<(PlayerId, ServerProtocol)>)
        ensures
            final(self)@ == (GameModel { outbox: Seq::empty(), ..old(self)@ }),
            old(self)@.wf() ==> final(self)@.wf(),
            notices@.len() == old(self)@.outbox.len() * old(self)@.conn.len(),
            forall|l: int, c: int|
                0 <= l < old(self)@.outbox.len() && 0 <= c < old(self)@.conn.len() ==> {
                    let n = #[trigger] notices@[l * old(self)@.conn.len() + c];
                    &&& n.0 == old(self)@.conn[c].id
                    &&& n.1 matches ServerProtocol::ReceiveChat { id, message }
                    &&& id == old(self)@.outbox[l].id
                    &&& message@ == old(self)@.outbox[l].message
                },
    {
        let lines = self.take_chat();
        let ghost width = self.conn@.len() as int;
        let mut notices: Vec<(PlayerId, ServerProtocol)> = Vec::new();
        let mut i: usize = 0;
        while i < lines.len()
            invariant
                i <= lines.len(),
                width == self.conn@.len(),
                self@ == (GameModel { outbox: Seq::empty(), ..old(self)@ }),
                lines_view(lines@) == old(self)@.outbox,
                notices@.len() == i * width,
                forall|l: int, c: int|
                    0 <= l < i && 0 <= c < width ==> {
                        let n = #[trigger] notices@[l * width + c];
                        &&& n.0 == self.conn@[c].id
                        &&& n.1 matches ServerProtocol::ReceiveChat { id, message }
                        &&& id == lines@[l].id
                        &&& message@ == lines@[l].message@
                    },
            decreases lines.len() - i,
        {
            let mut row = send_to_all(&self.conn, &lines[i]);
            notices.append(&mut row);
            proof {
                assert(i * width + width == (i + 1) * width) by (nonlinear_arith);
                assert forall|l: int, c: int| 0 <= l < i + 1 && 0 <= c < width implies {
                    let n = #[trigger] notices@[l * width + c];
                    &&& n.0 == self.conn@[c].id
                    &&& n.1 matches ServerProtocol::ReceiveChat { id, message }
                    &&& id == lines@[l].id
                    &&& message@ == lines@[l].message@
                } by {
                    if l < i {
                        assert(l * width + c < i * width) by (nonlinear_arith)
                            requires
                                0 <= l < i,
                                0 <= c < width,
                        ;
                    }
                }
            }
            i += 1;
        }
        proof {
            assert forall|l: int, c: int|
                0 <= l < old(self)@.outbox.len() && 0 <= c < old(self)@.conn.len() implies {
                let n = #[trigger] notices@[l * old(self)@.conn.len() + c];
                &&& n.0 == old(self)@.conn[c].id
                &&& n.1 matches ServerProtocol::ReceiveChat { id, message }
                &&& id == old(self)@.outbox[l].id
                &&& message@ == old(self)@.outbox[l].message
            } by {}
        }
        notices
    }

    /// Handles a message that `player` sent to this session and says what is
    /// to be done about it.
    pub fn handle(&mut self, player: PlayerId, message: ClientProtocol) -> (reply: Reply)
        requires
            old(self)@.wf(),
        ensures
            final(self)@.wf(),
            old(self)@.handles(player, message, final(self)@, reply),
    {
        match message {
            ClientProtocol::StartGame => answer(self.start(player)),
            ClientProtocol::ChooseChancellor { player: target } => answer(
                self.choose_chancellor(player, target),
            ),
            ClientProtocol::VoteChancellor { vote } => answer(self.vote_chancellor(player, vote)),
            ClientProtocol::PickCard { color } => {
                let card = if color {
                    CardColor::Facist
                } else {
                    CardColor::Liberal
                };
                answer(self.pick_card(player, card))
            },
            ClientProtocol::VetoCard => answer(self.veto(player)),
            ClientProtocol::PresidentialPower { player: target } => answer(
                self.execute_presidential_power(player, target),
            ),
            ClientProtocol::SendChat { message } => {
                self.add_chat(ChatLine { id: Some(player), message });
                Reply::Nothing
            },
            ClientProtocol::GetChatLog => Reply::ChatLog,
            ClientProtocol::Leave => {
                let _ = self.delete_player(player);
                Reply::Left
            },
            ClientProtocol::HostGame { nickname: _ } => Reply::Nothing,
            ClientProtocol::JoinGame { id: _, nickname: _, player_id: _, player_secret: _ } => Reply::Nothing,
        }
    }

    /// A participant who was here before comes back as `player_id`. The
    /// session counts as visited again whatever comes of it. The participant
    /// is admitted if the secret is the one on file and the game admits the
    /// player; the connection is then filed under `nickname`.
    pub fn rejoin(&mut self, player_id: PlayerId, player_secret: Option<PlayerId>, nickname: String) -> (result:
        Result<(), JoinError>)
        requires
            old(self)@.wf(),
        ensures
            final(self)@.wf(),
            match old(self)@.secret_of(player_id) {
                None => result == Err::<(), JoinError>(JoinError::UnknownPlayer),
                Some(on_file) => if Some(on_file) != player_secret {
                    result == Err::<(), JoinError>(JoinError::WrongSecret)
                } else if !old(self)@.admits(player_id) {
                    result == Err::<(), JoinError>(JoinError::AlreadyStarted)
                } else {
                    result == Ok::<(), JoinError>(())
                },
            },
            match result {
                Ok(()) => final(self)@ == (GameModel { timeout: None, ..old(self)@ }).joined(
                    joining_link(player_id, nickname@, player_secret),
                ),
                Err(_) => final(self)@ == (GameModel { timeout: None, ..old(self)@ }),
            },
    {
        self.timeout = None;
        match self.get_player_secret(&player_id) {
            Some(on_file) => {
                if Some(on_file) == player_secret {
                    let connection = PlayerConnection {
                        name: Some(nickname),
                        secret: player_secret,
                        connected: true,
                    };
                    if self.add_player(player_id, connection) {
                        Ok(())
                    } else {
                        Err(JoinError::AlreadyStarted)
                    }
                } else {
                    Err(JoinError::WrongSecret)
                }
            },
            None => Err(JoinError::UnknownPlayer),
        }
    }

    /// A participant joins as `player_id` with `secret`, under `nickname`.
    /// The participant is admitted while the lobby is open, and later if the
    /// player has a seat.
    pub fn join(&mut self, player_id: PlayerId, secret: PlayerId, nickname: String) -> (result: Result<
        (),
        JoinError,
    >)
        requires
            old(self)@.wf(),
        ensures
            final(self)@.wf(),
            match result {
                Ok(()) => old(self)@.admits(player_id) && final(self)@ == old(self)@.joined(
                    joining_link(player_id, nickname@, Some(secret)),
                ),
                Err(why) => why == JoinError::AlreadyStarted && !old(self)@.admits(player_id)
                    && final(self)@ == old(self)@,
            },
    {
        let connection = PlayerConnection {
            name: Some(nickname),
            secret: Some(secret),
            connected: true,
        };
        if self.add_player(player_id, connection) {
            Ok(())
        } else {
            Err(JoinError::AlreadyStarted)
        }
    }

    /// Takes note that the connection of `player` broke at the time `now`
    /// (in seconds): the player is removed as `remove_player` does, and if
    /// nobody is there any more, the time is kept.
    pub fn disconnect(&mut self, player: PlayerId, now: u64)
        requires
            old(self)@.wf(),
        ensures
            final(self)@.wf(),
            final(self)@ == old(self)@.dropped(player, now),
    {
        let _ = self.remove_player(player);
        if !self.has_connected_players() {
            self.timeout = Some(now);
        }
    }

    /// Whether the session can be given up at the time `now` (in seconds):
    /// nobody has been there for longer than the idle limit.
    pub fn is_abandoned(&self, now: u64) -> (abandoned: bool)
        ensures
            abandoned == self@.abandoned_at(now),
    {
        match self.timeout {
            Some(since) => {
                if now < IDLE_LIMIT || since >= now - IDLE_LIMIT {
                    return false;
                }
                let mut i: usize = 0;
                while i < self.conn.len()
                    invariant
                        i <= self.conn.len(),
                        forall|k: int|
                            0 <= k < i ==> !(#[trigger] links_view(self.conn@)[k]).connected,
                    decreases self.conn.len() - i,
                {
                    if self.conn[i].connection.connected {
                        assert(self@.conn[i as int].connected);
                        return false;
                    }
                    i += 1;
                }
                true
            },
            None => false,
        }
    }

    /// The time at which the last participant went away, if nobody has come
    /// back since.
    pub fn timeout(&self) -> (since: Option<u64>)
        ensures
            since == self@.timeout,
    {
        self.timeout
    }

    /// The chat lines that wait to be sent, oldest first. They are handed
    /// out once: afterwards none waits.
    pub fn take_chat(&mut self) -> (lines: Vec<ChatLine>)
        ensures
            lines_view(lines@) == old(self)@.outbox,
            final(self)@ == (GameModel { outbox: Seq::empty(), ..old(self)@ }),
            old(self)@.wf() ==> final(self)@.wf(),
    {
        let mut lines: Vec<ChatLine> = Vec::new();
        lines.append(&mut self.outbox);
        lines
    }

    /// A copy of the chat log, oldest line first.
    pub fn chat_log(&self) -> (log: Vec<ChatLine>)
        ensures
            lines_view(log@) == self@.chat_log,
    {
        let mut log: Vec<ChatLine> = Vec::new();
        let mut i: usize = 0;
        while i < self.chat_log.len()
            invariant
                i <= self.chat_log.len(),
                log@.len() == i,
                forall|k: int| 0 <= k < i ==> (#[trigger] log@[k])@ == self.chat_log@[k]@,
            decreases self.chat_log.len() - i,
        {
            let line = &self.chat_log[i];
            log.push(ChatLine { id: line.id, message: line.message.clone() });
            i += 1;
        }
        log
    }

    /// The ids under which connections are on file: those to whom a chat
    /// line goes.
    pub fn connection_ids(&self) -> (ids: Vec<PlayerId>)
        ensures
            ids@.len() == self@.conn.len(),
            forall|i: int| 0 <= i < ids@.len() ==> ids@[i] == (#[trigger] self@.conn[i]).id,
    {
        let mut ids: Vec<PlayerId> = Vec::new();
        let mut i: usize = 0;
        while i < self.conn.len()
            invariant
                i <= self.conn.len(),
                ids@.len() == i,
                forall|k: int| 0 <= k < i ==> ids@[k] == (#[trigger] links_view(self.conn@)[k]).id,
            decreases self.conn.len() - i,
        {
            ids.push(self.conn[i].id);
            i += 1;
        }
        ids
    }

    /// What `player` is to be sent after the game has changed: what the
    /// player is shown of it, if the player has a seat.
    pub fn send_game_state(&self, player: PlayerId) -> (notice: Option<ServerProtocol>)
        requires
            self@.wf(),
        ensures
            notice is Some <==> self@.has_player(player),
            notice matches Some(n) ==> n matches ServerProtocol::GameState { state }
                && state@ == self@.projection(player),
    {
        if self.has_player(player) {
            Some(ServerProtocol::GameState { state: self.project(player) })
        } else {
            None
        }
    }

    /// What is to be sent after the game has changed: for every player, in
    /// seating order, what that player is shown of it.
    pub fn broadcast_game_state(&self) -> (notices: Vec<(PlayerId, ServerProtocol)>)
        requires
            self@.wf(),
        ensures
            notices@.len() == self@.players.len(),
            forall|i: int|
                0 <= i < notices@.len() ==> {
                    &&& (#[trigger] notices@[i]).0 == self@.players[i].id
                    &&& notices@[i].1 matches ServerProtocol::GameState { state }
                    &&& state@ == self@.projection(self@.players[i].id)
                },
    {
        let mut notices: Vec<(PlayerId, ServerProtocol)> = Vec::new();
        let mut i: usize = 0;
        while i < self.players.len()
            invariant
                i <= self.players.len(),
                self@.wf(),
                notices@.len() == i,
                forall|k: int|
                    0 <= k < i ==> {
                        &&& (#[trigger] notices@[k]).0 == self@.players[k].id
                        &&& notices@[k].1 matches ServerProtocol::GameState { state }
                        &&& state@ == self@.projection(self@.players[k].id)
                    },
            decreases self.players.len() - i,
        {
            let id = self.players[i].id;
            notices.push((id, ServerProtocol::GameState { state: self.project(id) }));
            i += 1;
        }
        notices
    }
}

/// The reply that the outcome of a move calls for.
pub fn answer(outcome: Result<(), Rejection>) -> (reply: Reply)
    ensures
        reply == reply_to(outcome),
{
    match outcome {
        Ok(()) => Reply::Broadcast,
        Err(why) => Reply::Alert(why),
    }
}

} // verus!
