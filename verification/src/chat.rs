//! The chat: its lines, its limit, and the announcements that the game
//! itself makes.

use crate::roster::PlayerId;
use vstd::prelude::*;

verus! {

/// One line of the chat: who wrote it (nobody, for an announcement of the
/// game itself) and what it says.
#[derive(Debug)]
pub struct ChatLine {
    pub id: Option<PlayerId>,
    pub message: String,
}

/// A chat line as contracts see it.
#[verifier::ext_equal]
pub struct ChatLineModel {
    pub id: Option<PlayerId>,
    pub message: Seq<char>,
}

impl View for ChatLine {
    type V = ChatLineModel;

    open spec fn view(&self) -> ChatLineModel {
        ChatLineModel { id: self.id, message: self.message@ }
    }
}

/// The chat keeps this many lines and forgets older ones.
pub const CHAT_LIMIT: usize = 250;

/// The lines of a log as contracts see them.
pub open spec fn lines_view(log: Seq<ChatLine>) -> Seq<ChatLineModel> {
    Seq::new(log.len(), |i: int| log[i]@)
}

/// An announcement of the game itself.
pub open spec fn announcement(text: Seq<char>) -> ChatLineModel {
    ChatLineModel { id: None, message: text }
}

/// The log after `line` was written: the line comes last, and only the
/// newest `CHAT_LIMIT` lines stay.
pub open spec fn logged(log: Seq<ChatLineModel>, line: ChatLineModel) -> Seq<ChatLineModel> {
    let all = log.push(line);
    if all.len() > CHAT_LIMIT {
        all.subrange(all.len() - CHAT_LIMIT, all.len() as int)
    } else {
        all
    }
}

/// The announcement that someone new has joined.
pub open spec fn joined_text(name: Seq<char>) -> Seq<char> {
    name + " has joined the game"@
}

/// The announcement that someone has come back.
pub open spec fn reconnected_text(name: Seq<char>) -> Seq<char> {
    name + " has reconnected"@
}

/// The announcement that a connection broke in the lobby.
pub open spec fn disconnected_text(name: Seq<char>) -> Seq<char> {
    name + " has disconnected"@
}

/// The announcement that someone has left the lobby.
pub open spec fn left_lobby_text(name: Seq<char>) -> Seq<char> {
    name + " has left the lobby"@
}

/// The announcement that someone has left a game that has started.
pub open spec fn left_game_text(name: Seq<char>) -> Seq<char> {
    name + " has left the game"@
}

/// The announcement that a government has enacted a policy.
pub open spec fn enacted_text(president: Seq<char>, chancellor: Seq<char>, color: Seq<char>) -> Seq<
    char,
> {
    "President "@ + president + " and chancellor "@ + chancellor + " have enacted a "@ + color
        + " policy."@
}

/// The announcement that the top card was enacted without a government.
pub open spec fn chaos_text(color: Seq<char>) -> Seq<char> {
    "The government has been thrown into chaos! A random "@ + color
        + " policy has been enacted."@
}

/// The announcement of an investigation.
pub open spec fn investigated_text(president: Seq<char>, target: Seq<char>) -> Seq<char> {
    "President "@ + president + " has investigated "@ + target + "."@
}

/// The announcement of a special election.
pub open spec fn special_election_text(president: Seq<char>, target: Seq<char>) -> Seq<char> {
    "President "@ + president + " has nominated "@ + target
        + " as president in a special election."@
}

/// The announcement of an execution.
pub open spec fn killed_text(president: Seq<char>, target: Seq<char>) -> Seq<char> {
    "President "@ + president + " has killed "@ + target + "."@
}

impl ChatLine {
    /// An announcement of the game itself.
    pub fn system(message: String) -> (line: ChatLine)
        ensures
            line@ == announcement(message@),
    {
        ChatLine { id: None, message }
    }
}

/// Writes `line` to `log` and drops the oldest lines beyond `CHAT_LIMIT`.
pub fn append_line(log: &mut Vec<ChatLine>, line: ChatLine)
    ensures
        lines_view(final(log)@) == logged(lines_view(old(log)@), line@),
        old(log).len() <= CHAT_LIMIT ==> final(log).len() <= CHAT_LIMIT,
{
    log.push(line);
    let ghost all = log@;
    let ghost mut dropped: int = 0;
    while log.len() > CHAT_LIMIT
        invariant
            0 <= dropped,
            dropped + log.len() == all.len(),
            log@ == all.subrange(dropped, all.len() as int),
            all.len() > CHAT_LIMIT ==> log.len() >= CHAT_LIMIT,
            all.len() <= CHAT_LIMIT ==> dropped == 0,
        decreases log.len(),
    {
        let _ = log.remove(0);
        proof {
            dropped = dropped + 1;
        }
    }
}

/// Writes the announcement that someone new has joined.
pub fn joined_message(name: &str) -> (text: String)
    ensures
        text@ == joined_text(name@),
{
    let mut text = String::from_str(name);
    text.append(" has joined the game");
    text
}

/// Writes the announcement that someone has come back.
pub fn reconnected_message(name: &str) -> (text: String)
    ensures
        text@ == reconnected_text(name@),
{
    let mut text = String::from_str(name);
    text.append(" has reconnected");
    text
}

/// Writes the announcement that a connection broke in the lobby.
pub fn disconnected_message(name: &str) -> (text: String)
    ensures
        text@ == disconnected_text(name@),
{
    let mut text = String::from_str(name);
    text.append(" has disconnected");
    text
}

/// Writes the announcement that someone has left the lobby.
pub fn left_lobby_message(name: &str) -> (text: String)
    ensures
        text@ == left_lobby_text(name@),
{
    let mut text = String::from_str(name);
    text.append(" has left the lobby");
    text
}

/// Writes the announcement that someone has left a game that has started.
pub fn left_game_message(name: &str) -> (text: String)
    ensures
        text@ == left_game_text(name@),
{
    let mut text = String::from_str(name);
    text.append(" has left the game");
    text
}

/// Writes the announcement that a government has enacted a policy.
pub fn enacted_message(president: &str, chancellor: &str, color: &str) -> (text: String)
    ensures
        text@ == enacted_text(president@, chancellor@, color@),
{
    let mut text = String::from_str("President ");
    text.append(president);
    text.append(" and chancellor ");
    text.append(chancellor);
    text.append(" have enacted a ");
    text.append(color);
    text.append(" policy.");
    text
}

/// Writes the announcement that the top card was enacted without a
/// government.
pub fn chaos_message(color: &str) -> (text: String)
    ensures
        text@ == chaos_text(color@),
{
    let mut text = String::from_str("The government has been thrown into chaos! A random ");
    text.append(color);
    text.append(" policy has been enacted.");
    text
}

/// Writes the announcement of an investigation.
pub fn investigated_message(president: &str, target: &str) -> (text: String)
    ensures
        text@ == investigated_text(president@, target@),
{
    let mut text = String::from_str("President ");
    text.append(president);
    text.append(" has investigated ");
    text.append(target);
    text.append(".");
    text
}

/// Writes the announcement of a special election.
pub fn special_election_message(president: &str, target: &str) -> (text: String)
    ensures
        text@ == special_election_text(president@, target@),
{
    let mut text = String::from_str("President ");
    text.append(president);
    text.append(" has nominated ");
    text.append(target);
    text.append(" as president in a special election.");
    text
}

/// Writes the announcement of an execution.
pub fn killed_message(president: &str, target: &str) -> (text: String)
    ensures
        text@ == killed_text(president@, target@),
{
    let mut text = String::from_str("President ");
    text.append(president);
    text.append(" has killed ");
    text.append(target);
    text.append(".");
    text
}

} // verus!
