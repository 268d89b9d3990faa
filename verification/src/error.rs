//! Why a move can be turned down.

use vstd::prelude::*;

verus! {

/// The kinds of rejection a participant can meet.
#[derive(Clone, Copy, Debug, PartialEq, Eq, Structural)]
pub enum ErrorKind {
    /// The action is not legal in the current phase.
    WrongPhase,
    /// The actor does not hold the office the action needs.
    NotAuthorized,
    /// The target is missing, is the actor, is dead or is term-limited.
    InvalidTarget,
    /// The chosen card is not among those on offer.
    InvalidChoice,
    /// The veto is not unlocked yet.
    PowerLocked,
    /// No session goes by the given identifier.
    SessionNotFound,
    /// No player goes by the given identifier.
    PlayerNotFound,
}

/// Why an action was turned down. An action that is turned down leaves the
/// game as it was.
#[derive(Clone, Copy, Debug, PartialEq, Eq, Structural)]
pub enum Rejection {
    /// `start` outside the lobby.
    AlreadyStarted,
    /// `start` by someone other than the host.
    NotHost,
    /// `start` with fewer than five or more than ten players.
    PlayerCount,
    /// A nomination, ballot or card pick in a phase that does not take it.
    NotNow,
    /// A nomination by someone other than the president.
    NotPresident,
    /// The president nominated themself.
    SelfNominated,
    /// The nominee sat in the last elected government.
    TermLimited,
    /// The target has been executed.
    TargetDead,
    /// The target is not a player of this game.
    NoSuchTarget,
    /// A ballot from an executed player.
    VoterDead,
    /// A ballot from someone who is not a player of this game.
    NoSuchPlayer,
    /// A veto outside the chancellor's selection.
    VetoNotNow,
    /// A veto before five fascist policies are on the board.
    VetoLocked,
    /// A veto from someone outside the government.
    NotInGovernment,
    /// A card pick by someone whose turn it is not.
    NotSelecting,
    /// The president set aside a colour that was not drawn.
    NotInHand,
    /// The chancellor enacted a colour that was not handed over.
    NotOnOffer,
    /// A presidential power used by someone other than the president.
    NotActingPresident,
    /// A presidential power used while none is pending.
    NoPowerPending,
    /// The president investigated themself.
    SelfInvestigated,
    /// A power that needs a target was used without one.
    NoTarget,
    /// The president called a special election for themself.
    SelfElected,
    /// The president executed themself.
    SelfExecuted,
    /// The player to execute is dead already.
    AlreadyDead,
}

impl Rejection {
    /// The kind a rejection falls under. A start at a table of the wrong size
    /// counts as a wrong phase: the lobby cannot be left yet.
    pub open spec fn spec_kind(self) -> ErrorKind {
        match self {
            Rejection::AlreadyStarted => ErrorKind::WrongPhase,
            Rejection::NotHost => ErrorKind::NotAuthorized,
            Rejection::PlayerCount => ErrorKind::WrongPhase,
            Rejection::NotNow => ErrorKind::WrongPhase,
            Rejection::NotPresident => ErrorKind::NotAuthorized,
            Rejection::SelfNominated => ErrorKind::InvalidTarget,
            Rejection::TermLimited => ErrorKind::InvalidTarget,
            Rejection::TargetDead => ErrorKind::InvalidTarget,
            Rejection::NoSuchTarget => ErrorKind::InvalidTarget,
            Rejection::VoterDead => ErrorKind::NotAuthorized,
            Rejection::NoSuchPlayer => ErrorKind::PlayerNotFound,
            Rejection::VetoNotNow => ErrorKind::WrongPhase,
            Rejection::VetoLocked => ErrorKind::PowerLocked,
            Rejection::NotInGovernment => ErrorKind::NotAuthorized,
            Rejection::NotSelecting => ErrorKind::NotAuthorized,
            Rejection::NotInHand => ErrorKind::InvalidChoice,
            Rejection::NotOnOffer => ErrorKind::InvalidChoice,
            Rejection::NotActingPresident => ErrorKind::NotAuthorized,
            Rejection::NoPowerPending => ErrorKind::WrongPhase,
            Rejection::SelfInvestigated => ErrorKind::InvalidTarget,
            Rejection::NoTarget => ErrorKind::InvalidTarget,
            Rejection::SelfElected => ErrorKind::InvalidTarget,
            Rejection::SelfExecuted => ErrorKind::InvalidTarget,
            Rejection::AlreadyDead => ErrorKind::InvalidTarget,
        }
    }

    /// The notice shown to the participant who was turned down.
    pub open spec fn spec_message(self) -> Seq<char> {
        match self {
            Rejection::AlreadyStarted => "The game has already started!"@,
            Rejection::NotHost => "Only the host may start the game!"@,
            Rejection::PlayerCount => "There are too many or too few players to start a game!"@,
            Rejection::NotNow => "You cannot perform this action at this time!"@,
            Rejection::NotPresident => "You are not the president, so you cannot choose the chancellor!"@,
            Rejection::SelfNominated => "You cannot choose yourself. You must choose another player as the chancellor."@,
            Rejection::TermLimited => "You cannot choose the last elected president or chancellor."@,
            Rejection::TargetDead => "That player is dead!"@,
            Rejection::NoSuchTarget => "That player does not exist!"@,
            Rejection::VoterDead => "You are dead and therefore cannot vote!"@,
            Rejection::NoSuchPlayer => "This player does not exist!"@,
            Rejection::VetoNotNow => "You cannot veto a policy decision at this time!"@,
            Rejection::VetoLocked => "You cannot veto policies until 5 facist policies have been passed."@,
            Rejection::NotInGovernment => "Only the president and the chancellor may participate in the veto process."@,
            Rejection::NotSelecting => "Only the president may select policies at this time."@,
            Rejection::NotInHand => "That policy is not a valid option."@,
            Rejection::NotOnOffer => "This policy is not available to enact."@,
            Rejection::NotActingPresident => "Only the current president may execute presidential powers."@,
            Rejection::NoPowerPending => "You cannot execute a presidential power at this time."@,
            Rejection::SelfInvestigated => "You cannot investigate yourself!"@,
            Rejection::NoTarget => "You must select a player!"@,
            Rejection::SelfElected => "You cannot choose yourself!"@,
            Rejection::SelfExecuted => "You cannot execute yourself!"@,
            Rejection::AlreadyDead => "That player is already dead!"@,
        }
    }

    /// The kind this rejection falls under.
    pub fn kind(&self) -> (kind: ErrorKind)
        ensures
            kind == self.spec_kind(),
    {
        match self {
            Rejection::AlreadyStarted => ErrorKind::WrongPhase,
            Rejection::NotHost => ErrorKind::NotAuthorized,
            Rejection::PlayerCount => ErrorKind::WrongPhase,
            Rejection::NotNow => ErrorKind::WrongPhase,
            Rejection::NotPresident => ErrorKind::NotAuthorized,
            Rejection::SelfNominated => ErrorKind::InvalidTarget,
            Rejection::TermLimited => ErrorKind::InvalidTarget,
            Rejection::TargetDead => ErrorKind::InvalidTarget,
            Rejection::NoSuchTarget => ErrorKind::InvalidTarget,
            Rejection::VoterDead => ErrorKind::NotAuthorized,
            Rejection::NoSuchPlayer => ErrorKind::PlayerNotFound,
            Rejection::VetoNotNow => ErrorKind::WrongPhase,
            Rejection::VetoLocked => ErrorKind::PowerLocked,
            Rejection::NotInGovernment => ErrorKind::NotAuthorized,
            Rejection::NotSelecting => ErrorKind::NotAuthorized,
            Rejection::NotInHand => ErrorKind::InvalidChoice,
            Rejection::NotOnOffer => ErrorKind::InvalidChoice,
            Rejection::NotActingPresident => ErrorKind::NotAuthorized,
            Rejection::NoPowerPending => ErrorKind::WrongPhase,
            Rejection::SelfInvestigated => ErrorKind::InvalidTarget,
            Rejection::NoTarget => ErrorKind::InvalidTarget,
            Rejection::SelfElected => ErrorKind::InvalidTarget,
            Rejection::SelfExecuted => ErrorKind::InvalidTarget,
            Rejection::AlreadyDead => ErrorKind::InvalidTarget,
        }
    }

    /// The notice shown to the participant who was turned down.
    pub fn message(&self) -> (text: &'static str)
        ensures
            text@ == self.spec_message(),
    {
        match self {
            Rejection::AlreadyStarted => "The game has already started!",
            Rejection::NotHost => "Only the host may start the game!",
            Rejection::PlayerCount => "There are too many or too few players to start a game!",
            Rejection::NotNow => "You cannot perform this action at this time!",
            Rejection::NotPresident => "You are not the president, so you cannot choose the chancellor!",
            Rejection::SelfNominated => "You cannot choose yourself. You must choose another player as the chancellor.",
            Rejection::TermLimited => "You cannot choose the last elected president or chancellor.",
            Rejection::TargetDead => "That player is dead!",
            Rejection::NoSuchTarget => "That player does not exist!",
            Rejection::VoterDead => "You are dead and therefore cannot vote!",
            Rejection::NoSuchPlayer => "This player does not exist!",
            Rejection::VetoNotNow => "You cannot veto a policy decision at this time!",
            Rejection::VetoLocked => "You cannot veto policies until 5 facist policies have been passed.",
            Rejection::NotInGovernment => "Only the president and the chancellor may participate in the veto process.",
            Rejection::NotSelecting => "Only the president may select policies at this time.",
            Rejection::NotInHand => "That policy is not a valid option.",
            Rejection::NotOnOffer => "This policy is not available to enact.",
            Rejection::NotActingPresident => "Only the current president may execute presidential powers.",
            Rejection::NoPowerPending => "You cannot execute a presidential power at this time.",
            Rejection::SelfInvestigated => "You cannot investigate yourself!",
            Rejection::NoTarget => "You must select a player!",
            Rejection::SelfElected => "You cannot choose yourself!",
            Rejection::SelfExecuted => "You cannot execute yourself!",
            Rejection::AlreadyDead => "That player is already dead!",
        }
    }
}

} // verus!
