//! The inbound command types and the outbound battle events.

use vstd::prelude::*;

use crate::pokemon::{Flag, NonVolatileStatus, Stat};

verus! {

/// One of the two sides of a battle.
#[derive(Clone, Copy, Debug, PartialEq, Eq, Structural, Hash)]
pub enum Team {
    P1,
    P2,
}

/// The instruction a side issues for the coming turn.
#[derive(Clone, Copy, Debug, PartialEq, Eq, Structural)]
pub enum FrontendEventKind {
    /// Use the move in the given slot of the active combatant.
    UseMove(usize),
    /// Switch the active combatant to the given position in the side's
    /// roster.
    Switch(usize),
}

/// An inbound command: which side issued it and what it asks for.
#[derive(Clone, Copy, Debug, PartialEq, Eq, Structural)]
pub struct FrontendEvent {
    pub team: Team,
    pub event: FrontendEventKind,
}

/// Why a combatant's action was skipped without the move being used.
#[derive(Clone, Copy, Debug, PartialEq, Eq, Structural)]
pub enum FailReason {
    Frozen,
    Paralyzed,
    Flinched,
}

/// An immutable, ordered fact describing something that happened during a
/// turn. Events are append-only within a turn and are the sole channel of
/// information to the presentation layer.
#[derive(Clone, Copy, Debug, PartialEq, Eq, Structural)]
pub enum BattleEvent {
    /// A combatant entered the field.
    SwitchIn { team: Team, pokemon: usize },
    /// A combatant's move passed its pre-checks and was used.
    UseMove { move_user: usize },
    /// The move of the given user missed its target.
    Miss(usize),
    /// Damage was dealt to the given combatant.
    Damage { target: usize, amount: u64, is_critical_hit: bool },
    /// A volatile flag was added to the given combatant.
    VolatileStatusCondition { target: usize, added_flag: Flag },
    /// A non-volatile status now occupies the combatant's status slot.
    NonVolatileStatusApplied { target: usize, status: NonVolatileStatus },
    /// A non-volatile status ended, as when a frozen combatant thaws.
    NonVolatileStatusCured { target: usize, status: NonVolatileStatus },
    /// One of the combatant's stat stages moved by the given delta.
    StatStageChange { target: usize, stat: Stat, delta: i8 },
    /// The combatant's health reached zero.
    Faint { target: usize },
    /// A duration-based volatile condition ran out.
    ConditionExpired { target: usize, flag: Flag },
    /// The combatant's action was skipped for the given reason.
    MoveFailed { move_user: usize, reason: FailReason },
}

/// An ephemeral record pairing an acting combatant with its chosen move and
/// the keys the turn ordering sorts by. Created from the queued commands at
/// the start of a turn and discarded once the turn resolves.
#[derive(Clone, Copy, Debug, PartialEq, Eq, Structural)]
pub struct UsedMove {
    /// Repository id of the acting combatant.
    pub user: usize,
    /// Repository id of the combatant the move is aimed at.
    pub target: usize,
    /// Index of the chosen move in the move table.
    pub move_index: usize,
    /// The move's priority tier; higher tiers act first.
    pub priority: i8,
    /// The user's effective speed when the turn began.
    pub speed: u64,
}

/// The ordering key of a pending action: priority tier first, then effective
/// speed, both descending.
pub open spec fn spec_action_le(a: UsedMove, b: UsedMove) -> bool {
    a.priority > b.priority || (a.priority == b.priority && a.speed >= b.speed)
}

/// Two actions tie exactly when both ordering keys are equal; only then may
/// the random source influence their relative order.
pub open spec fn spec_action_tied(a: UsedMove, b: UsedMove) -> bool {
    a.priority == b.priority && a.speed == b.speed
}

/// A sequence of actions ordered descending by priority, then by speed.
pub open spec fn spec_actions_sorted(s: Seq<UsedMove>) -> bool {
    forall|i: int, j: int|
        0 <= i < j < s.len() ==> #[trigger] spec_action_le(s[i], s[j])
}

} // verus!
