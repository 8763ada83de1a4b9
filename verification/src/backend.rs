//! The battle backend: owns the state of a two-sided battle, consumes exactly
//! one command per side per turn, resolves the turn against the pluggable
//! randomness source and emits an ordered log of battle events.

use vstd::prelude::*;

use crate::damage::{compute_damage, spec_damage};
use crate::events::{
    BattleEvent, FailReason, FrontendEvent, FrontendEventKind, Team, UsedMove, spec_action_le,
    spec_action_tied, spec_actions_sorted,
};
use crate::moves::{
    HitCount, MoveCategory, MoveData, SecondaryEffectKind, has_stab, spec_has_stab, spec_type_eff4,
    type_eff4,
};
use crate::pokemon::{Flag, NonVolatileStatus, Pokemon, SpeciesData, Stat};
use crate::rng::BattleRng;

verus! {

/// A caller error: the command or the tick request was malformed, so nothing
/// was mutated and no event was emitted.
#[derive(Clone, Copy, Debug, PartialEq, Eq, Structural)]
pub enum BattleError {
    /// `tick` was requested before both sides had queued a command.
    MissingCommand,
    /// A side tried to queue a second command for the same turn.
    CommandAlreadyQueued,
    /// A move command was issued by a side with no active combatant.
    NoActivePokemon,
    /// A move command was issued for a side whose active combatant has
    /// fainted and was not replaced.
    FaintedActive,
    /// A move command named an empty or out-of-range move slot.
    InvalidMoveSlot,
    /// A move command named a move absent from the move table.
    UnknownMove,
    /// A switch command named a roster position that does not exist.
    InvalidSwitchTarget,
    /// A switch command named a fainted roster entry.
    SwitchTargetFainted,
    /// A switch command named the combatant that is already active.
    SwitchTargetAlreadyActive,
}

/// One side's roster bookkeeping: which repository entries belong to the side
/// and which of them is currently on the field.
#[derive(Clone, Debug)]
pub struct TeamData {
    /// Repository id of the combatant currently on the field.
    pub active_pokemon: Option<usize>,
    /// Repository ids of the side's roster, in roster order.
    pub members: Vec<usize>,
}

impl TeamData {
    pub open spec fn wf(self, repo_len: int) -> bool {
        &&& forall|i: int| 0 <= i < self.members@.len() ==> self.members@[i] < repo_len
        &&& match self.active_pokemon {
            Some(a) => self.members@.contains(a),
            None => true,
        }
    }
}

/// Every `Faint` event names a combatant that the repository records as
/// having no health left.
pub open spec fn spec_faints_match_state(log: Seq<BattleEvent>, repo: Seq<Pokemon>) -> bool {
    forall|i: int|
        0 <= i < log.len() ==> spec_faint_matches_state(#[trigger] log[i], repo)
}

/// If the event is a `Faint`, its combatant is recorded as fainted.
pub open spec fn spec_faint_matches_state(e: BattleEvent, repo: Seq<Pokemon>) -> bool {
    e matches BattleEvent::Faint { target } ==> target < repo.len() && repo[target as int].current_hp == 0
}

/// Every `Faint` event comes immediately after the `Damage` event that
/// reduced that combatant's health to zero.
pub open spec fn spec_faint_follows_damage(log: Seq<BattleEvent>) -> bool {
    forall|i: int|
        0 <= i < log.len() && (#[trigger] log[i]) is Faint ==> i >= 1 && spec_damage_for(
            log[i - 1],
            spec_faint_target(log[i]),
        )
}

/// The repository id a `Faint` event names.
pub open spec fn spec_faint_target(e: BattleEvent) -> usize {
    match e {
        BattleEvent::Faint { target } => target,
        _ => 0,
    }
}

/// Whether the event is a `Damage` event against the given combatant.
pub open spec fn spec_damage_for(e: BattleEvent, target: usize) -> bool {
    match e {
        BattleEvent::Damage { target: damaged, amount: _, is_critical_hit: _ } => damaged == target,
        _ => false,
    }
}

/// Once a combatant's `Faint` event is in the log, no later `UseMove` event
/// of that combatant appears: its not-yet-executed actions are skipped.
pub open spec fn spec_no_move_after_faint(log: Seq<BattleEvent>) -> bool {
    forall|i: int, j: int|
        0 <= i < j < log.len() ==> spec_not_move_of_fainted(#[trigger] log[i], #[trigger] log[j])
}

/// If the earlier event is a `Faint`, the later one is not a `UseMove` of
/// the fainted combatant.
pub open spec fn spec_not_move_of_fainted(earlier: BattleEvent, later: BattleEvent) -> bool {
    earlier matches BattleEvent::Faint { target } ==> spec_not_move_of(later, target)
}

/// Whether the event is anything but a `UseMove` of the given combatant.
pub open spec fn spec_not_move_of(e: BattleEvent, user: usize) -> bool {
    e matches BattleEvent::UseMove { move_user } ==> move_user != user
}

/// All three append-only log invariants at once.
pub open spec fn spec_log_wf(log: Seq<BattleEvent>, repo: Seq<Pokemon>) -> bool {
    &&& spec_faints_match_state(log, repo)
    &&& spec_faint_follows_damage(log)
    &&& spec_no_move_after_faint(log)
}

/// The later log extends the earlier one: events are append-only within a
/// turn and never mutated after being emitted.
pub open spec fn spec_extends(post: Seq<BattleEvent>, pre: Seq<BattleEvent>) -> bool {
    post.len() >= pre.len() && forall|i: int| 0 <= i < pre.len() ==> post[i] == pre[i]
}

/// The backend façade. It accepts one command per side, advances exactly one
/// turn per `tick`, and exposes read-only queries for the presentation
/// layer. All side effects are confined to its own state and the returned
/// event log.
pub struct BattleBackend<R: BattleRng> {
    pub p1: TeamData,
    pub p2: TeamData,
    /// Every combatant of both sides, addressed by repository id.
    pub pokemon_repository: Vec<Pokemon>,
    /// The move-effect lookup table the battle was constructed with.
    pub movedex: Vec<MoveData>,
    /// The source of every chance-based decision.
    pub rng: R,
    /// The command queued by the first side for the coming turn.
    pub p1_queue: Option<FrontendEventKind>,
    /// The command queued by the second side for the coming turn.
    pub p2_queue: Option<FrontendEventKind>,
}

/// Whether the move table holds a move of the given name.
pub open spec fn spec_dex_has(dex: Seq<MoveData>, name: Seq<char>) -> bool {
    exists|i: int| 0 <= i < dex.len() && (#[trigger] dex[i]).name@ == name
}

impl<R: BattleRng> BattleBackend<R> {
    pub open spec fn wf(self) -> bool {
        &&& forall|i: int|
            0 <= i < self.pokemon_repository@.len() ==> (
            #[trigger] self.pokemon_repository@[i]).wf()
        &&& forall|i: int| 0 <= i < self.movedex@.len() ==> (#[trigger] self.movedex@[i]).wf()
        &&& self.p1.wf(self.pokemon_repository@.len() as int)
        &&& self.p2.wf(self.pokemon_repository@.len() as int)
    }

    /// The roster bookkeeping of the given side.
    pub open spec fn spec_team(self, team: Team) -> TeamData {
        match team {
            Team::P1 => self.p1,
            Team::P2 => self.p2,
        }
    }

    /// Why the given side's queued command would be rejected, if it would.
    /// Commands are checked before anything is mutated, so a turn either
    /// happens whole or not at all.
    pub open spec fn spec_command_error(self, team: Team, cmd: FrontendEventKind) -> Option<
        BattleError,
    > {
        match cmd {
            FrontendEventKind::UseMove(slot) => match self.spec_team(team).active_pokemon {
                None => Some(BattleError::NoActivePokemon),
                Some(active) => {
                    let p = self.pokemon_repository@[active as int];
                    if p.current_hp == 0 {
                        Some(BattleError::FaintedActive)
                    } else if slot >= p.moves@.len() {
                        Some(BattleError::InvalidMoveSlot)
                    } else {
                        match p.moves@[slot as int] {
                            None => Some(BattleError::InvalidMoveSlot),
                            Some(name) => if !spec_dex_has(self.movedex@, name@) {
                                Some(BattleError::UnknownMove)
                            } else {
                                None
                            },
                        }
                    }
                },
            },
            FrontendEventKind::Switch(index) => {
                let td = self.spec_team(team);
                if index >= td.members@.len() {
                    Some(BattleError::InvalidSwitchTarget)
                } else {
                    let id = td.members@[index as int];
                    if td.active_pokemon == Some(id) {
                        Some(BattleError::SwitchTargetAlreadyActive)
                    } else if self.pokemon_repository@[id as int].current_hp == 0 {
                        Some(BattleError::SwitchTargetFainted)
                    } else {
                        None
                    }
                }
            },
        }
    }

    /// Why a `tick` request would fail, if it would: both queues must hold a
    /// command, and the first side's command is checked before the second's.
    pub open spec fn spec_tick_error(self) -> Option<BattleError> {
        match (self.p1_queue, self.p2_queue) {
            (Some(c1), Some(c2)) => match self.spec_command_error(Team::P1, c1) {
                Some(e) => Some(e),
                None => self.spec_command_error(Team::P2, c2),
            },
            _ => Some(BattleError::MissingCommand),
        }
    }

    /// Sets up a battle from two already-resolved rosters and a move table.
    /// The first entry of each roster starts on the field. Repository ids
    /// number the first side's roster first, then the second side's.
    pub fn new(p1_team: Vec<Pokemon>, p2_team: Vec<Pokemon>, movedex: Vec<MoveData>, rng: R) -> (r:
        BattleBackend<R>)
        requires
            p1_team@.len() >= 1,
            p2_team@.len() >= 1,
            forall|i: int| 0 <= i < p1_team@.len() ==> (#[trigger] p1_team@[i]).wf(),
            forall|i: int| 0 <= i < p2_team@.len() ==> (#[trigger] p2_team@[i]).wf(),
            forall|i: int| 0 <= i < movedex@.len() ==> (#[trigger] movedex@[i]).wf(),
        ensures
            r.wf(),
            r.pokemon_repository@ == p1_team@ + p2_team@,
            r.movedex == movedex,
            r.p1.active_pokemon == Some(0usize),
            r.p2.active_pokemon == Some(p1_team@.len() as usize),
            r.p1.members@.len() == p1_team@.len(),
            r.p2.members@.len() == p2_team@.len(),
            forall|i: int| 0 <= i < p1_team@.len() ==> r.p1.members@[i] == i,
            forall|i: int|
                0 <= i < p2_team@.len() ==> r.p2.members@[i] == p1_team@.len() + i,
            (r.p1_queue is None),
            (r.p2_queue is None),
            r.rng == rng,
    {
        let ghost p1_view = p1_team@;
        let ghost p2_view = p2_team@;
        let p1_len = p1_team.len();
        let p2_len = p2_team.len();
        let mut repo = p1_team;
        let mut rest = p2_team;
        repo.append(&mut rest);
        let total: usize = repo.len();
        assert(total == p1_len + p2_len);
        assert forall|i: int| 0 <= i < repo@.len() implies (#[trigger] repo@[i]).wf() by {
            if i < p1_len {
                assert(repo@[i] == p1_view[i]);
            } else {
                assert(repo@[i] == p2_view[i - p1_len]);
            }
        }
        let mut p1_members: Vec<usize> = Vec::new();
        let mut i: usize = 0;
        while i < p1_len
            invariant
                i <= p1_len,
                p1_members@.len() == i,
                forall|j: int| 0 <= j < i ==> p1_members@[j] == j,
            decreases p1_len - i,
        {
            p1_members.push(i);
            i = i + 1;
        }
        let mut p2_members: Vec<usize> = Vec::new();
        let mut m: usize = 0;
        while m < p2_len
            invariant
                m <= p2_len,
                p1_len + p2_len <= usize::MAX,
                p2_members@.len() == m,
                forall|j: int| 0 <= j < m ==> p2_members@[j] == p1_len + j,
            decreases p2_len - m,
        {
            p2_members.push(p1_len + m);
            m = m + 1;
        }
        proof {
            assert(p1_members@[0] == 0usize);
            assert(p1_members@.contains(0usize));
            assert(p2_members@[0] == p1_len);
            assert(p2_members@.contains(p1_len));
        }
        BattleBackend {
            p1: TeamData { active_pokemon: Some(0), members: p1_members },
            p2: TeamData { active_pokemon: Some(p1_len), members: p2_members },
            pokemon_repository: repo,
            movedex,
            rng,
            p1_queue: None,
            p2_queue: None,
        }
    }

    /// The repository id of a side's active combatant; zero when the slot
    /// is empty (`spec_free_move_turn` excludes that case).
    pub open spec fn spec_active_id(self, team: Team) -> usize {
        match self.spec_team(team).active_pokemon {
            Some(a) => a,
            None => 0,
        }
    }

    /// A turn in which both sides queued a move and both active combatants
    /// are standing and free of every pre-check (no status condition, no
    /// flinch, no confusion): both chosen moves are then certain to be used.
    pub open spec fn spec_free_move_turn(self) -> bool {
        &&& self.p1_queue matches Some(FrontendEventKind::UseMove(_))
        &&& self.p2_queue matches Some(FrontendEventKind::UseMove(_))
        &&& match self.p1.active_pokemon {
            Some(a) => spec_acts_freely(self.pokemon_repository@[a as int]),
            None => false,
        }
        &&& match self.p2.active_pokemon {
            Some(a) => spec_acts_freely(self.pokemon_repository@[a as int]),
            None => false,
        }
    }

    /// Whether a side has no standing combatant on the field: the active
    /// entry has fainted, or the slot is empty.
    pub open spec fn spec_side_down(self, team: Team) -> bool {
        match self.spec_team(team).active_pokemon {
            Some(a) => self.pokemon_repository@[a as int].current_hp == 0,
            None => true,
        }
    }

    /// The double-faint check of end-of-turn housekeeping: whether both
    /// sides are down at once. No event is defined for this outcome, so the
    /// turn does not emit one; the caller queries it after draining a turn's
    /// log and decides how the battle ends.
    pub fn is_double_faint(&self) -> (r: bool)
        requires
            self.wf(),
        ensures
            r == (self.spec_side_down(Team::P1) && self.spec_side_down(Team::P2)),
    {
        let p1_down: bool = match self.p1.active_pokemon {
            Some(a) => {
                proof {
                    let ms = self.p1.members@;
                    assert(ms.contains(a));
                    let i = choose|i: int| 0 <= i < ms.len() && ms[i] == a;
                    assert(ms[i] < self.pokemon_repository@.len());
                }
                self.pokemon_repository[a].current_hp == 0
            },
            None => true,
        };
        let p2_down: bool = match self.p2.active_pokemon {
            Some(a) => {
                proof {
                    let ms = self.p2.members@;
                    assert(ms.contains(a));
                    let i = choose|i: int| 0 <= i < ms.len() && ms[i] == a;
                    assert(ms[i] < self.pokemon_repository@.len());
                }
                self.pokemon_repository[a].current_hp == 0
            },
            None => true,
        };
        p1_down && p2_down
    }

    /// Read-only species lookup used by the presentation layer.
    pub fn get_species(&self, pokemon: usize) -> (r: &SpeciesData)
        requires
            pokemon < self.pokemon_repository@.len(),
        ensures
            *r == self.pokemon_repository@[pokemon as int].species,
    {
        &self.pokemon_repository[pokemon].species
    }

    /// Enqueues a side's command for the coming turn. Fails, mutating
    /// nothing, when that side already has a command queued.
    pub fn push_frontend_event(&mut self, event: FrontendEvent) -> (r: Result<(), BattleError>)
        ensures
            (event.team is P1) && (old(self).p1_queue is None) ==> (r is Ok) && *final(self)
                == (BattleBackend { p1_queue: Some(event.event), ..*old(self) }),
            (event.team is P1) && (old(self).p1_queue is Some) ==> r == Err::<(), BattleError>(
                BattleError::CommandAlreadyQueued,
            ) && *final(self) == *old(self),
            (event.team is P2) && (old(self).p2_queue is None) ==> (r is Ok) && *final(self)
                == (BattleBackend { p2_queue: Some(event.event), ..*old(self) }),
            (event.team is P2) && (old(self).p2_queue is Some) ==> r == Err::<(), BattleError>(
                BattleError::CommandAlreadyQueued,
            ) && *final(self) == *old(self),
    {
        match event.team {
            Team::P1 => {
                if self.p1_queue.is_some() {
                    Err(BattleError::CommandAlreadyQueued)
                } else {
                    self.p1_queue = Some(event.event);
                    Ok(())
                }
            },
            Team::P2 => {
                if self.p2_queue.is_some() {
                    Err(BattleError::CommandAlreadyQueued)
                } else {
                    self.p2_queue = Some(event.event);
                    Ok(())
                }
            },
        }
    }

    /// Checks one side's queued command without mutating anything.
    fn validate_command(&self, team: Team, cmd: FrontendEventKind) -> (r: Option<BattleError>)
        requires
            self.wf(),
        ensures
            r == self.spec_command_error(team, cmd),
    {
        let td: &TeamData = match team {
            Team::P1 => &self.p1,
            Team::P2 => &self.p2,
        };
        match cmd {
            FrontendEventKind::UseMove(slot) => {
                match td.active_pokemon {
                    None => Some(BattleError::NoActivePokemon),
                    Some(active) => {
                        let p = &self.pokemon_repository[active];
                        if p.current_hp == 0 {
                            Some(BattleError::FaintedActive)
                        } else if slot >= p.moves.len() {
                            Some(BattleError::InvalidMoveSlot)
                        } else {
                            match &p.moves[slot] {
                                None => Some(BattleError::InvalidMoveSlot),
                                Some(name) => {
                                    match find_move(&self.movedex, name) {
                                        Some(_) => None,
                                        None => Some(BattleError::UnknownMove),
                                    }
                                },
                            }
                        }
                    },
                }
            },
            FrontendEventKind::Switch(index) => {
                if index >= td.members.len() {
                    Some(BattleError::InvalidSwitchTarget)
                } else {
                    let id = td.members[index];
                    let already_active: bool = match td.active_pokemon {
                        Some(a) => a == id,
                        None => false,
                    };
                    if already_active {
                        Some(BattleError::SwitchTargetAlreadyActive)
                    } else if self.pokemon_repository[id].current_hp == 0 {
                        Some(BattleError::SwitchTargetFainted)
                    } else {
                        None
                    }
                }
            },
        }
    }

    /// Advances exactly one turn: consumes the one queued command per side,
    /// resolves switches, orders the move actions by priority then speed
    /// (ties broken by the random source), executes them with all pre-checks
    /// and chance rolls, runs end-of-turn housekeeping and clears both
    /// queues.
    ///
    /// The turn is atomic: a malformed request fails with the exact caller
    /// error given by `spec_tick_error` and mutates nothing, so no partial
    /// turn can corrupt the event log. A second `tick` without fresh
    /// commands therefore fails with `MissingCommand`. Every valid turn
    /// emits at least one event: a switch command puts its `SwitchIn` at a
    /// pinned position, and a move turn between two unimpeded actives opens
    /// with one of their `UseMove` events. The returned log also satisfies
    /// the log invariants: every `Faint` comes immediately after the
    /// `Damage` that caused it, names a combatant whose health is zero, and
    /// is never followed by a `UseMove` of that combatant.
    pub fn tick(&mut self) -> (res: Result<Vec<BattleEvent>, BattleError>)
        requires
            old(self).wf(),
        ensures
            final(self).wf(),
            old(self).spec_tick_error() matches Some(e) ==> res == Err::<
                Vec<BattleEvent>,
                BattleError,
            >(e) && *final(self) == *old(self),
            (old(self).spec_tick_error() is None) ==> (res is Ok) && (final(self).p1_queue
                is None) && (final(self).p2_queue is None),
            res matches Ok(log) ==> spec_log_wf(log@, final(self).pokemon_repository@),
            old(self).spec_tick_error() is None ==> (res matches Ok(log) && log@.len() > 0),
            old(self).spec_tick_error() is None && old(self).spec_free_move_turn() ==> (
            res matches Ok(log) && log@.len() > 0 && (log@[0] == (BattleEvent::UseMove {
                move_user: old(self).spec_active_id(Team::P1),
            }) || log@[0] == (BattleEvent::UseMove {
                move_user: old(self).spec_active_id(Team::P2),
            }))),
            old(self).spec_tick_error() is None ==> (old(self).p1_queue matches Some(
                FrontendEventKind::Switch(index),
            ) ==> (res matches Ok(log) && log@.len() > 0 && log@[0] == (BattleEvent::SwitchIn {
                team: Team::P1,
                pokemon: old(self).p1.members@[index as int],
            }))),
            old(self).spec_tick_error() is None ==> (old(self).p2_queue matches Some(
                FrontendEventKind::Switch(index),
            ) ==> (res matches Ok(log) && log@.len() > (
            if old(self).p1_queue matches Some(FrontendEventKind::Switch(_)) {
                1int
            } else {
                0int
            }) && log@[
                if old(self).p1_queue matches Some(FrontendEventKind::Switch(_)) {
                    1int
                } else {
                    0int
                }
            ] == (BattleEvent::SwitchIn {
                team: Team::P2,
                pokemon: old(self).p2.members@[index as int],
            }))),
            final(self).pokemon_repository@.len() == old(self).pokemon_repository@.len(),
            final(self).movedex == old(self).movedex,
    {
        let err: Option<BattleError> = match (self.p1_queue, self.p2_queue) {
            (Some(c1), Some(c2)) => match self.validate_command(Team::P1, c1) {
                Some(e) => Some(e),
                None => self.validate_command(Team::P2, c2),
            },
            _ => Some(BattleError::MissingCommand),
        };
        match err {
            Some(e) => {
                return Err(e);
            },
            None => {},
        }
        let c1 = self.p1_queue.unwrap();
        let c2 = self.p2_queue.unwrap();
        let mut log: Vec<BattleEvent> = Vec::new();
        // Switches resolve before any move, first side first.
        match c1 {
            FrontendEventKind::Switch(index) => {
                perform_switch(&mut self.p1, &mut self.pokemon_repository, Team::P1, index, &mut log);
            },
            _ => {},
        }
        match c2 {
            FrontendEventKind::Switch(index) => {
                perform_switch(&mut self.p2, &mut self.pokemon_repository, Team::P2, index, &mut log);
            },
            _ => {},
        }
        // Build the pending move actions with their ordering keys.
        let mut actions: Vec<UsedMove> = Vec::new();
        match c1 {
            FrontendEventKind::UseMove(slot) => {
                match build_used_move(
                    &self.p1,
                    &self.p2,
                    &self.pokemon_repository,
                    &self.movedex,
                    slot,
                ) {
                    Some(um) => actions.push(um),
                    None => {},
                }
            },
            _ => {},
        }
        match c2 {
            FrontendEventKind::UseMove(slot) => {
                match build_used_move(
                    &self.p2,
                    &self.p1,
                    &self.pokemon_repository,
                    &self.movedex,
                    slot,
                ) {
                    Some(um) => actions.push(um),
                    None => {},
                }
            },
            _ => {},
        }
        proof {
            assert forall|a: int|
                0 <= a < actions@.len() implies (#[trigger] actions@[a]).user
                    < self.pokemon_repository@.len() && actions@[a].target
                    < self.pokemon_repository@.len() && actions@[a].move_index
                    < self.movedex@.len() by {}
        }
        let ghost pending = actions@;
        proof {
            assert forall|a: int|
                0 <= a < actions@.len() implies self.pokemon_repository@[(
                #[trigger] actions@[a]).user as int].current_hp > 0 by {}
        }
        let ghost log_after_switches = log@;
        let ghost repo_before_actions = self.pokemon_repository@;
        let ordered = order_actions(&mut self.rng, actions);
        proof {
            broadcast use vstd::seq_lib::group_to_multiset_ensures;

            assert forall|a: int|
                0 <= a < ordered@.len() implies (#[trigger] ordered@[a]).user
                    < self.pokemon_repository@.len() && ordered@[a].target
                    < self.pokemon_repository@.len() && ordered@[a].move_index
                    < self.movedex@.len() by {
                assert(ordered@.contains(ordered@[a]));
                assert(ordered@.to_multiset().count(ordered@[a]) > 0);
                assert(pending.to_multiset().count(ordered@[a]) > 0);
                assert(pending.contains(ordered@[a]));
                let i = choose|i: int| 0 <= i < pending.len() && pending[i] == ordered@[a];
                assert(pending[i].user < self.pokemon_repository@.len());
            }
            assert forall|a: int|
                0 <= a < ordered@.len() implies repo_before_actions[(
                #[trigger] ordered@[a]).user as int].current_hp > 0 by {
                assert(ordered@.contains(ordered@[a]));
                assert(ordered@.to_multiset().count(ordered@[a]) > 0);
                assert(pending.to_multiset().count(ordered@[a]) > 0);
                assert(pending.contains(ordered@[a]));
                let i = choose|i: int| 0 <= i < pending.len() && pending[i] == ordered@[a];
                assert(repo_before_actions[pending[i].user as int].current_hp > 0);
            }
            if old(self).spec_free_move_turn() {
                assert(pending.len() >= 1);
                assert(ordered@.len() >= 1);
                assert forall|a: int|
                    0 <= a < ordered@.len() implies (#[trigger] ordered@[a]).user == old(
                    self,
                ).spec_active_id(Team::P1) || ordered@[a].user == old(self).spec_active_id(
                    Team::P2,
                ) by {
                    assert(ordered@.contains(ordered@[a]));
                    assert(ordered@.to_multiset().count(ordered@[a]) > 0);
                    assert(pending.to_multiset().count(ordered@[a]) > 0);
                    assert(pending.contains(ordered@[a]));
                    let i = choose|i: int| 0 <= i < pending.len() && pending[i] == ordered@[a];
                    assert(pending[i].user == old(self).spec_active_id(Team::P1) || pending[
                        i
                    ].user == old(self).spec_active_id(Team::P2));
                }
            }
        }
        let mut k: usize = 0;
        while k < ordered.len()
            invariant
                k <= ordered@.len(),
                self.wf(),
                spec_log_wf(log@, self.pokemon_repository@),
                self.pokemon_repository@.len() == old(self).pokemon_repository@.len(),
                self.movedex == old(self).movedex,
                forall|a: int|
                    0 <= a < ordered@.len() ==> (#[trigger] ordered@[a]).user
                        < self.pokemon_repository@.len() && ordered@[a].target
                        < self.pokemon_repository@.len() && ordered@[a].move_index
                        < self.movedex@.len(),
                forall|a: int|
                    0 <= a < ordered@.len() ==> repo_before_actions[(
                    #[trigger] ordered@[a]).user as int].current_hp > 0,
                spec_extends(log@, log_after_switches),
                k == 0 ==> self.pokemon_repository@ == repo_before_actions,
                k == 0 ==> log@ == log_after_switches,
                k >= 1 && ordered@.len() > 0 ==> log@.len() > log_after_switches.len(),
                old(self).spec_free_move_turn() ==> log_after_switches == Seq::<
                    BattleEvent,
                >::empty() && repo_before_actions == old(self).pokemon_repository@
                    && ordered@.len() >= 1 && (forall|a: int|
                    0 <= a < ordered@.len() ==> (#[trigger] ordered@[a]).user == old(
                    self,
                ).spec_active_id(Team::P1) || ordered@[a].user == old(self).spec_active_id(
                    Team::P2,
                )),
                old(self).spec_free_move_turn() && k >= 1 ==> log@.len() > 0 && (log@[0] == (
                BattleEvent::UseMove { move_user: old(self).spec_active_id(Team::P1) }) || log@[0]
                    == (BattleEvent::UseMove { move_user: old(self).spec_active_id(Team::P2) })),
            decreases ordered@.len() - k,
        {
            let action = ordered[k];
            let ghost log_before = log@;
            let ghost repo_at_call = self.pokemon_repository@;
            execute_action(
                &mut self.rng,
                &mut self.pokemon_repository,
                &self.movedex,
                action,
                &mut log,
            );
            proof {
                if old(self).spec_free_move_turn() {
                    if k == 0 {
                        assert(log_before == Seq::<BattleEvent>::empty());
                        assert(repo_at_call == old(self).pokemon_repository@);
                        assert(action.user == old(self).spec_active_id(Team::P1) || action.user
                            == old(self).spec_active_id(Team::P2));
                        assert(spec_acts_freely(repo_at_call[action.user as int]));
                        assert(log@.len() > 0);
                        assert(log@[0] == (BattleEvent::UseMove { move_user: action.user }));
                    } else {
                        assert(log_before.len() > 0);
                        assert(log@[0] == log_before[0]);
                    }
                }
            }
            k = k + 1;
        }
        end_of_turn(&mut self.pokemon_repository, &mut log);
        self.p1_queue = None;
        self.p2_queue = None;
        Ok(log)
    }
}

/// Finds the first move table entry with the given name.
fn find_move(dex: &Vec<MoveData>, name: &String) -> (r: Option<usize>)
    ensures
        match r {
            Some(i) => i < dex@.len() && dex@[i as int].name@ == name@ && (forall|j: int|
                0 <= j < i ==> (#[trigger] dex@[j]).name@ != name@),
            None => !spec_dex_has(dex@, name@),
        },
{
    let mut i: usize = 0;
    while i < dex.len()
        invariant
            i <= dex@.len(),
            forall|j: int| 0 <= j < i ==> (#[trigger] dex@[j]).name@ != name@,
        decreases dex@.len() - i,
    {
        if dex[i].name == *name {
            return Some(i);
        }
        i = i + 1;
    }
    None
}


/// Appends one event to the turn log, preserving the log invariants. The
/// ghost repository snapshot ties the side conditions to the battle state at
/// the moment of the append.
fn push_event(log: &mut Vec<BattleEvent>, e: BattleEvent, Ghost(repo): Ghost<Seq<Pokemon>>)
    requires
        spec_log_wf(old(log)@, repo),
        (e matches BattleEvent::UseMove { move_user } ==> move_user < repo.len() && repo[
            move_user as int
        ].current_hp > 0),
        (e matches BattleEvent::Faint { target } ==> target < repo.len() && repo[
            target as int
        ].current_hp == 0 && old(log)@.len() >= 1 && spec_damage_for(
            old(log)@[old(log)@.len() - 1],
            target,
        )),
    ensures
        final(log)@ == old(log)@.push(e),
        spec_extends(final(log)@, old(log)@),
        spec_log_wf(final(log)@, repo),
{
    let ghost pre = log@;
    log.push(e);
    proof {
        let post = log@;
        assert forall|i: int|
            0 <= i < post.len() implies spec_faint_matches_state(#[trigger] post[i], repo) by {
            if i < pre.len() {
                assert(post[i] == pre[i]);
                assert(spec_faint_matches_state(pre[i], repo));
            } else {
                assert(post[i] == e);
            }
        }
        assert forall|i: int|
            0 <= i < post.len() && (#[trigger] post[i]) is Faint implies i >= 1 && spec_damage_for(
            post[i - 1],
            spec_faint_target(post[i]),
        ) by {
            if i < pre.len() {
                assert(post[i] == pre[i]);
                assert(i >= 1 && spec_damage_for(pre[i - 1], spec_faint_target(pre[i])));
                assert(post[i - 1] == pre[i - 1]);
            } else {
                assert(post[i] == e);
                assert(pre.len() >= 1);
                assert(post[i - 1] == pre[pre.len() - 1]);
            }
        }
        assert forall|i: int, j: int|
            0 <= i < j < post.len() implies spec_not_move_of_fainted(
            #[trigger] post[i],
            #[trigger] post[j],
        ) by {
            assert(post[i] == pre[i]);
            if j < pre.len() {
                assert(post[j] == pre[j]);
                assert(spec_not_move_of_fainted(pre[i], pre[j]));
            } else {
                assert(post[j] == e);
                assert(spec_faint_matches_state(pre[i], repo));
            }
        }
    }
}

/// The log invariants survive any state change that keeps fainted
/// combatants fainted.
proof fn lemma_log_wf_repo_change(log: Seq<BattleEvent>, r1: Seq<Pokemon>, r2: Seq<Pokemon>)
    requires
        spec_log_wf(log, r1),
        r2.len() == r1.len(),
        forall|k: int| 0 <= k < r1.len() && r1[k].current_hp == 0 ==> r2[k].current_hp == 0,
    ensures
        spec_log_wf(log, r2),
{
    assert forall|i: int|
        0 <= i < log.len() implies spec_faint_matches_state(#[trigger] log[i], r2) by {
        assert(spec_faint_matches_state(log[i], r1));
    }
}

/// Borrows one repository entry for mutation.
fn repo_entry<'a>(repo: &'a mut Vec<Pokemon>, i: usize) -> (element: &'a mut Pokemon)
    requires
        i < old(repo)@.len(),
    ensures
        *element == old(repo)@[i as int],
        final(repo)@ == old(repo)@.update(i as int, *final(element)),
{
    &mut repo[i]
}

/// Builds the execution order of the pending move actions: descending by
/// priority tier, then by effective speed. A battle has two sides, so a turn
/// holds at most two move actions. When both keys tie exactly, the pair is
/// handed to the random source's shuffle to break the tie; otherwise the
/// order is fully determined by the keys alone, whatever the random source.
pub fn order_actions<R: BattleRng>(rng: &mut R, actions: Vec<UsedMove>) -> (r: Vec<UsedMove>)
    requires
        actions@.len() <= 2,
    ensures
        r@.to_multiset() == actions@.to_multiset(),
        r@.len() == actions@.len(),
        spec_actions_sorted(r@),
        actions@.len() <= 1 ==> r@ == actions@,
        actions@.len() == 2 && !spec_action_tied(actions@[0], actions@[1]) ==> r@ == (
        if spec_action_le(actions@[0], actions@[1]) {
            actions@
        } else {
            seq![actions@[1], actions@[0]]
        }),
        final(rng).last_miss_request() == old(rng).last_miss_request(),
        final(rng).last_secondary_request() == old(rng).last_secondary_request(),
{
    broadcast use vstd::seq_lib::group_to_multiset_ensures;

    if actions.len() <= 1 {
        return actions;
    }
    let a = actions[0];
    let b = actions[1];
    if a.priority == b.priority && a.speed == b.speed {
        let mut tied = actions;
        let ghost orig = tied@;
        proof {
            assert(orig =~= seq![a, b]);
        }
        rng.shuffle_moves(&mut tied);
        proof {
            assert(tied@.to_multiset() == orig.to_multiset());
            assert(tied@.len() == orig.to_multiset().len());
            assert(tied@.len() == 2);
            assert forall|i: int, j: int|
                0 <= i < j < tied@.len() implies #[trigger] spec_action_le(tied@[i], tied@[j]) by {
                assert(tied@.contains(tied@[i]));
                assert(tied@.to_multiset().count(tied@[i]) > 0);
                assert(orig.to_multiset().count(tied@[i]) > 0);
                assert(orig.contains(tied@[i]));
                assert(tied@.contains(tied@[j]));
                assert(tied@.to_multiset().count(tied@[j]) > 0);
                assert(orig.to_multiset().count(tied@[j]) > 0);
                assert(orig.contains(tied@[j]));
            }
        }
        return tied;
    }
    let a_first: bool = a.priority > b.priority || (a.priority == b.priority && a.speed >= b.speed);
    let mut out: Vec<UsedMove> = Vec::new();
    if a_first {
        out.push(a);
        out.push(b);
    } else {
        out.push(b);
        out.push(a);
    }
    proof {
        assert(actions@ =~= seq![a, b]);
        if a_first {
            assert(out@ =~= seq![a, b]);
            assert(out@ =~= actions@);
        } else {
            assert(out@ =~= seq![b, a]);
        }
        assert(out@.to_multiset() =~= actions@.to_multiset()) by {
            assert(actions@.to_multiset() =~= Seq::<UsedMove>::empty().push(a).push(
                b,
            ).to_multiset()) by {
                assert(actions@ =~= Seq::<UsedMove>::empty().push(a).push(b));
            }
            assert(out@.to_multiset() =~= Seq::<UsedMove>::empty().push(out@[0]).push(
                out@[1],
            ).to_multiset()) by {
                assert(out@ =~= Seq::<UsedMove>::empty().push(out@[0]).push(out@[1]));
            }
        }
    }
    out
}


/// Borrows one repository entry for reading.
fn repo_read<'a>(repo: &'a Vec<Pokemon>, i: usize) -> (r: &'a Pokemon)
    requires
        i < repo@.len(),
    ensures
        *r == repo@[i as int],
{
    &repo[i]
}

/// Borrows one move table entry for reading.
fn dex_read<'a>(dex: &'a Vec<MoveData>, i: usize) -> (r: &'a MoveData)
    requires
        i < dex@.len(),
    ensures
        *r == dex@[i as int],
{
    &dex[i]
}

/// Switches a side's active combatant to the roster entry at `index`,
/// clearing the outgoing combatant's volatile conditions and emitting a
/// `SwitchIn` event. A roster position out of range does nothing; command
/// validation has already rejected it.
fn perform_switch(
    td: &mut TeamData,
    repo: &mut Vec<Pokemon>,
    team: Team,
    index: usize,
    log: &mut Vec<BattleEvent>,
)
    requires
        old(td).wf(old(repo)@.len() as int),
        forall|i: int| 0 <= i < old(repo)@.len() ==> (#[trigger] old(repo)@[i]).wf(),
        spec_log_wf(old(log)@, old(repo)@),
    ensures
        final(td).wf(final(repo)@.len() as int),
        forall|i: int| 0 <= i < final(repo)@.len() ==> (#[trigger] final(repo)@[i]).wf(),
        spec_log_wf(final(log)@, final(repo)@),
        final(repo)@.len() == old(repo)@.len(),
        forall|k: int|
            0 <= k < old(repo)@.len() ==> final(repo)@[k].current_hp == old(repo)@[k].current_hp,
        final(td).members == old(td).members,
        index < old(td).members@.len() ==> final(log)@ == old(log)@.push(
            BattleEvent::SwitchIn { team, pokemon: old(td).members@[index as int] },
        ),
        index >= old(td).members@.len() ==> final(log)@ == old(log)@ && *final(td) == *old(td)
            && final(repo)@ == old(repo)@,
        spec_extends(final(log)@, old(log)@),
{
    if index >= td.members.len() {
        return ;
    }
    let new_id = td.members[index];
    let ghost repo0 = repo@;
    match td.active_pokemon {
        Some(out_id) => {
            proof {
                let ms = td.members@;
                assert(ms.contains(out_id));
                let i = choose|i: int| 0 <= i < ms.len() && ms[i] == out_id;
                assert(ms[i] < repo@.len());
            }
            let outgoing = repo_entry(repo, out_id);
            outgoing.clear_volatile();
            proof {
                assert forall|i: int| 0 <= i < repo@.len() implies (#[trigger] repo@[i]).wf() by {
                    if i != out_id {
                        assert(repo@[i] == repo0[i]);
                    }
                }
                lemma_log_wf_repo_change(log@, repo0, repo@);
            }
        },
        None => {},
    }
    td.active_pokemon = Some(new_id);
    proof {
        assert(td.members@[index as int] == new_id);
        assert(td.members@.contains(new_id));
    }
    push_event(log, BattleEvent::SwitchIn { team, pokemon: new_id }, Ghost(repo@));
}

/// Resolves a side's move command into an `UsedMove` carrying the ordering
/// keys: the move's priority tier and the user's effective speed as the turn
/// begins. Returns nothing if the slot is empty or the move name is not in
/// the table; command validation has already rejected those.
fn build_used_move(
    td: &TeamData,
    other: &TeamData,
    repo: &Vec<Pokemon>,
    dex: &Vec<MoveData>,
    slot: usize,
) -> (r: Option<UsedMove>)
    requires
        td.wf(repo@.len() as int),
        other.wf(repo@.len() as int),
        forall|i: int| 0 <= i < repo@.len() ==> (#[trigger] repo@[i]).wf(),
    ensures
        r matches Some(um) ==> um.user < repo@.len() && um.target < repo@.len() && um.move_index
            < dex@.len() && (td.active_pokemon matches Some(a) && um.user == a) && (
        other.active_pokemon matches Some(t) && um.target == t) && um.priority == dex@[
            um.move_index as int
        ].priority && um.speed == repo@[um.user as int].spec_effective_speed(),
        (td.active_pokemon matches Some(a) && (other.active_pokemon is Some) && slot < repo@[
            a as int
        ].moves@.len() && (repo@[a as int].moves@[slot as int] matches Some(name) && spec_dex_has(
            dex@,
            name@,
        ))) ==> (r is Some),
{
    let user: usize = match td.active_pokemon {
        Some(a) => a,
        None => {
            return None;
        },
    };
    let target: usize = match other.active_pokemon {
        Some(t) => t,
        None => {
            return None;
        },
    };
    proof {
        let ms = td.members@;
        assert(ms.contains(user));
        let i = choose|i: int| 0 <= i < ms.len() && ms[i] == user;
        assert(ms[i] < repo@.len());
        let os = other.members@;
        assert(os.contains(target));
        let j = choose|j: int| 0 <= j < os.len() && os[j] == target;
        assert(os[j] < repo@.len());
    }
    let p = repo_read(repo, user);
    if slot >= p.moves.len() {
        return None;
    }
    let move_index: usize = match &p.moves[slot] {
        Some(name) => {
            match find_move(dex, name) {
                Some(mi) => mi,
                None => {
                    return None;
                },
            }
        },
        None => {
            return None;
        },
    };
    let speed = p.effective_speed();
    let priority = dex_read(dex, move_index).priority;
    Some(UsedMove { user, target, move_index, priority, speed })
}

/// The amount one hit of a move deals, as a function of the attacker, the
/// defender, the move and the drawn modifier percentage: the damage formula
/// over the staged stats of the right category, the move's deterministic
/// critical-hit rule, the attacker's same-type bonus and the defender's type
/// effectiveness.
pub open spec fn spec_hit_amount(
    attacker: Pokemon,
    defender: Pokemon,
    mov: MoveData,
    modifier: int,
) -> int {
    let atk = if mov.category is Special {
        attacker.spec_effective_stat(Stat::SpecialAttack)
    } else {
        attacker.spec_effective_stat(Stat::Attack)
    };
    let def = if mov.category is Special {
        defender.spec_effective_stat(Stat::SpecialDefense)
    } else {
        defender.spec_effective_stat(Stat::Defense)
    };
    spec_damage(
        attacker.level as int,
        mov.power as int,
        atk,
        def,
        mov.always_crits,
        modifier,
        spec_has_stab(mov.move_type, attacker.species.first_type, attacker.species.second_type),
        spec_type_eff4(mov.move_type, defender.species.first_type, defender.species.second_type),
    )
}

/// If the event is a `Damage` event, it hits the given target for an amount
/// the damage formula gives on some modifier percentage in `[85, 100]`.
pub open spec fn spec_damage_event_of(
    e: BattleEvent,
    attacker: Pokemon,
    defender: Pokemon,
    mov: MoveData,
    target: usize,
) -> bool {
    e matches BattleEvent::Damage { target: t, amount, is_critical_hit } ==> t == target
        && is_critical_hit == mov.always_crits && exists|m: int|
        85 <= m <= 100 && amount == spec_hit_amount(attacker, defender, mov, m)
}

/// A combatant that no pre-check can stop: standing, no status condition,
/// not flinched, not confused. Its chosen move is always used.
pub open spec fn spec_acts_freely(p: Pokemon) -> bool {
    &&& p.current_hp > 0
    &&& p.non_volatile is None
    &&& !p.flinched
    &&& p.confusion is None
}

/// Executes one ordered action: pre-checks (faint, freeze, paralysis,
/// flinch, confusion), the unconditional `UseMove` event once pre-checks
/// pass, the accuracy roll, hit-count resolution, per-hit damage with faint
/// detection, and the chance-gated secondary effect.
#[verifier::rlimit(100)]
pub fn execute_action<R: BattleRng>(
    rng: &mut R,
    repo: &mut Vec<Pokemon>,
    dex: &Vec<MoveData>,
    action: UsedMove,
    log: &mut Vec<BattleEvent>,
)
    requires
        action.user < old(repo)@.len(),
        action.target < old(repo)@.len(),
        action.move_index < dex@.len(),
        forall|i: int| 0 <= i < old(repo)@.len() ==> (#[trigger] old(repo)@[i]).wf(),
        forall|i: int| 0 <= i < dex@.len() ==> (#[trigger] dex@[i]).wf(),
        spec_log_wf(old(log)@, old(repo)@),
    ensures
        forall|i: int| 0 <= i < final(repo)@.len() ==> (#[trigger] final(repo)@[i]).wf(),
        spec_log_wf(final(log)@, final(repo)@),
        final(repo)@.len() == old(repo)@.len(),
        forall|k: int|
            0 <= k < old(repo)@.len() && old(repo)@[k].current_hp == 0 ==> final(repo)@[k].current_hp == 0,
        spec_extends(final(log)@, old(log)@),
        spec_acts_freely(old(repo)@[action.user as int]) ==> final(log)@.len() > old(log)@.len()
            && final(log)@[old(log)@.len() as int] == (BattleEvent::UseMove {
            move_user: action.user,
        }),
        spec_acts_freely(old(repo)@[action.user as int]) ==> forall|i: int|
            old(log)@.len() <= i < final(log)@.len() ==> spec_damage_event_of(
                #[trigger] final(log)@[i],
                old(repo)@[action.user as int],
                old(repo)@[action.target as int],
                dex@[action.move_index as int],
                action.target,
            ),
        old(repo)@[action.user as int].current_hp > 0 ==> final(log)@.len() > old(log)@.len(),
        final(rng).last_miss_request() == old(rng).last_miss_request() || final(rng).last_miss_request() == Some(dex@[action.move_index as int].accuracy as u64),
        final(rng).last_secondary_request() == old(rng).last_secondary_request() || (dex@[
            action.move_index as int
        ].secondary matches Some(sec) && final(rng).last_secondary_request() == Some(
            sec.chance as u64,
        )),
{
    let user = action.user;
    let target = action.target;
    // A combatant that fainted earlier this turn is skipped silently.
    if repo_read(repo, user).current_hp == 0 {
        return ;
    }
    // Freeze: thaw and proceed, or stay frozen and lose the action.
    match repo_read(repo, user).non_volatile {
        Some(NonVolatileStatus::Freeze) => {
            if rng.check_freeze_thaw() {
                let ghost repo0 = repo@;
                let p = repo_entry(repo, user);
                p.cure_non_volatile_status();
                proof {
                    assert forall|i: int|
                        0 <= i < repo@.len() implies (#[trigger] repo@[i]).wf() by {
                        if i != user {
                            assert(repo@[i] == repo0[i]);
                        }
                    }
                    lemma_log_wf_repo_change(log@, repo0, repo@);
                }
                push_event(
                    log,
                    BattleEvent::NonVolatileStatusCured {
                        target: user,
                        status: NonVolatileStatus::Freeze,
                    },
                    Ghost(repo@),
                );
            } else {
                push_event(
                    log,
                    BattleEvent::MoveFailed { move_user: user, reason: FailReason::Frozen },
                    Ghost(repo@),
                );
                return ;
            }
        },
        Some(NonVolatileStatus::Paralysis) => {
            if rng.check_paralysis_move_prevention() {
                push_event(
                    log,
                    BattleEvent::MoveFailed { move_user: user, reason: FailReason::Paralyzed },
                    Ghost(repo@),
                );
                return ;
            }
        },
        None => {},
    }
    // Flinch: the action is lost.
    if repo_read(repo, user).flinched {
        push_event(
            log,
            BattleEvent::MoveFailed { move_user: user, reason: FailReason::Flinched },
            Ghost(repo@),
        );
        return ;
    }
    // Confusion: on a failed check the combatant hits itself and the move
    // is not used. The self-hit is a flat 40-power typeless physical blow
    // with no accuracy roll, no critical hit and no random modifier.
    let confused: bool = match repo_read(repo, user).confusion {
        Some(_) => true,
        None => false,
    };
    if confused {
        if rng.check_confusion_miss() {
            let level = repo_read(repo, user).level;
            let atk = repo_read(repo, user).effective_stat(Stat::Attack);
            let def = repo_read(repo, user).effective_stat(Stat::Defense);
            let amount = compute_damage(level as u64, 40, atk, def, false, 100, false, 4);
            let ghost repo0 = repo@;
            let p = repo_entry(repo, user);
            p.apply_damage(amount);
            proof {
                assert forall|i: int| 0 <= i < repo@.len() implies (#[trigger] repo@[i]).wf() by {
                    if i != user {
                        assert(repo@[i] == repo0[i]);
                    }
                }
                lemma_log_wf_repo_change(log@, repo0, repo@);
            }
            push_event(
                log,
                BattleEvent::Damage { target: user, amount, is_critical_hit: false },
                Ghost(repo@),
            );
            if repo_read(repo, user).current_hp == 0 {
                push_event(log, BattleEvent::Faint { target: user }, Ghost(repo@));
            }
            return ;
        }
    }
    // Pre-checks passed: the move is used.
    push_event(log, BattleEvent::UseMove { move_user: user }, Ghost(repo@));
    let m = dex_read(dex, action.move_index);
    let category = m.category;
    let accuracy = m.accuracy;
    let power = m.power;
    let mtype = m.move_type;
    let always_crits = m.always_crits;
    let hit_count = m.hit_count;
    let secondary = m.secondary;
    let user_stat_change = m.user_stat_change;
    proof {
        assert(dex@[action.move_index as int].wf());
    }
    // A status move applies its self-directed stage change and ends there.
    match category {
        MoveCategory::Status => {
            match user_stat_change {
                Some((stat, delta)) => {
                    apply_stage_change(repo, user, stat, delta, log);
                },
                None => {},
            }
            return ;
        },
        _ => {},
    }
    // Accuracy: the declared accuracy is requested exactly as given.
    if rng.check_miss(accuracy as u64) {
        push_event(log, BattleEvent::Miss(user), Ghost(repo@));
        return ;
    }
    // Hit count.
    let hits: u64 = match hit_count {
        HitCount::Single => 1,
        HitCount::Uniform(lo, hi) => rng.check_uniform_multi_hit(lo as u64, hi as u64),
        HitCount::Custom(lo, hi) => {
            let d = rng.check_custom_multi_hit(lo as i64, hi as i64);
            if d < 1 {
                1
            } else {
                d as u64
            }
        },
    };
    // Per-hit damage. The stats, bonuses and effectiveness are fixed when
    // the action starts; only the random modifier varies per hit.
    let level = repo_read(repo, user).level;
    let atk = match category {
        MoveCategory::Special => repo_read(repo, user).effective_stat(Stat::SpecialAttack),
        _ => repo_read(repo, user).effective_stat(Stat::Attack),
    };
    let def = match category {
        MoveCategory::Special => repo_read(repo, target).effective_stat(Stat::SpecialDefense),
        _ => repo_read(repo, target).effective_stat(Stat::Defense),
    };
    let user_species = repo_read(repo, user);
    let stab = has_stab(mtype, user_species.species.first_type, user_species.species.second_type);
    let target_species = repo_read(repo, target);
    let eff4 = type_eff4(
        mtype,
        target_species.species.first_type,
        target_species.species.second_type,
    );
    let mut h: u64 = 0;
    while h < hits
        invariant
            user == action.user,
            target == action.target,
            user < repo@.len(),
            target < repo@.len(),
            log@.len() > old(log)@.len(),
            accuracy == dex@[action.move_index as int].accuracy,
            secondary == dex@[action.move_index as int].secondary,
            rng.last_miss_request() == Some(accuracy as u64),
            rng.last_secondary_request() == old(rng).last_secondary_request(),
            forall|i: int| 0 <= i < repo@.len() ==> (#[trigger] repo@[i]).wf(),
            spec_log_wf(log@, repo@),
            repo@.len() == old(repo)@.len(),
            forall|k: int|
                0 <= k < old(repo)@.len() && old(repo)@[k].current_hp == 0 ==> repo@[k].current_hp
                    == 0,
            1 <= level <= 100,
            power <= 1000,
            1 <= atk <= 0x3FFFC,
            1 <= def <= 0x3FFFC,
            eff4 <= 16,
            spec_extends(log@, old(log)@),
            spec_acts_freely(old(repo)@[action.user as int]) ==> log@.len() > old(log)@.len()
                && log@[old(log)@.len() as int] == (BattleEvent::UseMove { move_user: action.user }),
            spec_acts_freely(old(repo)@[action.user as int]) ==> forall|i: int|
                old(log)@.len() <= i < log@.len() ==> spec_damage_event_of(
                    #[trigger] log@[i],
                    old(repo)@[action.user as int],
                    old(repo)@[action.target as int],
                    dex@[action.move_index as int],
                    action.target,
                ),
            spec_acts_freely(old(repo)@[action.user as int]) ==> atk == (
            if dex@[action.move_index as int].category is Special {
                old(repo)@[action.user as int].spec_effective_stat(Stat::SpecialAttack)
            } else {
                old(repo)@[action.user as int].spec_effective_stat(Stat::Attack)
            }) && def == (if dex@[action.move_index as int].category is Special {
                old(repo)@[action.target as int].spec_effective_stat(Stat::SpecialDefense)
            } else {
                old(repo)@[action.target as int].spec_effective_stat(Stat::Defense)
            }),
            spec_acts_freely(old(repo)@[action.user as int]) ==> level == old(repo)@[
                action.user as int
            ].level && power == dex@[action.move_index as int].power && always_crits == dex@[
                action.move_index as int
            ].always_crits && stab == spec_has_stab(
                dex@[action.move_index as int].move_type,
                old(repo)@[action.user as int].species.first_type,
                old(repo)@[action.user as int].species.second_type,
            ) && eff4 == spec_type_eff4(
                dex@[action.move_index as int].move_type,
                old(repo)@[action.target as int].species.first_type,
                old(repo)@[action.target as int].species.second_type,
            ),
        decreases hits - h,
    {
        let ghost attacker = old(repo)@[action.user as int];
        let ghost defender = old(repo)@[action.target as int];
        let ghost chosen = dex@[action.move_index as int];
        if repo_read(repo, target).current_hp == 0 {
            break ;
        }
        let modifier = rng.get_damage_modifier();
        let amount = compute_damage(
            level as u64,
            power as u64,
            atk,
            def,
            always_crits,
            modifier,
            stab,
            eff4,
        );
        let ghost repo0 = repo@;
        let p = repo_entry(repo, target);
        p.apply_damage(amount);
        proof {
            assert forall|i: int| 0 <= i < repo@.len() implies (#[trigger] repo@[i]).wf() by {
                if i != target {
                    assert(repo@[i] == repo0[i]);
                }
            }
            lemma_log_wf_repo_change(log@, repo0, repo@);
        }
        let ghost log_pre = log@;
        push_event(
            log,
            BattleEvent::Damage { target, amount, is_critical_hit: always_crits },
            Ghost(repo@),
        );
        proof {
            if spec_acts_freely(attacker) {
                assert(85 <= modifier as int <= 100);
                assert(amount == spec_hit_amount(attacker, defender, chosen, modifier as int));
                assert forall|i: int|
                    old(log)@.len() <= i < log@.len() implies spec_damage_event_of(
                    #[trigger] log@[i],
                    attacker,
                    defender,
                    chosen,
                    action.target,
                ) by {
                    if i < log_pre.len() {
                        assert(log@[i] == log_pre[i]);
                        assert(spec_damage_event_of(log_pre[i], attacker, defender, chosen, action.target));
                    } else {
                        assert(log@[i] == (BattleEvent::Damage {
                            target,
                            amount,
                            is_critical_hit: always_crits,
                        }));
                    }
                }
            }
        }
        if repo_read(repo, target).current_hp == 0 {
            let ghost log_mid = log@;
            push_event(log, BattleEvent::Faint { target }, Ghost(repo@));
            proof {
                if spec_acts_freely(attacker) {
                    assert forall|i: int|
                        old(log)@.len() <= i < log@.len() implies spec_damage_event_of(
                        #[trigger] log@[i],
                        attacker,
                        defender,
                        chosen,
                        action.target,
                    ) by {
                        if i < log_mid.len() {
                            assert(log@[i] == log_mid[i]);
                            assert(spec_damage_event_of(log_mid[i], attacker, defender, chosen, action.target));
                        } else {
                            assert(log@[i] == (BattleEvent::Faint { target }));
                        }
                    }
                }
            }
            break ;
        }
        h = h + 1;
    }
    // Secondary effect, only against a target still standing.
    if repo_read(repo, target).current_hp > 0 {
        match secondary {
            Some(sec) => {
                if rng.check_secondary_effect(sec.chance as u64) {
                    match sec.kind {
                        SecondaryEffectKind::AddFlag(Flag::Flinch) => {
                            let ghost repo0 = repo@;
                            let p = repo_entry(repo, target);
                            p.add_volatile_flag(Flag::Flinch);
                            proof {
                                assert forall|i: int|
                                    0 <= i < repo@.len() implies (#[trigger] repo@[i]).wf() by {
                                    if i != target {
                                        assert(repo@[i] == repo0[i]);
                                    }
                                }
                                lemma_log_wf_repo_change(log@, repo0, repo@);
                            }
                            push_event(
                                log,
                                BattleEvent::VolatileStatusCondition {
                                    target,
                                    added_flag: Flag::Flinch,
                                },
                                Ghost(repo@),
                            );
                        },
                        SecondaryEffectKind::AddFlag(Flag::Confusion) => {
                            let already: bool = match repo_read(repo, target).confusion {
                                Some(_) => true,
                                None => false,
                            };
                            if !already {
                                let duration = rng.get_confusion_duration();
                                let ghost repo0 = repo@;
                                let p = repo_entry(repo, target);
                                p.set_confusion(duration);
                                proof {
                                    assert forall|i: int|
                                        0 <= i < repo@.len() implies (#[trigger] repo@[i]).wf() by {
                                        if i != target {
                                            assert(repo@[i] == repo0[i]);
                                        }
                                    }
                                    lemma_log_wf_repo_change(log@, repo0, repo@);
                                }
                                push_event(
                                    log,
                                    BattleEvent::VolatileStatusCondition {
                                        target,
                                        added_flag: Flag::Confusion,
                                    },
                                    Ghost(repo@),
                                );
                            }
                        },
                        SecondaryEffectKind::ApplyStatus(status) => {
                            let occupied: bool = match repo_read(repo, target).non_volatile {
                                Some(_) => true,
                                None => false,
                            };
                            if !occupied {
                                let ghost repo0 = repo@;
                                let p = repo_entry(repo, target);
                                p.set_non_volatile_status(status);
                                proof {
                                    assert forall|i: int|
                                        0 <= i < repo@.len() implies (#[trigger] repo@[i]).wf() by {
                                        if i != target {
                                            assert(repo@[i] == repo0[i]);
                                        }
                                    }
                                    lemma_log_wf_repo_change(log@, repo0, repo@);
                                }
                                push_event(
                                    log,
                                    BattleEvent::NonVolatileStatusApplied { target, status },
                                    Ghost(repo@),
                                );
                            }
                        },
                        SecondaryEffectKind::StatChange(stat, delta) => {
                            apply_stage_change(repo, target, stat, delta, log);
                        },
                    }
                }
            },
            None => {},
        }
    }
}

/// Moves one combatant's stat stage by `delta`, clamped to the legal range,
/// and emits the matching event.
fn apply_stage_change(
    repo: &mut Vec<Pokemon>,
    id: usize,
    stat: Stat,
    delta: i8,
    log: &mut Vec<BattleEvent>,
)
    requires
        id < old(repo)@.len(),
        -6 <= delta <= 6,
        forall|i: int| 0 <= i < old(repo)@.len() ==> (#[trigger] old(repo)@[i]).wf(),
        spec_log_wf(old(log)@, old(repo)@),
    ensures
        forall|i: int| 0 <= i < final(repo)@.len() ==> (#[trigger] final(repo)@[i]).wf(),
        spec_log_wf(final(log)@, final(repo)@),
        final(repo)@.len() == old(repo)@.len(),
        forall|k: int|
            0 <= k < old(repo)@.len() ==> final(repo)@[k].current_hp == old(repo)@[k].current_hp,
        final(log)@ == old(log)@.push(BattleEvent::StatStageChange { target: id, stat, delta }),
        spec_extends(final(log)@, old(log)@),
{
    let ghost repo0 = repo@;
    let p = repo_entry(repo, id);
    p.change_stat_stage(stat, delta);
    proof {
        assert forall|i: int| 0 <= i < repo@.len() implies (#[trigger] repo@[i]).wf() by {
            if i != id {
                assert(repo@[i] == repo0[i]);
            }
        }
        lemma_log_wf_repo_change(log@, repo0, repo@);
    }
    push_event(log, BattleEvent::StatStageChange { target: id, stat, delta }, Ghost(repo@));
}

/// End-of-turn housekeeping: flinches lapse, confusion counts down and
/// expires with an event. Nothing here changes anyone's health; the
/// double-faint condition this phase checks for is health-derived and is
/// served by `BattleBackend::is_double_faint`.
fn end_of_turn(repo: &mut Vec<Pokemon>, log: &mut Vec<BattleEvent>)
    requires
        forall|i: int| 0 <= i < old(repo)@.len() ==> (#[trigger] old(repo)@[i]).wf(),
        spec_log_wf(old(log)@, old(repo)@),
    ensures
        forall|i: int| 0 <= i < final(repo)@.len() ==> (#[trigger] final(repo)@[i]).wf(),
        spec_log_wf(final(log)@, final(repo)@),
        final(repo)@.len() == old(repo)@.len(),
        forall|k: int|
            0 <= k < old(repo)@.len() ==> final(repo)@[k].current_hp == old(repo)@[k].current_hp,
        spec_extends(final(log)@, old(log)@),
{
    let mut id: usize = 0;
    let n = repo.len();
    while id < n
        invariant
            n == repo@.len(),
            forall|i: int| 0 <= i < repo@.len() ==> (#[trigger] repo@[i]).wf(),
            spec_log_wf(log@, repo@),
            repo@.len() == old(repo)@.len(),
            forall|k: int|
                0 <= k < old(repo)@.len() ==> repo@[k].current_hp == old(repo)@[k].current_hp,
            spec_extends(log@, old(log)@),
        decreases n - id,
    {
        let ghost repo0 = repo@;
        let p = repo_entry(repo, id);
        p.remove_volatile_flag(Flag::Flinch);
        proof {
            assert forall|i: int| 0 <= i < repo@.len() implies (#[trigger] repo@[i]).wf() by {
                if i != id {
                    assert(repo@[i] == repo0[i]);
                }
            }
            lemma_log_wf_repo_change(log@, repo0, repo@);
        }
        let remaining: Option<u64> = repo_read(repo, id).confusion;
        match remaining {
            Some(turns) => {
                if turns <= 1 {
                    let ghost repo1 = repo@;
                    let q = repo_entry(repo, id);
                    q.remove_volatile_flag(Flag::Confusion);
                    proof {
                        assert forall|i: int|
                            0 <= i < repo@.len() implies (#[trigger] repo@[i]).wf() by {
                            if i != id {
                                assert(repo@[i] == repo1[i]);
                            }
                        }
                        lemma_log_wf_repo_change(log@, repo1, repo@);
                    }
                    push_event(
                        log,
                        BattleEvent::ConditionExpired { target: id, flag: Flag::Confusion },
                        Ghost(repo@),
                    );
                } else {
                    let ghost repo1 = repo@;
                    let q = repo_entry(repo, id);
                    q.set_confusion(turns - 1);
                    proof {
                        assert forall|i: int|
                            0 <= i < repo@.len() implies (#[trigger] repo@[i]).wf() by {
                            if i != id {
                                assert(repo@[i] == repo1[i]);
                            }
                        }
                        lemma_log_wf_repo_change(log@, repo1, repo@);
                    }
                }
            },
            None => {},
        }
        id = id + 1;
    }
}

} // verus!
