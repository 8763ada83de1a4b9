//! Move data: typing, categories, hit-count tables, secondary effects and the
//! type-effectiveness chart.

use vstd::prelude::*;

use crate::pokemon::{Flag, NonVolatileStatus, Stat};

verus! {

/// An elemental type of a species or a move.
#[derive(Clone, Copy, Debug, PartialEq, Eq, Structural, Hash)]
pub enum PokemonType {
    Normal,
    Fighting,
    Flying,
    Poison,
    Ground,
    Rock,
    Bug,
    Specter,
    Fire,
    Water,
    Grass,
    Electric,
    Psychic,
    Ice,
    Dragon,
}

/// Whether a move deals contact-style damage, projectile-style damage, or no
/// direct damage at all.
#[derive(Clone, Copy, Debug, PartialEq, Eq, Structural, Hash)]
pub enum MoveCategory {
    Physical,
    Special,
    Status,
}

/// How many times a damaging move strikes.
#[derive(Clone, Copy, Debug, PartialEq, Eq, Structural)]
pub enum HitCount {
    /// The move strikes once.
    Single,
    /// The move strikes a number of times drawn uniformly from the inclusive
    /// range.
    Uniform(u8, u8),
    /// The move strikes per a custom table encoded as a signed inclusive
    /// range; draws of less than one strike mean a single strike.
    Custom(i8, i8),
}

/// What a triggered secondary effect does to the target.
#[derive(Clone, Copy, Debug, PartialEq, Eq, Structural)]
pub enum SecondaryEffectKind {
    /// Adds a volatile flag. A confusion additionally draws its duration.
    AddFlag(Flag),
    /// Applies a non-volatile status if the target holds none.
    ApplyStatus(NonVolatileStatus),
    /// Moves one of the target's stat stages by the given delta.
    StatChange(Stat, i8),
}

/// A chance-gated consequence of a move beyond its direct damage.
#[derive(Clone, Copy, Debug, PartialEq, Eq, Structural)]
pub struct SecondaryEffect {
    /// Trigger chance as an integer percentage in `0 ..= 100`.
    pub chance: u8,
    pub kind: SecondaryEffectKind,
}

/// The static description of a move, as supplied by the move table the
/// backend is constructed with.
#[derive(Clone, Debug)]
pub struct MoveData {
    pub name: String,
    pub move_type: PokemonType,
    pub category: MoveCategory,
    /// Base power; zero for moves that deal no direct damage.
    pub power: u16,
    /// Accuracy as an integer percentage in `0 ..= 100`.
    pub accuracy: u8,
    /// Priority tier: higher tiers act first, before speed is consulted.
    pub priority: i8,
    pub hit_count: HitCount,
    /// Whether the move always lands a critical hit; the critical-hit rule is
    /// deterministic.
    pub always_crits: bool,
    pub secondary: Option<SecondaryEffect>,
    /// For status moves: the stage change the user applies to itself.
    pub user_stat_change: Option<(Stat, i8)>,
}

impl MoveData {
    pub open spec fn wf(self) -> bool {
        &&& self.power <= 1000
        &&& self.accuracy <= 100
        &&& -7 <= self.priority <= 7
        &&& match self.hit_count {
            HitCount::Single => true,
            HitCount::Uniform(lo, hi) => 1 <= lo <= hi <= 10,
            HitCount::Custom(lo, hi) => lo <= hi && hi <= 10,
        }
        &&& match self.secondary {
            Some(sec) => sec.chance <= 100 && match sec.kind {
                SecondaryEffectKind::StatChange(_, delta) => -6 <= delta <= 6 && delta != 0,
                _ => true,
            },
            None => true,
        }
        &&& match self.user_stat_change {
            Some((_, delta)) => -6 <= delta <= 6 && delta != 0,
            None => true,
        }
    }
}

/// Effectiveness of an attacking type against one defending type, in halves:
/// 0 is immunity, 1 is resistance, 2 is neutral, 4 is weakness.
pub open spec fn spec_type_eff2(attack: PokemonType, defend: PokemonType) -> u64 {
    match attack {
        PokemonType::Normal => match defend {
            PokemonType::Rock => 1u64,
            PokemonType::Specter => 0u64,
            _ => 2u64,
        },
        PokemonType::Fighting => match defend {
            PokemonType::Normal => 4u64,
            PokemonType::Rock => 4u64,
            PokemonType::Ice => 4u64,
            PokemonType::Flying => 1u64,
            PokemonType::Poison => 1u64,
            PokemonType::Bug => 1u64,
            PokemonType::Psychic => 1u64,
            PokemonType::Specter => 0u64,
            _ => 2u64,
        },
        PokemonType::Flying => match defend {
            PokemonType::Fighting => 4u64,
            PokemonType::Bug => 4u64,
            PokemonType::Grass => 4u64,
            PokemonType::Rock => 1u64,
            PokemonType::Electric => 1u64,
            _ => 2u64,
        },
        PokemonType::Poison => match defend {
            PokemonType::Bug => 4u64,
            PokemonType::Grass => 4u64,
            PokemonType::Poison => 1u64,
            PokemonType::Ground => 1u64,
            PokemonType::Rock => 1u64,
            PokemonType::Specter => 1u64,
            _ => 2u64,
        },
        PokemonType::Ground => match defend {
            PokemonType::Poison => 4u64,
            PokemonType::Rock => 4u64,
            PokemonType::Fire => 4u64,
            PokemonType::Electric => 4u64,
            PokemonType::Bug => 1u64,
            PokemonType::Grass => 1u64,
            PokemonType::Flying => 0u64,
            _ => 2u64,
        },
        PokemonType::Rock => match defend {
            PokemonType::Flying => 4u64,
            PokemonType::Bug => 4u64,
            PokemonType::Fire => 4u64,
            PokemonType::Ice => 4u64,
            PokemonType::Fighting => 1u64,
            PokemonType::Ground => 1u64,
            _ => 2u64,
        },
        PokemonType::Bug => match defend {
            PokemonType::Poison => 4u64,
            PokemonType::Grass => 4u64,
            PokemonType::Psychic => 4u64,
            PokemonType::Fighting => 1u64,
            PokemonType::Flying => 1u64,
            PokemonType::Specter => 1u64,
            PokemonType::Fire => 1u64,
            _ => 2u64,
        },
        PokemonType::Specter => match defend {
            PokemonType::Specter => 4u64,
            PokemonType::Psychic => 4u64,
            PokemonType::Normal => 0u64,
            _ => 2u64,
        },
        PokemonType::Fire => match defend {
            PokemonType::Bug => 4u64,
            PokemonType::Grass => 4u64,
            PokemonType::Ice => 4u64,
            PokemonType::Rock => 1u64,
            PokemonType::Fire => 1u64,
            PokemonType::Water => 1u64,
            PokemonType::Dragon => 1u64,
            _ => 2u64,
        },
        PokemonType::Water => match defend {
            PokemonType::Ground => 4u64,
            PokemonType::Rock => 4u64,
            PokemonType::Fire => 4u64,
            PokemonType::Water => 1u64,
            PokemonType::Grass => 1u64,
            PokemonType::Dragon => 1u64,
            _ => 2u64,
        },
        PokemonType::Grass => match defend {
            PokemonType::Ground => 4u64,
            PokemonType::Rock => 4u64,
            PokemonType::Water => 4u64,
            PokemonType::Flying => 1u64,
            PokemonType::Poison => 1u64,
            PokemonType::Bug => 1u64,
            PokemonType::Fire => 1u64,
            PokemonType::Grass => 1u64,
            PokemonType::Dragon => 1u64,
            _ => 2u64,
        },
        PokemonType::Electric => match defend {
            PokemonType::Flying => 4u64,
            PokemonType::Water => 4u64,
            PokemonType::Grass => 1u64,
            PokemonType::Electric => 1u64,
            PokemonType::Dragon => 1u64,
            PokemonType::Ground => 0u64,
            _ => 2u64,
        },
        PokemonType::Psychic => match defend {
            PokemonType::Fighting => 4u64,
            PokemonType::Poison => 4u64,
            PokemonType::Psychic => 1u64,
            _ => 2u64,
        },
        PokemonType::Ice => match defend {
            PokemonType::Flying => 4u64,
            PokemonType::Ground => 4u64,
            PokemonType::Grass => 4u64,
            PokemonType::Dragon => 4u64,
            PokemonType::Water => 1u64,
            PokemonType::Ice => 1u64,
            PokemonType::Fire => 1u64,
            _ => 2u64,
        },
        PokemonType::Dragon => match defend {
            PokemonType::Dragon => 4u64,
            _ => 2u64,
        },
    }
}

/// Combined effectiveness of an attacking type against a possibly dual-typed
/// defender, in quarters: 4 is neutral, 0 is immunity, 16 is a double
/// weakness.
pub open spec fn spec_type_eff4(
    attack: PokemonType,
    first: PokemonType,
    second: Option<PokemonType>,
) -> int {
    match second {
        Some(t2) => spec_type_eff2(attack, first) * spec_type_eff2(attack, t2),
        None => spec_type_eff2(attack, first) * 2,
    }
}

/// Looks up one row of the type chart.
pub fn type_eff2(attack: PokemonType, defend: PokemonType) -> (r: u64)
    ensures
        r == spec_type_eff2(attack, defend),
        r <= 4,
{
    match attack {
        PokemonType::Normal => match defend {
            PokemonType::Rock => 1,
            PokemonType::Specter => 0,
            _ => 2,
        },
        PokemonType::Fighting => match defend {
            PokemonType::Normal => 4,
            PokemonType::Rock => 4,
            PokemonType::Ice => 4,
            PokemonType::Flying => 1,
            PokemonType::Poison => 1,
            PokemonType::Bug => 1,
            PokemonType::Psychic => 1,
            PokemonType::Specter => 0,
            _ => 2,
        },
        PokemonType::Flying => match defend {
            PokemonType::Fighting => 4,
            PokemonType::Bug => 4,
            PokemonType::Grass => 4,
            PokemonType::Rock => 1,
            PokemonType::Electric => 1,
            _ => 2,
        },
        PokemonType::Poison => match defend {
            PokemonType::Bug => 4,
            PokemonType::Grass => 4,
            PokemonType::Poison => 1,
            PokemonType::Ground => 1,
            PokemonType::Rock => 1,
            PokemonType::Specter => 1,
            _ => 2,
        },
        PokemonType::Ground => match defend {
            PokemonType::Poison => 4,
            PokemonType::Rock => 4,
            PokemonType::Fire => 4,
            PokemonType::Electric => 4,
            PokemonType::Bug => 1,
            PokemonType::Grass => 1,
            PokemonType::Flying => 0,
            _ => 2,
        },
        PokemonType::Rock => match defend {
            PokemonType::Flying => 4,
            PokemonType::Bug => 4,
            PokemonType::Fire => 4,
            PokemonType::Ice => 4,
            PokemonType::Fighting => 1,
            PokemonType::Ground => 1,
            _ => 2,
        },
        PokemonType::Bug => match defend {
            PokemonType::Poison => 4,
            PokemonType::Grass => 4,
            PokemonType::Psychic => 4,
            PokemonType::Fighting => 1,
            PokemonType::Flying => 1,
            PokemonType::Specter => 1,
            PokemonType::Fire => 1,
            _ => 2,
        },
        PokemonType::Specter => match defend {
            PokemonType::Specter => 4,
            PokemonType::Psychic => 4,
            PokemonType::Normal => 0,
            _ => 2,
        },
        PokemonType::Fire => match defend {
            PokemonType::Bug => 4,
            PokemonType::Grass => 4,
            PokemonType::Ice => 4,
            PokemonType::Rock => 1,
            PokemonType::Fire => 1,
            PokemonType::Water => 1,
            PokemonType::Dragon => 1,
            _ => 2,
        },
        PokemonType::Water => match defend {
            PokemonType::Ground => 4,
            PokemonType::Rock => 4,
            PokemonType::Fire => 4,
            PokemonType::Water => 1,
            PokemonType::Grass => 1,
            PokemonType::Dragon => 1,
            _ => 2,
        },
        PokemonType::Grass => match defend {
            PokemonType::Ground => 4,
            PokemonType::Rock => 4,
            PokemonType::Water => 4,
            PokemonType::Flying => 1,
            PokemonType::Poison => 1,
            PokemonType::Bug => 1,
            PokemonType::Fire => 1,
            PokemonType::Grass => 1,
            PokemonType::Dragon => 1,
            _ => 2,
        },
        PokemonType::Electric => match defend {
            PokemonType::Flying => 4,
            PokemonType::Water => 4,
            PokemonType::Grass => 1,
            PokemonType::Electric => 1,
            PokemonType::Dragon => 1,
            PokemonType::Ground => 0,
            _ => 2,
        },
        PokemonType::Psychic => match defend {
            PokemonType::Fighting => 4,
            PokemonType::Poison => 4,
            PokemonType::Psychic => 1,
            _ => 2,
        },
        PokemonType::Ice => match defend {
            PokemonType::Flying => 4,
            PokemonType::Ground => 4,
            PokemonType::Grass => 4,
            PokemonType::Dragon => 4,
            PokemonType::Water => 1,
            PokemonType::Ice => 1,
            PokemonType::Fire => 1,
            _ => 2,
        },
        PokemonType::Dragon => match defend {
            PokemonType::Dragon => 4,
            _ => 2,
        },
    }
}

/// Combined effectiveness against a possibly dual-typed defender, in
/// quarters.
pub fn type_eff4(attack: PokemonType, first: PokemonType, second: Option<PokemonType>) -> (r: u64)
    ensures
        r == spec_type_eff4(attack, first, second),
        r <= 16,
{
    match second {
        Some(t2) => type_eff2(attack, first) * type_eff2(attack, t2),
        None => type_eff2(attack, first) * 2,
    }
}

/// Whether a move of the given type gains the same-type attack bonus for a
/// user with the given typing.
pub open spec fn spec_has_stab(
    move_type: PokemonType,
    first: PokemonType,
    second: Option<PokemonType>,
) -> bool {
    move_type == first || second == Some(move_type)
}

pub fn has_stab(move_type: PokemonType, first: PokemonType, second: Option<PokemonType>) -> (r:
    bool)
    ensures
        r == spec_has_stab(move_type, first, second),
{
    if move_type == first {
        true
    } else {
        match second {
            Some(t2) => move_type == t2,
            None => false,
        }
    }
}

} // verus!
