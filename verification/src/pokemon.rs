//! Combatant state: species records, natures, individual values, computed
//! battle stats, stat stages and status conditions.

use vstd::prelude::*;

use crate::moves::PokemonType;

verus! {

/// The five battle-relevant stats a stage modifier or nature can act on.
#[derive(Clone, Copy, Debug, PartialEq, Eq, Structural, Hash)]
pub enum Stat {
    Attack,
    Defense,
    SpecialAttack,
    SpecialDefense,
    Speed,
}

/// A volatile status flag: cleared when the combatant switches out.
#[derive(Clone, Copy, Debug, PartialEq, Eq, Structural, Hash)]
pub enum Flag {
    Flinch,
    Confusion,
}

/// A non-volatile status condition. A combatant holds at most one at a time
/// and keeps it when switching out.
#[derive(Clone, Copy, Debug, PartialEq, Eq, Structural, Hash)]
pub enum NonVolatileStatus {
    Paralysis,
    Freeze,
}

/// A nature: boosts one stat by 10% and hinders another by 10%, or is neutral.
#[derive(Clone, Copy, Debug, PartialEq, Eq, Structural, Hash)]
pub enum Nature {
    Hardy,
    Serious,
    Adamant,
    Bold,
    Modest,
    Calm,
    Timid,
    Jolly,
}

/// The stat a nature boosts by 10%, if any.
pub open spec fn spec_nature_boosts(nature: Nature) -> Option<Stat> {
    match nature {
        Nature::Hardy => None,
        Nature::Serious => None,
        Nature::Adamant => Some(Stat::Attack),
        Nature::Bold => Some(Stat::Defense),
        Nature::Modest => Some(Stat::SpecialAttack),
        Nature::Calm => Some(Stat::SpecialDefense),
        Nature::Timid => Some(Stat::Speed),
        Nature::Jolly => Some(Stat::Speed),
    }
}

/// The stat a nature hinders by 10%, if any.
pub open spec fn spec_nature_hinders(nature: Nature) -> Option<Stat> {
    match nature {
        Nature::Hardy => None,
        Nature::Serious => None,
        Nature::Adamant => Some(Stat::SpecialAttack),
        Nature::Bold => Some(Stat::Attack),
        Nature::Modest => Some(Stat::Attack),
        Nature::Calm => Some(Stat::Attack),
        Nature::Timid => Some(Stat::Attack),
        Nature::Jolly => Some(Stat::SpecialAttack),
    }
}

/// Static data of a species, as resolved by the roster system.
#[derive(Clone, Debug)]
pub struct SpeciesData {
    pub national_number: usize,
    pub name: String,
    pub first_type: PokemonType,
    pub second_type: Option<PokemonType>,
    pub base_hp: u16,
    pub base_attack: u16,
    pub base_defense: u16,
    pub base_special_attack: u16,
    pub base_special_defense: u16,
    pub base_speed: u16,
}

impl SpeciesData {
    /// Base stats lie in the range a species table can hold.
    pub open spec fn wf(self) -> bool {
        &&& 1 <= self.base_hp <= 255
        &&& 1 <= self.base_attack <= 255
        &&& 1 <= self.base_defense <= 255
        &&& 1 <= self.base_special_attack <= 255
        &&& 1 <= self.base_special_defense <= 255
        &&& 1 <= self.base_speed <= 255
    }
}

/// Individual values: per-stat inborn bonuses in `0 ..= 31`.
#[derive(Clone, Copy, Debug, PartialEq, Eq, Structural)]
pub struct Ivs {
    pub hp: u8,
    pub attack: u8,
    pub defense: u8,
    pub special_attack: u8,
    pub special_defense: u8,
    pub speed: u8,
}

impl Ivs {
    pub open spec fn wf(self) -> bool {
        &&& self.hp <= 31
        &&& self.attack <= 31
        &&& self.defense <= 31
        &&& self.special_attack <= 31
        &&& self.special_defense <= 31
        &&& self.speed <= 31
    }

    /// All individual values at their maximum of 31.
    pub fn max() -> (r: Ivs)
        ensures
            r.wf(),
            r == (Ivs {
                hp: 31u8,
                attack: 31u8,
                defense: 31u8,
                special_attack: 31u8,
                special_defense: 31u8,
                speed: 31u8,
            }),
    {
        Ivs { hp: 31, attack: 31, defense: 31, special_attack: 31, special_defense: 31, speed: 31 }
    }
}

/// Per-stat stage modifiers, each in `-6 ..= 6`.
#[derive(Clone, Copy, Debug, PartialEq, Eq, Structural)]
pub struct StatStages {
    pub attack: i8,
    pub defense: i8,
    pub special_attack: i8,
    pub special_defense: i8,
    pub speed: i8,
}

impl StatStages {
    pub open spec fn wf(self) -> bool {
        &&& -6 <= self.attack <= 6
        &&& -6 <= self.defense <= 6
        &&& -6 <= self.special_attack <= 6
        &&& -6 <= self.special_defense <= 6
        &&& -6 <= self.speed <= 6
    }

    pub open spec fn spec_get(self, stat: Stat) -> i8 {
        match stat {
            Stat::Attack => self.attack,
            Stat::Defense => self.defense,
            Stat::SpecialAttack => self.special_attack,
            Stat::SpecialDefense => self.special_defense,
            Stat::Speed => self.speed,
        }
    }

    /// The same stages with one stat's stage replaced.
    pub open spec fn spec_set(self, stat: Stat, v: i8) -> StatStages {
        match stat {
            Stat::Attack => StatStages { attack: v, ..self },
            Stat::Defense => StatStages { defense: v, ..self },
            Stat::SpecialAttack => StatStages { special_attack: v, ..self },
            Stat::SpecialDefense => StatStages { special_defense: v, ..self },
            Stat::Speed => StatStages { speed: v, ..self },
        }
    }

    /// All stages at zero.
    pub fn neutral() -> (r: StatStages)
        ensures
            r.wf(),
            r == (StatStages {
                attack: 0i8,
                defense: 0i8,
                special_attack: 0i8,
                special_defense: 0i8,
                speed: 0i8,
            }),
    {
        StatStages { attack: 0, defense: 0, special_attack: 0, special_defense: 0, speed: 0 }
    }
}

/// The raw value of a non-health stat at a given level:
/// `(2 * base + iv) * level / 100 + 5`.
pub open spec fn spec_raw_stat(base: int, iv: int, level: int) -> int {
    (2 * base + iv) * level / 100 + 5
}

/// The health stat at a given level: `(2 * base + iv) * level / 100 + level + 10`.
pub open spec fn spec_hp_stat(base: int, iv: int, level: int) -> int {
    (2 * base + iv) * level / 100 + level + 10
}

/// A raw stat after the nature modifier: a boosted stat gains 10%, a hindered
/// one loses 10%, both truncated.
pub open spec fn spec_nature_applied(value: int, nature: Nature, stat: Stat) -> int {
    if spec_nature_boosts(nature) == Some(stat) {
        value * 11 / 10
    } else if spec_nature_hinders(nature) == Some(stat) {
        value * 9 / 10
    } else {
        value
    }
}

/// The value of one fully computed stat for a species/level/nature/iv set.
pub open spec fn spec_stat_value(base: int, iv: int, level: int, nature: Nature, stat: Stat) -> int {
    spec_nature_applied(spec_raw_stat(base, iv, level), nature, stat)
}

/// A battling creature instance. Created from resolved roster data when a
/// battle is set up; mutated turn by turn by the resolution pipeline; a
/// fainted combatant stays as an inert record until switched out.
#[derive(Clone, Debug)]
pub struct Pokemon {
    pub species: SpeciesData,
    pub level: u8,
    pub max_hp: u64,
    pub current_hp: u64,
    pub attack: u64,
    pub defense: u64,
    pub special_attack: u64,
    pub special_defense: u64,
    pub speed: u64,
    /// Up to four known move names; empty slots are `None`.
    pub moves: Vec<Option<String>>,
    pub stat_stages: StatStages,
    pub flinched: bool,
    /// Remaining confusion turns, if confused.
    pub confusion: Option<u64>,
    pub non_volatile: Option<NonVolatileStatus>,
}

/// A stage sum clamped to the legal range `-6 ..= 6`.
pub open spec fn spec_clamp_stage(s: int) -> i8 {
    if s > 6 {
        6i8
    } else if s < -6 {
        -6i8
    } else {
        s as i8
    }
}

/// A stat value after its stage modifier: stage `s >= 0` multiplies by
/// `(2 + s) / 2`, stage `s < 0` by `2 / (2 - s)`, truncated but never below
/// one point.
pub open spec fn spec_staged_value(value: int, stage: int) -> int {
    if stage >= 0 {
        value * (2 + stage) / 2
    } else {
        let lowered = value * 2 / (2 - stage);
        if lowered < 1 {
            1
        } else {
            lowered
        }
    }
}

impl Pokemon {
    pub open spec fn wf(self) -> bool {
        &&& self.species.wf()
        &&& 1 <= self.level <= 100
        &&& 1 <= self.max_hp <= 0xFFFF
        &&& self.current_hp <= self.max_hp
        &&& 1 <= self.attack <= 0xFFFF
        &&& 1 <= self.defense <= 0xFFFF
        &&& 1 <= self.special_attack <= 0xFFFF
        &&& 1 <= self.special_defense <= 0xFFFF
        &&& 1 <= self.speed <= 0xFFFF
        &&& self.moves@.len() <= 4
        &&& self.stat_stages.wf()
        &&& match self.confusion {
            Some(n) => 1 <= n <= 4,
            None => true,
        }
    }

    /// Builds a combatant from resolved roster data, computing every stat
    /// from the species' bases, the individual values, the level and the
    /// nature. It enters battle at full health, with neutral stages and no
    /// status condition.
    pub fn new(
        species: SpeciesData,
        level: u8,
        nature: Nature,
        ivs: Ivs,
        moves: Vec<Option<String>>,
    ) -> (r: Pokemon)
        requires
            species.wf(),
            1 <= level <= 100,
            ivs.wf(),
            moves@.len() <= 4,
        ensures
            r.wf(),
            r.species == species,
            r.level == level,
            r.max_hp == spec_hp_stat(species.base_hp as int, ivs.hp as int, level as int),
            r.current_hp == r.max_hp,
            r.attack == spec_stat_value(
                species.base_attack as int,
                ivs.attack as int,
                level as int,
                nature,
                Stat::Attack,
            ),
            r.defense == spec_stat_value(
                species.base_defense as int,
                ivs.defense as int,
                level as int,
                nature,
                Stat::Defense,
            ),
            r.special_attack == spec_stat_value(
                species.base_special_attack as int,
                ivs.special_attack as int,
                level as int,
                nature,
                Stat::SpecialAttack,
            ),
            r.special_defense == spec_stat_value(
                species.base_special_defense as int,
                ivs.special_defense as int,
                level as int,
                nature,
                Stat::SpecialDefense,
            ),
            r.speed == spec_stat_value(
                species.base_speed as int,
                ivs.speed as int,
                level as int,
                nature,
                Stat::Speed,
            ),
            r.moves == moves,
            r.stat_stages == (StatStages {
                attack: 0i8,
                defense: 0i8,
                special_attack: 0i8,
                special_defense: 0i8,
                speed: 0i8,
            }),
            !r.flinched,
            (r.confusion is None),
            (r.non_volatile is None),
    {
        let max_hp = hp_stat(species.base_hp, ivs.hp, level);
        let attack = stat_value(species.base_attack, ivs.attack, level, nature, Stat::Attack);
        let defense = stat_value(species.base_defense, ivs.defense, level, nature, Stat::Defense);
        let special_attack = stat_value(
            species.base_special_attack,
            ivs.special_attack,
            level,
            nature,
            Stat::SpecialAttack,
        );
        let special_defense = stat_value(
            species.base_special_defense,
            ivs.special_defense,
            level,
            nature,
            Stat::SpecialDefense,
        );
        let speed = stat_value(species.base_speed, ivs.speed, level, nature, Stat::Speed);
        Pokemon {
            species,
            level,
            max_hp,
            current_hp: max_hp,
            attack,
            defense,
            special_attack,
            special_defense,
            speed,
            moves,
            stat_stages: StatStages::neutral(),
            flinched: false,
            confusion: None,
            non_volatile: None,
        }
    }

    pub open spec fn spec_is_fainted(self) -> bool {
        self.current_hp == 0
    }

    pub fn is_fainted(&self) -> (r: bool)
        ensures
            r == self.spec_is_fainted(),
    {
        self.current_hp == 0
    }

    /// Subtracts `amount` from the current health, clamped at zero.
    pub fn apply_damage(&mut self, amount: u64)
        ensures
            *final(self) == (Pokemon {
                current_hp: if amount > old(self).current_hp {
                    0u64
                } else {
                    (old(self).current_hp - amount) as u64
                },
                ..*old(self)
            }),
    {
        if amount > self.current_hp {
            self.current_hp = 0;
        } else {
            self.current_hp = self.current_hp - amount;
        }
    }

    /// Raises the flag. Confusion gains a single-turn duration here; the
    /// pipeline sets a rolled duration through `set_confusion` instead.
    pub fn add_volatile_flag(&mut self, flag: Flag)
        ensures
            (flag is Flinch) ==> *final(self) == (Pokemon { flinched: true, ..*old(self) }),
            (flag is Confusion) && (old(self).confusion is None) ==> *final(self) == (Pokemon {
                confusion: Some(1u64),
                ..*old(self)
            }),
            (flag is Confusion) && (old(self).confusion is Some) ==> *final(self) == *old(self),
    {
        match flag {
            Flag::Flinch => {
                self.flinched = true;
            },
            Flag::Confusion => {
                if self.confusion.is_none() {
                    self.confusion = Some(1);
                }
            },
        }
    }

    /// Clears the flag if present.
    pub fn remove_volatile_flag(&mut self, flag: Flag)
        ensures
            (flag is Flinch) ==> *final(self) == (Pokemon { flinched: false, ..*old(self) }),
            (flag is Confusion) ==> *final(self) == (Pokemon { confusion: None, ..*old(self) }),
    {
        match flag {
            Flag::Flinch => {
                self.flinched = false;
            },
            Flag::Confusion => {
                self.confusion = None;
            },
        }
    }

    /// Starts a confusion that lasts the given number of turns.
    pub fn set_confusion(&mut self, turns: u64)
        requires
            1 <= turns <= 4,
        ensures
            *final(self) == (Pokemon { confusion: Some(turns), ..*old(self) }),
    {
        self.confusion = Some(turns);
    }

    /// Applies a non-volatile status. A no-op when a status already occupies
    /// the single slot: only one non-volatile status may be held at a time.
    pub fn set_non_volatile_status(&mut self, status: NonVolatileStatus)
        ensures
            (old(self).non_volatile is None) ==> *final(self) == (Pokemon {
                non_volatile: Some(status),
                ..*old(self)
            }),
            (old(self).non_volatile is Some) ==> *final(self) == *old(self),
    {
        if self.non_volatile.is_none() {
            self.non_volatile = Some(status);
        }
    }

    /// Removes the non-volatile status, as when a frozen combatant thaws.
    pub fn cure_non_volatile_status(&mut self)
        ensures
            *final(self) == (Pokemon { non_volatile: None, ..*old(self) }),
    {
        self.non_volatile = None;
    }

    /// Clears every volatile condition, as happens on switching out.
    pub fn clear_volatile(&mut self)
        ensures
            *final(self) == (Pokemon { flinched: false, confusion: None, ..*old(self) }),
    {
        self.flinched = false;
        self.confusion = None;
    }

    /// Moves one stat stage by `delta`, clamping the result to `-6 ..= 6`.
    pub fn change_stat_stage(&mut self, stat: Stat, delta: i8)
        requires
            old(self).stat_stages.wf(),
            -6 <= delta <= 6,
        ensures
            *final(self) == (Pokemon {
                stat_stages: old(self).stat_stages.spec_set(
                    stat,
                    spec_clamp_stage(old(self).stat_stages.spec_get(stat) + delta),
                ),
                ..*old(self)
            }),
            final(self).stat_stages.wf(),
    {
        let current: i8 = match stat {
            Stat::Attack => self.stat_stages.attack,
            Stat::Defense => self.stat_stages.defense,
            Stat::SpecialAttack => self.stat_stages.special_attack,
            Stat::SpecialDefense => self.stat_stages.special_defense,
            Stat::Speed => self.stat_stages.speed,
        };
        let moved: i8 = current + delta;
        let clamped: i8 = if moved > 6 {
            6
        } else if moved < -6 {
            -6
        } else {
            moved
        };
        match stat {
            Stat::Attack => {
                self.stat_stages.attack = clamped;
            },
            Stat::Defense => {
                self.stat_stages.defense = clamped;
            },
            Stat::SpecialAttack => {
                self.stat_stages.special_attack = clamped;
            },
            Stat::SpecialDefense => {
                self.stat_stages.special_defense = clamped;
            },
            Stat::Speed => {
                self.stat_stages.speed = clamped;
            },
        }
    }

    /// The bare (unstaged) value backing a stat.
    pub open spec fn spec_bare_stat(self, stat: Stat) -> u64 {
        match stat {
            Stat::Attack => self.attack,
            Stat::Defense => self.defense,
            Stat::SpecialAttack => self.special_attack,
            Stat::SpecialDefense => self.special_defense,
            Stat::Speed => self.speed,
        }
    }

    /// A stat after its stage modifier.
    pub open spec fn spec_effective_stat(self, stat: Stat) -> int {
        spec_staged_value(self.spec_bare_stat(stat) as int, self.stat_stages.spec_get(stat) as int)
    }

    /// Computes a stat after its stage modifier.
    pub fn effective_stat(&self, stat: Stat) -> (r: u64)
        requires
            self.wf(),
        ensures
            r == self.spec_effective_stat(stat),
            1 <= r <= 0x3FFFC,
    {
        let value: u64 = match stat {
            Stat::Attack => self.attack,
            Stat::Defense => self.defense,
            Stat::SpecialAttack => self.special_attack,
            Stat::SpecialDefense => self.special_defense,
            Stat::Speed => self.speed,
        };
        let stage: i8 = match stat {
            Stat::Attack => self.stat_stages.attack,
            Stat::Defense => self.stat_stages.defense,
            Stat::SpecialAttack => self.stat_stages.special_attack,
            Stat::SpecialDefense => self.stat_stages.special_defense,
            Stat::Speed => self.stat_stages.speed,
        };
        staged_value(value, stage)
    }

    /// The effective speed used for turn ordering: the staged speed stat,
    /// halved while paralyzed.
    pub open spec fn spec_effective_speed(self) -> int {
        if self.non_volatile == Some(NonVolatileStatus::Paralysis) {
            self.spec_effective_stat(Stat::Speed) / 2
        } else {
            self.spec_effective_stat(Stat::Speed)
        }
    }

    pub fn effective_speed(&self) -> (r: u64)
        requires
            self.wf(),
        ensures
            r == self.spec_effective_speed(),
    {
        let speed = self.effective_stat(Stat::Speed);
        match self.non_volatile {
            Some(NonVolatileStatus::Paralysis) => speed / 2,
            _ => speed,
        }
    }
}

/// Computes `(2 * base + iv) * level / 100 + 5`.
fn raw_stat(base: u16, iv: u8, level: u8) -> (r: u64)
    requires
        base <= 255,
        iv <= 31,
        1 <= level <= 100,
    ensures
        r == spec_raw_stat(base as int, iv as int, level as int),
        5 <= r <= 546,
{
    let b: u64 = 2 * (base as u64) + (iv as u64);
    let l: u64 = level as u64;
    assert(b * l <= 541 * 100) by (nonlinear_arith)
        requires
            b <= 541,
            l <= 100,
    ;
    assert(b * l >= 0) by (nonlinear_arith)
        requires
            b >= 0,
            l >= 0,
    ;
    b * l / 100 + 5
}

/// Computes `(2 * base + iv) * level / 100 + level + 10`.
fn hp_stat(base: u16, iv: u8, level: u8) -> (r: u64)
    requires
        base <= 255,
        iv <= 31,
        1 <= level <= 100,
    ensures
        r == spec_hp_stat(base as int, iv as int, level as int),
        11 <= r <= 651,
{
    let b: u64 = 2 * (base as u64) + (iv as u64);
    let l: u64 = level as u64;
    assert(b * l <= 541 * 100) by (nonlinear_arith)
        requires
            b <= 541,
            l <= 100,
    ;
    assert(b * l >= 0) by (nonlinear_arith)
        requires
            b >= 0,
            l >= 0,
    ;
    b * l / 100 + l + 10
}

/// Computes one non-health stat with its nature modifier applied.
fn stat_value(base: u16, iv: u8, level: u8, nature: Nature, stat: Stat) -> (r: u64)
    requires
        base <= 255,
        iv <= 31,
        1 <= level <= 100,
    ensures
        r == spec_stat_value(base as int, iv as int, level as int, nature, stat),
        1 <= r <= 600,
{
    let raw = raw_stat(base, iv, level);
    let boosts: bool = match (nature_boosts(nature), stat) {
        (Some(Stat::Attack), Stat::Attack) => true,
        (Some(Stat::Defense), Stat::Defense) => true,
        (Some(Stat::SpecialAttack), Stat::SpecialAttack) => true,
        (Some(Stat::SpecialDefense), Stat::SpecialDefense) => true,
        (Some(Stat::Speed), Stat::Speed) => true,
        _ => false,
    };
    let hinders: bool = match (nature_hinders(nature), stat) {
        (Some(Stat::Attack), Stat::Attack) => true,
        (Some(Stat::Defense), Stat::Defense) => true,
        (Some(Stat::SpecialAttack), Stat::SpecialAttack) => true,
        (Some(Stat::SpecialDefense), Stat::SpecialDefense) => true,
        (Some(Stat::Speed), Stat::Speed) => true,
        _ => false,
    };
    if boosts {
        raw * 11 / 10
    } else if hinders {
        raw * 9 / 10
    } else {
        raw
    }
}

/// The stat the nature boosts, if any.
pub fn nature_boosts(nature: Nature) -> (r: Option<Stat>)
    ensures
        r == spec_nature_boosts(nature),
{
    match nature {
        Nature::Hardy => None,
        Nature::Serious => None,
        Nature::Adamant => Some(Stat::Attack),
        Nature::Bold => Some(Stat::Defense),
        Nature::Modest => Some(Stat::SpecialAttack),
        Nature::Calm => Some(Stat::SpecialDefense),
        Nature::Timid => Some(Stat::Speed),
        Nature::Jolly => Some(Stat::Speed),
    }
}

/// The stat the nature hinders, if any.
pub fn nature_hinders(nature: Nature) -> (r: Option<Stat>)
    ensures
        r == spec_nature_hinders(nature),
{
    match nature {
        Nature::Hardy => None,
        Nature::Serious => None,
        Nature::Adamant => Some(Stat::SpecialAttack),
        Nature::Bold => Some(Stat::Attack),
        Nature::Modest => Some(Stat::Attack),
        Nature::Calm => Some(Stat::Attack),
        Nature::Timid => Some(Stat::Attack),
        Nature::Jolly => Some(Stat::SpecialAttack),
    }
}

/// Computes a stat value after a stage modifier in `-6 ..= 6`.
fn staged_value(value: u64, stage: i8) -> (r: u64)
    requires
        1 <= value <= 0xFFFF,
        -6 <= stage <= 6,
    ensures
        r == spec_staged_value(value as int, stage as int),
        1 <= r <= 0x3FFFC,
{
    if stage >= 0 {
        let m: u64 = (2 + stage) as u64;
        assert(value * m <= 0xFFFF * 8) by (nonlinear_arith)
            requires
                value <= 0xFFFF,
                m <= 8,
        ;
        assert(value * m >= value * 2) by (nonlinear_arith)
            requires
                value >= 0,
                m >= 2,
        ;
        value * m / 2
    } else {
        let d: u64 = (2 - (stage as i64)) as u64;
        let doubled: u64 = value * 2;
        assert(doubled / d <= doubled) by (nonlinear_arith)
            requires
                doubled >= 0,
                d >= 1,
        ;
        assert(doubled / d >= 0) by (nonlinear_arith)
            requires
                doubled >= 0,
                d >= 1,
        ;
        let lowered = doubled / d;
        if lowered < 1 {
            1
        } else {
            lowered
        }
    }
}

} // verus!
