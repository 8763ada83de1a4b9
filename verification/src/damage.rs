//! The damage formula: deterministic given its inputs, so that identical
//! turns from identical state deal identical damage.

use vstd::prelude::*;

verus! {

/// The base damage before multipliers:
/// `((2 * level / 5 + 2) * power * attack / defense) / 50 + 2`, with every
/// division truncating.
pub open spec fn spec_base_damage(level: int, power: int, attack: int, defense: int) -> int {
    ((2 * level / 5 + 2) * power * attack / defense) / 50 + 2
}

/// The full damage of one hit: the base damage, doubled on a critical hit,
/// scaled by the random modifier percentage, then by the same-type bonus of
/// 3/2, then by the type effectiveness in quarters. Every step truncates.
pub open spec fn spec_damage(
    level: int,
    power: int,
    attack: int,
    defense: int,
    critical: bool,
    modifier: int,
    stab: bool,
    eff4: int,
) -> int {
    let base = spec_base_damage(level, power, attack, defense);
    let crit = if critical {
        base * 2
    } else {
        base
    };
    let modified = crit * modifier / 100;
    let boosted = if stab {
        modified * 3 / 2
    } else {
        modified
    };
    boosted * eff4 / 4
}

/// Computes one hit's damage. The result equals `spec_damage` on the same
/// inputs: the formula draws no randomness of its own, so with the modifier,
/// the critical flag and the stats fixed, the amount is fully determined.
pub fn compute_damage(
    level: u64,
    power: u64,
    attack: u64,
    defense: u64,
    critical: bool,
    modifier: u64,
    stab: bool,
    eff4: u64,
) -> (r: u64)
    requires
        1 <= level <= 100,
        power <= 1000,
        1 <= attack <= 0x3FFFC,
        1 <= defense <= 0x3FFFC,
        85 <= modifier <= 100,
        eff4 <= 16,
    ensures
        r == spec_damage(
            level as int,
            power as int,
            attack as int,
            defense as int,
            critical,
            modifier as int,
            stab,
            eff4 as int,
        ),
{
    let level_term: u64 = 2 * level / 5 + 2;
    assert(level_term * power <= 42 * 1000) by (nonlinear_arith)
        requires
            level_term <= 42,
            power <= 1000,
    ;
    let power_term: u64 = level_term * power;
    assert(power_term * attack <= 42000 * 262140) by (nonlinear_arith)
        requires
            power_term <= 42000,
            attack <= 262140,
    ;
    let attack_term: u64 = power_term * attack;
    assert(attack_term / defense <= attack_term) by (nonlinear_arith)
        requires
            attack_term >= 0,
            defense >= 1,
    ;
    let ratio: u64 = attack_term / defense;
    let base: u64 = ratio / 50 + 2;
    let crit: u64 = if critical {
        base * 2
    } else {
        base
    };
    assert(crit * modifier <= 440395204 * 100) by (nonlinear_arith)
        requires
            crit <= 440395204,
            modifier <= 100,
    ;
    let modified_term: u64 = crit * modifier;
    let modified: u64 = modified_term / 100;
    let boosted: u64 = if stab {
        modified * 3 / 2
    } else {
        modified
    };
    assert(boosted * eff4 <= 660592806 * 16) by (nonlinear_arith)
        requires
            boosted <= 660592806,
            eff4 <= 16,
    ;
    let eff_term: u64 = boosted * eff4;
    eff_term / 4
}

} // verus!
