//! The abstraction over every chance-based decision in a battle.
//!
//! The resolution pipeline never draws randomness itself: it goes through a
//! [`BattleRng`], chosen when the battle is constructed. Two variants exist:
//! [`StandardBattleRng`], backed by a live uniform generator, and
//! [`TestBattleRng`], a scripted double that returns pre-programmed outcomes
//! and records which probabilities were requested, so a test can assert not
//! only an outcome but that the pipeline asked for the right chance.

use vstd::prelude::*;

use rand::Rng;
use rand::seq::SliceRandom;

use crate::events::UsedMove;

verus! {

/// A source of every chance-based decision the resolution pipeline makes.
///
/// Each method records or bounds just enough for the pipeline's own
/// contracts: the two percentage checks always record the percentage they
/// were asked for, and every draw stays inside its inclusive range. Which
/// outcome comes back is left open, since a live generator promises nothing
/// more.
pub trait BattleRng: Sized {
    /// The accuracy most recently passed to `check_miss`.
    spec fn last_miss_request(&self) -> Option<u64>;

    /// The chance most recently passed to `check_secondary_effect`.
    spec fn last_secondary_request(&self) -> Option<u64>;

    /// Returns a new independent source with the same configuration,
    /// including any scripted schedule.
    fn duplicate(&self) -> (r: Self)
        ensures
            r == *self,
    ;

    /// Returns the final damage scaling factor as an integer percentage in
    /// `[85, 100]`.
    fn get_damage_modifier(&mut self) -> (r: u64)
        ensures
            85 <= r <= 100,
            final(self).last_miss_request() == old(self).last_miss_request(),
            final(self).last_secondary_request() == old(self).last_secondary_request(),
    ;

    /// Reorders a list of tied moves. The pipeline only ever hands this a
    /// subset whose priorities and effective speeds are all equal, so any
    /// permutation is a fair outcome.
    fn shuffle_moves(&mut self, moves: &mut Vec<UsedMove>)
        ensures
            final(moves)@.to_multiset() == old(moves)@.to_multiset(),
            final(self).last_miss_request() == old(self).last_miss_request(),
            final(self).last_secondary_request() == old(self).last_secondary_request(),
    ;

    /// Decides whether a move of the given accuracy misses, equivalent to
    /// drawing `r` uniformly from `1 ..= 100` and missing iff
    /// `r <= 100 - accuracy`. Always records the requested accuracy, exactly
    /// as given.
    fn check_miss(&mut self, accuracy: u64) -> (r: bool)
        requires
            accuracy <= 100,
        ensures
            final(self).last_miss_request() == Some(accuracy),
            final(self).last_secondary_request() == old(self).last_secondary_request(),
    ;

    /// Decides whether a secondary effect of the given chance triggers,
    /// equivalent to drawing `r` uniformly from `1 ..= 100` and triggering
    /// iff `r <= chance`. Always records the requested chance, exactly as
    /// given.
    fn check_secondary_effect(&mut self, chance: u64) -> (r: bool)
        requires
            chance <= 100,
        ensures
            final(self).last_secondary_request() == Some(chance),
            final(self).last_miss_request() == old(self).last_miss_request(),
    ;

    /// Draws the number of strikes of a flat-distribution multi-hit move,
    /// uniformly from the inclusive range.
    fn check_uniform_multi_hit(&mut self, lowest: u64, highest: u64) -> (r: u64)
        requires
            lowest <= highest,
            highest <= 0x7fff_ffff_ffff_ffff,
        ensures
            lowest <= r <= highest,
            final(self).last_miss_request() == old(self).last_miss_request(),
            final(self).last_secondary_request() == old(self).last_secondary_request(),
    ;

    /// Draws the entry of a custom hit-count table, uniformly from the
    /// signed inclusive range.
    fn check_custom_multi_hit(&mut self, lowest: i64, highest: i64) -> (r: i64)
        requires
            lowest <= highest,
        ensures
            lowest <= r <= highest,
            final(self).last_miss_request() == old(self).last_miss_request(),
            final(self).last_secondary_request() == old(self).last_secondary_request(),
    ;

    /// Draws how many turns a fresh confusion will last, in `[1, 4]`.
    fn get_confusion_duration(&mut self) -> (r: u64)
        ensures
            1 <= r <= 4,
            final(self).last_miss_request() == old(self).last_miss_request(),
            final(self).last_secondary_request() == old(self).last_secondary_request(),
    ;

    /// Decides whether a confused combatant hits itself (nominal 50%).
    fn check_confusion_miss(&mut self) -> (r: bool)
        ensures
            final(self).last_miss_request() == old(self).last_miss_request(),
            final(self).last_secondary_request() == old(self).last_secondary_request(),
    ;

    /// Decides whether paralysis prevents the move (nominal 25%).
    fn check_paralysis_move_prevention(&mut self) -> (r: bool)
        ensures
            final(self).last_miss_request() == old(self).last_miss_request(),
            final(self).last_secondary_request() == old(self).last_secondary_request(),
    ;

    /// Decides whether a frozen combatant thaws this turn (nominal 20%).
    fn check_freeze_thaw(&mut self) -> (r: bool)
        ensures
            final(self).last_miss_request() == old(self).last_miss_request(),
            final(self).last_secondary_request() == old(self).last_secondary_request(),
    ;
}

/// Relies on `rand::thread_rng` and `rand::Rng::gen_range` over an inclusive
/// range: returns a value inside the range; the range is non-empty, so the
/// call does not panic. Nothing further is promised of a live draw.
#[verifier::external_body]
fn draw_inclusive(lowest: i64, highest: i64) -> (r: i64)
    requires
        lowest <= highest,
    ensures
        lowest <= r <= highest,
{
    rand::thread_rng().gen_range(lowest..=highest)
}

/// Relies on `rand::seq::SliceRandom::shuffle`: permutes the slice in place
/// by element swaps, so the elements are kept, only their order changes.
#[verifier::external_body]
fn shuffle_in_place(moves: &mut Vec<UsedMove>)
    ensures
        final(moves)@.to_multiset() == old(moves)@.to_multiset(),
{
    moves.shuffle(&mut rand::thread_rng());
}

/// The live randomness source: every decision comes from a uniform draw.
pub struct StandardBattleRng {
    miss_request: Ghost<Option<u64>>,
    secondary_request: Ghost<Option<u64>>,
}

impl StandardBattleRng {
    pub fn new() -> (r: StandardBattleRng)
        ensures
            r.last_miss_request() is None,
            r.last_secondary_request() is None,
    {
        StandardBattleRng { miss_request: Ghost(None), secondary_request: Ghost(None) }
    }

    /// Draws uniformly from `1 ..= 100` and tells whether the draw cleared
    /// the given percentage: a zero chance never clears, a full one always
    /// does.
    fn roll(&mut self, chance: u64) -> (r: bool)
        requires
            chance <= 100,
        ensures
            *final(self) == *old(self),
            chance == 0 ==> !r,
            chance >= 100 ==> r,
    {
        let draw = draw_inclusive(1, 100);
        draw <= chance as i64
    }
}

impl BattleRng for StandardBattleRng {
    closed spec fn last_miss_request(&self) -> Option<u64> {
        self.miss_request@
    }

    closed spec fn last_secondary_request(&self) -> Option<u64> {
        self.secondary_request@
    }

    fn duplicate(&self) -> (r: Self) {
        StandardBattleRng {
            miss_request: Ghost(self.miss_request@),
            secondary_request: Ghost(self.secondary_request@),
        }
    }

    fn get_damage_modifier(&mut self) -> (r: u64) {
        let draw = draw_inclusive(85, 100);
        draw as u64
    }

    fn shuffle_moves(&mut self, moves: &mut Vec<UsedMove>) {
        shuffle_in_place(moves);
    }

    fn check_miss(&mut self, accuracy: u64) -> (r: bool)
        ensures
            accuracy == 100 ==> !r,
            accuracy == 0 ==> r,
    {
        let r = self.roll(100 - accuracy);
        self.miss_request = Ghost(Some(accuracy));
        r
    }

    fn check_secondary_effect(&mut self, chance: u64) -> (r: bool)
        ensures
            chance == 100 ==> r,
            chance == 0 ==> !r,
    {
        let r = self.roll(chance);
        self.secondary_request = Ghost(Some(chance));
        r
    }

    fn check_uniform_multi_hit(&mut self, lowest: u64, highest: u64) -> (r: u64) {
        let draw = draw_inclusive(lowest as i64, highest as i64);
        draw as u64
    }

    fn check_custom_multi_hit(&mut self, lowest: i64, highest: i64) -> (r: i64) {
        draw_inclusive(lowest, highest)
    }

    fn get_confusion_duration(&mut self) -> (r: u64) {
        let draw = draw_inclusive(1, 4);
        draw as u64
    }

    fn check_confusion_miss(&mut self) -> (r: bool) {
        self.roll(50)
    }

    fn check_paralysis_move_prevention(&mut self) -> (r: bool) {
        self.roll(25)
    }

    fn check_freeze_thaw(&mut self) -> (r: bool) {
        self.roll(20)
    }
}

/// The scripted randomness source used by tests.
///
/// Outcomes are deterministic: a check succeeds only while a forced run is
/// pending, every draw takes its lowest value, the damage modifier is pinned
/// to 100% and shuffling keeps the order. The double records the most
/// recently requested accuracy and secondary-effect chance for post-hoc
/// audit.
#[derive(Clone, Copy, Debug, PartialEq, Eq, Structural)]
pub struct TestBattleRng {
    /// How many coming miss checks are forced to report a miss.
    pub forced_misses: u64,
    /// How many coming secondary-effect checks are forced to trigger.
    pub forced_secondary_effects: u64,
    /// The accuracy most recently passed to `check_miss`.
    pub last_miss_check: Option<u64>,
    /// The chance most recently passed to `check_secondary_effect`.
    pub last_secondary_effect_check: Option<u64>,
}

impl TestBattleRng {
    pub fn new() -> (r: TestBattleRng)
        ensures
            r == (TestBattleRng {
                forced_misses: 0u64,
                forced_secondary_effects: 0u64,
                last_miss_check: None,
                last_secondary_effect_check: None,
            }),
    {
        TestBattleRng {
            forced_misses: 0,
            forced_secondary_effects: 0,
            last_miss_check: None,
            last_secondary_effect_check: None,
        }
    }

    /// Forces the next `n` miss checks to report a miss.
    pub fn force_miss(&mut self, n: u64)
        ensures
            *final(self) == (TestBattleRng { forced_misses: n, ..*old(self) }),
    {
        self.forced_misses = n;
    }

    /// Forces the next `n` secondary-effect checks to trigger.
    pub fn force_secondary_effect(&mut self, n: u64)
        ensures
            *final(self) == (TestBattleRng { forced_secondary_effects: n, ..*old(self) }),
    {
        self.forced_secondary_effects = n;
    }

    /// The accuracy most recently passed to `check_miss`, exactly as the
    /// pipeline requested it.
    pub fn get_last_miss_check_chance(&self) -> (r: Option<u64>)
        ensures
            r == self.last_miss_check,
    {
        self.last_miss_check
    }

    /// The chance most recently passed to `check_secondary_effect`, exactly
    /// as the pipeline requested it.
    pub fn get_last_secondary_effect_check_chance(&self) -> (r: Option<u64>)
        ensures
            r == self.last_secondary_effect_check,
    {
        self.last_secondary_effect_check
    }

    /// Records the requested accuracy and reports a miss exactly while a
    /// forced run is pending, consuming one forced miss.
    pub fn scripted_check_miss(&mut self, accuracy: u64) -> (r: bool)
        ensures
            r == (old(self).forced_misses > 0),
            *final(self) == (TestBattleRng {
                forced_misses: if old(self).forced_misses > 0 {
                    (old(self).forced_misses - 1) as u64
                } else {
                    0u64
                },
                last_miss_check: Some(accuracy),
                ..*old(self)
            }),
    {
        self.last_miss_check = Some(accuracy);
        if self.forced_misses > 0 {
            self.forced_misses = self.forced_misses - 1;
            true
        } else {
            false
        }
    }

    /// Records the requested chance and triggers exactly while a forced run
    /// is pending, consuming one forced trigger.
    pub fn scripted_check_secondary_effect(&mut self, chance: u64) -> (r: bool)
        ensures
            r == (old(self).forced_secondary_effects > 0),
            *final(self) == (TestBattleRng {
                forced_secondary_effects: if old(self).forced_secondary_effects > 0 {
                    (old(self).forced_secondary_effects - 1) as u64
                } else {
                    0u64
                },
                last_secondary_effect_check: Some(chance),
                ..*old(self)
            }),
    {
        self.last_secondary_effect_check = Some(chance);
        if self.forced_secondary_effects > 0 {
            self.forced_secondary_effects = self.forced_secondary_effects - 1;
            true
        } else {
            false
        }
    }
}

impl BattleRng for TestBattleRng {
    open spec fn last_miss_request(&self) -> Option<u64> {
        self.last_miss_check
    }

    open spec fn last_secondary_request(&self) -> Option<u64> {
        self.last_secondary_effect_check
    }

    fn duplicate(&self) -> (r: Self) {
        TestBattleRng {
            forced_misses: self.forced_misses,
            forced_secondary_effects: self.forced_secondary_effects,
            last_miss_check: self.last_miss_check,
            last_secondary_effect_check: self.last_secondary_effect_check,
        }
    }

    fn get_damage_modifier(&mut self) -> (r: u64)
        ensures
            r == 100,
            *final(self) == *old(self),
    {
        100
    }

    fn shuffle_moves(&mut self, moves: &mut Vec<UsedMove>)
        ensures
            *final(moves) == *old(moves),
            *final(self) == *old(self),
    {
    }

    fn check_miss(&mut self, accuracy: u64) -> (r: bool)
        ensures
            r == (old(self).forced_misses > 0),
            *final(self) == (TestBattleRng {
                forced_misses: if old(self).forced_misses > 0 {
                    (old(self).forced_misses - 1) as u64
                } else {
                    0u64
                },
                last_miss_check: Some(accuracy),
                ..*old(self)
            }),
    {
        self.scripted_check_miss(accuracy)
    }

    fn check_secondary_effect(&mut self, chance: u64) -> (r: bool)
        ensures
            r == (old(self).forced_secondary_effects > 0),
            *final(self) == (TestBattleRng {
                forced_secondary_effects: if old(self).forced_secondary_effects > 0 {
                    (old(self).forced_secondary_effects - 1) as u64
                } else {
                    0u64
                },
                last_secondary_effect_check: Some(chance),
                ..*old(self)
            }),
    {
        self.scripted_check_secondary_effect(chance)
    }

    fn check_uniform_multi_hit(&mut self, lowest: u64, highest: u64) -> (r: u64)
        ensures
            r == lowest,
            *final(self) == *old(self),
    {
        lowest
    }

    fn check_custom_multi_hit(&mut self, lowest: i64, highest: i64) -> (r: i64)
        ensures
            r == lowest,
            *final(self) == *old(self),
    {
        lowest
    }

    fn get_confusion_duration(&mut self) -> (r: u64)
        ensures
            r == 1,
            *final(self) == *old(self),
    {
        1
    }

    fn check_confusion_miss(&mut self) -> (r: bool)
        ensures
            !r,
            *final(self) == *old(self),
    {
        false
    }

    fn check_paralysis_move_prevention(&mut self) -> (r: bool)
        ensures
            !r,
            *final(self) == *old(self),
    {
        false
    }

    fn check_freeze_thaw(&mut self) -> (r: bool)
        ensures
            !r,
            *final(self) == *old(self),
    {
        false
    }
}

} // verus!
