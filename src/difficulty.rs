//! The difficulty curve: hostile speed and population cap rise with play time.

use vstd::prelude::*;

verus! {

/// Hostile speed at the start of a session, in thousandths of a sub-unit per
/// second (60 world units per second).
pub const START_SPEED: u64 = 60_000_000;

/// Highest hostile speed, same unit (150 world units per second).
pub const SPEED_CAP: u64 = 150_000_000;

/// Speed gained per millisecond of play, same unit (0.2 world units per
/// second, per second).
pub const SPEED_GAIN: u64 = 200;

/// Population cap at the start of a session, in thousandths of a hostile.
pub const START_COUNT: u64 = 32_000;

/// Highest population cap, same unit.
pub const COUNT_CAP: u64 = 100_000;

/// Hostile speed after `t` milliseconds of play.
pub open spec fn speed_at(t: int) -> int {
    if START_SPEED + SPEED_GAIN * t < SPEED_CAP {
        START_SPEED + SPEED_GAIN * t
    } else {
        SPEED_CAP as int
    }
}

/// Population cap after `t` milliseconds of play (one hostile per second).
pub open spec fn count_at(t: int) -> int {
    if START_COUNT + t < COUNT_CAP {
        START_COUNT + t
    } else {
        COUNT_CAP as int
    }
}

/// The difficulty after `t` milliseconds of play.
pub open spec fn difficulty_at(t: int) -> EnemyDifficulty {
    EnemyDifficulty { speed: speed_at(t) as u64, count: count_at(t) as u64 }
}

/// `min(a + b, cap)`.
pub open spec fn capped_add(a: int, b: int, cap: int) -> int {
    if a + b < cap {
        a + b
    } else {
        cap
    }
}

/// The difficulty after one tick of `dt` milliseconds.
pub open spec fn advanced(d: EnemyDifficulty, dt: int) -> EnemyDifficulty {
    EnemyDifficulty {
        speed: capped_add(d.speed as int, SPEED_GAIN * dt, SPEED_CAP as int) as u64,
        count: capped_add(d.count as int, dt, COUNT_CAP as int) as u64,
    }
}

/// The difficulty after a series of ticks, applied in order.
pub open spec fn advanced_by(d: EnemyDifficulty, dts: Seq<u64>) -> EnemyDifficulty
    decreases dts.len(),
{
    if dts.len() == 0 {
        d
    } else {
        advanced_by(advanced(d, dts[0] as int), dts.drop_first())
    }
}

/// Total time of a series of ticks.
pub open spec fn total_time(dts: Seq<u64>) -> int
    decreases dts.len(),
{
    if dts.len() == 0 {
        0
    } else {
        dts[0] + total_time(dts.drop_first())
    }
}

/// Current hostile speed and population cap, in thousandths (see the
/// constants above).
#[derive(Clone, Copy, Debug, PartialEq, Eq, Structural)]
pub struct EnemyDifficulty {
    pub speed: u64,
    pub count: u64,
}

impl EnemyDifficulty {
    /// Neither value exceeds its cap.
    pub open spec fn wf(self) -> bool {
        self.speed <= SPEED_CAP && self.count <= COUNT_CAP
    }

    /// Population cap, rounded down to whole hostiles.
    pub open spec fn max_count(self) -> int {
        self.count as int / 1000
    }

    /// Speed of newly spawned hostiles, in sub-units per second.
    pub open spec fn enemy_speed(self) -> int {
        self.speed as int / 1000
    }

    /// The values at the start of a session.
    pub fn new() -> (r: EnemyDifficulty)
        ensures
            r.wf(),
            r == difficulty_at(0),
    {
        EnemyDifficulty { speed: START_SPEED, count: START_COUNT }
    }

    /// Returns to the values at the start of a session.
    pub fn reset(&mut self)
        ensures
            final(self).wf(),
            *final(self) == difficulty_at(0),
    {
        *self = EnemyDifficulty::new();
    }

    /// Advances the curve by `dt` milliseconds of play.
    pub fn increase(&mut self, dt: u64)
        requires
            old(self).wf(),
        ensures
            final(self).wf(),
            *final(self) == advanced(*old(self), dt as int),
            final(self).speed >= old(self).speed,
            final(self).count >= old(self).count,
    {
        assert(SPEED_GAIN * dt <= SPEED_GAIN * u64::MAX) by (nonlinear_arith)
            requires
                dt <= u64::MAX,
        ;
        let speed: u128 = self.speed as u128 + SPEED_GAIN as u128 * dt as u128;
        self.speed = if speed < SPEED_CAP as u128 { speed as u64 } else { SPEED_CAP };
        let count: u128 = self.count as u128 + dt as u128;
        self.count = if count < COUNT_CAP as u128 { count as u64 } else { COUNT_CAP };
    }

    /// Speed of newly spawned hostiles, in sub-units per second.
    pub fn get_enemy_speed(&self) -> (r: u64)
        ensures
            r == self.enemy_speed(),
    {
        self.speed / 1000
    }

    /// Population cap in whole hostiles.
    pub fn get_enemy_max_count(&self) -> (r: usize)
        requires
            self.wf(),
        ensures
            r == self.max_count(),
    {
        (self.count / 1000) as usize
    }
}

impl Default for EnemyDifficulty {
    fn default() -> (r: EnemyDifficulty)
        ensures
            r == difficulty_at(0),
    {
        EnemyDifficulty::new()
    }
}

/// One tick from the curve's value at time `t` gives its value at `t + dt`.
proof fn lemma_advance_at(t: int, dt: int)
    requires
        0 <= t,
        0 <= dt,
    ensures
        advanced(difficulty_at(t), dt) == difficulty_at(t + dt),
{
    assert(SPEED_GAIN * (t + dt) == SPEED_GAIN * t + SPEED_GAIN * dt) by (nonlinear_arith);
    assert(0 <= SPEED_GAIN * t && 0 <= SPEED_GAIN * dt) by (nonlinear_arith)
        requires
            0 <= t,
            0 <= dt,
    ;
}


/// Playing a series of ticks from the curve's value at `t` ends at its value
/// at `t` plus their total time.
proof fn lemma_advanced_by_from(t: int, dts: Seq<u64>)
    requires
        0 <= t,
    ensures
        advanced_by(difficulty_at(t), dts) == difficulty_at(t + total_time(dts)),
        total_time(dts) >= 0,
    decreases dts.len(),
{
    if dts.len() > 0 {
        lemma_advance_at(t, dts[0] as int);
        lemma_advanced_by_from(t + dts[0], dts.drop_first());
    }
}

/// After any series of ticks totalling `T` milliseconds from the start of a
/// session, speed is exactly `min(60 + 0.2 T, 150)` world units per second and
/// the population cap exactly `min(32 + T, 100)` hostiles (`T` in seconds
/// here), both kept in thousandths.
pub proof fn lemma_difficulty_curve(dts: Seq<u64>)
    ensures
        advanced_by(difficulty_at(0), dts) == difficulty_at(total_time(dts)),
        advanced_by(difficulty_at(0), dts).speed == speed_at(total_time(dts)),
        advanced_by(difficulty_at(0), dts).count == count_at(total_time(dts)),
{
    lemma_advanced_by_from(0, dts);
}

} // verus!
