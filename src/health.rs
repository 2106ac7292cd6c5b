//! Health shared by the protagonist and the hostiles.

use vstd::prelude::*;

verus! {

/// What remains of `health` after a hit of `amount`: never below zero.
pub open spec fn after_damage(health: int, amount: int) -> int {
    if health > amount {
        health - amount
    } else {
        0
    }
}

/// Health after a series of hits, applied in order.
pub open spec fn after_hits(health: int, amounts: Seq<u32>) -> int
    decreases amounts.len(),
{
    if amounts.len() == 0 {
        health
    } else {
        after_hits(after_damage(health, amounts[0] as int), amounts.drop_first())
    }
}

/// Current and maximal health of an entity.
#[derive(Clone, Copy, Debug, PartialEq, Eq, Structural)]
pub struct Health {
    pub health: u32,
    pub max_health: u32,
}

impl Health {
    /// Health never exceeds its maximum (and, being unsigned, is never negative).
    pub open spec fn wf(self) -> bool {
        self.health <= self.max_health
    }

    /// Full health.
    pub fn new(max_health: u32) -> (r: Health)
        ensures
            r.wf(),
            r.health == max_health,
            r.max_health == max_health,
    {
        Health { health: max_health, max_health }
    }

    /// Takes `amount` off the health, stopping at zero; returns whether the
    /// entity is now dead.
    pub fn damage(&mut self, amount: u32) -> (dead: bool)
        requires
            old(self).wf(),
        ensures
            final(self).wf(),
            final(self).max_health == old(self).max_health,
            final(self).health == after_damage(old(self).health as int, amount as int),
            dead == (final(self).health == 0),
            old(self).health == 0 ==> final(self).health == 0 && dead,
    {
        if self.health > amount {
            self.health = self.health - amount;
        } else {
            self.health = 0;
        }
        self.health == 0
    }

    /// Health as a percentage of the maximum, rounded down: `0..=100`.
    pub fn health_percentage(&self) -> (r: u32)
        requires
            self.wf(),
            self.max_health > 0,
        ensures
            r == (self.health as int * 100) / (self.max_health as int),
            r <= 100,
    {
        let p: u64 = (self.health as u64 * 100) / self.max_health as u64;
        assert(p <= 100) by (nonlinear_arith)
            requires
                p == (self.health as int * 100) / (self.max_health as int),
                self.health <= self.max_health,
                self.max_health > 0,
        ;
        p as u32
    }
}

/// Hits on an entity at zero health leave it at zero.
proof fn lemma_zero_stays(amounts: Seq<u32>)
    ensures
        after_hits(0, amounts) == 0,
    decreases amounts.len(),
{
    if amounts.len() > 0 {
        lemma_zero_stays(amounts.drop_first());
    }
}

/// Damage has a floor: on an entity at zero health, every hit of a series
/// finds it at zero and leaves it at zero, so each reports it dead.
pub proof fn lemma_damage_floor(amounts: Seq<u32>)
    ensures
        after_hits(0, amounts) == 0,
        forall|i: int|
            0 <= i < amounts.len() ==> #[trigger] after_hits(0, amounts.take(i)) == 0 && after_damage(
                after_hits(0, amounts.take(i)),
                amounts[i] as int,
            ) == 0,
{
    lemma_zero_stays(amounts);
    assert forall|i: int| 0 <= i < amounts.len() implies #[trigger] after_hits(0, amounts.take(i)) == 0
        && after_damage(after_hits(0, amounts.take(i)), amounts[i] as int) == 0 by {
        lemma_zero_stays(amounts.take(i));
    }
}

/// Health stays within `[0, max]` under any series of hits.
pub proof fn lemma_damage_bounds(health: int, max_health: int, amounts: Seq<u32>)
    requires
        0 <= health <= max_health,
    ensures
        0 <= after_hits(health, amounts) <= max_health,
    decreases amounts.len(),
{
    if amounts.len() > 0 {
        lemma_damage_bounds(after_damage(health, amounts[0] as int), max_health, amounts.drop_first());
    }
}

} // verus!
