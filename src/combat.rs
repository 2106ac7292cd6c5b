//! Per-hostile state: the melee state machine, facing, pose and pursuit target.

use vstd::prelude::*;
use crate::geometry::Point;
use crate::timer::RepeatingTimer;

verus! {

/// Period of the melee timer, in milliseconds.
pub const MELEE_PERIOD_MS: u64 = 300;

/// Period of the target-switch timer, in milliseconds.
pub const RETARGET_PERIOD_MS: u64 = 6000;

/// Melee state of a hostile.
#[derive(Clone, Copy, Debug, PartialEq, Eq, Structural)]
pub enum EnemyState {
    Hunting,
    ReadyBlade,
    SwingBlade,
}

/// Horizontal facing.
#[derive(Clone, Copy, Debug, PartialEq, Eq, Structural)]
pub enum Face {
    Left,
    Right,
}

/// What a hostile pursues.
#[derive(Clone, Copy, Debug, PartialEq, Eq, Structural)]
pub enum EnemyTarget {
    /// The protagonist's live position.
    Player,
    /// The protagonist's position led along its current velocity.
    PlayerFuture,
    /// A fixed point, chosen when the target was switched.
    Location(Point),
}

/// The state after a melee-timer cycle: in range it advances (Hunting and
/// SwingBlade to ReadyBlade, ReadyBlade to SwingBlade), out of range it falls
/// back to Hunting.
pub open spec fn next_state(s: EnemyState, in_range: bool) -> EnemyState {
    if !in_range {
        EnemyState::Hunting
    } else {
        match s {
            EnemyState::ReadyBlade => EnemyState::SwingBlade,
            _ => EnemyState::ReadyBlade,
        }
    }
}

/// The cycle swings the blade (and hurts the protagonist).
pub open spec fn strikes(s: EnemyState, in_range: bool) -> bool {
    in_range && s == EnemyState::ReadyBlade
}

/// The state after `n` cycles in range, starting from Hunting.
pub open spec fn state_after_in_range(n: nat) -> EnemyState
    decreases n,
{
    if n == 0 {
        EnemyState::Hunting
    } else {
        next_state(state_after_in_range((n - 1) as nat), true)
    }
}

/// First frame of the pose: `{Hunting: 0, ReadyBlade: 4, SwingBlade: 8}`
/// plus `{Left: 0, Right: 2}`.
pub open spec fn pose_first(s: EnemyState, f: Face) -> int {
    (match s {
        EnemyState::Hunting => 0int,
        EnemyState::ReadyBlade => 4,
        EnemyState::SwingBlade => 8,
    }) + (match f {
        Face::Left => 0int,
        Face::Right => 2,
    })
}

/// Facing after moving with horizontal velocity `dx`: unchanged at zero.
pub open spec fn face_for(f: Face, dx: int) -> Face {
    if dx < 0 {
        Face::Left
    } else if dx > 0 {
        Face::Right
    } else {
        f
    }
}

/// The target picked by a random draw, each of the three kinds taking one
/// residue modulo 3; `location` is the point used for a fixed target.
pub open spec fn target_for(draw: int, location: Point) -> EnemyTarget {
    if draw % 3 == 0 {
        EnemyTarget::Player
    } else if draw % 3 == 1 {
        EnemyTarget::PlayerFuture
    } else {
        EnemyTarget::Location(location)
    }
}

/// Applies one melee-timer cycle; returns the new state and whether the
/// blade is swung at the protagonist.
pub fn advance_state(s: EnemyState, in_range: bool) -> (r: (EnemyState, bool))
    ensures
        r.0 == next_state(s, in_range),
        r.1 == strikes(s, in_range),
{
    if !in_range {
        (EnemyState::Hunting, false)
    } else {
        match s {
            EnemyState::ReadyBlade => (EnemyState::SwingBlade, true),
            _ => (EnemyState::ReadyBlade, false),
        }
    }
}

/// First and last frame of a hostile's pose; a moving hostile adds a second
/// frame.
pub fn pose_indices(s: EnemyState, f: Face, moving: bool) -> (r: (u32, u32))
    ensures
        r.0 == pose_first(s, f),
        r.1 == (if moving {
            pose_first(s, f) + 1
        } else {
            pose_first(s, f)
        }),
{
    let base: u32 = match s {
        EnemyState::Hunting => 0,
        EnemyState::ReadyBlade => 4,
        EnemyState::SwingBlade => 8,
    };
    let offset: u32 = match f {
        Face::Left => 0,
        Face::Right => 2,
    };
    let first = base + offset;
    if moving {
        (first, first + 1)
    } else {
        (first, first)
    }
}

/// Walk frames of the protagonist given its current first frame and its
/// horizontal direction: `0..=1` walking left, `2..=3` walking right, the
/// current frame alone when standing.
pub fn walk_indices(first: u32, dx: i64) -> (r: (u32, u32))
    ensures
        r == (if dx < 0 {
            (0u32, 1u32)
        } else if dx > 0 {
            (2u32, 3u32)
        } else {
            (first, first)
        }),
{
    if dx < 0 {
        (0, 1)
    } else if dx > 0 {
        (2, 3)
    } else {
        (first, first)
    }
}

/// Facing after moving with horizontal velocity `dx`.
pub fn update_face(f: Face, dx: i64) -> (r: Face)
    ensures
        r == face_for(f, dx as int),
{
    if dx < 0 {
        Face::Left
    } else if dx > 0 {
        Face::Right
    } else {
        f
    }
}

/// Whether a draw picks a fixed point, which the caller then has to sample.
pub fn draw_wants_location(draw: u64) -> (r: bool)
    ensures
        r == (draw % 3 == 2),
{
    draw % 3 == 2
}

/// The target picked by a random draw.
pub fn target_from_draw(draw: u64, location: Point) -> (r: EnemyTarget)
    ensures
        r == target_for(draw as int, location),
{
    let k: u64 = draw % 3;
    if k == 0 {
        EnemyTarget::Player
    } else if k == 1 {
        EnemyTarget::PlayerFuture
    } else {
        EnemyTarget::Location(location)
    }
}

/// The combat part of a hostile.
#[derive(Clone, Copy, Debug, PartialEq, Eq, Structural)]
pub struct Enemy {
    pub animation_state: EnemyState,
    pub face: Face,
    pub sword_hit_timer: RepeatingTimer,
    pub target_switch_timer: RepeatingTimer,
    pub target: EnemyTarget,
}

impl Enemy {
    pub open spec fn wf(self) -> bool {
        &&& self.sword_hit_timer.wf()
        &&& self.target_switch_timer.wf()
        &&& self.target matches EnemyTarget::Location(q) ==> q.wf()
    }

    /// A freshly spawned hostile: hunting, facing left, fresh timers, pursuing
    /// the protagonist.
    pub open spec fn is_fresh(self) -> bool {
        &&& self.animation_state == EnemyState::Hunting
        &&& self.face == Face::Left
        &&& self.sword_hit_timer == RepeatingTimer { period_ms: MELEE_PERIOD_MS, elapsed_ms: 0 }
        &&& self.target_switch_timer == RepeatingTimer { period_ms: RETARGET_PERIOD_MS, elapsed_ms: 0 }
        &&& self.target == EnemyTarget::Player
    }

    pub fn new() -> (r: Enemy)
        ensures
            r.wf(),
            r.is_fresh(),
    {
        Enemy {
            animation_state: EnemyState::Hunting,
            face: Face::Left,
            sword_hit_timer: RepeatingTimer::new(MELEE_PERIOD_MS),
            target_switch_timer: RepeatingTimer::new(RETARGET_PERIOD_MS),
            target: EnemyTarget::Player,
        }
    }
}

impl Default for Enemy {
    fn default() -> (r: Enemy)
        ensures
            r.wf(),
            r.is_fresh(),
    {
        Enemy::new()
    }
}

/// Held in range from Hunting, the state machine runs Hunting, ReadyBlade,
/// SwingBlade, ReadyBlade, SwingBlade, ...: odd cycles end in ReadyBlade, even
/// ones (after the first) in SwingBlade, and the blade is swung exactly on the
/// even cycles. Out of range, any state falls back to Hunting.
pub proof fn lemma_melee_cycle(n: nat)
    ensures
        state_after_in_range(0) == EnemyState::Hunting,
        n % 2 == 1 ==> state_after_in_range(n) == EnemyState::ReadyBlade,
        n % 2 == 0 && n > 0 ==> state_after_in_range(n) == EnemyState::SwingBlade,
        strikes(state_after_in_range(n), true) == (n % 2 == 1),
        forall|s: EnemyState| #[trigger] next_state(s, false) == EnemyState::Hunting,
    decreases n,
{
    if n > 0 {
        lemma_melee_cycle((n - 1) as nat);
    }
}

} // verus!
