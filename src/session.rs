//! A play session: the protagonist, the hostiles and the projectiles, with
//! the systems that advance them each tick.

use vstd::prelude::*;
use crate::combat::{
    advance_state, draw_wants_location, face_for, next_state, pose_first, pose_indices, strikes,
    target_from_draw, update_face, Enemy, EnemyState, EnemyTarget,
};
use crate::difficulty::{advanced, difficulty_at, EnemyDifficulty};
use crate::geometry::{
    ceil_sqrt_of, dist_sq, in_box, norm_sq, scale_to_length, scaled, translate, within, Point,
};
use crate::health::{after_damage, Health};
use crate::movement::{
    advance, advance_within_level, clamp_to_level, displacement_for, inside_level, lemma_component_bound, moved,
    pos_inside_level, steer, steering_for, Velocity, DIRECTION_LIMIT, MAX_DT_MS, UNIT,
};
use crate::random::{next_draw, on_annulus, rng_from_seed, sample_in_annulus, SAMPLE_LIMIT};
use crate::score::{increased, Score};
use crate::timer::{fires, ticked};
use wyrand::WyRand;

verus! {

/// How far ahead of the protagonist a leading target lies, in sub-units per
/// thousandth of its direction (128 world units for a unit direction).
pub const LEAD_DISTANCE: i64 = 128;

/// Inner radius of the ring a fixed target is drawn from (128 world units).
pub const RETARGET_INNER: u64 = 128_000;

/// Outer radius of the ring a fixed target is drawn from (512 world units).
pub const RETARGET_OUTER: u64 = 512_000;

/// Reach of a hostile's blade (64 world units).
pub const MELEE_RANGE: u64 = 64_000;

/// Distance within which a projectile hits a hostile (64 world units).
pub const HIT_RADIUS: u64 = 64_000;

/// Speed of a projectile, in sub-units per second (420 world units per
/// second).
pub const PROJECTILE_SPEED: u64 = 420_000;

/// How far ahead of the protagonist a projectile appears (32 world units).
pub const PROJECTILE_OFFSET: u64 = 32_000;

/// Walking speed of the protagonist, in sub-units per second.
pub const PLAYER_MOVE_SPEED: u64 = 175_000;

/// Sprinting speed of the protagonist: twice its walking speed.
pub const PLAYER_SPRINT_SPEED: u64 = 350_000;

/// Health of a newly spawned hostile.
pub const ENEMY_HEALTH: u32 = 1;

/// Inner spawn radius, as seconds of travel at the current hostile speed.
pub const SPAWN_INNER_SECONDS: u64 = 15;

/// Outer spawn radius, as seconds of travel at the current hostile speed.
pub const SPAWN_OUTER_SECONDS: u64 = 30;

/// The protagonist.
#[derive(Clone, Copy, Debug, PartialEq, Eq, Structural)]
pub struct Player {
    pub position: Point,
    pub velocity: Velocity,
    pub health: Health,
}

/// A hostile: its combat state together with its body.
#[derive(Clone, Copy, Debug, PartialEq, Eq, Structural)]
pub struct Hostile {
    pub enemy: Enemy,
    pub position: Point,
    pub velocity: Velocity,
    pub health: Health,
}

/// A projectile fired by the protagonist.
#[derive(Clone, Copy, Debug, PartialEq, Eq, Structural)]
pub struct Projectile {
    pub position: Point,
    pub velocity: Velocity,
}

/// Notice that a hostile died, with where it stood.
#[derive(Clone, Copy, Debug, PartialEq, Eq, Structural)]
pub struct EnemyDied {
    pub pos: Point,
}

impl Player {
    pub open spec fn wf(self) -> bool {
        inside_level(self.position) && self.velocity.wf() && self.health.wf()
    }
}

impl Hostile {
    pub open spec fn wf(self) -> bool {
        self.enemy.wf() && self.position.wf() && self.velocity.wf() && self.health.wf()
    }

    /// First and last frame of the hostile's pose.
    pub fn pose(&self) -> (r: (u32, u32))
        ensures
            r.0 == pose_first(self.enemy.animation_state, self.enemy.face),
            r.1 == (if self.velocity.is_moving() {
                r.0 + 1
            } else {
                r.0 as int
            }),
    {
        pose_indices(self.enemy.animation_state, self.enemy.face, self.velocity.moving())
    }
}

/// `d` rescaled to length `len` (see `scale_to_length`), as a point.
pub open spec fn scaled_point(d: Point, len: int) -> Point {
    let v = scaled(d, len, ceil_sqrt_of(norm_sq(d)));
    Point { x: v.0 as i64, y: v.1 as i64 }
}

impl Projectile {
    pub open spec fn wf(self) -> bool {
        self.position.wf() && self.velocity.wf()
    }

    /// The projectile fired from `origin` along `aim`.
    pub open spec fn spec_fired(origin: Point, aim: Point) -> Projectile {
        Projectile {
            position: moved(
                origin,
                (scaled_point(aim, PROJECTILE_OFFSET as int).x as int, scaled_point(aim, PROJECTILE_OFFSET as int).y as int),
            ),
            velocity: Velocity { direction: scaled_point(aim, UNIT as int), speed: PROJECTILE_SPEED },
        }
    }

    /// A projectile fired from `origin` along `aim`: it appears 32 world
    /// units ahead of the origin and flies along the unit direction of `aim`.
    pub fn new(origin: Point, aim: Point) -> (r: Projectile)
        requires
            origin.wf(),
            aim.wf(),
        ensures
            r.wf(),
            r == Projectile::spec_fired(origin, aim),
    {
        let direction = scale_to_length(aim, UNIT);
        let ahead = scale_to_length(aim, PROJECTILE_OFFSET);
        proof {
            lemma_component_bound(direction);
        }
        Projectile {
            position: translate(origin, ahead),
            velocity: Velocity { direction, speed: PROJECTILE_SPEED },
        }
    }
}

/// The projectiles that lie within the level, in order.
pub open spec fn inside_only(s: Seq<Projectile>) -> Seq<Projectile>
    decreases s.len(),
{
    if s.len() == 0 {
        s
    } else {
        let rest = inside_only(s.drop_last());
        if inside_level(s.last().position) {
            rest.push(s.last())
        } else {
            rest
        }
    }
}

/// Inner spawn radius for a hostile speed.
pub open spec fn spawn_inner(speed: int) -> int {
    speed * SPAWN_INNER_SECONDS
}

/// Outer spawn radius for a hostile speed.
pub open spec fn spawn_outer(speed: int) -> int {
    speed * SPAWN_OUTER_SECONDS
}

/// A hostile as the spawn director creates it around `center` at `speed`.
pub open spec fn is_spawned(h: Hostile, center: Point, speed: int) -> bool {
    &&& h.enemy.is_fresh()
    &&& h.position.wf()
    &&& on_annulus(center, h.position, spawn_inner(speed), spawn_outer(speed))
    &&& h.velocity == Velocity { direction: Point { x: 0, y: 0 }, speed: speed as u64 }
    &&& h.health == Health { health: ENEMY_HEALTH, max_health: ENEMY_HEALTH }
}

/// A target that a switch may pick around `center`.
pub open spec fn is_retarget(t: EnemyTarget, center: Point) -> bool {
    match t {
        EnemyTarget::Player => true,
        EnemyTarget::PlayerFuture => true,
        EnemyTarget::Location(q) => q.wf() && on_annulus(
            center,
            q,
            RETARGET_INNER as int,
            RETARGET_OUTER as int,
        ),
    }
}

/// `n` is `o` after one tick of the target selector around `center`.
pub open spec fn retarget_step(o: Hostile, n: Hostile, center: Point, dt: int) -> bool {
    &&& n.enemy.target_switch_timer == ticked(o.enemy.target_switch_timer, dt)
    &&& n == (Hostile {
        enemy: Enemy {
            target_switch_timer: n.enemy.target_switch_timer,
            target: n.enemy.target,
            ..o.enemy
        },
        ..o
    })
    &&& if fires(o.enemy.target_switch_timer, dt) {
        is_retarget(n.enemy.target, center)
    } else {
        n.enemy.target == o.enemy.target
    }
}

/// The point a target stands for, given the protagonist.
pub open spec fn target_point(t: EnemyTarget, p: Player) -> Point {
    match t {
        EnemyTarget::Player => p.position,
        EnemyTarget::PlayerFuture => moved(
            p.position,
            (p.velocity.direction.x * LEAD_DISTANCE, p.velocity.direction.y * LEAD_DISTANCE),
        ),
        EnemyTarget::Location(q) => q,
    }
}

/// `n` is `o` with its direction steered toward its target.
pub open spec fn steer_step(o: Hostile, n: Hostile, p: Player) -> bool {
    let d = steering_for(o.position, target_point(o.enemy.target, p));
    n == (Hostile {
        velocity: Velocity { direction: Point { x: d.0 as i64, y: d.1 as i64 }, ..o.velocity },
        ..o
    })
}

/// The point a target stands for, given the protagonist.
pub fn target_position(t: EnemyTarget, p: &Player) -> (r: Point)
    requires
        p.wf(),
        t matches EnemyTarget::Location(q) ==> q.wf(),
    ensures
        r == target_point(t, *p),
        r.wf(),
{
    match t {
        EnemyTarget::Player => p.position,
        EnemyTarget::PlayerFuture => {
            let lead = Point {
                x: p.velocity.direction.x * LEAD_DISTANCE,
                y: p.velocity.direction.y * LEAD_DISTANCE,
            };
            translate(p.position, lead)
        },
        EnemyTarget::Location(q) => q,
    }
}

/// The protagonist stands within a hostile's reach.
pub open spec fn in_melee(h: Hostile, p: Player) -> bool {
    dist_sq(p.position, h.position) <= MELEE_RANGE * MELEE_RANGE
}

/// The hostile's melee timer completes a cycle this tick with the
/// protagonist in reach.
pub open spec fn engages(h: Hostile, p: Player, dt: int) -> bool {
    fires(h.enemy.sword_hit_timer, dt) && in_melee(h, p)
}

/// `o` with its melee timer advanced by `dt` and its state set to `s`.
pub open spec fn with_melee(o: Hostile, s: EnemyState, dt: int) -> Hostile {
    Hostile {
        enemy: Enemy {
            sword_hit_timer: ticked(o.enemy.sword_hit_timer, dt),
            animation_state: s,
            ..o.enemy
        },
        ..o
    }
}

/// A hostile that does not engage: if its timer completes a cycle (out of
/// reach) it falls back to Hunting.
pub open spec fn melee_idle(o: Hostile, dt: int) -> Hostile {
    with_melee(
        o,
        if fires(o.enemy.sword_hit_timer, dt) {
            EnemyState::Hunting
        } else {
            o.enemy.animation_state
        },
        dt,
    )
}

/// What the melee pass did.
#[derive(Clone, Copy, Debug, PartialEq, Eq, Structural)]
pub struct AttackOutcome {
    /// The hostile that engaged the protagonist, if any (at most one a tick).
    pub striker: Option<usize>,
    /// Its blade was swung, hurting the protagonist.
    pub struck: bool,
    /// The swing took the protagonist's last point of health: the session
    /// has failed. Health never rises again, so this is signalled once.
    pub player_died: bool,
}

/// The projectile overlaps the hostile.
pub open spec fn overlaps(q: Projectile, h: Hostile) -> bool {
    dist_sq(q.position, h.position) <= HIT_RADIUS * HIT_RADIUS
}

/// `h` after one point of damage.
pub open spec fn wounded(h: Hostile) -> Hostile {
    Hostile { health: Health { health: after_damage(h.health.health as int, 1) as u32, ..h.health }, ..h }
}

/// A projectile and the hostile it hit, as indices before the hit.
#[derive(Clone, Copy, Debug, PartialEq, Eq, Structural)]
pub struct Hit {
    pub projectile: usize,
    pub enemy: usize,
}

/// What the collision pass did.
#[derive(Clone, Copy, Debug, PartialEq, Eq, Structural)]
pub struct HitOutcome {
    /// The projectile and the hostile it hit.
    pub hit: Option<Hit>,
    /// The hostile died of it: the notice of its death.
    pub died: Option<EnemyDied>,
}

/// What one tick did.
#[derive(Clone, Copy, Debug, PartialEq, Eq, Structural)]
pub struct TickReport {
    pub attack: AttackOutcome,
    pub hit: HitOutcome,
}

/// The simulation context of one play session.
pub struct Session {
    pub player: Option<Player>,
    pub enemies: Vec<Hostile>,
    pub projectiles: Vec<Projectile>,
    pub difficulty: EnemyDifficulty,
    pub score: Score,
    pub rng: WyRand,
    pub player_max_health: u32,
}

impl Session {
    /// Every entity is well formed, the protagonist stays in the level, and
    /// the live hostiles never outnumber the population cap.
    pub open spec fn wf(self) -> bool {
        &&& self.player matches Some(p) ==> p.wf()
        &&& forall|i: int| 0 <= i < self.enemies.len() ==> #[trigger] self.enemies@[i].wf()
        &&& forall|i: int| 0 <= i < self.projectiles.len() ==> #[trigger] self.projectiles@[i].wf()
        &&& self.difficulty.wf()
        &&& self.enemies.len() <= self.difficulty.max_count()
        &&& self.player_max_health > 0
    }

    /// The protagonist as a session starts: at the origin, standing, at full
    /// (positive) health.
    pub open spec fn is_start_player(p: Player, max_health: u32) -> bool {
        p == Player {
            position: Point { x: 0, y: 0 },
            velocity: Velocity { direction: Point { x: 0, y: 0 }, speed: PLAYER_MOVE_SPEED },
            health: Health { health: max_health, max_health },
        }
    }

    /// A session that has not started: no entities, start-of-session
    /// difficulty, zero score. `seed` starts the random generator.
    pub fn new(seed: u64, player_max_health: u32) -> (r: Session)
        requires
            player_max_health > 0,
        ensures
            r.wf(),
            r.player.is_none(),
            r.enemies.len() == 0,
            r.projectiles.len() == 0,
            r.difficulty == difficulty_at(0),
            r.score == (Score { current_score: 0, high_score: 0 }),
            r.player_max_health == player_max_health,
    {
        Session {
            player: None,
            enemies: Vec::new(),
            projectiles: Vec::new(),
            difficulty: EnemyDifficulty::new(),
            score: Score::new(),
            rng: rng_from_seed(seed),
            player_max_health,
        }
    }

    /// Starts a new session: the difficulty and the score return to their
    /// start values, the field is cleared and the protagonist appears.
    pub fn start(&mut self)
        requires
            old(self).player_max_health > 0,
        ensures
            final(self).wf(),
            (final(self).player matches Some(p) && Self::is_start_player(p, old(self).player_max_health)
                && p.health.health > 0),
            final(self).enemies.len() == 0,
            final(self).projectiles.len() == 0,
            final(self).difficulty == difficulty_at(0),
            final(self).score.current_score == 0,
            final(self).score.high_score == old(self).score.high_score,
            final(self).player_max_health == old(self).player_max_health,
    {
        self.difficulty.reset();
        self.score.reset();
        self.enemies = Vec::new();
        self.projectiles = Vec::new();
        self.player = Some(
            Player {
                position: Point { x: 0, y: 0 },
                velocity: Velocity { direction: Point { x: 0, y: 0 }, speed: PLAYER_MOVE_SPEED },
                health: Health::new(self.player_max_health),
            },
        );
    }

    /// Ends the session: every entity is removed; difficulty and score stay
    /// as they were.
    pub fn end(&mut self)
        requires
            old(self).wf(),
        ensures
            final(self).wf(),
            final(self).player.is_none(),
            final(self).enemies.len() == 0,
            final(self).projectiles.len() == 0,
            final(self).difficulty == old(self).difficulty,
            final(self).score == old(self).score,
            final(self).player_max_health == old(self).player_max_health,
    {
        self.player = None;
        self.enemies = Vec::new();
        self.projectiles = Vec::new();
    }

    /// Spawn director: tops the hostiles up to the population cap, placing
    /// each new one at random on the annulus around the protagonist whose
    /// radii are 15 and 30 seconds of travel at the current hostile speed.
    /// Without a protagonist nothing happens.
    pub fn spawn_enemies(&mut self)
        requires
            old(self).wf(),
        ensures
            final(self).wf(),
            spawned(*old(self), *final(self)),

    {
        let center = match self.player {
            Some(p) => p.position,
            None => {
                return;
            },
        };
        let cap = self.difficulty.get_enemy_max_count();
        let speed = self.difficulty.get_enemy_speed();
        let r_min: u64 = speed * SPAWN_INNER_SECONDS;
        let r_max: u64 = speed * SPAWN_OUTER_SECONDS;
        let ghost old_enemies = self.enemies@;
        while self.enemies.len() < cap
            invariant
                self.player == old(self).player,
                (self.player matches Some(p) && p.position == center),
                (self.player matches Some(p) && p.wf()),
                in_box(center, -SAMPLE_LIMIT, SAMPLE_LIMIT as int),
                self.projectiles@ == old(self).projectiles@,
                self.difficulty == old(self).difficulty,
                self.score == old(self).score,
                self.player_max_health == old(self).player_max_health,
                self.difficulty.wf(),
                cap == self.difficulty.max_count(),
                speed == self.difficulty.enemy_speed(),
                r_min == spawn_inner(speed as int),
                r_max == spawn_outer(speed as int),
                r_min <= r_max <= SAMPLE_LIMIT,
                old_enemies == old(self).enemies@,
                old_enemies.len() <= self.enemies.len() <= cap,
                forall|i: int| 0 <= i < old_enemies.len() ==> self.enemies@[i] == old_enemies[i],
                forall|i: int|
                    old_enemies.len() <= i < self.enemies.len() ==> is_spawned(
                        #[trigger] self.enemies@[i],
                        center,
                        speed as int,
                    ),
                forall|i: int| 0 <= i < self.enemies.len() ==> #[trigger] self.enemies@[i].wf(),
            decreases cap - self.enemies.len(),
        {
            let position = sample_in_annulus(center, &mut self.rng, r_min, r_max);
            let h = Hostile {
                enemy: Enemy::new(),
                position,
                velocity: Velocity { direction: Point { x: 0, y: 0 }, speed },
                health: Health::new(ENEMY_HEALTH),
            };
            self.enemies.push(h);
        }
    }

    /// Target selector: each hostile's switch timer advances by `dt`; when it
    /// completes a cycle the hostile picks, with equal chances, the
    /// protagonist, the protagonist's led position, or a fixed point drawn on
    /// the ring of radii 128 and 512 world units around the protagonist.
    /// Without a protagonist nothing happens.
    pub fn switch_targets(&mut self, dt: u64)
        requires
            old(self).wf(),
        ensures
            final(self).wf(),
            retargeted(*old(self), *final(self), dt as int),

    {
        let center = match self.player {
            Some(p) => p.position,
            None => {
                return;
            },
        };
        let n = self.enemies.len();
        let ghost old_enemies = self.enemies@;
        let mut i: usize = 0;
        while i < n
            invariant
                self.player == old(self).player,
                (self.player matches Some(p) && p.position == center && p.wf()),
                in_box(center, -SAMPLE_LIMIT, SAMPLE_LIMIT as int),
                self.projectiles@ == old(self).projectiles@,
                self.difficulty == old(self).difficulty,
                self.score == old(self).score,
                self.player_max_health == old(self).player_max_health,
                old_enemies == old(self).enemies@,
                n == old_enemies.len(),
                self.enemies.len() == n,
                0 <= i <= n,
                forall|j: int| i <= j < n ==> self.enemies@[j] == old_enemies[j],
                forall|j: int|
                    0 <= j < i ==> retarget_step(
                        old_enemies[j],
                        #[trigger] self.enemies@[j],
                        center,
                        dt as int,
                    ),
                forall|j: int| 0 <= j < n ==> #[trigger] old_enemies[j].wf(),
            decreases n - i,
        {
            let mut h = self.enemies[i];
            assert(old_enemies[i as int].wf());
            let fired = h.enemy.target_switch_timer.tick(dt);
            if fired {
                let draw = next_draw(&mut self.rng);
                let location = if draw_wants_location(draw) {
                    sample_in_annulus(center, &mut self.rng, RETARGET_INNER, RETARGET_OUTER)
                } else {
                    center
                };
                h.enemy.target = target_from_draw(draw, location);
            }
            self.enemies.set(i, h);
            i = i + 1;
        }
        proof {
            assert forall|j: int| 0 <= j < self.enemies.len() implies #[trigger] self.enemies@[j].wf() by {
                assert(retarget_step(old_enemies[j], self.enemies@[j], center, dt as int));
                assert(old_enemies[j].wf());
            }
        }
    }

    /// Steering: each hostile heads for the point its target stands for, or
    /// stops within the arrival threshold. Without a protagonist nothing
    /// happens.
    pub fn steer_enemies(&mut self)
        requires
            old(self).wf(),
        ensures
            final(self).wf(),
            steered(*old(self), *final(self)),

    {
        let p = match self.player {
            Some(p) => p,
            None => {
                return;
            },
        };
        let n = self.enemies.len();
        let ghost old_enemies = self.enemies@;
        let mut i: usize = 0;
        while i < n
            invariant
                self.rng == old(self).rng,
                self.player == old(self).player,
                self.player == Some(p),
                p.wf(),
                self.projectiles@ == old(self).projectiles@,
                self.difficulty == old(self).difficulty,
                self.score == old(self).score,
                self.player_max_health == old(self).player_max_health,
                old_enemies == old(self).enemies@,
                n == old_enemies.len(),
                self.enemies.len() == n,
                0 <= i <= n,
                forall|j: int| i <= j < n ==> self.enemies@[j] == old_enemies[j],
                forall|j: int| 0 <= j < i ==> steer_step(old_enemies[j], #[trigger] self.enemies@[j], p),
                forall|j: int| 0 <= j < i ==> #[trigger] self.enemies@[j].wf(),
                forall|j: int| 0 <= j < n ==> #[trigger] old_enemies[j].wf(),
            decreases n - i,
        {
            let mut h = self.enemies[i];
            assert(old_enemies[i as int].wf());
            let target = target_position(h.enemy.target, &p);
            h.velocity.direction = steer(h.position, target);
            self.enemies.set(i, h);
            i = i + 1;
        }
    }

    /// Motion: every hostile and projectile moves along its velocity for `dt`
    /// milliseconds; the protagonist too, unless that would take it out of the
    /// level.
    pub fn move_entities(&mut self, dt: u64)
        requires
            old(self).wf(),
            dt <= MAX_DT_MS,
        ensures
            final(self).wf(),
            moved_all(*old(self), *final(self), dt as int),

    {
        let ghost old_enemies = self.enemies@;
        let ghost old_projectiles = self.projectiles@;
        let n = self.enemies.len();
        let mut i: usize = 0;
        while i < n
            invariant
                self.rng == old(self).rng,
                self.player == old(self).player,
                self.projectiles@ == old_projectiles,
                self.difficulty == old(self).difficulty,
                self.score == old(self).score,
                self.player_max_health == old(self).player_max_health,
                old_enemies == old(self).enemies@,
                old_projectiles == old(self).projectiles@,
                dt <= MAX_DT_MS,
                n == old_enemies.len(),
                self.enemies.len() == n,
                0 <= i <= n,
                forall|j: int| i <= j < n ==> self.enemies@[j] == old_enemies[j],
                forall|j: int|
                    0 <= j < i ==> #[trigger] self.enemies@[j] == (Hostile {
                        position: moved(
                            old_enemies[j].position,
                            displacement_for(old_enemies[j].velocity, dt as int),
                        ),
                        ..old_enemies[j]
                    }),
                forall|j: int| 0 <= j < n ==> #[trigger] old_enemies[j].wf(),
            decreases n - i,
        {
            let mut h = self.enemies[i];
            assert(old_enemies[i as int].wf());
            h.position = advance(h.position, h.velocity, dt);
            self.enemies.set(i, h);
            i = i + 1;
        }
        let m = self.projectiles.len();
        let mut k: usize = 0;
        while k < m
            invariant
                self.rng == old(self).rng,
                self.player == old(self).player,
                self.difficulty == old(self).difficulty,
                self.score == old(self).score,
                self.player_max_health == old(self).player_max_health,
                old_projectiles == old(self).projectiles@,
                dt <= MAX_DT_MS,
                m == old_projectiles.len(),
                self.projectiles.len() == m,
                self.enemies.len() == n,
                n == old_enemies.len(),
                forall|j: int|
                    0 <= j < n ==> #[trigger] self.enemies@[j] == (Hostile {
                        position: moved(
                            old_enemies[j].position,
                            displacement_for(old_enemies[j].velocity, dt as int),
                        ),
                        ..old_enemies[j]
                    }),
                0 <= k <= m,
                forall|j: int| k <= j < m ==> self.projectiles@[j] == old_projectiles[j],
                forall|j: int|
                    0 <= j < k ==> #[trigger] self.projectiles@[j] == (Projectile {
                        position: moved(
                            old_projectiles[j].position,
                            displacement_for(old_projectiles[j].velocity, dt as int),
                        ),
                        ..old_projectiles[j]
                    }),
                forall|j: int| 0 <= j < m ==> #[trigger] old_projectiles[j].wf(),
            decreases m - k,
        {
            let mut q = self.projectiles[k];
            assert(old_projectiles[k as int].wf());
            q.position = advance(q.position, q.velocity, dt);
            self.projectiles.set(k, q);
            k = k + 1;
        }
        if let Some(p) = self.player {
            let mut p2 = p;
            p2.position = advance_within_level(p.position, p.velocity, dt);
            self.player = Some(p2);
        }
        proof {
            assert forall|j: int| 0 <= j < self.enemies.len() implies #[trigger] self.enemies@[j].wf() by {
                assert(old_enemies[j].wf());
            }
            assert forall|j: int| 0 <= j < self.projectiles.len() implies #[trigger] self.projectiles@[j].wf() by {
                assert(old_projectiles[j].wf());
            }
        }
    }

    /// Facing: each hostile faces the way it moves horizontally, and keeps
    /// its facing when it does not.
    pub fn update_faces(&mut self)
        requires
            old(self).wf(),
        ensures
            final(self).wf(),
            faced(*old(self), *final(self)),

    {
        let ghost old_enemies = self.enemies@;
        let n = self.enemies.len();
        let mut i: usize = 0;
        while i < n
            invariant
                self.rng == old(self).rng,
                self.player == old(self).player,
                self.projectiles@ == old(self).projectiles@,
                self.difficulty == old(self).difficulty,
                self.score == old(self).score,
                self.player_max_health == old(self).player_max_health,
                old_enemies == old(self).enemies@,
                n == old_enemies.len(),
                self.enemies.len() == n,
                0 <= i <= n,
                forall|j: int| i <= j < n ==> self.enemies@[j] == old_enemies[j],
                forall|j: int|
                    0 <= j < i ==> #[trigger] self.enemies@[j] == (Hostile {
                        enemy: Enemy {
                            face: face_for(old_enemies[j].enemy.face, old_enemies[j].velocity.direction.x as int),
                            ..old_enemies[j].enemy
                        },
                        ..old_enemies[j]
                    }),
                forall|j: int| 0 <= j < n ==> #[trigger] old_enemies[j].wf(),
            decreases n - i,
        {
            let mut h = self.enemies[i];
            assert(old_enemies[i as int].wf());
            h.enemy.face = update_face(h.enemy.face, h.velocity.direction.x);
            self.enemies.set(i, h);
            i = i + 1;
        }
        proof {
            assert forall|j: int| 0 <= j < self.enemies.len() implies #[trigger] self.enemies@[j].wf() by {
                assert(old_enemies[j].wf());
            }
        }
    }

    /// Melee: hostiles are taken in order and each one's melee timer advances
    /// by `dt`. A hostile whose timer completes a cycle falls back to Hunting
    /// when the protagonist is out of reach; the first one with the
    /// protagonist in reach advances its state machine instead, and on going
    /// from ReadyBlade to SwingBlade deals one point of damage. That ends the
    /// pass: the hostiles after it are left as they were this tick, so at
    /// most one blow lands per tick. Without a protagonist the timers advance
    /// and nothing else happens.
    pub fn enemy_attack(&mut self, dt: u64) -> (r: AttackOutcome)
        requires
            old(self).wf(),
        ensures
            final(self).wf(),
            attacked(*old(self), *final(self), dt as int, r),

    {
        let ghost old_enemies = self.enemies@;
        let n = self.enemies.len();
        let mut i: usize = 0;
        match self.player {
            None => {
                while i < n
                    invariant
                        self.rng == old(self).rng,
                        self.player.is_none(),
                        self.projectiles@ == old(self).projectiles@,
                        self.difficulty == old(self).difficulty,
                        self.score == old(self).score,
                        self.player_max_health == old(self).player_max_health,
                        old_enemies == old(self).enemies@,
                        n == old_enemies.len(),
                        self.enemies.len() == n,
                        0 <= i <= n,
                        forall|j: int| i <= j < n ==> self.enemies@[j] == old_enemies[j],
                        forall|j: int|
                            0 <= j < i ==> #[trigger] self.enemies@[j] == with_melee(
                                old_enemies[j],
                                old_enemies[j].enemy.animation_state,
                                dt as int,
                            ),
                        forall|j: int| 0 <= j < n ==> #[trigger] old_enemies[j].wf(),
                    decreases n - i,
                {
                    let mut h = self.enemies[i];
                    assert(old_enemies[i as int].wf());
                    let _ = h.enemy.sword_hit_timer.tick(dt);
                    self.enemies.set(i, h);
                    i = i + 1;
                }
                proof {
                    assert forall|j: int| 0 <= j < self.enemies.len() implies #[trigger] self.enemies@[j].wf() by {
                        assert(old_enemies[j].wf());
                    }
                }
                AttackOutcome { striker: None, struck: false, player_died: false }
            },
            Some(p0) => {
                let mut p = p0;
                let mut striker: Option<usize> = None;
                let mut struck = false;
                let mut died = false;
                while i < n && striker.is_none()
                    invariant
                        self.rng == old(self).rng,
                        self.player == Some(p),
                        p0.wf(),
                        self.projectiles@ == old(self).projectiles@,
                        self.difficulty == old(self).difficulty,
                        self.score == old(self).score,
                        self.player_max_health == old(self).player_max_health,
                        old(self).player == Some(p0),
                        old_enemies == old(self).enemies@,
                        n == old_enemies.len(),
                        self.enemies.len() == n,
                        0 <= i <= n,
                        forall|j: int| 0 <= j < n ==> #[trigger] old_enemies[j].wf(),
                        striker is None ==> {
                            &&& p == p0
                            &&& !struck
                            &&& !died
                            &&& forall|j: int| i <= j < n ==> self.enemies@[j] == old_enemies[j]
                            &&& forall|j: int|
                                0 <= j < i ==> !engages(old_enemies[j], p0, dt as int)
                                    && #[trigger] self.enemies@[j] == melee_idle(old_enemies[j], dt as int)
                        },
                        striker matches Some(k) ==> {
                            &&& k < n
                            &&& i == k + 1
                            &&& engages(old_enemies[k as int], p0, dt as int)
                            &&& self.enemies@[k as int] == with_melee(
                                old_enemies[k as int],
                                next_state(old_enemies[k as int].enemy.animation_state, true),
                                dt as int,
                            )
                            &&& forall|j: int|
                                0 <= j < k ==> !engages(old_enemies[j], p0, dt as int)
                                    && #[trigger] self.enemies@[j] == melee_idle(old_enemies[j], dt as int)
                            &&& forall|j: int| k < j < n ==> self.enemies@[j] == old_enemies[j]
                            &&& struck == (old_enemies[k as int].enemy.animation_state == EnemyState::ReadyBlade)
                            &&& p == (Player {
                                health: if struck {
                                    Health { health: after_damage(p0.health.health as int, 1) as u32, ..p0.health }
                                } else {
                                    p0.health
                                },
                                ..p0
                            })
                            &&& died == (struck && p0.health.health > 0 && p.health.health == 0)
                        },
                    decreases n - i,
                {
                    let mut h = self.enemies[i];
                    assert(old_enemies[i as int].wf());
                    let fired = h.enemy.sword_hit_timer.tick(dt);
                    if fired {
                        if within(p.position, h.position, MELEE_RANGE) {
                            let (next, swing) = advance_state(h.enemy.animation_state, true);
                            h.enemy.animation_state = next;
                            if swing {
                                let alive = p.health.health > 0;
                                let dead = p.health.damage(1);
                                died = alive && dead;
                                struck = true;
                                self.player = Some(p);
                            }
                            striker = Some(i);
                        } else {
                            h.enemy.animation_state = EnemyState::Hunting;
                        }
                    }
                    self.enemies.set(i, h);
                    i = i + 1;
                }
                proof {
                    assert forall|j: int| 0 <= j < self.enemies.len() implies #[trigger] self.enemies@[j].wf() by {
                        assert(old_enemies[j].wf());
                    }
                }
                AttackOutcome { striker, struck, player_died: died }
            },
        }
    }

    /// The first hostile that projectile `a` overlaps.
    pub fn first_overlap(&self, a: usize) -> (r: Option<usize>)
        requires
            self.wf(),
            a < self.projectiles.len(),
        ensures
            r is None ==> forall|b: int|
                0 <= b < self.enemies.len() ==> !overlaps(self.projectiles@[a as int], #[trigger] self.enemies@[b]),
            r matches Some(b) ==> {
                &&& b < self.enemies.len()
                &&& overlaps(self.projectiles@[a as int], self.enemies@[b as int])
                &&& forall|c: int| 0 <= c < b ==> !overlaps(self.projectiles@[a as int], #[trigger] self.enemies@[c])
            },
    {
        let q = self.projectiles[a];
        assert(self.projectiles@[a as int].wf());
        let mut b: usize = 0;
        while b < self.enemies.len()
            invariant
                self.wf(),
                q == self.projectiles@[a as int],
                q.wf(),
                0 <= b <= self.enemies.len(),
                forall|c: int| 0 <= c < b ==> !overlaps(q, #[trigger] self.enemies@[c]),
            decreases self.enemies.len() - b,
        {
            assert(self.enemies@[b as int].wf());
            if within(q.position, self.enemies[b].position, HIT_RADIUS) {
                return Some(b);
            }
            b = b + 1;
        }
        None
    }

    /// Collisions: the first projectile (in order) that overlaps a hostile
    /// hits the first hostile it overlaps, dealing one point of damage, and is
    /// used up. A hostile brought to zero health is removed, scores one, and
    /// yields exactly one death notice, with its position. That ends the pass:
    /// at most one hit lands per tick.
    pub fn projectile_hit_enemy(&mut self) -> (r: HitOutcome)
        requires
            old(self).wf(),
        ensures
            final(self).wf(),
            hits_resolved(*old(self), *final(self), r),

    {
        let np = self.projectiles.len();
        let mut a: usize = 0;
        while a < np
            invariant
                self.rng == old(self).rng,
                self.wf(),
                np == self.projectiles.len(),
                self.enemies@ == old(self).enemies@,
                self.projectiles@ == old(self).projectiles@,
                self.player == old(self).player,
                self.difficulty == old(self).difficulty,
                self.score == old(self).score,
                self.player_max_health == old(self).player_max_health,
                0 <= a <= np,
                forall|a2: int, b2: int|
                    0 <= a2 < a && 0 <= b2 < self.enemies.len() ==> !overlaps(
                        #[trigger] self.projectiles@[a2],
                        #[trigger] self.enemies@[b2],
                    ),
            decreases np - a,
        {
            match self.first_overlap(a) {
                None => {
                    a = a + 1;
                },
                Some(b) => {
                    let ghost old_enemies = self.enemies@;
                    let ghost old_projectiles = self.projectiles@;
                    let mut victim = self.enemies[b];
                    assert(old_enemies[b as int].wf());
                    let dead = victim.health.damage(1);
                    let died = if dead {
                        self.enemies.remove(b);
                        self.score.increase(1);
                        Some(EnemyDied { pos: victim.position })
                    } else {
                        self.enemies.set(b, victim);
                        None
                    };
                    self.projectiles.remove(a);
                    proof {
                        assert forall|j: int| 0 <= j < self.enemies.len() implies #[trigger] self.enemies@[j].wf() by {
                            if dead {
                                assert(self.enemies@[j] == old_enemies[if j < b { j } else { j + 1 }]);
                                assert(old_enemies[if j < b { j } else { j + 1 }].wf());
                            } else {
                                assert(old_enemies[j].wf());
                            }
                        }
                        assert forall|j: int| 0 <= j < self.projectiles.len() implies #[trigger] self.projectiles@[j].wf() by {
                            assert(self.projectiles@[j] == old_projectiles[if j < a { j } else { j + 1 }]);
                            assert(old_projectiles[if j < a { j } else { j + 1 }].wf());
                        }
                    }
                    return HitOutcome { hit: Some(Hit { projectile: a, enemy: b }), died };
                },
            }
        }
        HitOutcome { hit: None, died: None }
    }

    /// Removes the projectiles that have left the level.
    pub fn projectile_out_of_bounds(&mut self)
        requires
            old(self).wf(),
        ensures
            final(self).wf(),
            pruned(*old(self), *final(self)),

    {
        let ghost old_projectiles = self.projectiles@;
        let mut kept: Vec<Projectile> = Vec::new();
        let mut k: usize = 0;
        while k < self.projectiles.len()
            invariant
                self.rng == old(self).rng,
                self.wf(),
                self.projectiles@ == old_projectiles,
                old_projectiles == old(self).projectiles@,
                self.player == old(self).player,
                self.enemies@ == old(self).enemies@,
                self.difficulty == old(self).difficulty,
                self.score == old(self).score,
                self.player_max_health == old(self).player_max_health,
                0 <= k <= old_projectiles.len(),
                kept@ == inside_only(old_projectiles.take(k as int)),
                forall|j: int| 0 <= j < kept.len() ==> #[trigger] kept@[j].wf(),
            decreases old_projectiles.len() - k,
        {
            let q = self.projectiles[k];
            assert(old_projectiles.take(k + 1).drop_last() == old_projectiles.take(k as int));
            assert(old_projectiles.take(k + 1).last() == q);
            assert(old_projectiles[k as int].wf());
            if pos_inside_level(&q.position) {
                kept.push(q);
            }
            k = k + 1;
        }
        assert(old_projectiles.take(k as int) == old_projectiles);
        self.projectiles = kept;
    }

    /// Advances the difficulty curve by `dt` milliseconds.
    pub fn increase_difficulty(&mut self, dt: u64)
        requires
            old(self).wf(),
        ensures
            final(self).wf(),
            difficulty_advanced(*old(self), *final(self), dt as int),

    {
        let before = self.difficulty.count;
        self.difficulty.increase(dt);
        let after = self.difficulty.count;
        assert(after / 1000 >= before / 1000) by (nonlinear_arith)
            requires
                after >= before,
        ;
    }

    /// Sets the protagonist's movement intent: its direction (in thousandths
    /// of a unit length) and whether it sprints at twice its walking speed.
    /// Without a protagonist nothing happens.
    pub fn steer_player(&mut self, direction: Point, sprint: bool)
        requires
            old(self).wf(),
            in_box(direction, -DIRECTION_LIMIT, DIRECTION_LIMIT as int),
        ensures
            final(self).wf(),
            final(self).enemies@ == old(self).enemies@,
            final(self).projectiles@ == old(self).projectiles@,
            final(self).difficulty == old(self).difficulty,
            final(self).score == old(self).score,
            final(self).player_max_health == old(self).player_max_health,
            old(self).player.is_none() ==> final(self).player.is_none(),
            (old(self).player matches Some(p) ==> final(self).player == Some(
                Player {
                    velocity: Velocity {
                        direction,
                        speed: if sprint {
                            PLAYER_SPRINT_SPEED
                        } else {
                            PLAYER_MOVE_SPEED
                        },
                    },
                    ..p
                },
            )),
    {
        if let Some(p) = self.player {
            let speed = if sprint { PLAYER_SPRINT_SPEED } else { PLAYER_MOVE_SPEED };
            self.player = Some(Player { velocity: Velocity { direction, speed }, ..p });
        }
    }

    /// The protagonist fires a projectile along `aim`; returns whether one was
    /// fired (not without a protagonist, nor along the zero vector).
    pub fn fire(&mut self, aim: Point) -> (fired: bool)
        requires
            old(self).wf(),
            aim.wf(),
        ensures
            final(self).wf(),
            final(self).player == old(self).player,
            final(self).enemies@ == old(self).enemies@,
            final(self).difficulty == old(self).difficulty,
            final(self).score == old(self).score,
            final(self).player_max_health == old(self).player_max_health,
            fired == (old(self).player.is_some() && !(aim.x == 0 && aim.y == 0)),
            fired ==> final(self).projectiles@ == old(self).projectiles@.push(
                Projectile::spec_fired(old(self).player.unwrap().position, aim),
            ),
            !fired ==> final(self).projectiles@ == old(self).projectiles@,
    {
        match self.player {
            Some(p) => {
                if aim.is_zero() {
                    return false;
                }
                let q = Projectile::new(p.position, aim);
                self.projectiles.push(q);
                proof {
                    assert forall|j: int| 0 <= j < self.projectiles.len() implies #[trigger] self.projectiles@[j].wf() by {
                        if j < old(self).projectiles.len() {
                            assert(old(self).projectiles@[j].wf());
                        }
                    }
                }
                true
            },
            None => false,
        }
    }

    /// One simulation tick of `dt` milliseconds, in this order: difficulty
    /// curve, spawn director, target selector, steering, motion, melee,
    /// facing, collisions, removal of projectiles that left the level. Each
    /// pass reads what the passes before it wrote; the report holds the
    /// outcomes of the melee and collision passes.
    pub fn tick(&mut self, dt: u64) -> (r: TickReport)
        requires
            old(self).wf(),
            dt <= MAX_DT_MS,
        ensures
            final(self).wf(),
            exists|s1: Session, s2: Session, s3: Session, s4: Session, s5: Session, s6: Session, s7: Session, s8: Session|
                #[trigger] tick_chain(*old(self), s1, s2, s3, s4, s5, s6, s7, s8, *final(self), dt as int, r),
    {
        let ghost s0 = *self;
        self.increase_difficulty(dt);
        let ghost s1 = *self;
        self.spawn_enemies();
        let ghost s2 = *self;
        self.switch_targets(dt);
        let ghost s3 = *self;
        self.steer_enemies();
        let ghost s4 = *self;
        self.move_entities(dt);
        let ghost s5 = *self;
        let attack = self.enemy_attack(dt);
        let ghost s6 = *self;
        self.update_faces();
        let ghost s7 = *self;
        let hit = self.projectile_hit_enemy();
        let ghost s8 = *self;
        self.projectile_out_of_bounds();
        let r = TickReport { attack, hit };
        assert(tick_chain(s0, s1, s2, s3, s4, s5, s6, s7, s8, *self, dt as int, r));
        r
    }
}

/// The difficulty step: only the curve advances.
pub open spec fn difficulty_advanced(o: Session, n: Session, dt: int) -> bool {
    &&& n.player == o.player
    &&& n.enemies@ == o.enemies@
    &&& n.projectiles@ == o.projectiles@
    &&& n.difficulty == advanced(o.difficulty, dt)
    &&& n.score == o.score
    &&& n.player_max_health == o.player_max_health
    &&& n.rng == o.rng
}

/// The spawn director's step (see `Session::spawn_enemies`).
pub open spec fn spawned(o: Session, n: Session) -> bool {
    &&& n.player == o.player
    &&& n.projectiles@ == o.projectiles@
    &&& n.difficulty == o.difficulty
    &&& n.score == o.score
    &&& n.player_max_health == o.player_max_health
    &&& o.player.is_none() ==> n.enemies@ == o.enemies@
    &&& (o.player matches Some(p) ==> {
        &&& n.enemies.len() == o.difficulty.max_count()
        &&& forall|i: int|
            0 <= i < o.enemies.len() ==> n.enemies@[i] == o.enemies@[i]
        &&& forall|i: int|
            o.enemies.len() <= i < n.enemies.len() ==> is_spawned(
                #[trigger] n.enemies@[i],
                p.position,
                o.difficulty.enemy_speed(),
            )
            })
    &&& o.player.is_none() ==> n.rng == o.rng
}

/// The target selector's step (see `Session::switch_targets`).
pub open spec fn retargeted(o: Session, n: Session, dt: int) -> bool {
    &&& n.player == o.player
    &&& n.projectiles@ == o.projectiles@
    &&& n.difficulty == o.difficulty
    &&& n.score == o.score
    &&& n.player_max_health == o.player_max_health
    &&& n.enemies.len() == o.enemies.len()
    &&& o.player.is_none() ==> n.enemies@ == o.enemies@
    &&& (o.player matches Some(p) ==> forall|i: int|
        0 <= i < o.enemies.len() ==> retarget_step(
            o.enemies@[i],
            #[trigger] n.enemies@[i],
            p.position,
            dt,
        ))
    &&& o.player.is_none() ==> n.rng == o.rng
}

/// The steering step (see `Session::steer_enemies`).
pub open spec fn steered(o: Session, n: Session) -> bool {
    &&& n.player == o.player
    &&& n.projectiles@ == o.projectiles@
    &&& n.difficulty == o.difficulty
    &&& n.score == o.score
    &&& n.player_max_health == o.player_max_health
    &&& n.enemies.len() == o.enemies.len()
    &&& o.player.is_none() ==> n.enemies@ == o.enemies@
    &&& (o.player matches Some(p) ==> forall|i: int|
        0 <= i < o.enemies.len() ==> steer_step(
            o.enemies@[i],
            #[trigger] n.enemies@[i],
            p,
        ))
    &&& n.rng == o.rng
}

/// The motion step (see `Session::move_entities`).
pub open spec fn moved_all(o: Session, n: Session, dt: int) -> bool {
    &&& n.difficulty == o.difficulty
    &&& n.score == o.score
    &&& n.player_max_health == o.player_max_health
    &&& n.enemies.len() == o.enemies.len()
    &&& n.projectiles.len() == o.projectiles.len()
    &&& forall|i: int|
        0 <= i < o.enemies.len() ==> #[trigger] n.enemies@[i] == (Hostile {
            position: moved(
                o.enemies@[i].position,
                displacement_for(o.enemies@[i].velocity, dt),
            ),
            ..o.enemies@[i]
        })
    &&& forall|i: int|
        0 <= i < o.projectiles.len() ==> #[trigger] n.projectiles@[i] == (
        Projectile {
            position: moved(
                o.projectiles@[i].position,
                displacement_for(o.projectiles@[i].velocity, dt),
            ),
            ..o.projectiles@[i]
        })
    &&& o.player.is_none() ==> n.player.is_none()
    &&& (o.player matches Some(p) ==> n.player == Some(
        Player { position: clamp_to_level(moved(p.position, displacement_for(p.velocity, dt))), ..p },
    ))
    &&& n.rng == o.rng
}

/// The melee step and its outcome (see `Session::enemy_attack`).
pub open spec fn attacked(o: Session, n: Session, dt: int, r: AttackOutcome) -> bool {
    &&& n.projectiles@ == o.projectiles@
    &&& n.difficulty == o.difficulty
    &&& n.score == o.score
    &&& n.player_max_health == o.player_max_health
    &&& n.enemies.len() == o.enemies.len()
    &&& o.player.is_none() ==> {
        &&& n.player.is_none()
        &&& r == (AttackOutcome { striker: None, struck: false, player_died: false })
        &&& forall|i: int|
            0 <= i < o.enemies.len() ==> #[trigger] n.enemies@[i] == with_melee(
                o.enemies@[i],
                o.enemies@[i].enemy.animation_state,
                dt,
            )
            }
    &&& (o.player matches Some(p) ==> {
        &&& r.striker is None ==> forall|i: int|
            0 <= i < o.enemies.len() ==> !engages(o.enemies@[i], p, dt)
                && #[trigger] n.enemies@[i] == melee_idle(o.enemies@[i], dt)
        &&& r.striker matches Some(k) ==> {
            &&& k < o.enemies.len()
            &&& engages(o.enemies@[k as int], p, dt)
            &&& n.enemies@[k as int] == with_melee(
                o.enemies@[k as int],
                next_state(o.enemies@[k as int].enemy.animation_state, true),
                dt,
            )
            &&& forall|i: int|
                0 <= i < k ==> !engages(o.enemies@[i], p, dt)
                    && #[trigger] n.enemies@[i] == melee_idle(o.enemies@[i], dt)
            &&& forall|i: int|
                k < i < o.enemies.len() ==> #[trigger] n.enemies@[i] == o.enemies@[i]
        }
        &&& r.struck == (r.striker matches Some(k) && o.enemies@[k as int].enemy.animation_state
            == EnemyState::ReadyBlade)
        &&& n.player == Some(
            Player {
                health: if r.struck {
                    Health {
                        health: after_damage(p.health.health as int, 1) as u32,
                        ..p.health
                    }
                } else {
                    p.health
                },
                ..p
            },
        )
        &&& r.player_died == (r.struck && p.health.health > 0 && n.player.unwrap().health.health
            == 0)
            })
    &&& n.rng == o.rng
}

/// The facing step (see `Session::update_faces`).
pub open spec fn faced(o: Session, n: Session) -> bool {
    &&& n.player == o.player
    &&& n.projectiles@ == o.projectiles@
    &&& n.difficulty == o.difficulty
    &&& n.score == o.score
    &&& n.player_max_health == o.player_max_health
    &&& n.enemies.len() == o.enemies.len()
    &&& forall|i: int|
        0 <= i < o.enemies.len() ==> #[trigger] n.enemies@[i] == (Hostile {
            enemy: Enemy {
                face: face_for(
                    o.enemies@[i].enemy.face,
                    o.enemies@[i].velocity.direction.x as int,
                ),
                ..o.enemies@[i].enemy
            },
            ..o.enemies@[i]
        })
    &&& n.rng == o.rng
}

/// The collision step and its outcome (see `Session::projectile_hit_enemy`).
pub open spec fn hits_resolved(o: Session, n: Session, r: HitOutcome) -> bool {
    &&& n.player == o.player
    &&& n.difficulty == o.difficulty
    &&& n.player_max_health == o.player_max_health
    &&& r.hit is None ==> {
        &&& r.died is None
        &&& n.enemies@ == o.enemies@
        &&& n.projectiles@ == o.projectiles@
        &&& n.score == o.score
        &&& forall|a: int, b: int|
            0 <= a < o.projectiles.len() && 0 <= b < o.enemies.len() ==> !overlaps(
                #[trigger] o.projectiles@[a],
                #[trigger] o.enemies@[b],
            )
            }
    &&& (r.hit matches Some(h) ==> {
        let a = h.projectile;
        let b = h.enemy;
        let victim = o.enemies@[b as int];
        &&& a < o.projectiles.len()
        &&& b < o.enemies.len()
        &&& overlaps(o.projectiles@[a as int], victim)
        &&& forall|a2: int, b2: int|
            0 <= a2 < a && 0 <= b2 < o.enemies.len() ==> !overlaps(
                #[trigger] o.projectiles@[a2],
                #[trigger] o.enemies@[b2],
            )
        &&& forall|b2: int|
            0 <= b2 < b ==> !overlaps(o.projectiles@[a as int], #[trigger] o.enemies@[b2])
        &&& n.projectiles@ == o.projectiles@.remove(a as int)
        &&& if wounded(victim).health.health == 0 {
            &&& r.died == Some(EnemyDied { pos: victim.position })
            &&& n.enemies@ == o.enemies@.remove(b as int)
            &&& n.score == increased(o.score, 1)
        } else {
            &&& r.died is None
            &&& n.enemies@ == o.enemies@.update(b as int, wounded(victim))
            &&& n.score == o.score
        }
            })
    &&& n.rng == o.rng
}

/// Removal of the projectiles that left the level.
pub open spec fn pruned(o: Session, n: Session) -> bool {
    &&& n.player == o.player
    &&& n.enemies@ == o.enemies@
    &&& n.difficulty == o.difficulty
    &&& n.score == o.score
    &&& n.player_max_health == o.player_max_health
    &&& n.projectiles@ == inside_only(o.projectiles@)
    &&& n.rng == o.rng
}

/// The melee pass runs each hostile's state machine: a hostile whose timer
/// completes a cycle with the protagonist out of reach falls back to
/// Hunting, and the one hostile of a session that engages the protagonist
/// takes the machine's next in-range state, swinging (and dealing one point
/// of damage) exactly when it was ReadyBlade.
pub proof fn lemma_melee_pass(o: Session, n: Session, dt: int, r: AttackOutcome, p: Player)
    requires
        attacked(o, n, dt, r),
        o.player == Some(p),
        o.enemies.len() == 1,
    ensures
        fires(o.enemies@[0].enemy.sword_hit_timer, dt) && !in_melee(o.enemies@[0], p)
            ==> n.enemies@[0].enemy.animation_state == EnemyState::Hunting && !r.struck
            && n.player == o.player,
        engages(o.enemies@[0], p, dt) ==> {
            &&& n.enemies@[0].enemy.animation_state == next_state(o.enemies@[0].enemy.animation_state, true)
            &&& r.struck == strikes(o.enemies@[0].enemy.animation_state, true)
            &&& n.player matches Some(q) && q.health.health == (if r.struck {
                after_damage(p.health.health as int, 1)
            } else {
                p.health.health as int
            })
        },
{
    if r.striker is None {
        assert(n.enemies@[0] == melee_idle(o.enemies@[0], dt));
    } else {
        assert(r.striker == Some(0usize));
    }
}

/// The passes of one tick, in order, from `o` through the intermediate
/// sessions `s1` to `s8` to `n`, with the outcomes reported in `r`.
pub open spec fn tick_chain(
    o: Session,
    s1: Session,
    s2: Session,
    s3: Session,
    s4: Session,
    s5: Session,
    s6: Session,
    s7: Session,
    s8: Session,
    n: Session,
    dt: int,
    r: TickReport,
) -> bool {
    &&& difficulty_advanced(o, s1, dt)
    &&& spawned(s1, s2)
    &&& retargeted(s2, s3, dt)
    &&& steered(s3, s4)
    &&& moved_all(s4, s5, dt)
    &&& attacked(s5, s6, dt, r.attack)
    &&& faced(s6, s7)
    &&& hits_resolved(s7, s8, r.hit)
    &&& pruned(s8, n)
}

} // verus!
