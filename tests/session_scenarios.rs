use mageanoid::app_state::{is_running, next_app_state, AppEvent, AppState, SessionAction};
use mageanoid::combat::{Enemy, EnemyState, EnemyTarget};
use mageanoid::geometry::{distance_sq, Point};
use mageanoid::health::Health;
use mageanoid::movement::{advance, advance_within_level, pos_inside_level, steer, Velocity};
use mageanoid::random::sample_in_annulus;
use mageanoid::session::{Hostile, Projectile, Session};
use mageanoid::timer::RepeatingTimer;

fn hostile_at(x: i64, y: i64) -> Hostile {
    Hostile {
        enemy: Enemy::new(),
        position: Point::new(x, y),
        velocity: Velocity::from_vec2(Point::new(0, 0), 60_000),
        health: Health::new(1),
    }
}

fn started(max_health: u32) -> Session {
    let mut s = Session::new(42, max_health);
    s.start();
    s
}

#[test]
fn spawn_fills_cap_on_annulus() {
    let mut s = started(10);
    s.difficulty.count = 5_000;
    s.difficulty.speed = 60_000_000;
    s.spawn_enemies();
    assert_eq!(s.enemies.len(), 5);
    let origin = Point::new(0, 0);
    for h in &s.enemies {
        let d = distance_sq(origin, h.position);
        assert!(d >= 900_000u128 * 900_000);
        assert!(d <= 1_800_000u128 * 1_800_000);
        assert_eq!(h.enemy.animation_state, EnemyState::Hunting);
        assert_eq!(h.velocity.speed, 60_000);
        assert_eq!(h.health.health, 1);
    }
    s.spawn_enemies();
    assert_eq!(s.enemies.len(), 5);
}

#[test]
fn spawn_without_player_does_nothing() {
    let mut s = Session::new(1, 10);
    s.spawn_enemies();
    assert_eq!(s.enemies.len(), 0);
}

#[test]
fn spawn_default_cap() {
    let mut s = started(10);
    s.spawn_enemies();
    assert_eq!(s.enemies.len(), 32);
}

#[test]
fn projectile_kills_one_hit_hostile() {
    let mut s = started(10);
    s.enemies.push(hostile_at(200_000, 0));
    s.projectiles.push(Projectile {
        position: Point::new(240_000, 10_000),
        velocity: Velocity::from_vec2(Point::new(1000, 0), 420_000),
    });
    let out = s.projectile_hit_enemy();
    let hit = out.hit.expect("a hit");
    assert_eq!(hit.projectile, 0);
    assert_eq!(hit.enemy, 0);
    assert_eq!(out.died.map(|d| d.pos), Some(Point::new(200_000, 0)));
    assert_eq!(s.enemies.len(), 0);
    assert_eq!(s.projectiles.len(), 0);
    assert_eq!(s.score.current_score, 1);
    let again = s.projectile_hit_enemy();
    assert!(again.hit.is_none());
    assert!(again.died.is_none());
    assert_eq!(s.score.current_score, 1);
}

#[test]
fn projectile_wounds_tougher_hostile() {
    let mut s = started(10);
    let mut h = hostile_at(0, 300_000);
    h.health = Health::new(2);
    s.enemies.push(h);
    s.projectiles.push(Projectile {
        position: Point::new(0, 300_000),
        velocity: Velocity::from_vec2(Point::new(0, 1000), 420_000),
    });
    let out = s.projectile_hit_enemy();
    assert!(out.hit.is_some());
    assert!(out.died.is_none());
    assert_eq!(s.enemies.len(), 1);
    assert_eq!(s.enemies[0].health.health, 1);
    assert_eq!(s.projectiles.len(), 0);
    assert_eq!(s.score.current_score, 0);
}

#[test]
fn projectile_out_of_reach_misses() {
    let mut s = started(10);
    s.enemies.push(hostile_at(0, 0));
    s.projectiles.push(Projectile {
        position: Point::new(64_001, 0),
        velocity: Velocity::from_vec2(Point::new(1000, 0), 420_000),
    });
    let out = s.projectile_hit_enemy();
    assert!(out.hit.is_none());
    assert_eq!(s.enemies.len(), 1);
    assert_eq!(s.projectiles.len(), 1);
}

#[test]
fn one_hit_per_tick() {
    let mut s = started(10);
    s.enemies.push(hostile_at(300_000, 0));
    s.enemies.push(hostile_at(0, 300_000));
    s.projectiles.push(Projectile {
        position: Point::new(0, 300_000),
        velocity: Velocity::from_vec2(Point::new(0, 0), 420_000),
    });
    s.projectiles.push(Projectile {
        position: Point::new(300_000, 0),
        velocity: Velocity::from_vec2(Point::new(0, 0), 420_000),
    });
    let out = s.projectile_hit_enemy();
    let hit = out.hit.unwrap();
    assert_eq!((hit.projectile, hit.enemy), (0, 1));
    assert_eq!(s.enemies.len(), 1);
    assert_eq!(s.projectiles.len(), 1);
}

#[test]
fn last_blow_fails_session_once() {
    let mut s = started(1);
    let mut h = hostile_at(10_000, 0);
    h.enemy.animation_state = EnemyState::ReadyBlade;
    h.enemy.sword_hit_timer = RepeatingTimer { period_ms: 300, elapsed_ms: 299 };
    s.enemies.push(h);
    let out = s.enemy_attack(1);
    assert_eq!(out.striker, Some(0));
    assert!(out.struck);
    assert!(out.player_died);
    assert_eq!(s.player.unwrap().health.health, 0);
    assert_eq!(s.enemies[0].enemy.animation_state, EnemyState::SwingBlade);
    s.enemies[0].enemy.animation_state = EnemyState::ReadyBlade;
    let again = s.enemy_attack(300);
    assert!(again.struck);
    assert!(!again.player_died);
    assert_eq!(s.player.unwrap().health.health, 0);
}

#[test]
fn melee_state_sequence_in_session() {
    let mut s = started(10);
    s.enemies.push(hostile_at(0, 50_000));
    let want = [
        EnemyState::ReadyBlade,
        EnemyState::SwingBlade,
        EnemyState::ReadyBlade,
        EnemyState::SwingBlade,
    ];
    for w in want {
        s.enemy_attack(300);
        assert_eq!(s.enemies[0].enemy.animation_state, w);
    }
    assert_eq!(s.player.unwrap().health.health, 8);
    s.enemies[0].position = Point::new(0, 64_001);
    s.enemy_attack(300);
    assert_eq!(s.enemies[0].enemy.animation_state, EnemyState::Hunting);
}

#[test]
fn melee_waits_for_timer() {
    let mut s = started(10);
    s.enemies.push(hostile_at(0, 0));
    let out = s.enemy_attack(100);
    assert!(out.striker.is_none());
    assert_eq!(s.enemies[0].enemy.animation_state, EnemyState::Hunting);
    assert_eq!(s.enemies[0].enemy.sword_hit_timer.elapsed_ms, 100);
}

#[test]
fn only_first_hostile_in_reach_acts() {
    let mut s = started(10);
    let mut a = hostile_at(0, 0);
    a.enemy.animation_state = EnemyState::ReadyBlade;
    let mut b = hostile_at(1_000, 0);
    b.enemy.animation_state = EnemyState::ReadyBlade;
    s.enemies.push(a);
    s.enemies.push(b);
    let out = s.enemy_attack(300);
    assert_eq!(out.striker, Some(0));
    assert_eq!(s.player.unwrap().health.health, 9);
    assert_eq!(s.enemies[1].enemy.animation_state, EnemyState::ReadyBlade);
    assert_eq!(s.enemies[1].enemy.sword_hit_timer.elapsed_ms, 0);
}

#[test]
fn steering_and_motion() {
    assert_eq!(steer(Point::new(0, 0), Point::new(300_000, 400_000)), Point::new(600, 800));
    assert_eq!(steer(Point::new(0, 0), Point::new(63_999, 0)), Point::new(0, 0));
    let v = Velocity::from_vec2(Point::new(1000, 0), 60_000);
    assert_eq!(advance(Point::new(0, 0), v, 500), Point::new(30_000, 0));
    let slow = Velocity::from_vec2(Point::new(500, 0), 60_000);
    assert_eq!(advance(Point::new(0, 0), slow, 1000), Point::new(30_000, 0));
    let still = Velocity::from_vec2(Point::new(0, 0), 60_000);
    assert_eq!(advance(Point::new(5, 5), still, 1000), Point::new(5, 5));
}

#[test]
fn protagonist_stays_in_level() {
    let v = Velocity::from_vec2(Point::new(1000, 0), 175_000);
    let edge = Point::new(1_550_000, 0);
    assert_eq!(advance_within_level(edge, v, 1000), Point::new(1_560_000, 0));
    let near = Point::new(1_559_000, 0);
    assert_eq!(advance_within_level(near, v, 100), Point::new(1_560_000, 0));
    let down = Velocity::from_vec2(Point::new(0, -1000), 175_000);
    assert_eq!(advance_within_level(Point::new(5, -1_600_000), down, 1000), Point::new(5, -1_660_500));
    assert_eq!(advance_within_level(Point::new(0, 0), v, 1000), Point::new(175_000, 0));
    assert!(pos_inside_level(&Point::new(-1_640_000, 1_693_000)));
    assert!(!pos_inside_level(&Point::new(0, 1_693_001)));
}

#[test]
fn hostiles_steer_toward_player() {
    let mut s = started(10);
    s.enemies.push(hostile_at(500_000, 0));
    s.enemies.push(hostile_at(10_000, 0));
    s.steer_enemies();
    assert_eq!(s.enemies[0].velocity.direction, Point::new(-1000, 0));
    assert_eq!(s.enemies[1].velocity.direction, Point::new(0, 0));
    s.update_faces();
    assert_eq!(s.enemies[0].enemy.face, mageanoid::combat::Face::Left);
}

#[test]
fn leading_target_uses_player_velocity() {
    let mut s = started(10);
    s.steer_player(Point::new(0, 1000), false);
    let mut h = hostile_at(100_000, 128_000);
    h.enemy.target = EnemyTarget::PlayerFuture;
    s.enemies.push(h);
    s.steer_enemies();
    assert_eq!(s.enemies[0].velocity.direction, Point::new(-1000, 0));
}

#[test]
fn retarget_picks_allowed_targets() {
    let mut s = started(10);
    for i in 0..30 {
        s.enemies.push(hostile_at(i * 10_000, 0));
    }
    s.switch_targets(6000);
    for h in &s.enemies {
        assert_eq!(h.enemy.target_switch_timer.elapsed_ms, 0);
        if let EnemyTarget::Location(q) = h.enemy.target {
            let d = distance_sq(Point::new(0, 0), q);
            assert!(d >= 128_000u128 * 128_000 && d <= 512_000u128 * 512_000);
        }
    }
}

#[test]
fn annulus_samples_stay_in_ring() {
    let mut rng = wyrand::WyRand::new(7);
    let c = Point::new(-20_000, 35_000);
    for _ in 0..200 {
        let p = sample_in_annulus(c, &mut rng, 128_000, 512_000);
        let d = distance_sq(c, p);
        assert!(d >= 128_000u128 * 128_000 && d <= 512_000u128 * 512_000);
    }
    let p = sample_in_annulus(c, &mut rng, 3_000, 3_000);
    assert_eq!(distance_sq(c, p), 9_000_000);
}

#[test]
fn fire_and_leave_level() {
    let mut s = started(10);
    assert!(!s.fire(Point::new(0, 0)));
    assert!(s.fire(Point::new(3, 4)));
    assert_eq!(s.projectiles.len(), 1);
    assert_eq!(s.projectiles[0].position, Point::new(19_200, 25_600));
    assert_eq!(s.projectiles[0].velocity.direction, Point::new(600, 800));
    s.projectiles[0].position = Point::new(0, 2_000_000);
    s.projectile_out_of_bounds();
    assert_eq!(s.projectiles.len(), 0);
    let mut idle = Session::new(3, 10);
    assert!(idle.player.is_none());
    assert!(!idle.fire(Point::new(1, 0)));
}

#[test]
fn ticks_keep_population_under_cap() {
    let mut s = started(1000);
    s.steer_player(Point::new(1000, 0), false);
    for _ in 0..200 {
        let report = s.tick(16);
        assert!(s.enemies.len() <= s.difficulty.get_enemy_max_count());
        if report.attack.player_died {
            break;
        }
        let p = s.player.unwrap();
        assert!(p.health.health <= p.health.max_health);
        assert!(pos_inside_level(&p.position));
    }
    assert_eq!(s.difficulty.speed, 60_000_000 + 200 * 16 * 200);
}

#[test]
fn session_restart_resets() {
    let mut s = started(10);
    s.tick(16);
    s.score.increase(4);
    s.end();
    assert!(s.player.is_none());
    assert_eq!(s.enemies.len(), 0);
    s.start();
    assert_eq!(s.difficulty.speed, 60_000_000);
    assert_eq!(s.difficulty.count, 32_000);
    assert_eq!(s.score.current_score, 0);
    assert_eq!(s.score.high_score, 4);
    assert_eq!(s.player.unwrap().health.health, 10);
}

#[test]
fn screen_transitions() {
    assert_eq!(next_app_state(AppState::MainMenu, AppEvent::Play), (AppState::InGame, SessionAction::Start));
    assert_eq!(next_app_state(AppState::InGame, AppEvent::TogglePause), (AppState::Paused, SessionAction::Keep));
    assert_eq!(next_app_state(AppState::Paused, AppEvent::TogglePause), (AppState::InGame, SessionAction::Keep));
    assert_eq!(next_app_state(AppState::Paused, AppEvent::Quit), (AppState::MainMenu, SessionAction::End));
    assert_eq!(next_app_state(AppState::InGame, AppEvent::PlayerDied), (AppState::Death, SessionAction::Keep));
    assert_eq!(next_app_state(AppState::Death, AppEvent::Dismiss), (AppState::MainMenu, SessionAction::End));
    assert_eq!(next_app_state(AppState::MainMenu, AppEvent::Quit), (AppState::MainMenu, SessionAction::Keep));
    assert!(is_running(AppState::InGame));
    assert!(!is_running(AppState::Paused));
}

#[test]
fn hostile_pose_follows_state_and_motion() {
    let mut h = hostile_at(0, 0);
    assert_eq!(h.pose(), (0, 0));
    h.enemy.animation_state = EnemyState::SwingBlade;
    h.enemy.face = mageanoid::combat::Face::Right;
    h.velocity = Velocity::from_vec2(Point::new(1000, 0), 60_000);
    assert_eq!(h.pose(), (10, 11));
}

#[test]
fn started_player_is_alive_at_origin() {
    let s = started(3);
    let p = s.player.unwrap();
    assert_eq!(p.position, Point::new(0, 0));
    assert_eq!(p.health.health, 3);
    assert_eq!(p.health.max_health, 3);
    assert_eq!(p.velocity.direction, Point::new(0, 0));
    assert_eq!(p.velocity.speed, 175_000);
}

#[test]
fn tick_advances_difficulty_before_spawning() {
    let mut s = started(10);
    s.difficulty.count = 4_999;
    s.tick(1);
    assert_eq!(s.enemies.len(), 5);
    assert_eq!(s.difficulty.count, 5_000);
}
