use mageanoid::combat::{
    advance_state, draw_wants_location, pose_indices, target_from_draw, update_face, walk_indices, Enemy,
    EnemyState, EnemyTarget, Face,
};
use mageanoid::difficulty::EnemyDifficulty;
use mageanoid::geometry::{ceil_sqrt, draw_depth, scale_to_length, within, Point};
use mageanoid::health::Health;
use mageanoid::mixer::Mixer;
use mageanoid::score::Score;
use mageanoid::timer::RepeatingTimer;

#[test]
fn health_new_is_full() {
    let h = Health::new(5);
    assert_eq!(h.health, 5);
    assert_eq!(h.max_health, 5);
}

#[test]
fn health_damage_reports_death() {
    let mut h = Health::new(3);
    assert!(!h.damage(1));
    assert_eq!(h.health, 2);
    assert!(h.damage(5));
    assert_eq!(h.health, 0);
}

#[test]
fn health_damage_floor_is_idempotent() {
    let mut h = Health::new(1);
    assert!(h.damage(1));
    for _ in 0..5 {
        assert!(h.damage(1));
        assert_eq!(h.health, 0);
    }
    assert!(h.damage(0));
    assert_eq!(h.health, 0);
}

#[test]
fn health_percentage_values() {
    let mut h = Health::new(4);
    assert_eq!(h.health_percentage(), 100);
    h.damage(1);
    assert_eq!(h.health_percentage(), 75);
    let mut t = Health::new(3);
    t.damage(1);
    assert_eq!(t.health_percentage(), 66);
    t.damage(2);
    assert_eq!(t.health_percentage(), 0);
}

#[test]
fn timer_fires_and_carries_remainder() {
    let mut t = RepeatingTimer::new(300);
    assert!(!t.tick(100));
    assert_eq!(t.elapsed_ms, 100);
    assert!(t.tick(250));
    assert_eq!(t.elapsed_ms, 50);
    assert!(t.tick(1000));
    assert_eq!(t.elapsed_ms, 150);
    assert!(!t.tick(0));
}

#[test]
fn score_increase_and_reset() {
    let mut s = Score::new();
    s.increase(1);
    s.increase(2);
    assert_eq!(s.current_score, 3);
    assert_eq!(s.high_score, 3);
    s.reset();
    assert_eq!(s.current_score, 0);
    assert_eq!(s.high_score, 3);
    s.increase(1);
    assert_eq!(s.high_score, 3);
    s.current_score = u32::MAX;
    s.increase(1);
    assert_eq!(s.current_score, u32::MAX);
    assert_eq!(s.high_score, u32::MAX);
}

#[test]
fn difficulty_defaults() {
    let d = EnemyDifficulty::default();
    assert_eq!(d.get_enemy_speed(), 60_000);
    assert_eq!(d.get_enemy_max_count(), 32);
}

#[test]
fn difficulty_curve_exact_values() {
    let mut d = EnemyDifficulty::new();
    // 10 s of play in frames of 16 ms
    for _ in 0..625 {
        d.increase(16);
    }
    assert_eq!(d.speed, 62_000_000);
    assert_eq!(d.count, 42_000);
    assert_eq!(d.get_enemy_speed(), 62_000);
    assert_eq!(d.get_enemy_max_count(), 42);
    d.increase(1_000_000);
    assert_eq!(d.speed, 150_000_000);
    assert_eq!(d.count, 100_000);
    assert_eq!(d.get_enemy_max_count(), 100);
    d.reset();
    assert_eq!(d.speed, 60_000_000);
    assert_eq!(d.count, 32_000);
}

#[test]
fn difficulty_caps_apart() {
    let mut d = EnemyDifficulty::new();
    d.increase(68_000);
    assert_eq!(d.count, 100_000);
    assert_eq!(d.speed, 73_600_000);
    d.increase(u64::MAX);
    assert_eq!(d.speed, 150_000_000);
}

#[test]
fn melee_cycle_in_range() {
    let mut s = EnemyState::Hunting;
    let expected = [
        (EnemyState::ReadyBlade, false),
        (EnemyState::SwingBlade, true),
        (EnemyState::ReadyBlade, false),
        (EnemyState::SwingBlade, true),
    ];
    for (want, strike) in expected {
        let (next, swung) = advance_state(s, true);
        assert_eq!(next, want);
        assert_eq!(swung, strike);
        s = next;
    }
}

#[test]
fn melee_out_of_range_resets() {
    for s in [EnemyState::Hunting, EnemyState::ReadyBlade, EnemyState::SwingBlade] {
        assert_eq!(advance_state(s, false), (EnemyState::Hunting, false));
    }
}

#[test]
fn pose_index_table() {
    assert_eq!(pose_indices(EnemyState::Hunting, Face::Left, false), (0, 0));
    assert_eq!(pose_indices(EnemyState::Hunting, Face::Right, true), (2, 3));
    assert_eq!(pose_indices(EnemyState::ReadyBlade, Face::Left, true), (4, 5));
    assert_eq!(pose_indices(EnemyState::ReadyBlade, Face::Right, false), (6, 6));
    assert_eq!(pose_indices(EnemyState::SwingBlade, Face::Left, false), (8, 8));
    assert_eq!(pose_indices(EnemyState::SwingBlade, Face::Right, true), (10, 11));
}

#[test]
fn facing_follows_horizontal_motion() {
    assert_eq!(update_face(Face::Left, 5), Face::Right);
    assert_eq!(update_face(Face::Right, -1), Face::Left);
    assert_eq!(update_face(Face::Right, 0), Face::Right);
    assert_eq!(update_face(Face::Left, 0), Face::Left);
}

#[test]
fn target_draws_cover_three_kinds() {
    let q = Point::new(7, -3);
    assert_eq!(target_from_draw(0, q), EnemyTarget::Player);
    assert_eq!(target_from_draw(4, q), EnemyTarget::PlayerFuture);
    assert_eq!(target_from_draw(8, q), EnemyTarget::Location(q));
    assert!(draw_wants_location(11));
    assert!(!draw_wants_location(12));
}

#[test]
fn fresh_enemy() {
    let e = Enemy::default();
    assert_eq!(e.animation_state, EnemyState::Hunting);
    assert_eq!(e.face, Face::Left);
    assert_eq!(e.sword_hit_timer.period_ms, 300);
    assert_eq!(e.target_switch_timer.period_ms, 6000);
    assert_eq!(e.target, EnemyTarget::Player);
}

#[test]
fn ceil_sqrt_values() {
    assert_eq!(ceil_sqrt(0), 0);
    assert_eq!(ceil_sqrt(1), 1);
    assert_eq!(ceil_sqrt(2), 2);
    assert_eq!(ceil_sqrt(16), 4);
    assert_eq!(ceil_sqrt(17), 5);
    assert_eq!(ceil_sqrt(25_000_000), 5000);
}

#[test]
fn scale_to_length_values() {
    assert_eq!(scale_to_length(Point::new(3000, -4000), 1000), Point::new(600, -800));
    assert_eq!(scale_to_length(Point::new(0, 0), 1000), Point::new(0, 0));
    assert_eq!(scale_to_length(Point::new(0, 5), 1000), Point::new(0, 1000));
    let d = scale_to_length(Point::new(1, 1), 1000);
    assert_eq!(d, Point::new(500, 500));
}

#[test]
fn within_includes_boundary() {
    let a = Point::new(0, 0);
    assert!(within(a, Point::new(64_000, 0), 64_000));
    assert!(!within(a, Point::new(64_000, 1), 64_000));
    assert!(within(a, Point::new(-30_000, 40_000), 50_000));
}

#[test]
fn draw_depth_value() {
    assert_eq!(draw_depth(&Point::new(5, 1200)), -1200);
}

#[test]
fn mixer_steps_and_clamps() {
    let mut m = Mixer::default();
    assert_eq!(m.master, 100);
    m.volume_up();
    assert_eq!(m.master, 100);
    for _ in 0..3 {
        m.volume_down();
    }
    assert_eq!(m.master, 70);
    assert_eq!(m.as_volume_with_multiplier(50), 35);
    for _ in 0..20 {
        m.volume_down();
    }
    assert_eq!(m.master, 0);
}

#[test]
fn walk_frames() {
    assert_eq!(walk_indices(2, -3), (0, 1));
    assert_eq!(walk_indices(0, 3), (2, 3));
    assert_eq!(walk_indices(2, 0), (2, 2));
}
