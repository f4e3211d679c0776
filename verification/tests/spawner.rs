use earth_escape::asteroids::{
    draw_size_scale, draw_spawn_coord, enemy_count_channel, increase_spawn_size,
    move_chasing_enemies, pick_size_scale, spawn_chasers,
};
use earth_escape::types::{
    ChasingEnemy, EnemySprite, GameState, SizeScale, Speed, Vec2, CHASER_SPEED, MAX_CHASERS,
};
use rand::rngs::StdRng;
use rand::SeedableRng;

const WINDOW_W: i64 = 1_200_000;
const WINDOW_H: i64 = 800_000;

fn rng(seed: u64) -> StdRng {
    StdRng::seed_from_u64(seed)
}

fn test_enemy(x: i64, y: i64, vx: i64, vy: i64) -> ChasingEnemy {
    ChasingEnemy {
        position: Vec2 { x, y },
        velocity: Vec2 { x: vx, y: vy },
        speed: Speed(CHASER_SPEED),
        size_scale: SizeScale(100),
        size: 30_000,
        collision_radius: 15_000,
        sprite: EnemySprite::Chaser,
    }
}

#[test]
fn spawn_tick_creates_one_enemy_when_timer_fires() {
    let mut state = GameState::new(WINDOW_W);
    let mut r = rng(1);
    spawn_chasers(&mut state, 500, WINDOW_W, WINDOW_H, &mut r);
    assert_eq!(state.enemies.len(), 1);
    assert_eq!(state.chaser_count.current, 1);
    assert_eq!(state.chaser_count.max, MAX_CHASERS);
    assert_eq!(state.count_color_channel, 254);
    // The repeating timer wrapped around.
    assert_eq!(state.spawn_timer.0.elapsed_ms, 0);
    let e = &state.enemies[0];
    assert_eq!(e.speed.0, CHASER_SPEED);
    assert_eq!(e.velocity, Vec2 { x: 0, y: 0 });
    assert_eq!(e.collision_radius, e.size / 2);
    assert_eq!(e.size, WINDOW_W / 40 * (e.size_scale.0 as i64) / 100);
}

#[test]
fn spawn_position_is_off_screen() {
    for seed in 0..50 {
        let mut state = GameState::new(WINDOW_W);
        state.player.position = Vec2 { x: 12_345, y: -9_876 };
        let mut r = rng(seed);
        spawn_chasers(&mut state, 500, WINDOW_W, WINDOW_H, &mut r);
        assert_eq!(state.enemies.len(), 1);
        let e = &state.enemies[0];
        let px = state.player.position.x;
        let py = state.player.position.y;
        // Strictly outside the half-window rectangle around the player.
        assert!(e.position.x > px + WINDOW_W / 2 || e.position.x < px - WINDOW_W / 2);
        assert!(e.position.y > py + WINDOW_H / 2 || e.position.y < py - WINDOW_H / 2);
        // And within one window plus the padding band.
        let dx = (e.position.x - px).abs();
        let dy = (e.position.y - py).abs();
        assert!(dx >= WINDOW_W && dx <= WINDOW_W + 100_000);
        assert!(dy >= WINDOW_H && dy <= WINDOW_H + 100_000);
    }
}

#[test]
fn spawn_tick_at_cap_is_noop() {
    let mut state = GameState::new(WINDOW_W);
    state.chaser_count.current = state.chaser_count.max;
    let mut r = rng(2);
    spawn_chasers(&mut state, 500, WINDOW_W, WINDOW_H, &mut r);
    assert_eq!(state.chaser_count.current, state.chaser_count.max);
    assert_eq!(state.enemies.len(), 0);
    // The cadence timer still advanced (and wrapped).
    assert_eq!(state.spawn_timer.0.elapsed_ms, 0);
}

#[test]
fn spawn_tick_without_firing_only_advances_timer() {
    let mut state = GameState::new(WINDOW_W);
    let mut r = rng(3);
    spawn_chasers(&mut state, 499, WINDOW_W, WINDOW_H, &mut r);
    assert_eq!(state.enemies.len(), 0);
    assert_eq!(state.chaser_count.current, 0);
    assert_eq!(state.spawn_timer.0.elapsed_ms, 499);
}

#[test]
fn spawn_tick_paused_or_dead_changes_nothing() {
    let mut state = GameState::new(WINDOW_W);
    state.paused.0 = true;
    let mut r = rng(4);
    spawn_chasers(&mut state, 500, WINDOW_W, WINDOW_H, &mut r);
    assert_eq!(state.enemies.len(), 0);
    assert_eq!(state.spawn_timer.0.elapsed_ms, 0);

    let mut state = GameState::new(WINDOW_W);
    state.died.0 = true;
    spawn_chasers(&mut state, 500, WINDOW_W, WINDOW_H, &mut r);
    assert_eq!(state.enemies.len(), 0);
    assert_eq!(state.spawn_timer.0.elapsed_ms, 0);
}

#[test]
fn common_branch_scale_stays_in_narrow_band() {
    let mut r = rng(5);
    for _ in 0..200 {
        let s = draw_size_scale(&mut r, true, 0);
        assert!((80..120).contains(&s));
    }
}

#[test]
fn rare_branch_scale_at_difficulty_cap_stays_below_cap() {
    let mut r = rng(6);
    for _ in 0..200 {
        let s = draw_size_scale(&mut r, false, 100);
        assert!((75..450).contains(&s));
    }
}

#[test]
fn rare_branch_scale_at_difficulty_zero() {
    let mut r = rng(7);
    for _ in 0..200 {
        let s = draw_size_scale(&mut r, false, 0);
        assert!((75..250).contains(&s));
    }
}

#[test]
fn picked_scale_always_within_overall_range() {
    let mut r = rng(8);
    for difficulty in [0u8, 1, 50, 100] {
        for _ in 0..100 {
            let s = pick_size_scale(&mut r, difficulty);
            assert!((75..450).contains(&s));
        }
    }
}

#[test]
fn spawn_coordinate_lands_in_padding_band() {
    let mut r = rng(9);
    for _ in 0..100 {
        let c = draw_spawn_coord(&mut r, 1000, 600_000);
        let d = (c - 1000).abs();
        assert!((600_000..700_000).contains(&d));
    }
}

#[test]
fn enemy_count_channel_interpolates_and_saturates() {
    assert_eq!(enemy_count_channel(0), 255);
    assert_eq!(enemy_count_channel(1), 254);
    assert_eq!(enemy_count_channel(254), 1);
    assert_eq!(enemy_count_channel(255), 0);
    assert_eq!(enemy_count_channel(1000), 0);
}

#[test]
fn pursuit_pulls_enemy_right_and_above_toward_player() {
    let mut state = GameState::new(WINDOW_W);
    state.player.position = Vec2 { x: 0, y: 0 };
    state.enemies.push(test_enemy(10_000, 20_000, 700, -300));
    move_chasing_enemies(&mut state);
    let e = &state.enemies[0];
    // Strictly right of and above the player: both components drop by
    // exactly the speed constant.
    assert_eq!(e.velocity.x, 700 - CHASER_SPEED);
    assert_eq!(e.velocity.y, -300 - CHASER_SPEED);
    assert_eq!(e.position, Vec2 { x: 10_000, y: 20_000 });
}

#[test]
fn pursuit_pushes_enemy_left_and_below_toward_player() {
    let mut state = GameState::new(WINDOW_W);
    state.player.position = Vec2 { x: 50, y: 60 };
    state.enemies.push(test_enemy(-10_000, -20_000, 0, 0));
    move_chasing_enemies(&mut state);
    let e = &state.enemies[0];
    assert_eq!(e.velocity.x, CHASER_SPEED);
    assert_eq!(e.velocity.y, CHASER_SPEED);
}

#[test]
fn pursuit_treats_exact_alignment_as_not_past() {
    let mut state = GameState::new(WINDOW_W);
    state.player.position = Vec2 { x: 100, y: 100 };
    state.enemies.push(test_enemy(100, 100, 0, 0));
    move_chasing_enemies(&mut state);
    let e = &state.enemies[0];
    assert_eq!(e.velocity.x, CHASER_SPEED);
    assert_eq!(e.velocity.y, CHASER_SPEED);
}

#[test]
fn pursuit_skipped_while_paused() {
    let mut state = GameState::new(WINDOW_W);
    state.enemies.push(test_enemy(10_000, 20_000, 700, -300));
    state.paused.0 = true;
    move_chasing_enemies(&mut state);
    let e = &state.enemies[0];
    assert_eq!(e.velocity, Vec2 { x: 700, y: -300 });
}

#[test]
fn difficulty_rises_by_one_when_its_timer_fires() {
    let mut state = GameState::new(WINDOW_W);
    increase_spawn_size(&mut state, 4_999);
    assert_eq!(state.size_increments.0, 0);
    increase_spawn_size(&mut state, 1);
    assert_eq!(state.size_increments.0, 1);
    assert_eq!(state.size_timer.0.elapsed_ms, 0);
}

#[test]
fn difficulty_saturates_at_its_cap() {
    let mut state = GameState::new(WINDOW_W);
    state.size_increments.0 = 100;
    increase_spawn_size(&mut state, 5_000);
    assert_eq!(state.size_increments.0, 100);
}

#[test]
fn difficulty_frozen_while_paused_or_dead() {
    let mut state = GameState::new(WINDOW_W);
    state.paused.0 = true;
    increase_spawn_size(&mut state, 5_000);
    assert_eq!(state.size_increments.0, 0);
    assert_eq!(state.size_timer.0.elapsed_ms, 0);

    let mut state = GameState::new(WINDOW_W);
    state.died.0 = true;
    increase_spawn_size(&mut state, 5_000);
    assert_eq!(state.size_increments.0, 0);
    assert_eq!(state.size_timer.0.elapsed_ms, 0);
}
