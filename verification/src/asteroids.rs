//! The enemy subsystem: the spawner that creates enemies at randomized
//! off-screen positions, the difficulty ramp that widens their size
//! distribution, and the pursuit controller that steers them at the player.

use vstd::prelude::*;

use crate::rng::gen_range_i64;
use crate::rng::gen_ratio;
use crate::types::{
    ChaserCount, ChasingEnemy, EnemySprite, GameState, SizeScale, Speed, Vec2, CHASER_SPEED,
    COORD_LIMIT, DIM_LIMIT, MAX_SIZE_INCREMENTS, SCALE_CAP, SCALE_COMMON_HI, SCALE_COMMON_LO,
    SCALE_RARE_BASE, SCALE_RARE_LO, SPAWN_PAD,
};

verus! {

/// Base sprite size of an enemy for a window of width `ww`, scaled by
/// `scale` hundredths: one fortieth of the window, times the scale.
pub open spec fn spec_chaser_size(ww: int, scale: int) -> int {
    (ww / 40) * scale / 100
}

pub fn chaser_size(window_width: i64, scale: u32) -> (r: i64)
    requires
        1 <= window_width <= DIM_LIMIT,
        scale < SCALE_CAP,
    ensures
        r == spec_chaser_size(window_width as int, scale as int),
        0 <= r,
{
    let base = window_width / 40;
    assert(0 <= base * (scale as i64) <= 25_000_000 * 450) by (nonlinear_arith)
        requires
            0 <= base <= 25_000_000,
            0 <= (scale as i64) < 450,
    ;
    base * (scale as i64) / 100
}

/// Green and blue channel of the enemy-count readout: white at zero,
/// interpolating toward pure red, saturated once the count reaches 255.
pub fn enemy_count_channel(count: u32) -> (r: u8)
    ensures
        r == (if count >= 255 { 0int } else { 255 - count }),
{
    if count >= 255 {
        0
    } else {
        (255 - count) as u8
    }
}

/// The two branches of the size-scale distribution: the common branch, and
/// the rare branch whose upper bound grows with the difficulty counter.
pub open spec fn scale_in_branch(scale: int, difficulty: int) -> bool {
    ||| SCALE_COMMON_LO <= scale < SCALE_COMMON_HI
    ||| SCALE_RARE_LO <= scale < SCALE_RARE_BASE + 2 * difficulty
}

/// Law: a size scale from either distribution branch lies in
/// `[SCALE_RARE_LO, SCALE_CAP)` — three quarters of a unit up to but
/// excluding four and a half — for every difficulty within the cap.
pub proof fn lemma_scale_in_overall_range(scale: int, difficulty: int)
    requires
        0 <= difficulty <= MAX_SIZE_INCREMENTS,
        scale_in_branch(scale, difficulty),
    ensures
        SCALE_RARE_LO <= scale < SCALE_CAP,
{
}

/// Draw a size scale from the given branch: the common branch is a narrow
/// band around one, the rare branch a wide tail that grows with difficulty.
pub fn draw_size_scale(rng: &mut rand::rngs::StdRng, common: bool, difficulty: u8) -> (r: u32)
    requires
        difficulty <= MAX_SIZE_INCREMENTS,
    ensures
        common ==> SCALE_COMMON_LO <= r < SCALE_COMMON_HI,
        !common ==> SCALE_RARE_LO <= r < SCALE_RARE_BASE + 2 * difficulty,
        SCALE_RARE_LO <= r < SCALE_CAP,
{
    if common {
        let d = gen_range_i64(rng, SCALE_COMMON_LO as i64, SCALE_COMMON_HI as i64);
        d as u32
    } else {
        let hi = SCALE_RARE_BASE + 2 * (difficulty as u32);
        let d = gen_range_i64(rng, SCALE_RARE_LO as i64, hi as i64);
        d as u32
    }
}

/// Draw a size scale: with probability three quarters from the common
/// branch, otherwise from the rare branch.
pub fn pick_size_scale(rng: &mut rand::rngs::StdRng, difficulty: u8) -> (r: u32)
    requires
        difficulty <= MAX_SIZE_INCREMENTS,
    ensures
        scale_in_branch(r as int, difficulty as int),
        SCALE_RARE_LO <= r < SCALE_CAP,
{
    let common = gen_ratio(rng, 3, 4);
    draw_size_scale(rng, common, difficulty)
}

/// Where a spawn coordinate may fall on one axis: one window dimension past
/// the player on either side, plus up to the fixed padding.
pub open spec fn spawn_coord_ok(r: int, center: int, dim: int) -> bool {
    ||| center + dim <= r < center + dim + SPAWN_PAD
    ||| center - dim - SPAWN_PAD <= r < center - dim
}

/// Law: a spawn coordinate lies strictly outside the half-window interval
/// around the player, so the spawn point is off-screen on that axis.
pub proof fn lemma_spawn_coord_off_screen(r: int, center: int, dim: int)
    requires
        dim >= 1,
        spawn_coord_ok(r, center, dim),
    ensures
        r > center + dim / 2 || r < center - dim / 2,
{
}

/// Draw one spawn coordinate: a fair coin picks the far or the near side of
/// the player, then a draw lands within the padding band past the window
/// edge on that side.
pub fn draw_spawn_coord(rng: &mut rand::rngs::StdRng, center: i64, dim: i64) -> (r: i64)
    requires
        -COORD_LIMIT <= center <= COORD_LIMIT,
        1 <= dim <= DIM_LIMIT,
    ensures
        spawn_coord_ok(r as int, center as int, dim as int),
{
    if gen_ratio(rng, 1, 2) {
        gen_range_i64(rng, center + dim, center + dim + SPAWN_PAD)
    } else {
        gen_range_i64(rng, center - dim - SPAWN_PAD, center - dim)
    }
}

/// What a freshly spawned enemy looks like, relative to the state `a` the
/// spawn happened in: off-screen on both axes, scale from the distribution
/// for the current difficulty, size derived from the window and the scale,
/// at rest, with the fixed steering speed.
pub open spec fn spawned_enemy_ok(e: ChasingEnemy, a: GameState, ww: int, wh: int) -> bool {
    let px = a.player.position.x as int;
    let py = a.player.position.y as int;
    &&& spawn_coord_ok(e.position.x as int, px, ww)
    &&& spawn_coord_ok(e.position.y as int, py, wh)
    &&& scale_in_branch(e.size_scale.0 as int, a.size_increments.0 as int)
    &&& SCALE_RARE_LO <= e.size_scale.0 < SCALE_CAP
    &&& e.size == spec_chaser_size(ww, e.size_scale.0 as int)
    &&& e.collision_radius == e.size / 2
    &&& e.velocity == (Vec2 { x: 0, y: 0 })
    &&& e.speed == Speed(CHASER_SPEED)
}

/// The effect of one spawn on the state: exactly one enemy is appended and
/// is a valid fresh spawn, the count rises by one, the count readout color
/// steps toward red, and nothing else changes (the spawn timer is owned by
/// the caller's clause).
pub open spec fn spawn_effect(a: GameState, b: GameState, ww: int, wh: int) -> bool {
    &&& b.enemies@.len() == a.enemies@.len() + 1
    &&& b.enemies@.subrange(0, a.enemies@.len() as int) =~= a.enemies@
    &&& spawned_enemy_ok(b.enemies@.last(), a, ww, wh)
    &&& b.chaser_count == (ChaserCount {
        current: (a.chaser_count.current + 1) as u32,
        ..a.chaser_count
    })
    &&& b.count_color_channel == (if a.chaser_count.current + 1 >= 255 {
        0int
    } else {
        255 - (a.chaser_count.current + 1)
    })
    &&& b == (GameState {
        enemies: b.enemies,
        chaser_count: b.chaser_count,
        count_color_channel: b.count_color_channel,
        spawn_timer: b.spawn_timer,
        ..a
    })
}

/// Everything but the spawn timer is as in `a`.
pub open spec fn only_spawn_timer_stepped(a: GameState, b: GameState) -> bool {
    b == (GameState { spawn_timer: b.spawn_timer, ..a })
}

/// One spawner tick. While the game is running and the player alive, the
/// cadence timer advances; if it fires and the enemy count is below its cap,
/// exactly one enemy is created at a randomized off-screen position with a
/// difficulty-scaled size, and the count and its readout are updated. In
/// every other case the tick is a deliberate no-op, not an error.
pub fn spawn_chasers(
    state: &mut GameState,
    delta_ms: u64,
    window_width: i64,
    window_height: i64,
    rng: &mut rand::rngs::StdRng,
)
    requires
        old(state).wf(),
        delta_ms <= u64::MAX - old(state).spawn_timer.0.period_ms,
        1 <= window_width <= DIM_LIMIT,
        1 <= window_height <= DIM_LIMIT,
        -COORD_LIMIT <= old(state).player.position.x <= COORD_LIMIT,
        -COORD_LIMIT <= old(state).player.position.y <= COORD_LIMIT,
        old(state).enemies@.len() < usize::MAX,
    ensures
        final(state).wf(),
        final(state).chaser_count.current <= final(state).chaser_count.max,
        (old(state).paused.0 || old(state).died.0) ==> *final(state) == *old(state),
        !(old(state).paused.0 || old(state).died.0) ==> {
            let fired = old(state).spawn_timer.0.spec_fires(delta_ms);
            let at_cap = old(state).chaser_count.current >= old(state).chaser_count.max;
            &&& final(state).spawn_timer.0 == old(state).spawn_timer.0.spec_tick(delta_ms)
            &&& (fired && !at_cap) ==> spawn_effect(
                *old(state),
                *final(state),
                window_width as int,
                window_height as int,
            )
            &&& !(fired && !at_cap) ==> only_spawn_timer_stepped(*old(state), *final(state))
        },
{
    if state.paused.0 || state.died.0 {
        return ;
    }
    let fired = state.spawn_timer.0.tick(delta_ms);
    if !(fired && !state.chaser_count.at_max()) {
        return ;
    }
    let px = state.player.position.x;
    let py = state.player.position.y;

    let size_scale = pick_size_scale(rng, state.size_increments.0);
    let spawn_x = draw_spawn_coord(rng, px, window_width);
    let spawn_y = draw_spawn_coord(rng, py, window_height);
    let sprite = if gen_ratio(rng, 1, 100) {
        EnemySprite::Chicken
    } else {
        EnemySprite::Chaser
    };

    let size = chaser_size(window_width, size_scale);
    let enemy = ChasingEnemy {
        position: Vec2 { x: spawn_x, y: spawn_y },
        velocity: Vec2 { x: 0, y: 0 },
        speed: Speed(CHASER_SPEED),
        size_scale: SizeScale(size_scale),
        size,
        collision_radius: size / 2,
        sprite,
    };
    state.enemies.push(enemy);
    state.chaser_count.current = state.chaser_count.current + 1;
    state.count_color_channel = enemy_count_channel(state.chaser_count.current);
}

/// Everything but the difficulty timer and the difficulty counter is as in
/// `a`.
pub open spec fn only_difficulty_stepped(a: GameState, b: GameState) -> bool {
    b == (GameState { size_timer: b.size_timer, size_increments: b.size_increments, ..a })
}

/// One difficulty-ramp tick. While the game is running and the player
/// alive, the increment timer advances; if it fires, the difficulty counter
/// rises by one, saturating at its cap.
pub fn increase_spawn_size(state: &mut GameState, delta_ms: u64)
    requires
        old(state).wf(),
        delta_ms <= u64::MAX - old(state).size_timer.0.period_ms,
    ensures
        final(state).wf(),
        (old(state).paused.0 || old(state).died.0) ==> *final(state) == *old(state),
        !(old(state).paused.0 || old(state).died.0) ==> {
            &&& final(state).size_timer.0 == old(state).size_timer.0.spec_tick(delta_ms)
            &&& final(state).size_increments.0 == (if old(state).size_timer.0.spec_fires(delta_ms)
                && old(state).size_increments.0 < MAX_SIZE_INCREMENTS {
                old(state).size_increments.0 + 1
            } else {
                old(state).size_increments.0 as int
            })
            &&& only_difficulty_stepped(*old(state), *final(state))
        },
{
    if state.paused.0 || state.died.0 {
        return ;
    }
    let fired = state.size_timer.0.tick(delta_ms);
    if fired {
        if state.size_increments.0 < MAX_SIZE_INCREMENTS {
            state.size_increments.0 = state.size_increments.0 + 1;
        }
    }
}

/// Whether one pursuit step on this enemy stays within machine integers.
pub open spec fn pursuit_tick_fits(e: ChasingEnemy) -> bool {
    &&& 0 <= e.speed.0
    &&& i64::MIN <= e.velocity.x - e.speed.0
    &&& e.velocity.x + e.speed.0 <= i64::MAX
    &&& i64::MIN <= e.velocity.y - e.speed.0
    &&& e.velocity.y + e.speed.0 <= i64::MAX
}

/// One pursuit step: on each axis independently, the enemy's velocity is
/// nudged by its speed constant toward the player — subtracted when the
/// enemy is strictly past the player on that axis, added otherwise.
pub open spec fn pursue(e: ChasingEnemy, p: Vec2) -> ChasingEnemy {
    ChasingEnemy {
        velocity: Vec2 {
            x: (if e.position.x > p.x {
                e.velocity.x - e.speed.0
            } else {
                e.velocity.x + e.speed.0
            }) as i64,
            y: (if e.position.y > p.y {
                e.velocity.y - e.speed.0
            } else {
                e.velocity.y + e.speed.0
            }) as i64,
        },
        ..e
    }
}

/// Law: one pursuit step on an enemy strictly right of and above the player
/// lowers each velocity component by exactly the enemy's speed constant, so
/// with a positive speed the x-velocity strictly decreases.
pub proof fn lemma_pursuit_toward_player(e: ChasingEnemy, p: Vec2)
    requires
        pursuit_tick_fits(e),
        e.position.x > p.x,
        e.position.y > p.y,
    ensures
        pursue(e, p).velocity.x == e.velocity.x - e.speed.0,
        pursue(e, p).velocity.y == e.velocity.y - e.speed.0,
        e.speed.0 > 0 ==> pursue(e, p).velocity.x < e.velocity.x,
{
}

/// One pursuit-controller tick: while the game is not paused, every enemy's
/// velocity is steered toward the player; nothing else changes.
#[verifier::loop_isolation(false)]
pub fn move_chasing_enemies(state: &mut GameState)
    requires
        old(state).wf(),
        forall|i: int|
            0 <= i < old(state).enemies@.len() ==> pursuit_tick_fits(
                #[trigger] old(state).enemies@[i],
            ),
    ensures
        final(state).wf(),
        old(state).paused.0 ==> *final(state) == *old(state),
        !old(state).paused.0 ==> {
            &&& final(state).enemies@.len() == old(state).enemies@.len()
            &&& forall|i: int|
                0 <= i < old(state).enemies@.len() ==> final(state).enemies@[i] == pursue(
                    #[trigger] old(state).enemies@[i],
                    old(state).player.position,
                )
            &&& *final(state) == (GameState { enemies: final(state).enemies, ..*old(state) })
        },
{
    if state.paused.0 {
        return ;
    }
    let p = state.player.position;
    let n = state.enemies.len();
    let mut i: usize = 0;
    while i < n
        invariant
            i <= n,
            state.enemies@.len() == n,
            forall|j: int|
                0 <= j < i ==> state.enemies@[j] == pursue(
                    #[trigger] old(state).enemies@[j],
                    old(state).player.position,
                ),
            forall|j: int| i <= j < n ==> state.enemies@[j] == old(state).enemies@[j],
            *state == (GameState { enemies: state.enemies, ..*old(state) }),
        decreases n - i,
    {
        let e = state.enemies[i];
        let vx = if e.position.x > p.x {
            e.velocity.x - e.speed.0
        } else {
            e.velocity.x + e.speed.0
        };
        let vy = if e.position.y > p.y {
            e.velocity.y - e.speed.0
        } else {
            e.velocity.y + e.speed.0
        };
        state.enemies[i] = ChasingEnemy { velocity: Vec2 { x: vx, y: vy }, ..e };
        i = i + 1;
    }
    proof {
        assert forall|k: int|
            0 <= k < state.enemies@.len() implies (#[trigger] state.enemies@[k]).size_scale.0
            < SCALE_CAP by {
            assert(old(state).enemies@[k].size_scale.0 < SCALE_CAP);
        }
    }
}

} // verus!
