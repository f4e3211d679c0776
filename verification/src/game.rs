//! Run-level controls: pausing, restarting after death, and reacting to
//! window resizes.

use vstd::prelude::*;
use vstd::string::StringExecFns;

use crate::asteroids::{chaser_size, spec_chaser_size};
use crate::types::{
    ChaserCount, ChasingEnemy, GamePaused, GameState, Player, PlayerDied, PlayerHealth, SpawnTimer,
    Timer, Vec2, WindowMode, DIM_LIMIT, MAX_HEALTH, SPAWN_PERIOD_MS,
};

verus! {

/// Sprite size of the player for a window of width `ww`: one twentieth of
/// the window.
pub fn player_size(window_width: i64) -> (r: i64)
    requires
        1 <= window_width <= DIM_LIMIT,
    ensures
        r == window_width as int / 20,
{
    window_width / 20
}

/// One fullscreen-toggle tick: pressing the fullscreen key flips the window
/// between windowed and borderless fullscreen presentation.
pub fn fullscreen_toggle(mode: WindowMode, f11_just_pressed: bool) -> (r: WindowMode)
    ensures
        !f11_just_pressed ==> r == mode,
        f11_just_pressed ==> r == (match mode {
            WindowMode::BorderlessFullscreen => WindowMode::Windowed,
            WindowMode::Windowed => WindowMode::BorderlessFullscreen,
        }),
{
    if f11_just_pressed {
        match mode {
            WindowMode::BorderlessFullscreen => WindowMode::Windowed,
            WindowMode::Windowed => WindowMode::BorderlessFullscreen,
        }
    } else {
        mode
    }
}

/// One pause-toggle tick: pressing the pause key while alive freezes or
/// resumes the physics clock, the spawn cadence and the paused flag, and
/// shows or clears the pause message.
pub fn toggle_physics_pause(state: &mut GameState, space_just_pressed: bool)
    requires
        old(state).wf(),
    ensures
        final(state).wf(),
        (old(state).died.0 || !space_just_pressed) ==> *final(state) == *old(state),
        (!old(state).died.0 && space_just_pressed) ==> {
            let s0 = *old(state);
            &&& final(state).paused.0 == !s0.paused.0
            &&& final(state).physics_running == s0.paused.0
            &&& final(state).spawn_timer.0 == (Timer { paused: !s0.paused.0, ..s0.spawn_timer.0 })
            &&& (s0.paused.0 ==> final(state).center_message@ == ""@)
            &&& (!s0.paused.0 ==> final(state).center_message@ == "Paused"@)
            &&& *final(state) == (GameState {
                paused: final(state).paused,
                physics_running: final(state).physics_running,
                spawn_timer: final(state).spawn_timer,
                center_message: final(state).center_message,
                ..s0
            })
        },
{
    if !state.died.0 && space_just_pressed {
        if state.paused.0 {
            state.physics_running = true;
            state.spawn_timer.0.unpause();
            state.paused.0 = false;
            state.center_message = String::from_str("");
        } else {
            state.physics_running = false;
            state.spawn_timer.0.pause();
            state.paused.0 = true;
            state.center_message = String::from_str("Paused");
        }
    }
}

/// What a restart leaves behind: every enemy entity removed and the count at
/// zero, the player back at the origin and at rest, the physics clock and a
/// fresh spawn cadence running, the pause flag and the status messages
/// cleared, health restored to full and the died flag cleared. The
/// difficulty counter deliberately persists across restarts.
pub open spec fn reset_effect(a: GameState, b: GameState) -> bool {
    &&& b.enemies@ =~= Seq::<ChasingEnemy>::empty()
    &&& b.chaser_count == (ChaserCount { current: 0, ..a.chaser_count })
    &&& b.player == (Player {
        position: Vec2 { x: 0, y: 0 },
        velocity: Vec2 { x: 0, y: 0 },
        ..a.player
    })
    &&& b.physics_running
    &&& b.spawn_timer.0 == (Timer { elapsed_ms: 0, period_ms: SPAWN_PERIOD_MS, paused: false })
    &&& !b.paused.0
    &&& b.center_message@ == ""@
    &&& b.sub_message@ == ""@
    &&& b.health.0 == MAX_HEALTH
    &&& !b.died.0
    &&& b == (GameState {
        enemies: b.enemies,
        chaser_count: b.chaser_count,
        player: b.player,
        physics_running: b.physics_running,
        spawn_timer: b.spawn_timer,
        paused: b.paused,
        center_message: b.center_message,
        sub_message: b.sub_message,
        health: b.health,
        died: b.died,
        ..a
    })
}

/// Restore a run to its starting condition, whatever state it is in.
pub fn reset(state: &mut GameState)
    requires
        old(state).wf(),
    ensures
        final(state).wf(),
        reset_effect(*old(state), *final(state)),
{
    state.enemies = Vec::new();
    state.chaser_count.current = 0;
    state.player.position = Vec2 { x: 0, y: 0 };
    state.player.velocity = Vec2 { x: 0, y: 0 };
    state.physics_running = true;
    state.spawn_timer = SpawnTimer(Timer::from_millis(SPAWN_PERIOD_MS));
    state.paused = GamePaused(false);
    state.center_message = String::from_str("");
    state.sub_message = String::from_str("");
    state.health = PlayerHealth(MAX_HEALTH);
    state.died = PlayerDied(false);
}

/// One restart tick: pressing the restart key in the terminal state restores
/// the starting condition; at any other time nothing happens.
pub fn reset_game(state: &mut GameState, r_just_pressed: bool)
    requires
        old(state).wf(),
    ensures
        final(state).wf(),
        (old(state).died.0 && r_just_pressed) ==> reset_effect(*old(state), *final(state)),
        !(old(state).died.0 && r_just_pressed) ==> *final(state) == *old(state),
{
    if state.died.0 && r_just_pressed {
        reset(state);
    }
}

/// Reaction to the window being resized to `new_width`: the player's and
/// every enemy's sprite size and collision radius are recomputed from the
/// new width — each enemy from its kept size scale — and the visual ship is
/// sized half again as large as the player.
#[verifier::loop_isolation(false)]
pub fn resize_items(state: &mut GameState, new_width: i64)
    requires
        old(state).wf(),
        1 <= new_width <= DIM_LIMIT,
    ensures
        final(state).wf(),
        final(state).player == (Player {
            size: (new_width as int / 20) as i64,
            collision_radius: (new_width as int / 20 / 2) as i64,
            ..old(state).player
        }),
        final(state).ship.size == new_width as int / 20 * 3 / 2,
        final(state).ship == (crate::types::PlayerShip {
            size: final(state).ship.size,
            ..old(state).ship
        }),
        final(state).enemies@.len() == old(state).enemies@.len(),
        forall|i: int|
            0 <= i < old(state).enemies@.len() ==> final(state).enemies@[i] == (ChasingEnemy {
                size: (spec_chaser_size(
                    new_width as int,
                    old(state).enemies@[i].size_scale.0 as int,
                )) as i64,
                collision_radius: (spec_chaser_size(
                    new_width as int,
                    (#[trigger] old(state).enemies@[i]).size_scale.0 as int,
                ) / 2) as i64,
                ..old(state).enemies@[i]
            }),
        *final(state) == (GameState {
            player: final(state).player,
            ship: final(state).ship,
            enemies: final(state).enemies,
            ..*old(state)
        }),
{
    let psize = player_size(new_width);
    state.player.size = psize;
    state.player.collision_radius = psize / 2;
    state.ship.size = psize * 3 / 2;

    let n = state.enemies.len();
    let mut i: usize = 0;
    while i < n
        invariant
            i <= n,
            state.enemies@.len() == n,
            forall|j: int|
                0 <= j < i ==> state.enemies@[j] == (ChasingEnemy {
                    size: (spec_chaser_size(
                        new_width as int,
                        old(state).enemies@[j].size_scale.0 as int,
                    )) as i64,
                    collision_radius: (spec_chaser_size(
                        new_width as int,
                        (#[trigger] old(state).enemies@[j]).size_scale.0 as int,
                    ) / 2) as i64,
                    ..old(state).enemies@[j]
                }),
            forall|j: int| i <= j < n ==> state.enemies@[j] == old(state).enemies@[j],
            *state == (GameState {
                player: state.player,
                ship: state.ship,
                enemies: state.enemies,
                ..*old(state)
            }),
            state.player == (Player {
                size: (new_width as int / 20) as i64,
                collision_radius: (new_width as int / 20 / 2) as i64,
                ..old(state).player
            }),
            state.ship == (crate::types::PlayerShip {
                size: (new_width as int / 20 * 3 / 2) as i64,
                ..old(state).ship
            }),
        decreases n - i,
    {
        let e = state.enemies[i];
        let csize = chaser_size(new_width, e.size_scale.0);
        state.enemies[i] = ChasingEnemy { size: csize, collision_radius: csize / 2, ..e };
        i = i + 1;
    }
    proof {
        assert forall|k: int|
            0 <= k < state.enemies@.len() implies (#[trigger] state.enemies@[k]).size_scale.0
            < crate::types::SCALE_CAP by {
            assert(old(state).enemies@[k].size_scale.0 < crate::types::SCALE_CAP);
        }
    }
}

} // verus!
