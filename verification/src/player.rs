//! The player subsystem: the input-driven player controller with its visual
//! ship, and the collision-driven health state machine with the heart
//! display.

use vstd::prelude::*;
use vstd::string::StringExecFns;

use crate::types::{
    CollisionEvent, CollisionStatus, DirectionInput, GameState, HeartSprite, Player, PlayerShip,
    Timer, Vec2, COORD_LIMIT, HEART_COUNT, MAX_HEALTH,
};
use crate::utilities::{enemy_only, is_enemy, is_player, player_only};

verus! {

/// Largest magnitude a velocity component may have for one controller tick
/// to stay within machine integers.
pub const VEL_LIMIT: i64 = 1_000_000_000_000_000;

/// Largest per-tick acceleration constant the controller accepts.
pub const SPEED_LIMIT: i64 = 1_000_000_000;

/// Whether an event pairs the player with an enemy, in either order.
pub open spec fn player_enemy_pair(e: CollisionEvent) -> bool {
    ||| player_only(e.layers_1) && enemy_only(e.layers_2)
    ||| player_only(e.layers_2) && enemy_only(e.layers_1)
}

/// How one collision event moves the health counter: a player-enemy contact
/// ending restores one heart below the cap, one starting costs one heart
/// above zero; every other event leaves it alone.
pub open spec fn health_step(h: int, e: CollisionEvent) -> int {
    if e.status == CollisionStatus::Stopped && h < MAX_HEALTH && player_enemy_pair(e) {
        h + 1
    } else if e.status == CollisionStatus::Started && h > 0 && player_enemy_pair(e) {
        h - 1
    } else {
        h
    }
}

/// The health counter after draining a sequence of collision events in
/// order, starting from `h`.
pub open spec fn health_after(h: int, events: Seq<CollisionEvent>) -> int
    decreases events.len(),
{
    if events.len() == 0 {
        h
    } else {
        health_step(health_after(h, events.drop_last()), events.last())
    }
}

/// Law: draining any sequence of collision events keeps the health counter
/// within its bounds — it never exceeds the cap and never drops below zero.
pub proof fn lemma_health_after_bounded(h: int, events: Seq<CollisionEvent>)
    requires
        0 <= h <= MAX_HEALTH,
    ensures
        0 <= health_after(h, events) <= MAX_HEALTH,
    decreases events.len(),
{
    if events.len() > 0 {
        lemma_health_after_bounded(h, events.drop_last());
    }
}

/// Draining one more event steps the drained prefix by that event.
proof fn lemma_health_after_snoc(h: int, events: Seq<CollisionEvent>, i: int)
    requires
        0 <= i < events.len(),
    ensures
        health_after(h, events.take(i + 1)) == health_step(
            health_after(h, events.take(i)),
            events[i],
        ),
{
    assert(events.take(i + 1).drop_last() =~= events.take(i));
    assert(events.take(i + 1).last() == events[i]);
}

/// The transition into the terminal state: the died flag is set, the death
/// messages are shown, the spawn cadence timer is paused, and every heart
/// slot is forced empty. Health itself is the caller's clause.
pub open spec fn died_effect(a: GameState, b: GameState) -> bool {
    &&& b.died.0
    &&& b.center_message@ == "You Died"@
    &&& b.sub_message@ == "Press R to restart"@
    &&& b.spawn_timer.0 == (Timer { paused: true, ..a.spawn_timer.0 })
    &&& b.hearts@.len() == HEART_COUNT
    &&& forall|i: int| 0 <= i < HEART_COUNT ==> !b.hearts@[i]
    &&& b == (GameState {
        health: b.health,
        died: b.died,
        center_message: b.center_message,
        sub_message: b.sub_message,
        spawn_timer: b.spawn_timer,
        hearts: b.hearts,
        ..a
    })
}

/// The surviving case: the died flag stays clear and each heart slot shows
/// full exactly when its ordinal lies below the health counter.
pub open spec fn alive_effect(a: GameState, b: GameState) -> bool {
    &&& !b.died.0
    &&& b.hearts@.len() == HEART_COUNT
    &&& forall|i: int| 0 <= i < HEART_COUNT ==> b.hearts@[i] == (b.health.0 > i)
    &&& b == (GameState { health: b.health, hearts: b.hearts, ..a })
}

/// One health-machine tick: while the player is already dead the events are
/// dropped and nothing at all changes; otherwise the events are drained in
/// order, and the run either transitions into the terminal state (on health
/// reaching zero) or refreshes the heart display.
#[verifier::loop_isolation(false)]
pub fn calculate_health(state: &mut GameState, events: &Vec<CollisionEvent>)
    requires
        old(state).wf(),
    ensures
        final(state).wf(),
        old(state).died.0 ==> *final(state) == *old(state),
        !old(state).died.0 ==> {
            let h = health_after(old(state).health.0 as int, events@);
            &&& final(state).health.0 == h
            &&& (h == 0 ==> died_effect(*old(state), *final(state)))
            &&& (h != 0 ==> alive_effect(*old(state), *final(state)))
        },
{
    if state.died.0 {
        return ;
    }
    let ghost h0 = state.health.0 as int;

    let mut idx: usize = 0;
    while idx < events.len()
        invariant
            idx <= events.len(),
            state.health.0 <= MAX_HEALTH,
            state.health.0 as int == health_after(h0, events@.take(idx as int)),
            *state == (GameState { health: state.health, ..*old(state) }),
        decreases events.len() - idx,
    {
        let e = events[idx];
        proof {
            lemma_health_after_snoc(h0, events@, idx as int);
        }
        if e.status == CollisionStatus::Stopped {
            if state.health.0 < MAX_HEALTH {
                if (is_player(e.layers_1) && is_enemy(e.layers_2)) || (is_player(e.layers_2)
                    && is_enemy(e.layers_1)) {
                    state.health.0 = state.health.0 + 1;
                }
            }
        }
        if e.status == CollisionStatus::Started {
            if state.health.0 > 0 {
                if (is_player(e.layers_1) && is_enemy(e.layers_2)) || (is_player(e.layers_2)
                    && is_enemy(e.layers_1)) {
                    state.health.0 = state.health.0 - 1;
                }
            }
        }
        idx = idx + 1;
    }
    proof {
        assert(events@.take(events@.len() as int) =~= events@);
    }
    let ghost hfin = state.health;

    if state.health.0 == 0 {
        state.died.0 = true;
        state.center_message = String::from_str("You Died");
        state.sub_message = String::from_str("Press R to restart");
        state.spawn_timer.0.pause();
        let mut i: usize = 0;
        while i < HEART_COUNT
            invariant
                i <= HEART_COUNT,
                state.hearts@.len() == HEART_COUNT,
                forall|j: int| 0 <= j < i ==> !state.hearts@[j],
                state.health == hfin,
                state.died.0,
                state.center_message@ == "You Died"@,
                state.sub_message@ == "Press R to restart"@,
                state.spawn_timer.0 == (Timer { paused: true, ..old(state).spawn_timer.0 }),
                *state == (GameState {
                    health: state.health,
                    died: state.died,
                    center_message: state.center_message,
                    sub_message: state.sub_message,
                    spawn_timer: state.spawn_timer,
                    hearts: state.hearts,
                    ..*old(state)
                }),
            decreases HEART_COUNT - i,
        {
            state.hearts[i] = false;
            i = i + 1;
        }
    } else {
        let mut i: usize = 0;
        while i < HEART_COUNT
            invariant
                i <= HEART_COUNT,
                state.hearts@.len() == HEART_COUNT,
                forall|j: int| 0 <= j < i ==> state.hearts@[j] == (state.health.0 > j),
                state.health == hfin,
                *state == (GameState { health: state.health, hearts: state.hearts, ..*old(state) }),
            decreases HEART_COUNT - i,
        {
            let slot = HeartSprite(i as u8);
            state.hearts[i] = slot.is_full(&state.health);
            i = i + 1;
        }
    }
}

/// Whether one controller tick on this state stays within machine integers.
pub open spec fn movement_fits(s: GameState) -> bool {
    &&& 0 <= s.player.speed.0 <= SPEED_LIMIT
    &&& -VEL_LIMIT <= s.player.velocity.x <= VEL_LIMIT
    &&& -VEL_LIMIT <= s.player.velocity.y <= VEL_LIMIT
    &&& -COORD_LIMIT <= s.player.position.x <= COORD_LIMIT
    &&& -COORD_LIMIT <= s.player.position.y <= COORD_LIMIT
    &&& -COORD_LIMIT <= s.ship.position.x <= COORD_LIMIT
    &&& -COORD_LIMIT <= s.ship.position.y <= COORD_LIMIT
}

/// The player's velocity after one controller tick: while alive, each held
/// direction adds the speed constant along its axis (opposite directions
/// cancel, diagonals sum); after death the input is ignored.
pub open spec fn moved_velocity(s: GameState, input: DirectionInput) -> Vec2 {
    if s.died.0 {
        s.player.velocity
    } else {
        let dx = (if input.right { 1int } else { 0int }) - (if input.left { 1int } else { 0int });
        let dy = (if input.up { 1int } else { 0int }) - (if input.down { 1int } else { 0int });
        Vec2 {
            x: (s.player.velocity.x + dx * s.player.speed.0) as i64,
            y: (s.player.velocity.y + dy * s.player.speed.0) as i64,
        }
    }
}

/// One player-controller tick: while not paused, the camera snaps to the
/// player, held directions accelerate the player (unless dead), and the
/// visual ship tracks the player's position, shows its thrust pose exactly
/// when a direction was active, and faces where the player is heading.
pub fn player_movement(state: &mut GameState, input: DirectionInput)
    requires
        old(state).wf(),
        movement_fits(*old(state)),
    ensures
        final(state).wf(),
        old(state).paused.0 ==> *final(state) == *old(state),
        !old(state).paused.0 ==> {
            let s0 = *old(state);
            let nv = moved_velocity(s0, input);
            &&& final(state).camera == s0.player.position
            &&& final(state).player == (Player { velocity: nv, ..s0.player })
            &&& final(state).ship == (PlayerShip {
                position: s0.player.position,
                facing: Vec2 {
                    x: (s0.player.position.x + nv.x - s0.ship.position.x) as i64,
                    y: (s0.player.position.y + nv.y - s0.ship.position.y) as i64,
                },
                sprite_index: if !s0.died.0 && input.any() {
                    0
                } else {
                    1
                },
                size: s0.ship.size,
            })
            &&& *final(state) == (GameState {
                camera: final(state).camera,
                player: final(state).player,
                ship: final(state).ship,
                ..s0
            })
        },
{
    if state.paused.0 {
        return ;
    }
    state.camera = state.player.position;

    let mut input_active = false;
    if !state.died.0 {
        let speed = state.player.speed.0;
        let mut vx = state.player.velocity.x;
        let mut vy = state.player.velocity.y;
        if input.left {
            vx = vx - speed;
            input_active = true;
        }
        if input.right {
            vx = vx + speed;
            input_active = true;
        }
        if input.up {
            vy = vy + speed;
            input_active = true;
        }
        if input.down {
            vy = vy - speed;
            input_active = true;
        }
        proof {
            let sp = speed as int;
            assert((-1int) * sp == -sp) by (nonlinear_arith);
            assert(0int * sp == 0int) by (nonlinear_arith);
            assert(1int * sp == sp) by (nonlinear_arith);
        }
        state.player.velocity.x = vx;
        state.player.velocity.y = vy;
    }

    state.ship.sprite_index = if input_active {
        0
    } else {
        1
    };
    let fx = state.player.position.x + state.player.velocity.x - state.ship.position.x;
    let fy = state.player.position.y + state.player.velocity.y - state.ship.position.y;
    state.ship.facing = Vec2 { x: fx, y: fy };
    state.ship.position = state.player.position;
}

} // verus!
