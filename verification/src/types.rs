//! Data model of the simulation: world vectors in integer milliunits, the
//! periodic timers, collision layers and events, the entities, and the
//! simulation state that every per-tick function works on.

use vstd::prelude::*;
use vstd::string::StringExecFns;

verus! {

/// Health the player starts with, and its upper bound.
pub const MAX_HEALTH: u8 = 5;

/// Number of heart slots in the health display.
pub const HEART_COUNT: usize = 5;

/// Upper bound of the difficulty counter.
pub const MAX_SIZE_INCREMENTS: u8 = 100;

/// Period of the enemy spawn timer, in milliseconds.
pub const SPAWN_PERIOD_MS: u64 = 500;

/// Period of the difficulty increment timer, in milliseconds.
pub const SIZE_PERIOD_MS: u64 = 5000;

/// Cap on the number of live enemies.
pub const MAX_CHASERS: u32 = 1000;

/// Per-tick steering acceleration of an enemy, in milliunits.
pub const CHASER_SPEED: i64 = 2500;

/// Per-tick acceleration of the player per pressed direction, in milliunits.
pub const PLAYER_SPEED: i64 = 5000;

/// Width of the random padding past the window edge at which enemies spawn:
/// 100 world units, in milliunits.
pub const SPAWN_PAD: i64 = 100_000;

/// Lower bound (inclusive) of the common size-scale branch, in hundredths.
pub const SCALE_COMMON_LO: u32 = 80;

/// Upper bound (exclusive) of the common size-scale branch, in hundredths.
pub const SCALE_COMMON_HI: u32 = 120;

/// Lower bound (inclusive) of the rare size-scale branch, in hundredths.
pub const SCALE_RARE_LO: u32 = 75;

/// Upper bound (exclusive) of the rare size-scale branch at difficulty zero,
/// in hundredths; each difficulty step widens it by two hundredths.
pub const SCALE_RARE_BASE: u32 = 250;

/// Upper bound (exclusive) of every size scale: the rare branch at the
/// difficulty cap, 250 + 2 * 100 hundredths.
pub const SCALE_CAP: u32 = 450;

/// Largest magnitude a world coordinate may have for the spawn geometry to
/// stay within machine integers.
pub const COORD_LIMIT: i64 = 1_000_000_000_000;

/// Largest window dimension, in milliunits, the geometry accepts.
pub const DIM_LIMIT: i64 = 1_000_000_000;

/// A 2D world vector in milliunits.
#[derive(Clone, Copy, Debug, PartialEq, Eq, Structural)]
pub struct Vec2 {
    pub x: i64,
    pub y: i64,
}

/// Per-tick acceleration constant of an entity, in milliunits.
#[derive(Clone, Copy, Debug, PartialEq, Eq, Structural)]
pub struct Speed(pub i64);

/// Size scale factor fixed at spawn time, in hundredths.
#[derive(Clone, Copy, Debug, PartialEq, Eq, Structural)]
pub struct SizeScale(pub u32);

/// Collision-participation tags used to classify collision events.
#[derive(Clone, Copy, Debug, PartialEq, Eq, Structural)]
pub enum Layer {
    Player,
    Enemies,
}

/// The layer memberships of one collision participant.
#[derive(Clone, Copy, Debug, PartialEq, Eq, Structural)]
pub struct CollisionLayers {
    pub player: bool,
    pub enemies: bool,
}

impl CollisionLayers {
    /// Membership set holding exactly one layer.
    pub fn single(layer: Layer) -> (r: CollisionLayers)
        ensures
            r.player == (layer == Layer::Player),
            r.enemies == (layer == Layer::Enemies),
    {
        match layer {
            Layer::Player => CollisionLayers { player: true, enemies: false },
            Layer::Enemies => CollisionLayers { player: false, enemies: true },
        }
    }

    /// Whether this participant is a member of the given layer.
    pub fn contains_group(&self, layer: Layer) -> (r: bool)
        ensures
            r == (match layer {
                Layer::Player => self.player,
                Layer::Enemies => self.enemies,
            }),
    {
        match layer {
            Layer::Player => self.player,
            Layer::Enemies => self.enemies,
        }
    }
}

/// Whether a collision event reports two bodies beginning or ending contact.
#[derive(Clone, Copy, Debug, PartialEq, Eq, Structural)]
pub enum CollisionStatus {
    Started,
    Stopped,
}

/// One collision delta handed over by the physics collaborator, annotated
/// with the two participants' layer memberships.
#[derive(Clone, Copy, Debug, PartialEq, Eq, Structural)]
pub struct CollisionEvent {
    pub status: CollisionStatus,
    pub layers_1: CollisionLayers,
    pub layers_2: CollisionLayers,
}

/// A periodic timer advanced by wall-clock milliseconds. It fires on the
/// tick in which its elapsed time crosses the period, then wraps.
#[derive(Clone, Copy, Debug, PartialEq, Eq, Structural)]
pub struct Timer {
    pub elapsed_ms: u64,
    pub period_ms: u64,
    pub paused: bool,
}

impl Timer {
    /// A timer keeps its elapsed time strictly below its period.
    pub open spec fn wf(self) -> bool {
        self.elapsed_ms < self.period_ms
    }

    /// The timer after being advanced by `delta_ms`.
    pub open spec fn spec_tick(self, delta_ms: u64) -> Timer {
        if self.paused {
            self
        } else if self.elapsed_ms + delta_ms >= self.period_ms {
            Timer { elapsed_ms: ((self.elapsed_ms + delta_ms) % self.period_ms as int) as u64, ..self }
        } else {
            Timer { elapsed_ms: (self.elapsed_ms + delta_ms) as u64, ..self }
        }
    }

    /// Whether advancing by `delta_ms` crosses the period boundary.
    pub open spec fn spec_fires(self, delta_ms: u64) -> bool {
        !self.paused && self.elapsed_ms + delta_ms >= self.period_ms
    }

    /// Fresh repeating timer with the given period, running.
    pub fn from_millis(period_ms: u64) -> (r: Timer)
        requires
            period_ms >= 1,
        ensures
            r == (Timer { elapsed_ms: 0, period_ms, paused: false }),
            r.wf(),
    {
        Timer { elapsed_ms: 0, period_ms, paused: false }
    }

    /// Advance the timer; the result says whether it just fired. A paused
    /// timer does not advance and never fires.
    pub fn tick(&mut self, delta_ms: u64) -> (fired: bool)
        requires
            old(self).wf(),
            delta_ms <= u64::MAX - old(self).period_ms,
        ensures
            *final(self) == old(self).spec_tick(delta_ms),
            fired == old(self).spec_fires(delta_ms),
            final(self).wf(),
    {
        if self.paused {
            return false;
        }
        let total = self.elapsed_ms + delta_ms;
        if total >= self.period_ms {
            self.elapsed_ms = total % self.period_ms;
            true
        } else {
            self.elapsed_ms = total;
            false
        }
    }

    /// Stop the timer; it keeps its elapsed time.
    pub fn pause(&mut self)
        ensures
            *final(self) == (Timer { paused: true, ..*old(self) }),
    {
        self.paused = true;
    }

    /// Let a stopped timer run again.
    pub fn unpause(&mut self)
        ensures
            *final(self) == (Timer { paused: false, ..*old(self) }),
    {
        self.paused = false;
    }
}

/// The enemy spawn cadence timer.
#[derive(Clone, Copy, Debug, PartialEq, Eq, Structural)]
pub struct SpawnTimer(pub Timer);

/// The difficulty increment cadence timer.
#[derive(Clone, Copy, Debug, PartialEq, Eq, Structural)]
pub struct IncreaseSpawnSizeTimer(pub Timer);

/// The player's current health, in hearts.
#[derive(Clone, Copy, Debug, PartialEq, Eq, Structural)]
pub struct PlayerHealth(pub u8);

/// Terminal-state flag: true freezes spawning and health processing until an
/// explicit reset.
#[derive(Clone, Copy, Debug, PartialEq, Eq, Structural)]
pub struct PlayerDied(pub bool);

/// User-toggled pause flag, independent from `PlayerDied`.
#[derive(Clone, Copy, Debug, PartialEq, Eq, Structural)]
pub struct GamePaused(pub bool);

/// The difficulty counter: widens the rare size-scale branch of newly
/// spawned enemies.
#[derive(Clone, Copy, Debug, PartialEq, Eq, Structural)]
pub struct SpawnSizeIncrements(pub u8);

/// Ordinal position of one heart slot in the health display.
#[derive(Clone, Copy, Debug, PartialEq, Eq, Structural)]
pub struct HeartSprite(pub u8);

impl HeartSprite {
    /// A slot shows a full heart exactly when its ordinal lies below the
    /// health counter.
    pub fn is_full(&self, health: &PlayerHealth) -> (r: bool)
        ensures
            r == (health.0 > self.0),
    {
        health.0 > self.0
    }
}

/// How many enemies are live, and the cap past which spawning is disabled.
#[derive(Clone, Copy, Debug, PartialEq, Eq, Structural)]
pub struct ChaserCount {
    pub current: u32,
    pub max: u32,
}

impl ChaserCount {
    pub fn new(current: u32, max: u32) -> (r: ChaserCount)
        ensures
            r == (ChaserCount { current, max }),
    {
        ChaserCount { current, max }
    }

    /// Whether the cap is reached and spawning is disabled.
    pub fn at_max(&self) -> (r: bool)
        ensures
            r == (self.current >= self.max),
    {
        self.current >= self.max
    }
}

/// Which sprite a spawned enemy uses; cosmetic only.
#[derive(Clone, Copy, Debug, PartialEq, Eq, Structural)]
pub enum EnemySprite {
    Chaser,
    Chicken,
}

/// One chasing enemy. Its size and scale are fixed at spawn time; a window
/// resize recomputes the size from the kept scale.
#[derive(Clone, Copy, Debug, PartialEq, Eq, Structural)]
pub struct ChasingEnemy {
    pub position: Vec2,
    pub velocity: Vec2,
    pub speed: Speed,
    pub size_scale: SizeScale,
    pub size: i64,
    pub collision_radius: i64,
    pub sprite: EnemySprite,
}

/// The player entity: a singleton, mutated in place across resets.
#[derive(Clone, Copy, Debug, PartialEq, Eq, Structural)]
pub struct Player {
    pub position: Vec2,
    pub velocity: Vec2,
    pub speed: Speed,
    pub size: i64,
    pub collision_radius: i64,
}

/// The visual ship that tracks the player and faces its direction of travel.
/// `facing` is the unnormalized direction vector; the renderer turns it into
/// an angle.
#[derive(Clone, Copy, Debug, PartialEq, Eq, Structural)]
pub struct PlayerShip {
    pub position: Vec2,
    pub facing: Vec2,
    pub sprite_index: u8,
    pub size: i64,
}

/// How the window is presented; owned by the windowing collaborator.
#[derive(Clone, Copy, Debug, PartialEq, Eq, Structural)]
pub enum WindowMode {
    Windowed,
    BorderlessFullscreen,
}

/// The logical state of the four directional inputs for one tick.
#[derive(Clone, Copy, Debug, PartialEq, Eq, Structural)]
pub struct DirectionInput {
    pub left: bool,
    pub right: bool,
    pub up: bool,
    pub down: bool,
}

impl DirectionInput {
    /// Whether any direction is held.
    pub open spec fn any(self) -> bool {
        self.left || self.right || self.up || self.down
    }
}

/// The whole simulation state, passed into each per-tick function.
pub struct GameState {
    pub paused: GamePaused,
    pub died: PlayerDied,
    /// Whether the physics collaborator's time scale is running.
    pub physics_running: bool,
    pub health: PlayerHealth,
    /// Health display: slot `i` shows a full heart iff `hearts[i]`.
    pub hearts: Vec<bool>,
    pub chaser_count: ChaserCount,
    pub size_increments: SpawnSizeIncrements,
    pub spawn_timer: SpawnTimer,
    pub size_timer: IncreaseSpawnSizeTimer,
    pub enemies: Vec<ChasingEnemy>,
    pub player: Player,
    pub ship: PlayerShip,
    pub camera: Vec2,
    /// Large status line shown mid-screen ("Paused", "You Died").
    pub center_message: String,
    /// Smaller status line below the central one.
    pub sub_message: String,
    /// Green and blue channel of the enemy-count readout, interpolating
    /// toward red as the count approaches 255.
    pub count_color_channel: u8,
}

impl GameState {
    /// Well-formedness of the simulation state: health is bounded, health
    /// zero only in the terminal state, the enemy count respects its cap,
    /// difficulty respects its cap, the timers are well formed, the health
    /// display has one slot per possible heart, and every enemy's size scale
    /// stays below the cap of the widest distribution branch.
    pub open spec fn wf(self) -> bool {
        &&& self.health.0 <= MAX_HEALTH
        &&& (self.health.0 == 0 ==> self.died.0)
        &&& self.chaser_count.current <= self.chaser_count.max
        &&& self.size_increments.0 <= MAX_SIZE_INCREMENTS
        &&& self.spawn_timer.0.wf()
        &&& self.size_timer.0.wf()
        &&& self.hearts.len() == HEART_COUNT
        &&& forall|i: int|
            0 <= i < self.enemies@.len() ==> (#[trigger] self.enemies@[i]).size_scale.0 < SCALE_CAP
    }

    /// The state a fresh run starts in, for a window of the given width.
    pub fn new(window_width: i64) -> (r: GameState)
        requires
            1 <= window_width <= DIM_LIMIT,
        ensures
            r.wf(),
            !r.paused.0,
            !r.died.0,
            r.physics_running,
            r.health.0 == MAX_HEALTH,
            forall|i: int| 0 <= i < HEART_COUNT ==> r.hearts@[i],
            r.chaser_count == (ChaserCount { current: 0, max: MAX_CHASERS }),
            r.size_increments.0 == 0,
            r.spawn_timer.0 == (Timer { elapsed_ms: 0, period_ms: SPAWN_PERIOD_MS, paused: false }),
            r.size_timer.0 == (Timer { elapsed_ms: 0, period_ms: SIZE_PERIOD_MS, paused: false }),
            r.enemies@ =~= Seq::<ChasingEnemy>::empty(),
            r.player == (Player {
                position: Vec2 { x: 0, y: 0 },
                velocity: Vec2 { x: 0, y: 0 },
                speed: Speed(PLAYER_SPEED),
                size: (window_width / 20) as i64,
                collision_radius: (window_width / 20 / 2) as i64,
            }),
            r.ship == (PlayerShip {
                position: Vec2 { x: 0, y: 0 },
                facing: Vec2 { x: 0, y: 0 },
                sprite_index: 0,
                size: (window_width / 20 * 3 / 2) as i64,
            }),
            r.camera == (Vec2 { x: 0, y: 0 }),
            r.center_message@ == ""@,
            r.sub_message@ == ""@,
            r.count_color_channel == 255,
    {
        let size = window_width / 20;
        GameState {
            paused: GamePaused(false),
            died: PlayerDied(false),
            physics_running: true,
            health: PlayerHealth(MAX_HEALTH),
            hearts: vec![true, true, true, true, true],
            chaser_count: ChaserCount::new(0, MAX_CHASERS),
            size_increments: SpawnSizeIncrements(0),
            spawn_timer: SpawnTimer(Timer::from_millis(SPAWN_PERIOD_MS)),
            size_timer: IncreaseSpawnSizeTimer(Timer::from_millis(SIZE_PERIOD_MS)),
            enemies: Vec::new(),
            player: Player {
                position: Vec2 { x: 0, y: 0 },
                velocity: Vec2 { x: 0, y: 0 },
                speed: Speed(PLAYER_SPEED),
                size,
                collision_radius: size / 2,
            },
            ship: PlayerShip {
                position: Vec2 { x: 0, y: 0 },
                facing: Vec2 { x: 0, y: 0 },
                sprite_index: 0,
                size: size * 3 / 2,
            },
            camera: Vec2 { x: 0, y: 0 },
            center_message: String::from_str(""),
            sub_message: String::from_str(""),
            count_color_channel: 255,
        }
    }
}

} // verus!
