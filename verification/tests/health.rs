use earth_escape::player::calculate_health;
use earth_escape::types::{
    CollisionEvent, CollisionLayers, CollisionStatus, GameState, HeartSprite, Layer, PlayerHealth,
    MAX_HEALTH,
};
use earth_escape::utilities::{is_enemy, is_player};

const WINDOW_W: i64 = 1_200_000;

fn player_layers() -> CollisionLayers {
    CollisionLayers::single(Layer::Player)
}

fn enemy_layers() -> CollisionLayers {
    CollisionLayers::single(Layer::Enemies)
}

fn started(a: CollisionLayers, b: CollisionLayers) -> CollisionEvent {
    CollisionEvent { status: CollisionStatus::Started, layers_1: a, layers_2: b }
}

fn stopped(a: CollisionLayers, b: CollisionLayers) -> CollisionEvent {
    CollisionEvent { status: CollisionStatus::Stopped, layers_1: a, layers_2: b }
}

#[test]
fn layer_classification() {
    assert!(is_player(player_layers()));
    assert!(!is_enemy(player_layers()));
    assert!(is_enemy(enemy_layers()));
    assert!(!is_player(enemy_layers()));
    let both = CollisionLayers { player: true, enemies: true };
    assert!(!is_player(both));
    assert!(!is_enemy(both));
}

#[test]
fn collision_start_costs_one_heart() {
    let mut state = GameState::new(WINDOW_W);
    let events = vec![started(player_layers(), enemy_layers())];
    calculate_health(&mut state, &events);
    assert_eq!(state.health.0, 4);
    assert!(!state.died.0);
    assert_eq!(state.hearts, vec![true, true, true, true, false]);
}

#[test]
fn collision_start_works_in_either_participant_order() {
    let mut state = GameState::new(WINDOW_W);
    let events = vec![started(enemy_layers(), player_layers())];
    calculate_health(&mut state, &events);
    assert_eq!(state.health.0, 4);
}

#[test]
fn collision_stop_restores_one_heart_below_cap() {
    let mut state = GameState::new(WINDOW_W);
    state.health.0 = 3;
    let events = vec![stopped(player_layers(), enemy_layers())];
    calculate_health(&mut state, &events);
    assert_eq!(state.health.0, 4);
    assert_eq!(state.hearts, vec![true, true, true, true, false]);
}

#[test]
fn collision_stop_at_full_health_changes_nothing() {
    let mut state = GameState::new(WINDOW_W);
    let events = vec![stopped(player_layers(), enemy_layers())];
    calculate_health(&mut state, &events);
    assert_eq!(state.health.0, MAX_HEALTH);
    assert_eq!(state.hearts, vec![true, true, true, true, true]);
}

#[test]
fn events_not_pairing_player_and_enemy_are_ignored() {
    let mut state = GameState::new(WINDOW_W);
    state.health.0 = 3;
    let both = CollisionLayers { player: true, enemies: true };
    let events = vec![
        started(enemy_layers(), enemy_layers()),
        started(player_layers(), player_layers()),
        started(both, enemy_layers()),
        stopped(enemy_layers(), enemy_layers()),
    ];
    calculate_health(&mut state, &events);
    assert_eq!(state.health.0, 3);
}

#[test]
fn events_apply_in_order_within_one_tick() {
    let mut state = GameState::new(WINDOW_W);
    state.health.0 = 2;
    let events = vec![
        started(player_layers(), enemy_layers()),
        started(player_layers(), enemy_layers()),
        stopped(player_layers(), enemy_layers()),
    ];
    calculate_health(&mut state, &events);
    assert_eq!(state.health.0, 1);
    assert!(!state.died.0);
    assert_eq!(state.hearts, vec![true, false, false, false, false]);
}

#[test]
fn last_heart_lost_transitions_to_terminal_state() {
    let mut state = GameState::new(WINDOW_W);
    state.health.0 = 1;
    let events = vec![started(player_layers(), enemy_layers())];
    calculate_health(&mut state, &events);
    assert_eq!(state.health.0, 0);
    assert!(state.died.0);
    assert_eq!(state.center_message, "You Died");
    assert_eq!(state.sub_message, "Press R to restart");
    assert!(state.spawn_timer.0.paused);
    assert_eq!(state.hearts, vec![false, false, false, false, false]);
}

#[test]
fn terminal_state_drops_events_and_is_set_only_once() {
    let mut state = GameState::new(WINDOW_W);
    state.health.0 = 1;
    let hit = vec![started(player_layers(), enemy_layers())];
    calculate_health(&mut state, &hit);
    assert!(state.died.0);

    // Further ticks, even with events that would otherwise heal or hurt,
    // leave the terminal state exactly as it is.
    let more = vec![
        stopped(player_layers(), enemy_layers()),
        started(player_layers(), enemy_layers()),
    ];
    calculate_health(&mut state, &more);
    assert_eq!(state.health.0, 0);
    assert!(state.died.0);
    assert_eq!(state.center_message, "You Died");
    assert!(state.spawn_timer.0.paused);
    assert_eq!(state.hearts, vec![false, false, false, false, false]);
}

#[test]
fn health_never_exceeds_cap_or_drops_below_zero() {
    let mut state = GameState::new(WINDOW_W);
    state.health.0 = 4;
    let mut events = Vec::new();
    for _ in 0..10 {
        events.push(stopped(player_layers(), enemy_layers()));
    }
    calculate_health(&mut state, &events);
    assert_eq!(state.health.0, MAX_HEALTH);

    let mut events = Vec::new();
    for _ in 0..10 {
        events.push(started(player_layers(), enemy_layers()));
    }
    calculate_health(&mut state, &events);
    assert_eq!(state.health.0, 0);
    assert!(state.died.0);
}

#[test]
fn heart_slot_fullness_follows_its_ordinal() {
    let health = PlayerHealth(3);
    assert!(HeartSprite(0).is_full(&health));
    assert!(HeartSprite(2).is_full(&health));
    assert!(!HeartSprite(3).is_full(&health));
    assert!(!HeartSprite(4).is_full(&health));
}

#[test]
fn heart_display_matches_health_ordinals() {
    for h in 1..=5u8 {
        let mut state = GameState::new(WINDOW_W);
        state.health.0 = h;
        calculate_health(&mut state, &Vec::new());
        for i in 0..5u8 {
            assert_eq!(state.hearts[i as usize], h > i);
        }
    }
}
