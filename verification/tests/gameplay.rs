//! Session-level checks: spawning from level data, the fixed-tick
//! pipeline, pickup collection with compounding side effects, the goal
//! and fail conditions, and the level round trip.

use platformer_core::math::Vec2;
use platformer_core::player::{state_of_velocity, PlayerState};
use platformer_core::components::Velocity;
use platformer_core::session::{
    draw_effects, AnimationCatalog, LevelData, LevelSession, TickInput,
};
use platformer_core::side_effects::SideEffect;
use platformer_core::world::EntityKind;
use platformer_core::GameData;
use platformer_core::GameState;

fn catalog() -> AnimationCatalog {
    AnimationCatalog { idle_frames: 20, run_frames: 5, jump_frames: 5, fall_frames: 3 }
}

fn no_input() -> TickInput {
    TickInput { left: false, right: false, jump_just_pressed: false }
}

fn empty_level(pill_goal: u32) -> LevelData {
    LevelData {
        platforms: Vec::new(),
        pills: Vec::new(),
        labels: Vec::new(),
        time_limit: 60,
        pill_goal,
        goal: Vec2::new(100_000, 0),
    }
}

fn player_velocity(s: &LevelSession) -> Vec2 {
    let i = s.world.index_of_kind(EntityKind::Player).unwrap();
    s.world.entities[i].velocity.unwrap().0
}

fn player_position(s: &LevelSession) -> Vec2 {
    let i = s.world.index_of_kind(EntityKind::Player).unwrap();
    s.world.entities[i].position
}

#[test]
fn one_gravity_tick_at_rest_gives_the_impulse() {
    // at rest with gravity (0, -1) and the impulse scale of 50, one
    // tick leaves velocity (0, -50) before any collision could resolve
    let mut s = LevelSession::enter_level(&empty_level(1), &Vec::new(), catalog());
    assert_eq!(player_velocity(&s), Vec2::new(0, 0));
    s.fixed_tick(no_input(), 0);
    assert_eq!(player_velocity(&s), Vec2::new(0, -50));
}

#[test]
fn free_fall_velocity_is_linear_in_ticks() {
    let mut s = LevelSession::enter_level(&empty_level(1), &Vec::new(), catalog());
    for _ in 0..10 {
        s.fixed_tick(no_input(), 0);
    }
    assert_eq!(player_velocity(&s).y, -500);
}

#[test]
fn state_is_a_pure_function_of_velocity() {
    assert_eq!(state_of_velocity(&Velocity(Vec2::new(0, 5))), PlayerState::Jumping);
    assert_eq!(state_of_velocity(&Velocity(Vec2::new(0, -5))), PlayerState::Falling);
    assert_eq!(state_of_velocity(&Velocity(Vec2::new(3, 0))), PlayerState::Running);
    assert_eq!(state_of_velocity(&Velocity(Vec2::new(0, 0))), PlayerState::Idle);
    // ties favor the vertical classification
    assert_eq!(state_of_velocity(&Velocity(Vec2::new(3, 5))), PlayerState::Jumping);
    assert_eq!(state_of_velocity(&Velocity(Vec2::new(3, -5))), PlayerState::Falling);
    // same velocity, same state, whatever was asked before
    for _ in 0..3 {
        assert_eq!(state_of_velocity(&Velocity(Vec2::new(7, 0))), PlayerState::Running);
    }
}

#[test]
fn movement_sets_velocity_directly_and_jump_needs_ground() {
    let mut s = LevelSession::enter_level(&empty_level(1), &Vec::new(), catalog());
    let run = TickInput { left: false, right: true, jump_just_pressed: false };
    s.fixed_tick(run, 0);
    assert_eq!(player_velocity(&s).x, 350);
    let run_left = TickInput { left: true, right: false, jump_just_pressed: false };
    s.fixed_tick(run_left, 0);
    assert_eq!(player_velocity(&s).x, -350);
    // airborne now (falling): a jump press must be a no-op
    s.frame_update(0);
    assert_eq!(s.player_state, PlayerState::Falling);
    let jump = TickInput { left: false, right: false, jump_just_pressed: true };
    let vy_before = player_velocity(&s).y;
    s.fixed_tick(jump, 0);
    assert_eq!(player_velocity(&s).y, vy_before - 50);
}

#[test]
fn jump_from_idle_uses_the_jump_speed() {
    let mut s = LevelSession::enter_level(&empty_level(1), &Vec::new(), catalog());
    // still idle: the state machine has not seen the fall yet
    assert_eq!(s.player_state, PlayerState::Idle);
    let jump = TickInput { left: false, right: false, jump_just_pressed: true };
    s.fixed_tick(jump, 0);
    // gravity first (-50), then the jump overwrites the vertical axis
    assert_eq!(player_velocity(&s).y, 1000);
}

#[test]
fn spawning_from_level_data_builds_every_entity() {
    let level = LevelData {
        platforms: vec![Vec2::new(0, -100), Vec2::new(300, -100)],
        pills: vec![Vec2::new(50, 0)],
        labels: vec![(String::from("run"), Vec2::new(10, 40))],
        time_limit: 60,
        pill_goal: 1,
        goal: Vec2::new(600, 0),
    };
    let effects = draw_effects(1);
    assert_eq!(effects.len(), 1);
    let mut s = LevelSession::enter_level(&level, &effects, catalog());
    // entities appear only once the next frame consumes the queues
    assert_eq!(s.world.entities.len(), 1);
    s.frame_update(0);
    assert_eq!(s.world.entities.len(), 6);
    let kinds: Vec<EntityKind> = s.world.entities.iter().map(|e| e.kind).collect();
    assert_eq!(
        kinds,
        vec![
            EntityKind::Player,
            EntityKind::Platform,
            EntityKind::Platform,
            EntityKind::Pickup,
            EntityKind::Label,
            EntityKind::Goal,
        ]
    );
    let label = &s.world.entities[4];
    assert_eq!(label.text.as_deref(), Some("run"));
    assert_eq!(label.position, Vec2::new(10, 40));
}

#[test]
fn falling_player_lands_on_platform() {
    let level = LevelData {
        platforms: vec![Vec2::new(0, -120)],
        pills: Vec::new(),
        labels: Vec::new(),
        time_limit: 60,
        pill_goal: 0,
        goal: Vec2::new(100_000, 0),
    };
    let mut s = LevelSession::enter_level(&level, &Vec::new(), catalog());
    s.frame_update(0);
    // fall with a real time delta until the platform stops the player
    for _ in 0..120 {
        s.fixed_tick(no_input(), 17);
    }
    // resting exactly on top: platform top (-96) plus half height (48)
    assert_eq!(player_position(&s).y, -48);
    assert_eq!(player_velocity(&s).y, -50); // the tick's fresh impulse, zeroed again next resolve
    s.frame_update(0);
    assert!(!s.world.entities.is_empty());
}

#[test]
fn collecting_pickups_compounds_effects_in_order() {
    // three pickups on top of the player, with the variants chosen
    // up front: shrink, then speed, then slowness
    let level = LevelData {
        platforms: Vec::new(),
        pills: vec![Vec2::new(0, 0), Vec2::new(0, 0), Vec2::new(0, 0)],
        labels: Vec::new(),
        time_limit: 60,
        pill_goal: 3,
        goal: Vec2::new(100_000, 0),
    };
    let effects = vec![SideEffect::Shrink, SideEffect::Speed, SideEffect::Slowness];
    let mut s = LevelSession::enter_level(&level, &effects, catalog());
    s.frame_update(0);
    assert_eq!(s.world.entities.len(), 5);

    let completed = s.fixed_tick(no_input(), 0);
    assert!(!completed);
    // exactly those three pickups are gone, the count rose by exactly
    // three, and three events were dispatched
    assert_eq!(s.world.entities.len(), 2);
    assert_eq!(s.player.as_ref().unwrap().medicines_collected, 3);
    assert_eq!(s.effect_events.len(), 3);
    assert_eq!(s.effect_events[0].0, SideEffect::Shrink);
    assert_eq!(s.effect_events[1].0, SideEffect::Speed);
    assert_eq!(s.effect_events[2].0, SideEffect::Slowness);

    // the next frame applies them in dispatch order, multiplicatively
    s.frame_update(0);
    let p = s.player.as_ref().unwrap();
    assert_eq!(p.speed_multiplier_milli, 1200); // 1.0 * 1.5 * 0.8
    assert_eq!(p.jump_multiplier_milli, 850); // 1.0 * 0.85
    assert_eq!(p.scale_milli, 2190); // 3.0 * 0.73
    // the collision half-extents shrank with the body
    let i = s.world.index_of_kind(EntityKind::Player).unwrap();
    let half = s.world.entities[i].shape.unwrap().half_size;
    assert_eq!(half, Vec2::new(15, 35)); // (21, 48) * 0.73, truncated
    assert_eq!(s.effect_events.len(), 0);
}

#[test]
fn collection_leaves_distant_pickups_alone() {
    let level = LevelData {
        platforms: Vec::new(),
        pills: vec![Vec2::new(0, 0), Vec2::new(5_000, 0)],
        labels: Vec::new(),
        time_limit: 60,
        pill_goal: 2,
        goal: Vec2::new(100_000, 0),
    };
    let effects = vec![SideEffect::Speed, SideEffect::Speed];
    let mut s = LevelSession::enter_level(&level, &effects, catalog());
    s.frame_update(0);
    s.fixed_tick(no_input(), 0);
    assert_eq!(s.player.as_ref().unwrap().medicines_collected, 1);
    assert_eq!(s.effect_events.len(), 1);
    let pickups = s
        .world
        .entities
        .iter()
        .filter(|e| e.kind == EntityKind::Pickup)
        .count();
    assert_eq!(pickups, 1);
}

#[test]
fn goal_needs_the_exact_collected_count() {
    // the goal target stands on the player; two pickups exist far away
    let level = LevelData {
        platforms: Vec::new(),
        pills: vec![Vec2::new(5_000, 0), Vec2::new(6_000, 0)],
        labels: Vec::new(),
        time_limit: 60,
        pill_goal: 2,
        goal: Vec2::new(0, 0),
    };
    let effects = vec![SideEffect::Speed, SideEffect::Speed];
    let mut s = LevelSession::enter_level(&level, &effects, catalog());
    s.frame_update(0);
    // under-collection while overlapping: a silent no-op, never a win
    assert!(!s.fixed_tick(no_input(), 0));
    assert!(!s.fixed_tick(no_input(), 0));
}

#[test]
fn goal_triggers_on_the_tick_the_count_matches() {
    // one pickup and the goal both on the player; the same tick that
    // collects the last pickup sees the exact count and completes
    let level = LevelData {
        platforms: Vec::new(),
        pills: vec![Vec2::new(0, 0)],
        labels: Vec::new(),
        time_limit: 60,
        pill_goal: 1,
        goal: Vec2::new(0, 0),
    };
    let effects = vec![SideEffect::Speed];
    let mut s = LevelSession::enter_level(&level, &effects, catalog());
    s.frame_update(0);
    assert!(s.fixed_tick(no_input(), 0));
}

#[test]
fn zero_goal_completes_on_first_overlapping_tick() {
    let level = LevelData {
        platforms: Vec::new(),
        pills: Vec::new(),
        labels: Vec::new(),
        time_limit: 60,
        pill_goal: 0,
        goal: Vec2::new(0, 0),
    };
    let mut s = LevelSession::enter_level(&level, &Vec::new(), catalog());
    s.frame_update(0);
    assert!(s.fixed_tick(no_input(), 0));
}

#[test]
fn falling_below_the_floor_is_game_over() {
    let mut s = LevelSession::enter_level(&empty_level(0), &Vec::new(), catalog());
    let out = s.frame_update(0);
    assert!(!out.game_over);
    let i = s.world.index_of_kind(EntityKind::Player).unwrap();
    s.world.entities[i].position.y = -5001;
    let out = s.frame_update(0);
    assert!(out.game_over);
}

#[test]
fn running_out_the_clock_is_game_over() {
    let mut s = LevelSession::enter_level(&empty_level(0), &Vec::new(), catalog());
    let out = s.frame_update(900_000);
    assert!(!out.game_over);
    assert_eq!(s.countdown.remaining_secs(), 59);
    for _ in 0..59 {
        s.frame_update(1_000_000);
    }
    let out = s.frame_update(100_000);
    assert!(out.game_over);
}

#[test]
fn state_change_signal_fires_once_per_transition() {
    let mut s = LevelSession::enter_level(&empty_level(0), &Vec::new(), catalog());
    s.fixed_tick(no_input(), 0); // now falling
    let out = s.frame_update(0);
    assert_eq!(out.state_changed, Some(PlayerState::Falling));
    assert_eq!(s.player.as_ref().unwrap().animation_length, 3);
    assert_eq!(s.player.as_ref().unwrap().frame_index, 0);
    let out = s.frame_update(0);
    assert_eq!(out.state_changed, None);
}

#[test]
fn player_animation_advances_and_wraps() {
    let mut s = LevelSession::enter_level(&empty_level(0), &Vec::new(), catalog());
    // one full player animation period per frame: the strip steps by one
    s.frame_update(62_500);
    assert_eq!(s.player.as_ref().unwrap().frame_index, 1);
    for _ in 0..14 {
        s.frame_update(62_500);
    }
    assert_eq!(s.player.as_ref().unwrap().frame_index, 0); // wrapped at 15
}

#[test]
fn level_exit_despawns_everything_and_respawn_reproduces_it() {
    let level = LevelData {
        platforms: vec![Vec2::new(0, -100), Vec2::new(250, -40)],
        pills: vec![Vec2::new(40, 0), Vec2::new(90, 10)],
        labels: vec![(String::from("go"), Vec2::new(1, 2))],
        time_limit: 30,
        pill_goal: 2,
        goal: Vec2::new(500, 0),
    };
    let first_effects = vec![SideEffect::Shrink, SideEffect::Speed];
    let mut s = LevelSession::enter_level(&level, &first_effects, catalog());
    s.frame_update(0);
    let first: Vec<_> = s
        .world
        .entities
        .iter()
        .map(|e| (e.kind, e.position, e.shape))
        .collect();

    s.exit_level();
    assert_eq!(s.world.entities.len(), 0);
    assert!(s.player.is_none());
    assert!(!s.world.has_kind(EntityKind::Player));
    assert!(!s.world.has_kind(EntityKind::Goal));

    // re-enter from the same level data; the pickups draw new effects
    let second_effects = vec![SideEffect::Slowness, SideEffect::Slowness];
    let mut s = LevelSession::enter_level(&level, &second_effects, catalog());
    s.frame_update(0);
    let second: Vec<_> = s
        .world
        .entities
        .iter()
        .map(|e| (e.kind, e.position, e.shape))
        .collect();

    assert_eq!(first, second);
}

#[test]
fn camera_follows_the_player() {
    let mut s = LevelSession::enter_level(&empty_level(0), &Vec::new(), catalog());
    assert_eq!(s.camera_target(), Some(Vec2::new(0, 0)));
    s.exit_level();
    assert_eq!(s.camera_target(), None);
}

#[test]
fn debug_input_queues_entities_near_the_player() {
    let mut s = LevelSession::enter_level(&empty_level(0), &Vec::new(), catalog());
    s.frame_update(0);
    s.debug_spawn(true, true);
    s.frame_update(0);
    let platform = s
        .world
        .entities
        .iter()
        .find(|e| e.kind == EntityKind::Platform)
        .expect("a platform was queued");
    assert_eq!(platform.position, Vec2::new(0, -90));
    let pickup = s
        .world
        .entities
        .iter()
        .find(|e| e.kind == EntityKind::Pickup)
        .expect("a pickup was queued");
    assert_eq!(pickup.position, Vec2::new(50, 0));
}

#[test]
fn random_side_effects_are_always_valid_variants() {
    for _ in 0..50 {
        let e = platformer_core::side_effects::random_side_effect();
        assert!(matches!(
            e,
            SideEffect::Shrink | SideEffect::Speed | SideEffect::Slowness
        ));
    }
    assert_eq!(draw_effects(7).len(), 7);
}

#[test]
fn advancing_a_level_saves_progress_and_reenters() {
    let mut d = GameData::new();
    assert_eq!(d.current_level, 1);
    let next = d.advance_level();
    assert_eq!(d.current_level, 2);
    assert_eq!(next, GameState::Level);
}

#[test]
fn level_data_bounds_are_checked() {
    let good = empty_level(0);
    assert!(good.check_in_bounds());
    let mut bad = empty_level(0);
    bad.goal = Vec2::new(i64::MAX / 2, 0);
    assert!(!bad.check_in_bounds());
}
