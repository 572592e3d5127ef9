//! The level session: the world, the per-kind spawn queues, the single
//! player's stats, the side-effect event queue, the countdown, and the
//! fixed-tick / per-frame pipelines run in their mandated order.

use vstd::prelude::*;

use crate::collision::spec_overlaps;
use crate::components::Velocity;
use crate::lifecycle::{
    SpawnFloatingLabelEvent, SpawnPatientEvent, SpawnPillEvent, SpawnPlatformEvent, SpawnQueues,
    spec_player_entity, lemma_without_kind_gone, lemma_without_kind_preserves_absence,
};
use crate::math::{milli_of, Vec2, FACTOR_LIMIT};
use crate::physics::{lemma_in_bounds_at_tick_entry, spec_after_physics};
use crate::player::{
    spec_collected, spec_run_velocity, spec_surviving, Player, PlayerState, JUMP_SPEED,
};
use crate::side_effects::{random_side_effect, ApplySideEffectEvent, SideEffect};
use crate::timer::CountdownTimer;
use crate::world::{seq_has_kind, seq_kind_index, Entity, EntityKind, World, POS_LIMIT};

verus! {

/// How many levels the game ships with.
pub const MAX_LEVELS: usize = 5;

/// Largest level time limit the countdown accepts, in seconds.
pub const TIME_LIMIT_SECS_MAX: u64 = 1_000_000;

/// One level's data, fetched once on level entry from the host's level
/// provider and treated as a validated, read-only snapshot.
#[derive(Debug)]
pub struct LevelData {
    pub platforms: Vec<Vec2>,
    pub pills: Vec<Vec2>,
    pub labels: Vec<(String, Vec2)>,
    pub time_limit: u64,
    pub pill_goal: u32,
    pub goal: Vec2,
}

impl LevelData {
    /// Every position inside the spawn-time bound and the time limit
    /// inside the countdown's range.
    pub open spec fn spec_in_bounds(self) -> bool {
        &&& forall|k: int|
            0 <= k < self.platforms@.len() ==> -POS_LIMIT <= (#[trigger] self.platforms@[k]).x
                <= POS_LIMIT && -POS_LIMIT <= self.platforms@[k].y <= POS_LIMIT
        &&& forall|k: int|
            0 <= k < self.pills@.len() ==> -POS_LIMIT <= (#[trigger] self.pills@[k]).x <= POS_LIMIT
                && -POS_LIMIT <= self.pills@[k].y <= POS_LIMIT
        &&& forall|k: int|
            0 <= k < self.labels@.len() ==> -POS_LIMIT <= (#[trigger] self.labels@[k]).1.x
                <= POS_LIMIT && -POS_LIMIT <= self.labels@[k].1.y <= POS_LIMIT
        &&& -POS_LIMIT <= self.goal.x <= POS_LIMIT
        &&& -POS_LIMIT <= self.goal.y <= POS_LIMIT
        &&& self.time_limit <= TIME_LIMIT_SECS_MAX
    }

    /// Validate a level snapshot before the core consumes it.
    pub fn check_in_bounds(&self) -> (b: bool)
        ensures
            b == self.spec_in_bounds(),
    {
        if !(self.time_limit <= TIME_LIMIT_SECS_MAX && -POS_LIMIT <= self.goal.x && self.goal.x
            <= POS_LIMIT && -POS_LIMIT <= self.goal.y && self.goal.y <= POS_LIMIT) {
            return false;
        }
        let n = self.platforms.len();
        let mut i: usize = 0;
        while i < n
            invariant
                0 <= i <= n,
                n == self.platforms@.len(),
                forall|k: int|
                    0 <= k < i ==> -POS_LIMIT <= (#[trigger] self.platforms@[k]).x <= POS_LIMIT
                        && -POS_LIMIT <= self.platforms@[k].y <= POS_LIMIT,
            decreases n - i,
        {
            let p = self.platforms[i];
            if !(-POS_LIMIT <= p.x && p.x <= POS_LIMIT && -POS_LIMIT <= p.y && p.y <= POS_LIMIT) {
                return false;
            }
            i = i + 1;
        }
        let n = self.pills.len();
        let mut i: usize = 0;
        while i < n
            invariant
                0 <= i <= n,
                n == self.pills@.len(),
                forall|k: int|
                    0 <= k < i ==> -POS_LIMIT <= (#[trigger] self.pills@[k]).x <= POS_LIMIT
                        && -POS_LIMIT <= self.pills@[k].y <= POS_LIMIT,
            decreases n - i,
        {
            let p = self.pills[i];
            if !(-POS_LIMIT <= p.x && p.x <= POS_LIMIT && -POS_LIMIT <= p.y && p.y <= POS_LIMIT) {
                return false;
            }
            i = i + 1;
        }
        let n = self.labels.len();
        let mut i: usize = 0;
        while i < n
            invariant
                0 <= i <= n,
                n == self.labels@.len(),
                forall|k: int|
                    0 <= k < i ==> -POS_LIMIT <= (#[trigger] self.labels@[k]).1.x <= POS_LIMIT
                        && -POS_LIMIT <= self.labels@[k].1.y <= POS_LIMIT,
            decreases n - i,
        {
            let p = self.labels[i].1;
            if !(-POS_LIMIT <= p.x && p.x <= POS_LIMIT && -POS_LIMIT <= p.y && p.y <= POS_LIMIT) {
                return false;
            }
            i = i + 1;
        }
        true
    }
}

/// One randomly drawn side effect per pickup about to be spawned.
pub fn draw_effects(n: usize) -> (v: Vec<SideEffect>)
    ensures
        v@.len() == n,
{
    let mut v: Vec<SideEffect> = Vec::new();
    let mut i: usize = 0;
    while i < n
        invariant
            0 <= i <= n,
            v@.len() == i,
        decreases n - i,
    {
        v.push(random_side_effect());
        i = i + 1;
    }
    v
}

/// Turn one level snapshot into the spawn events of everything in it:
/// one platform event per platform, one pickup event per pickup with
/// its pre-drawn side effect, one label event per label, and the single
/// goal-target event.
pub fn spawn_world(level: &LevelData, effects: &Vec<SideEffect>) -> (q: SpawnQueues)
    requires
        effects@.len() == level.pills@.len(),
    ensures
        q.platforms@.len() == level.platforms@.len(),
        forall|k: int|
            0 <= k < level.platforms@.len() ==> #[trigger] q.platforms@[k] == SpawnPlatformEvent(
                level.platforms@[k],
            ),
        q.pills@.len() == level.pills@.len(),
        forall|k: int|
            0 <= k < level.pills@.len() ==> #[trigger] q.pills@[k] == (SpawnPillEvent {
                position: level.pills@[k],
                side_effect: effects@[k],
            }),
        q.labels@.len() == level.labels@.len(),
        forall|k: int|
            0 <= k < level.labels@.len() ==> #[trigger] q.labels@[k] == SpawnFloatingLabelEvent(
                level.labels@[k].0,
                level.labels@[k].1,
            ),
        q.patients@ == seq![SpawnPatientEvent(level.goal)],
        level.spec_in_bounds() ==> q.spec_in_bounds(),
{
    let mut platform_events: Vec<SpawnPlatformEvent> = Vec::new();
    let n = level.platforms.len();
    let mut i: usize = 0;
    while i < n
        invariant
            0 <= i <= n,
            n == level.platforms@.len(),
            platform_events@.len() == i,
            forall|k: int|
                0 <= k < i ==> #[trigger] platform_events@[k] == SpawnPlatformEvent(
                    level.platforms@[k],
                ),
        decreases n - i,
    {
        platform_events.push(SpawnPlatformEvent(level.platforms[i]));
        i = i + 1;
    }

    let mut pill_events: Vec<SpawnPillEvent> = Vec::new();
    let n = level.pills.len();
    let mut i: usize = 0;
    while i < n
        invariant
            0 <= i <= n,
            n == level.pills@.len(),
            n == effects@.len(),
            pill_events@.len() == i,
            forall|k: int|
                0 <= k < i ==> #[trigger] pill_events@[k] == (SpawnPillEvent {
                    position: level.pills@[k],
                    side_effect: effects@[k],
                }),
        decreases n - i,
    {
        pill_events.push(SpawnPillEvent { position: level.pills[i], side_effect: effects[i] });
        i = i + 1;
    }

    let mut label_events: Vec<SpawnFloatingLabelEvent> = Vec::new();
    let n = level.labels.len();
    let mut i: usize = 0;
    while i < n
        invariant
            0 <= i <= n,
            n == level.labels@.len(),
            label_events@.len() == i,
            forall|k: int|
                0 <= k < i ==> #[trigger] label_events@[k] == SpawnFloatingLabelEvent(
                    level.labels@[k].0,
                    level.labels@[k].1,
                ),
        decreases n - i,
    {
        let text = level.labels[i].0.clone();
        let pos = level.labels[i].1;
        label_events.push(SpawnFloatingLabelEvent(text, pos));
        i = i + 1;
    }

    let mut patient_events: Vec<SpawnPatientEvent> = Vec::new();
    patient_events.push(SpawnPatientEvent(level.goal));
    proof {
        assert(patient_events@ =~= seq![SpawnPatientEvent(level.goal)]);
    }

    SpawnQueues {
        platforms: platform_events,
        pills: pill_events,
        labels: label_events,
        patients: patient_events,
    }
}

/// The discrete input readings one fixed tick consumes.
#[derive(Clone, Copy, Debug, PartialEq, Eq, Structural)]
pub struct TickInput {
    pub left: bool,
    pub right: bool,
    pub jump_just_pressed: bool,
}

/// The movement stage: with a player present, its horizontal velocity
/// is set from the input and the sprite facing follows; otherwise
/// nothing happens.
pub open spec fn spec_movement_stage(s: Seq<Entity>, stats: Player, left: bool, right: bool) -> (
    Seq<Entity>,
    Player,
) {
    if seq_has_kind(s, EntityKind::Player) {
        let i = seq_kind_index(s, EntityKind::Player);
        let e = s[i];
        let vx = spec_run_velocity(left, right, stats.speed_multiplier_milli as int);
        (
            s.update(
                i,
                Entity {
                    velocity: Some(Velocity(Vec2 { x: vx as i64, y: (e.velocity->0).0.y })),
                    ..e
                },
            ),
            Player {
                facing_left: (if left && !right {
                    true
                } else if right && !left {
                    false
                } else {
                    stats.facing_left
                }),
                ..stats
            },
        )
    } else {
        (s, stats)
    }
}

/// The jump stage: a just-pressed jump while grounded sets the vertical
/// velocity to the jump speed scaled by the jump multiplier.
pub open spec fn spec_jump_stage(
    s: Seq<Entity>,
    stats: Player,
    state: PlayerState,
    jump_just_pressed: bool,
) -> Seq<Entity> {
    let grounded = state == PlayerState::Idle || state == PlayerState::Running;
    if seq_has_kind(s, EntityKind::Player) && jump_just_pressed && grounded {
        let i = seq_kind_index(s, EntityKind::Player);
        let e = s[i];
        let vy = milli_of(JUMP_SPEED as int, stats.jump_multiplier_milli as int);
        s.update(
            i,
            Entity { velocity: Some(Velocity(Vec2 { x: (e.velocity->0).0.x, y: vy as i64 })), ..e },
        )
    } else {
        s
    }
}

/// The pickup-collection stage: every pickup overlapping the player is
/// removed, the collected count rises by one each, and one side-effect
/// event per pickup is appended in entity order.
pub open spec fn spec_pill_stage(
    s: Seq<Entity>,
    stats: Player,
    events: Seq<ApplySideEffectEvent>,
) -> (Seq<Entity>, Player, Seq<ApplySideEffectEvent>) {
    if seq_has_kind(s, EntityKind::Player) {
        let p = s[seq_kind_index(s, EntityKind::Player)];
        let ppos = p.position;
        let ph = p.shape->0.half_size;
        (
            spec_surviving(s, ppos, ph),
            Player {
                medicines_collected: (stats.medicines_collected + spec_collected(
                    s,
                    ppos,
                    ph,
                ).len()) as u32,
                ..stats
            },
            events + spec_collected(s, ppos, ph).map_values(
                |e: Entity| ApplySideEffectEvent(e.effect->0),
            ),
        )
    } else {
        (s, stats, events)
    }
}

/// The goal stage: level completion is signalled exactly when player
/// and goal target both exist, overlap, and the collected count equals
/// the goal count.
pub open spec fn spec_goal_stage(s: Seq<Entity>, collected: u32, pill_goal: u32) -> bool {
    let p = s[seq_kind_index(s, EntityKind::Player)];
    let g = s[seq_kind_index(s, EntityKind::Goal)];
    &&& seq_has_kind(s, EntityKind::Player)
    &&& seq_has_kind(s, EntityKind::Goal)
    &&& spec_overlaps(p.position, p.shape->0.half_size, g.position, g.shape->0.half_size)
    &&& collected == pill_goal
}

/// The goal check is exact: with strictly fewer pickups collected than
/// the goal demands it never signals completion, and with the count
/// exactly met it always does on a tick where the player overlaps the
/// goal target.
pub proof fn lemma_goal_exactness(s: Seq<Entity>, collected: u32, pill_goal: u32)
    ensures
        collected < pill_goal ==> !spec_goal_stage(s, collected, pill_goal),
        ({
            let p = s[seq_kind_index(s, EntityKind::Player)];
            let g = s[seq_kind_index(s, EntityKind::Goal)];
            (collected == pill_goal && seq_has_kind(s, EntityKind::Player) && seq_has_kind(
                s,
                EntityKind::Goal,
            ) && spec_overlaps(p.position, p.shape->0.half_size, g.position, g.shape->0.half_size))
                ==> spec_goal_stage(s, collected, pill_goal)
        }),
{
}

/// One whole fixed tick, in the mandated order: gravity, velocity
/// integration, collision resolution, movement input, jump, pickup
/// collection, goal test.
pub open spec fn spec_fixed_tick(
    s0: Seq<Entity>,
    stats0: Player,
    events0: Seq<ApplySideEffectEvent>,
    input: TickInput,
    dt_milli: int,
    state: PlayerState,
    pill_goal: u32,
) -> (Seq<Entity>, Player, Seq<ApplySideEffectEvent>, bool) {
    let s3 = spec_after_physics(s0, dt_milli);
    let m = spec_movement_stage(s3, stats0, input.left, input.right);
    let s5 = spec_jump_stage(m.0, m.1, state, input.jump_just_pressed);
    let c = spec_pill_stage(s5, m.1, events0);
    let completed = spec_goal_stage(c.0, c.1.medicines_collected, pill_goal);
    (c.0, c.1, c.2, completed)
}

/// The state-transition stage: with a player present the state is
/// re-derived from its velocity; without one the previous state stands.
pub open spec fn spec_state_stage(s: Seq<Entity>, prev: PlayerState) -> PlayerState {
    if seq_has_kind(s, EntityKind::Player) {
        crate::player::spec_state_of(
            (s[seq_kind_index(s, EntityKind::Player)].velocity->0).0,
        )
    } else {
        prev
    }
}

/// The animation-selection stage: on a state change the player's strip
/// is swapped for the new state's and the frame index resets to zero.
pub open spec fn spec_atlas_stage(
    stats: Player,
    changed: bool,
    state: PlayerState,
    catalog: AnimationCatalog,
) -> Player {
    if changed {
        Player { animation_length: catalog.spec_frames_for(state), frame_index: 0, ..stats }
    } else {
        stats
    }
}

/// The player-animation stage: the repeating timer absorbs the frame
/// delta and each full period steps the strip one frame.
pub open spec fn spec_player_anim_stage(stats: Player, delta_micros: u64) -> Player {
    let total = stats.animation_timer.elapsed_micros + delta_micros;
    Player {
        animation_timer: crate::timer::AnimationTimer {
            period_micros: stats.animation_timer.period_micros,
            elapsed_micros: (total % (stats.animation_timer.period_micros as int)) as u64,
        },
        frame_index: (if total >= stats.animation_timer.period_micros {
            ((stats.frame_index + 1) % (stats.animation_length as int)) as usize
        } else {
            stats.frame_index
        }),
        ..stats
    }
}

/// One side effect applied to the world and the player stats, exactly
/// as collection dispatched it.
pub open spec fn spec_apply_one(s: Seq<Entity>, stats: Player, effect: SideEffect) -> (
    Seq<Entity>,
    Player,
) {
    if seq_has_kind(s, EntityKind::Player) {
        let i = seq_kind_index(s, EntityKind::Player);
        let e = s[i];
        let half = e.shape->0.half_size;
        match effect {
            SideEffect::Shrink => (
                s.update(
                    i,
                    Entity {
                        shape: Some(
                            crate::components::RectCollisionShape {
                                half_size: Vec2 {
                                    x: milli_of(
                                        half.x as int,
                                        crate::side_effects::SHRINK_SIZE_FACTOR_MILLI as int,
                                    ) as i64,
                                    y: milli_of(
                                        half.y as int,
                                        crate::side_effects::SHRINK_SIZE_FACTOR_MILLI as int,
                                    ) as i64,
                                },
                                collide: e.shape->0.collide,
                            },
                        ),
                        ..e
                    },
                ),
                Player {
                    scale_milli: milli_of(
                        stats.scale_milli as int,
                        crate::side_effects::SHRINK_SIZE_FACTOR_MILLI as int,
                    ) as i64,
                    jump_multiplier_milli: milli_of(
                        stats.jump_multiplier_milli as int,
                        crate::side_effects::SHRINK_JUMP_FACTOR_MILLI as int,
                    ) as i64,
                    ..stats
                },
            ),
            SideEffect::Speed => (
                s,
                Player {
                    speed_multiplier_milli: milli_of(
                        stats.speed_multiplier_milli as int,
                        crate::side_effects::SPEED_FACTOR_MILLI as int,
                    ) as i64,
                    ..stats
                },
            ),
            SideEffect::Slowness => (
                s,
                Player {
                    speed_multiplier_milli: milli_of(
                        stats.speed_multiplier_milli as int,
                        crate::side_effects::SLOWNESS_FACTOR_MILLI as int,
                    ) as i64,
                    ..stats
                },
            ),
        }
    } else {
        (s, stats)
    }
}

/// The side-effect queue folded over the world and stats, front to
/// back: effects compound in dispatch order.
pub open spec fn spec_effects_fold(
    s: Seq<Entity>,
    stats: Player,
    evs: Seq<ApplySideEffectEvent>,
) -> (Seq<Entity>, Player)
    decreases evs.len(),
{
    if evs.len() == 0 {
        (s, stats)
    } else {
        let one = spec_apply_one(s, stats, evs[0].0);
        spec_effects_fold(one.0, one.1, evs.drop_first())
    }
}

/// What one application demands of the stats: values small enough to
/// scale, and the multiplier being shrunk far enough from zero that it
/// stays positive in thousandths.
pub open spec fn spec_effect_pre_ok(stats: Player, effect: SideEffect) -> bool {
    &&& stats.scale_milli <= crate::math::COORD_LIMIT
    &&& stats.jump_multiplier_milli <= crate::math::COORD_LIMIT
    &&& stats.speed_multiplier_milli <= crate::math::COORD_LIMIT
    &&& (effect == SideEffect::Shrink ==> stats.jump_multiplier_milli >= 2)
    &&& (effect == SideEffect::Slowness ==> stats.speed_multiplier_milli >= 2)
}

/// The stats one effect leaves behind when a player is there to take it.
pub open spec fn spec_stats_after_effect(stats: Player, effect: SideEffect) -> Player {
    match effect {
        SideEffect::Shrink => Player {
            scale_milli: milli_of(
                stats.scale_milli as int,
                crate::side_effects::SHRINK_SIZE_FACTOR_MILLI as int,
            ) as i64,
            jump_multiplier_milli: milli_of(
                stats.jump_multiplier_milli as int,
                crate::side_effects::SHRINK_JUMP_FACTOR_MILLI as int,
            ) as i64,
            ..stats
        },
        SideEffect::Speed => Player {
            speed_multiplier_milli: milli_of(
                stats.speed_multiplier_milli as int,
                crate::side_effects::SPEED_FACTOR_MILLI as int,
            ) as i64,
            ..stats
        },
        SideEffect::Slowness => Player {
            speed_multiplier_milli: milli_of(
                stats.speed_multiplier_milli as int,
                crate::side_effects::SLOWNESS_FACTOR_MILLI as int,
            ) as i64,
            ..stats
        },
    }
}

/// Whether the whole queued run of side effects can be applied: each
/// event in turn meets its demands against the stats the previous ones
/// left behind.
pub open spec fn spec_effects_admissible(stats: Player, evs: Seq<ApplySideEffectEvent>) -> bool
    decreases evs.len(),
{
    if evs.len() == 0 {
        true
    } else {
        spec_effect_pre_ok(stats, evs[0].0) && spec_effects_admissible(
            spec_stats_after_effect(stats, evs[0].0),
            evs.drop_first(),
        )
    }
}

/// What one frame reports back to the host: whether a terminal
/// game-over was signalled, and the new player state when it changed
/// this frame (the host swaps the sprite strip on it).
#[derive(Clone, Copy, Debug, PartialEq, Eq, Structural)]
pub struct FrameOutcome {
    pub game_over: bool,
    pub state_changed: Option<PlayerState>,
}

/// The per-state animation strip lengths, handed in by the host's atlas
/// setup on level entry.
#[derive(Clone, Copy, Debug, PartialEq, Eq, Structural)]
pub struct AnimationCatalog {
    pub idle_frames: usize,
    pub run_frames: usize,
    pub jump_frames: usize,
    pub fall_frames: usize,
}

impl AnimationCatalog {
    pub open spec fn wf(self) -> bool {
        self.idle_frames >= 1 && self.run_frames >= 1 && self.jump_frames >= 1 && self.fall_frames
            >= 1
    }

    /// The strip length for a player state.
    pub open spec fn spec_frames_for(self, state: PlayerState) -> usize {
        match state {
            PlayerState::Idle => self.idle_frames,
            PlayerState::Running => self.run_frames,
            PlayerState::Jumping => self.jump_frames,
            PlayerState::Falling => self.fall_frames,
        }
    }

    pub fn frames_for(&self, state: PlayerState) -> (n: usize)
        ensures
            n == self.spec_frames_for(state),
    {
        match state {
            PlayerState::Idle => self.idle_frames,
            PlayerState::Running => self.run_frames,
            PlayerState::Jumping => self.jump_frames,
            PlayerState::Falling => self.fall_frames,
        }
    }
}

/// One running level: the entity world, the spawn and side-effect
/// queues, the optional player stats held by the session rather than
/// found by query, the recomputed player state, the fail countdown and
/// the collection goal.
#[derive(Debug)]
pub struct LevelSession {
    pub world: World,
    pub queues: SpawnQueues,
    pub effect_events: Vec<ApplySideEffectEvent>,
    pub player: Option<Player>,
    pub player_state: PlayerState,
    pub countdown: CountdownTimer,
    pub pill_goal: u32,
    pub catalog: AnimationCatalog,
}

impl LevelSession {
    /// The session's invariant: a well-formed world; player stats held
    /// exactly while the player entity exists; a well-formed countdown
    /// and catalog; queued spawns in bounds; and at most one goal
    /// between the world and the queue.
    pub open spec fn wf(self) -> bool {
        &&& self.world.wf()
        &&& (self.player is Some <==> seq_has_kind(self.world.entities@, EntityKind::Player))
        &&& (self.player is Some ==> self.player->0.wf())
        &&& self.countdown.wf()
        &&& self.catalog.wf()
        &&& self.queues.spec_in_bounds()
        &&& self.queues.patients@.len() + (if seq_has_kind(self.world.entities@, EntityKind::Goal) {
            1int
        } else {
            0int
        }) <= 1
    }

    /// The stats as they stand when the side-effect queue is applied in
    /// a frame: after the state transition swapped the animation strip
    /// and the animation advanced.
    pub open spec fn spec_stats_before_effects(self, delta_micros: u64) -> Player {
        let st1 = spec_state_stage(self.world.entities@, self.player_state);
        let changed = seq_has_kind(self.world.entities@, EntityKind::Player) && st1
            != self.player_state;
        spec_player_anim_stage(
            spec_atlas_stage(self.player->0, changed, st1, self.catalog),
            delta_micros,
        )
    }

    /// Enter a level: a fresh world holding only the just-spawned
    /// player, every other entity of the level queued as spawn events
    /// to be consumed on the next frame, the countdown wound up to the
    /// level's time limit, and the state machine at idle.
    pub fn enter_level(level: &LevelData, effects: &Vec<SideEffect>, catalog: AnimationCatalog) -> (s:
        LevelSession)
        requires
            level.spec_in_bounds(),
            effects@.len() == level.pills@.len(),
            catalog.wf(),
        ensures
            s.wf(),
            s.world.in_bounds(),
            s.world.entities@ =~= seq![spec_player_entity(0)],
            s.world.next_id == 1,
            s.player == Some(Player::spec_initial()),
            s.player_state == PlayerState::Idle,
            s.countdown == (CountdownTimer {
                limit_micros: (level.time_limit * 1_000_000) as u64,
                elapsed_micros: 0,
            }),
            s.pill_goal == level.pill_goal,
            s.catalog == catalog,
            s.effect_events@.len() == 0,
            s.queues.platforms@.len() == level.platforms@.len(),
            forall|k: int|
                0 <= k < level.platforms@.len() ==> #[trigger] s.queues.platforms@[k]
                    == SpawnPlatformEvent(level.platforms@[k]),
            s.queues.pills@.len() == level.pills@.len(),
            forall|k: int|
                0 <= k < level.pills@.len() ==> #[trigger] s.queues.pills@[k] == (SpawnPillEvent {
                    position: level.pills@[k],
                    side_effect: effects@[k],
                }),
            s.queues.labels@.len() == level.labels@.len(),
            forall|k: int|
                0 <= k < level.labels@.len() ==> #[trigger] s.queues.labels@[k]
                    == SpawnFloatingLabelEvent(level.labels@[k].0, level.labels@[k].1),
            s.queues.patients@ == seq![SpawnPatientEvent(level.goal)],
    {
        let time_limit = level.time_limit;
        let pill_goal = level.pill_goal;
        let queues = spawn_world(level, effects);
        let mut world = World::new();
        world.spawn_player();
        let countdown = CountdownTimer::new(time_limit * 1_000_000);
        proof {
            assert(world.entities@ =~= seq![spec_player_entity(0)]);
            assert(seq_has_kind(world.entities@, EntityKind::Player)) by {
                assert(world.entities@[0].kind == EntityKind::Player);
            }
            assert(!seq_has_kind(world.entities@, EntityKind::Goal)) by {
                if seq_has_kind(world.entities@, EntityKind::Goal) {
                    let i = crate::world::seq_kind_index(world.entities@, EntityKind::Goal);
                    assert(world.entities@[i].kind == EntityKind::Player);
                }
            }
        }
        LevelSession {
            world,
            queues,
            effect_events: Vec::new(),
            player: Some(Player::new()),
            player_state: PlayerState::Idle,
            countdown,
            pill_goal,
            catalog,
        }
    }

    /// Run one fixed tick in the mandated order: the gravity impulse,
    /// then velocity integration, then collision resolution, then the
    /// player's fixed-step systems — movement input, jump, pickup
    /// collection, goal test.  Resolving collision before the tick's
    /// movement input would let the player tunnel through geometry.
    /// Returns whether level completion was signalled.
    #[verifier::rlimit(60)]
    pub fn fixed_tick(&mut self, input: TickInput, dt_milli: i64) -> (completed: bool)
        requires
            old(self).wf(),
            old(self).world.in_bounds(),
            0 <= dt_milli <= FACTOR_LIMIT,
            old(self).player is Some ==> {
                &&& old(self).player->0.speed_multiplier_milli <= FACTOR_LIMIT
                &&& old(self).player->0.jump_multiplier_milli <= FACTOR_LIMIT
                &&& old(self).player->0.medicines_collected + old(self).world.entities@.len()
                    <= u32::MAX
            },
        ensures
            final(self).wf(),
            final(self).queues == old(self).queues,
            final(self).countdown == old(self).countdown,
            final(self).pill_goal == old(self).pill_goal,
            final(self).catalog == old(self).catalog,
            final(self).player_state == old(self).player_state,
            crate::physics::tick_bounds(
                final(self).world.entities@,
                crate::physics::POS_TICK_LIMIT as int,
                crate::physics::VEL_TICK_LIMIT as int,
            ),
            crate::physics::statics_bounded(final(self).world.entities@),
            ({
                let s0 = old(self).world.entities@;
                if old(self).player is Some {
                    let r = spec_fixed_tick(
                        s0,
                        old(self).player->0,
                        old(self).effect_events@,
                        input,
                        dt_milli as int,
                        old(self).player_state,
                        old(self).pill_goal,
                    );
                    &&& final(self).world.entities@ == r.0
                    &&& final(self).player == Some(r.1)
                    &&& final(self).effect_events@ == r.2
                    &&& completed == r.3
                } else {
                    &&& final(self).world.entities@ == spec_after_physics(s0, dt_milli as int)
                    &&& final(self).player is None
                    &&& final(self).effect_events@ == old(self).effect_events@
                    &&& completed == false
                }
            }),
    {
        proof {
            lemma_in_bounds_at_tick_entry(old(self).world);
        }
        self.world.gravity_system();
        self.world.velocity_system(dt_milli);
        self.world.collision_system();
        let ghost s3 = self.world.entities@;
        proof {
            assert(s3 == spec_after_physics(old(self).world.entities@, dt_milli as int));
        }
        let state = self.player_state;
        let goal_count = self.pill_goal;
        let completed: bool;
        match &mut self.player {
            Some(stats) => {
                self.world.player_movement_system(stats, input.left, input.right);
                self.world.player_jump_system(stats, state, input.jump_just_pressed);
                self.world.player_pill_collision_system(stats, &mut self.effect_events);
                completed = self.world.player_patient_collision_system(stats, goal_count);
            },
            None => {
                completed = false;
            },
        }
        completed
    }

    /// Run one variable-rate frame in the mandated order: state
    /// transition, animation selection on a transition, animation
    /// advance for the player and every animated entity, side-effect
    /// application, spawn-queue drain, the countdown, and the
    /// out-of-bounds check.  Events created by earlier ticks are all
    /// consumed here — never dropped, never duplicated — and every
    /// queued spawn becomes an entity visible from the next tick on.
    #[verifier::rlimit(100)]
    pub fn frame_update(&mut self, delta_micros: u64) -> (out: FrameOutcome)
        requires
            old(self).wf(),
            delta_micros <= crate::timer::TIME_LIMIT_MICROS,
            crate::physics::tick_bounds(
                old(self).world.entities@,
                crate::physics::POS_TICK_LIMIT as int,
                crate::physics::VEL_TICK_LIMIT as int,
            ),
            crate::physics::statics_bounded(old(self).world.entities@),
            old(self).world.next_id + old(self).queues.total_len() <= u64::MAX,
            old(self).player is Some ==> spec_effects_admissible(
                old(self).spec_stats_before_effects(delta_micros),
                old(self).effect_events@,
            ),
        ensures
            final(self).wf(),
            final(self).pill_goal == old(self).pill_goal,
            final(self).catalog == old(self).catalog,
            final(self).effect_events@.len() == 0,
            final(self).queues.platforms@.len() == 0,
            final(self).queues.pills@.len() == 0,
            final(self).queues.labels@.len() == 0,
            final(self).queues.patients@.len() == 0,
            ({
                let s0 = old(self).world.entities@;
                let st1 = spec_state_stage(s0, old(self).player_state);
                let changed = seq_has_kind(s0, EntityKind::Player) && st1 != old(
                    self,
                ).player_state;
                let s1 = crate::world::spec_animation_pass(s0, delta_micros);
                let batch = crate::lifecycle::spec_drained_batch(
                    old(self).queues.platforms@,
                    old(self).queues.pills@,
                    old(self).queues.labels@,
                    old(self).queues.patients@,
                    old(self).world.next_id as int,
                );
                &&& final(self).player_state == st1
                &&& out.state_changed == (if changed {
                    Some(st1)
                } else {
                    None::<PlayerState>
                })
                &&& (match old(self).player {
                    Some(p0) => {
                        let p2 = old(self).spec_stats_before_effects(delta_micros);
                        let folded = spec_effects_fold(s1, p2, old(self).effect_events@);
                        &&& final(self).world.entities@ == folded.0 + batch
                        &&& final(self).player == Some(folded.1)
                    },
                    None => {
                        &&& final(self).world.entities@ == s1 + batch
                        &&& final(self).player is None
                    },
                })
                &&& final(self).countdown == (CountdownTimer {
                    limit_micros: old(self).countdown.limit_micros,
                    elapsed_micros: (if old(self).countdown.elapsed_micros + delta_micros <= old(
                        self,
                    ).countdown.limit_micros {
                        (old(self).countdown.elapsed_micros + delta_micros) as u64
                    } else {
                        old(self).countdown.limit_micros
                    }),
                })
                &&& ({
                    let fs = final(self).world.entities@;
                    out.game_over == (final(self).countdown.spec_finished() || (seq_has_kind(
                        fs,
                        EntityKind::Player,
                    ) && fs[seq_kind_index(fs, EntityKind::Player)].position.y
                        < crate::player::WORLD_FLOOR_Y))
                })
            }),
    {
        let ghost s0 = self.world.entities@;

        // state transition and, on a change, animation selection;
        // then the player's own animation advance
        let mut state_changed: Option<PlayerState> = None;
        match self.player {
            Some(st) => {
                let mut stats = st;
                let pidx = self.world.index_of_kind(EntityKind::Player);
                match pidx {
                    Some(i) => {
                        proof {
                            self.world.lemma_kind_index_unique(EntityKind::Player, i as int);
                        }
                        let vel = match &self.world.entities[i].velocity {
                            Some(v) => *v,
                            None => {
                                proof {
                                    assert(false);  // the player carries a velocity
                                }
                                Velocity(Vec2 { x: 0, y: 0 })
                            },
                        };
                        let st1 = crate::player::state_of_velocity(&vel);
                        if !(st1 == self.player_state) {
                            stats.animation_length = self.catalog.frames_for(st1);
                            stats.frame_index = 0;
                            state_changed = Some(st1);
                        }
                        self.player_state = st1;
                    },
                    None => {
                        proof {
                            assert(false);  // stats exist exactly while the player does
                        }
                    },
                }
                let fired = stats.animation_timer.tick(delta_micros);
                if fired {
                    stats.frame_index = (stats.frame_index + 1) % stats.animation_length;
                }
                self.player = Some(stats);
            },
            None => {},
        }
        proof {
            assert(self.world.entities@ == s0);
        }

        // every animated entity advances by the same delta
        self.world.animation_system(delta_micros);
        let ghost s1 = self.world.entities@;

        // queued side effects land on the player, in dispatch order
        match self.player {
            Some(st) => {
                let mut stats = st;
                let ghost p2 = st;
                let ghost evs0 = self.effect_events@;
                proof {
                    crate::world::lemma_kinds_agree_lookup(s0, s1, EntityKind::Player);
                    crate::world::lemma_kinds_agree_lookup(s0, s1, EntityKind::Goal);
                }
                while self.effect_events.len() > 0
                    invariant
                        self.world.wf(),
                        stats.wf(),
                        crate::physics::tick_bounds(
                            self.world.entities@,
                            crate::physics::POS_TICK_LIMIT as int,
                            crate::physics::VEL_TICK_LIMIT as int,
                        ),
                        crate::physics::statics_bounded(self.world.entities@),
                        seq_has_kind(self.world.entities@, EntityKind::Player),
                        seq_has_kind(self.world.entities@, EntityKind::Goal) == seq_has_kind(
                            s0,
                            EntityKind::Goal,
                        ),
                        self.world.next_id == old(self).world.next_id,
                        spec_effects_fold(s1, p2, evs0) == spec_effects_fold(
                            self.world.entities@,
                            stats,
                            self.effect_events@,
                        ),
                        spec_effects_admissible(stats, self.effect_events@),
                        self.queues == old(self).queues,
                        self.countdown == old(self).countdown,
                        self.pill_goal == old(self).pill_goal,
                        self.catalog == old(self).catalog,
                        self.player == Some(p2),
                        self.player_state == spec_state_stage(s0, old(self).player_state),
                    decreases self.effect_events@.len(),
                {
                    let ghost prev_s = self.world.entities@;
                    let ghost prev_p = stats;
                    let ghost prev_evs = self.effect_events@;
                    let ev = self.effect_events.remove(0);
                    self.world.apply_side_effect(&mut stats, ev.0);
                    proof {
                        assert(self.effect_events@ =~= prev_evs.drop_first());
                        assert((self.world.entities@, stats) == spec_apply_one(
                            prev_s,
                            prev_p,
                            ev.0,
                        ));
                        assert(stats == spec_stats_after_effect(prev_p, ev.0));
                        crate::world::lemma_kinds_agree_lookup(
                            prev_s,
                            self.world.entities@,
                            EntityKind::Player,
                        );
                        crate::world::lemma_kinds_agree_lookup(
                            prev_s,
                            self.world.entities@,
                            EntityKind::Goal,
                        );
                    }
                }
                self.player = Some(stats);
                proof {
                    assert(self.effect_events@ =~= Seq::<ApplySideEffectEvent>::empty());
                    assert((self.world.entities@, stats) == spec_effects_fold(s1, p2, evs0));
                }
            },
            None => {
                self.effect_events = Vec::new();
            },
        }
        proof {
            crate::world::lemma_kinds_agree_lookup(s0, s1, EntityKind::Goal);
            assert(seq_has_kind(self.world.entities@, EntityKind::Goal) == seq_has_kind(
                s0,
                EntityKind::Goal,
            ));
        }

        // spawn events queued by earlier frames become entities now
        self.world.drain_spawns(&mut self.queues);

        // the two independent fail paths: the countdown and the floor
        let finished = self.countdown.tick(delta_micros);
        let below = self.world.player_out_of_bounds_system();
        FrameOutcome { game_over: finished || below, state_changed }
    }

    /// Where the camera should sit this frame: on the player, or
    /// nowhere to move while no player exists.
    pub fn camera_target(&self) -> (t: Option<Vec2>)
        requires
            self.wf(),
        ensures
            t == (if seq_has_kind(self.world.entities@, EntityKind::Player) {
                Some(
                    self.world.entities@[seq_kind_index(
                        self.world.entities@,
                        EntityKind::Player,
                    )].position,
                )
            } else {
                None::<Vec2>
            }),
    {
        match self.world.index_of_kind(EntityKind::Player) {
            Some(i) => {
                proof {
                    self.world.lemma_kind_index_unique(EntityKind::Player, i as int);
                }
                Some(self.world.entities[i].position)
            },
            None => None,
        }
    }

    /// Debug input: queue a platform just below the player, or a pickup
    /// just beside it with a freshly drawn side effect.  Without a
    /// player nothing is queued.
    pub fn debug_spawn(&mut self, platform_pressed: bool, pill_pressed: bool)
        requires
            old(self).wf(),
            crate::physics::tick_bounds(
                old(self).world.entities@,
                POS_LIMIT - 90,
                crate::physics::VEL_TICK_LIMIT as int,
            ),
        ensures
            final(self).wf(),
            final(self).world == old(self).world,
            final(self).player == old(self).player,
            ({
                let s = old(self).world.entities@;
                let q0 = old(self).queues;
                let q1 = final(self).queues;
                if seq_has_kind(s, EntityKind::Player) {
                    let ppos = s[seq_kind_index(s, EntityKind::Player)].position;
                    &&& q1.platforms@ == (if platform_pressed {
                        q0.platforms@.push(
                            SpawnPlatformEvent(Vec2 { x: ppos.x, y: (ppos.y - 90) as i64 }),
                        )
                    } else {
                        q0.platforms@
                    })
                    &&& (if pill_pressed {
                        q1.pills@.len() == q0.pills@.len() + 1 && q1.pills@.drop_last()
                            == q0.pills@ && q1.pills@.last().position == (Vec2 {
                            x: (ppos.x + 50) as i64,
                            y: ppos.y,
                        })
                    } else {
                        q1.pills@ == q0.pills@
                    })
                } else {
                    q1.platforms@ == q0.platforms@ && q1.pills@ == q0.pills@
                }
            }),
            final(self).queues.labels@ == old(self).queues.labels@,
            final(self).queues.patients@ == old(self).queues.patients@,
    {
        let idx = self.world.index_of_kind(EntityKind::Player);
        match idx {
            None => {},
            Some(i) => {
                proof {
                    self.world.lemma_kind_index_unique(EntityKind::Player, i as int);
                }
                let ppos = self.world.entities[i].position;
                if platform_pressed {
                    self.queues.platforms.push(
                        SpawnPlatformEvent(Vec2 { x: ppos.x, y: ppos.y - 90 }),
                    );
                }
                if pill_pressed {
                    let effect = random_side_effect();
                    self.queues.pills.push(
                        SpawnPillEvent {
                            position: Vec2 { x: ppos.x + 50, y: ppos.y },
                            side_effect: effect,
                        },
                    );
                    proof {
                        assert(self.queues.pills@.drop_last() =~= old(self).queues.pills@);
                    }
                }
            },
        }
    }

    /// Exit the level: bulk-despawn every entity of every dynamic kind
    /// — nothing survives, however it was created — drop the player
    /// stats and cancel everything still queued.
    pub fn exit_level(&mut self)
        requires
            old(self).wf(),
        ensures
            final(self).wf(),
            final(self).world.entities@.len() == 0,
            final(self).player is None,
            final(self).queues.platforms@.len() == 0,
            final(self).queues.pills@.len() == 0,
            final(self).queues.labels@.len() == 0,
            final(self).queues.patients@.len() == 0,
            final(self).effect_events@.len() == 0,
            final(self).countdown == old(self).countdown,
            final(self).pill_goal == old(self).pill_goal,
            final(self).catalog == old(self).catalog,
    {
        let ghost s0 = self.world.entities@;
        self.world.despawn_kind(EntityKind::Platform);
        let ghost s1 = self.world.entities@;
        self.world.despawn_kind(EntityKind::Pickup);
        let ghost s2 = self.world.entities@;
        self.world.despawn_kind(EntityKind::Goal);
        let ghost s3 = self.world.entities@;
        self.world.despawn_kind(EntityKind::Label);
        let ghost s4 = self.world.entities@;
        self.world.despawn_kind(EntityKind::Player);
        let ghost s5 = self.world.entities@;
        proof {
            lemma_without_kind_gone(s0, EntityKind::Platform);
            lemma_without_kind_gone(s1, EntityKind::Pickup);
            lemma_without_kind_preserves_absence(s1, EntityKind::Pickup, EntityKind::Platform);
            lemma_without_kind_gone(s2, EntityKind::Goal);
            lemma_without_kind_preserves_absence(s2, EntityKind::Goal, EntityKind::Platform);
            lemma_without_kind_preserves_absence(s2, EntityKind::Goal, EntityKind::Pickup);
            lemma_without_kind_gone(s3, EntityKind::Label);
            lemma_without_kind_preserves_absence(s3, EntityKind::Label, EntityKind::Platform);
            lemma_without_kind_preserves_absence(s3, EntityKind::Label, EntityKind::Pickup);
            lemma_without_kind_preserves_absence(s3, EntityKind::Label, EntityKind::Goal);
            lemma_without_kind_gone(s4, EntityKind::Player);
            lemma_without_kind_preserves_absence(s4, EntityKind::Player, EntityKind::Platform);
            lemma_without_kind_preserves_absence(s4, EntityKind::Player, EntityKind::Pickup);
            lemma_without_kind_preserves_absence(s4, EntityKind::Player, EntityKind::Goal);
            lemma_without_kind_preserves_absence(s4, EntityKind::Player, EntityKind::Label);
            if s5.len() > 0 {
                let e = s5[0];
                assert(e.kind != EntityKind::Platform);
                assert(e.kind != EntityKind::Pickup);
                assert(e.kind != EntityKind::Goal);
                assert(e.kind != EntityKind::Label);
                assert(e.kind != EntityKind::Player);
                assert(false);
            }
        }
        self.player = None;
        self.queues = SpawnQueues::new();
        self.effect_events = Vec::new();
        proof {
            assert(!seq_has_kind(self.world.entities@, EntityKind::Player));
            assert(!seq_has_kind(self.world.entities@, EntityKind::Goal));
        }
    }
}

} // verus!
