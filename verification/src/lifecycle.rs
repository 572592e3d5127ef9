//! The event-driven entity lifecycle: single-shot spawn events carrying
//! construction parameters, per-kind queues drained completely once per
//! frame, and bulk despawn on level exit.

use vstd::prelude::*;

use crate::components::{Gravity, RectCollisionShape, Velocity};
use crate::math::Vec2;
use crate::side_effects::SideEffect;
use crate::world::{Anim, Entity, EntityKind, World, POS_LIMIT};

verus! {

/// Platform collision half-extents (a 64 x 16 sprite at triple scale).
pub const PLATFORM_HALF_X: i64 = 96;

pub const PLATFORM_HALF_Y: i64 = 24;

/// Pickup collision half-extents (an 18 x 22 rectangle, unscaled).
pub const PILL_HALF_X: i64 = 9;

pub const PILL_HALF_Y: i64 = 11;

/// Player and goal-target collision half-extents (a 14 x 32 sprite at
/// triple scale).
pub const PERSON_HALF_X: i64 = 21;

pub const PERSON_HALF_Y: i64 = 48;

/// Microseconds per pickup animation frame (forty-four frames a second).
pub const PILL_ANIMATION_PERIOD_MICROS: u64 = 22727;

/// Frames in the pickup animation strip.
pub const PILL_ANIMATION_LENGTH: usize = 45;

/// Microseconds per goal-target animation frame (three frames a second).
pub const PATIENT_ANIMATION_PERIOD_MICROS: u64 = 333333;

/// Frames in the goal-target animation strip.
pub const PATIENT_ANIMATION_LENGTH: usize = 4;

/// Spawn one platform at a position.
#[derive(Clone, Copy, Debug, PartialEq, Eq, Structural)]
pub struct SpawnPlatformEvent(pub Vec2);

/// Spawn one pickup at a position, with its side effect chosen up front.
#[derive(Clone, Copy, Debug, PartialEq, Eq, Structural)]
pub struct SpawnPillEvent {
    pub position: Vec2,
    pub side_effect: SideEffect,
}

/// Spawn the goal target at a position.
#[derive(Clone, Copy, Debug, PartialEq, Eq, Structural)]
pub struct SpawnPatientEvent(pub Vec2);

/// Spawn one floating text label at a position.
#[derive(Debug)]
pub struct SpawnFloatingLabelEvent(pub String, pub Vec2);

/// The entity a platform event constructs.
pub open spec fn spec_platform_entity(id: u64, pos: Vec2) -> Entity {
    Entity {
        id,
        kind: EntityKind::Platform,
        position: pos,
        velocity: None,
        gravity: None,
        shape: Some(
            RectCollisionShape {
                half_size: Vec2 { x: PLATFORM_HALF_X, y: PLATFORM_HALF_Y },
                collide: true,
            },
        ),
        effect: None,
        text: None,
        anim: None,
    }
}

/// The entity a pickup event constructs: a non-colliding shape that
/// still takes part in overlap tests, the pre-assigned side effect, and
/// a fresh animation strip.
pub open spec fn spec_pill_entity(id: u64, pos: Vec2, effect: SideEffect) -> Entity {
    Entity {
        id,
        kind: EntityKind::Pickup,
        position: pos,
        velocity: None,
        gravity: None,
        shape: Some(
            RectCollisionShape {
                half_size: Vec2 { x: PILL_HALF_X, y: PILL_HALF_Y },
                collide: false,
            },
        ),
        effect: Some(effect),
        text: None,
        anim: Some(
            Anim {
                timer: crate::timer::AnimationTimer {
                    period_micros: PILL_ANIMATION_PERIOD_MICROS,
                    elapsed_micros: 0,
                },
                length: PILL_ANIMATION_LENGTH,
                frame: 0,
            },
        ),
    }
}

/// The entity the goal-target event constructs.
pub open spec fn spec_patient_entity(id: u64, pos: Vec2) -> Entity {
    Entity {
        id,
        kind: EntityKind::Goal,
        position: pos,
        velocity: None,
        gravity: None,
        shape: Some(
            RectCollisionShape {
                half_size: Vec2 { x: PERSON_HALF_X, y: PERSON_HALF_Y },
                collide: false,
            },
        ),
        effect: None,
        text: None,
        anim: Some(
            Anim {
                timer: crate::timer::AnimationTimer {
                    period_micros: PATIENT_ANIMATION_PERIOD_MICROS,
                    elapsed_micros: 0,
                },
                length: PATIENT_ANIMATION_LENGTH,
                frame: 0,
            },
        ),
    }
}

/// The entity a label event constructs: the event's text at the event's
/// position.
pub open spec fn spec_label_entity(id: u64, ev: SpawnFloatingLabelEvent) -> Entity {
    Entity {
        id,
        kind: EntityKind::Label,
        position: ev.1,
        velocity: None,
        gravity: None,
        shape: None,
        effect: None,
        text: Some(ev.0),
        anim: None,
    }
}

/// The entity the player spawns as: a movable, colliding body at the
/// origin with unit downward gravity.
pub open spec fn spec_player_entity(id: u64) -> Entity {
    Entity {
        id,
        kind: EntityKind::Player,
        position: Vec2 { x: 0, y: 0 },
        velocity: Some(Velocity(Vec2 { x: 0, y: 0 })),
        gravity: Some(Gravity(Vec2 { x: 0, y: -1i64 })),
        shape: Some(
            RectCollisionShape {
                half_size: Vec2 { x: PERSON_HALF_X, y: PERSON_HALF_Y },
                collide: true,
            },
        ),
        effect: None,
        text: None,
        anim: None,
    }
}

/// The entity list with every entity of one kind removed, in order.
pub open spec fn spec_without_kind(s: Seq<Entity>, kind: EntityKind) -> Seq<Entity>
    decreases s.len(),
{
    if s.len() == 0 {
        Seq::empty()
    } else {
        let prefix = spec_without_kind(s.drop_last(), kind);
        if s.last().kind == kind {
            prefix
        } else {
            prefix.push(s.last())
        }
    }
}

/// Bulk removal leaves no entity of the removed kind.
pub proof fn lemma_without_kind_gone(s: Seq<Entity>, kind: EntityKind)
    ensures
        forall|i: int|
            0 <= i < spec_without_kind(s, kind).len() ==> (#[trigger] spec_without_kind(s, kind)[i]).kind
                != kind,
        spec_without_kind(s, kind).len() <= s.len(),
    decreases s.len(),
{
    if s.len() > 0 {
        lemma_without_kind_gone(s.drop_last(), kind);
    }
}

/// Bulk removal of one kind keeps every other kind's absence: entities
/// do not change kind by surviving a despawn.
pub proof fn lemma_without_kind_preserves_absence(s: Seq<Entity>, kind: EntityKind, other: EntityKind)
    requires
        forall|i: int| 0 <= i < s.len() ==> (#[trigger] s[i]).kind != other,
    ensures
        forall|i: int|
            0 <= i < spec_without_kind(s, kind).len() ==> (#[trigger] spec_without_kind(s, kind)[i]).kind
                != other,
    decreases s.len(),
{
    if s.len() > 0 {
        assert(forall|i: int| 0 <= i < s.len() - 1 ==> #[trigger] s.drop_last()[i] == s[i]);
        lemma_without_kind_preserves_absence(s.drop_last(), kind, other);
    }
}

/// The per-kind spawn queues.  Each queue is owned by its subsystem's
/// pass and drained completely once per frame: every queued event
/// produces exactly one entity.
#[derive(Debug)]
pub struct SpawnQueues {
    pub platforms: Vec<SpawnPlatformEvent>,
    pub pills: Vec<SpawnPillEvent>,
    pub labels: Vec<SpawnFloatingLabelEvent>,
    pub patients: Vec<SpawnPatientEvent>,
}

impl SpawnQueues {
    pub open spec fn total_len(self) -> int {
        self.platforms@.len() + self.pills@.len() + self.labels@.len() + self.patients@.len() as int
    }

    /// Every queued position inside the spawn-time bound.
    pub open spec fn spec_in_bounds(self) -> bool {
        &&& forall|k: int|
            0 <= k < self.platforms@.len() ==> -POS_LIMIT <= (#[trigger] self.platforms@[k]).0.x
                <= POS_LIMIT && -POS_LIMIT <= self.platforms@[k].0.y <= POS_LIMIT
        &&& forall|k: int|
            0 <= k < self.pills@.len() ==> -POS_LIMIT <= (#[trigger] self.pills@[k]).position.x
                <= POS_LIMIT && -POS_LIMIT <= self.pills@[k].position.y <= POS_LIMIT
        &&& forall|k: int|
            0 <= k < self.labels@.len() ==> -POS_LIMIT <= (#[trigger] self.labels@[k]).1.x
                <= POS_LIMIT && -POS_LIMIT <= self.labels@[k].1.y <= POS_LIMIT
        &&& forall|k: int|
            0 <= k < self.patients@.len() ==> -POS_LIMIT <= (#[trigger] self.patients@[k]).0.x
                <= POS_LIMIT && -POS_LIMIT <= self.patients@[k].0.y <= POS_LIMIT
    }

    pub fn new() -> (q: SpawnQueues)
        ensures
            q.platforms@.len() == 0,
            q.pills@.len() == 0,
            q.labels@.len() == 0,
            q.patients@.len() == 0,
    {
        SpawnQueues {
            platforms: Vec::new(),
            pills: Vec::new(),
            labels: Vec::new(),
            patients: Vec::new(),
        }
    }
}

/// The entities a run of platform events constructs, ids counting up
/// from `base`.
pub open spec fn spec_platform_batch(evs: Seq<SpawnPlatformEvent>, base: int) -> Seq<Entity>
    decreases evs.len(),
{
    if evs.len() == 0 {
        Seq::empty()
    } else {
        spec_platform_batch(evs.drop_last(), base).push(
            spec_platform_entity(((base + evs.len()) - 1) as u64, evs.last().0),
        )
    }
}

/// The entities a run of pickup events constructs.
pub open spec fn spec_pill_batch(evs: Seq<SpawnPillEvent>, base: int) -> Seq<Entity>
    decreases evs.len(),
{
    if evs.len() == 0 {
        Seq::empty()
    } else {
        spec_pill_batch(evs.drop_last(), base).push(
            spec_pill_entity(
                ((base + evs.len()) - 1) as u64,
                evs.last().position,
                evs.last().side_effect,
            ),
        )
    }
}

/// The entities a run of label events constructs.
pub open spec fn spec_label_batch(evs: Seq<SpawnFloatingLabelEvent>, base: int) -> Seq<Entity>
    decreases evs.len(),
{
    if evs.len() == 0 {
        Seq::empty()
    } else {
        spec_label_batch(evs.drop_last(), base).push(
            spec_label_entity(((base + evs.len()) - 1) as u64, evs.last()),
        )
    }
}

/// The entities a run of goal-target events constructs.
pub open spec fn spec_patient_batch(evs: Seq<SpawnPatientEvent>, base: int) -> Seq<Entity>
    decreases evs.len(),
{
    if evs.len() == 0 {
        Seq::empty()
    } else {
        spec_patient_batch(evs.drop_last(), base).push(
            spec_patient_entity(((base + evs.len()) - 1) as u64, evs.last().0),
        )
    }
}

/// Everything one frame's drain appends to the entity set, in drain
/// order: platforms, then pickups, then labels, then the goal target.
pub open spec fn spec_drained_batch(
    platforms: Seq<SpawnPlatformEvent>,
    pills: Seq<SpawnPillEvent>,
    labels: Seq<SpawnFloatingLabelEvent>,
    patients: Seq<SpawnPatientEvent>,
    base: int,
) -> Seq<Entity> {
    spec_platform_batch(platforms, base) + spec_pill_batch(pills, base + platforms.len())
        + spec_label_batch(labels, base + platforms.len() + pills.len()) + spec_patient_batch(
        patients,
        base + platforms.len() + pills.len() + labels.len(),
    )
}

/// The spawn signature of an entity: what the level data determines
/// about it — kind, position and collision shape — as opposed to the
/// identity the world hands out and the randomly drawn pickup effect.
pub open spec fn spec_entity_sig(e: Entity) -> (EntityKind, Vec2, Option<RectCollisionShape>) {
    (e.kind, e.position, e.shape)
}

/// The spawn signatures of a whole entity list, in order.
pub open spec fn spec_sigs(s: Seq<Entity>) -> Seq<(EntityKind, Vec2, Option<RectCollisionShape>)> {
    s.map_values(|e: Entity| spec_entity_sig(e))
}

/// Signatures distribute over concatenation.
pub proof fn lemma_sigs_add(a: Seq<Entity>, b: Seq<Entity>)
    ensures
        spec_sigs(a + b) == spec_sigs(a) + spec_sigs(b),
{
    assert(spec_sigs(a + b) =~= spec_sigs(a) + spec_sigs(b));
}

/// What stands at each index of a platform batch.
pub proof fn lemma_platform_batch_index(evs: Seq<SpawnPlatformEvent>, b: int)
    ensures
        spec_platform_batch(evs, b).len() == evs.len(),
        forall|i: int|
            0 <= i < evs.len() ==> #[trigger] spec_platform_batch(evs, b)[i]
                == spec_platform_entity((b + i) as u64, evs[i].0),
    decreases evs.len(),
{
    if evs.len() > 0 {
        lemma_platform_batch_index(evs.drop_last(), b);
        assert(forall|k: int| 0 <= k < evs.len() - 1 ==> #[trigger] evs.drop_last()[k] == evs[k]);
    }
}

/// What stands at each index of a pickup batch.
pub proof fn lemma_pill_batch_index(evs: Seq<SpawnPillEvent>, b: int)
    ensures
        spec_pill_batch(evs, b).len() == evs.len(),
        forall|i: int|
            0 <= i < evs.len() ==> #[trigger] spec_pill_batch(evs, b)[i] == spec_pill_entity(
                (b + i) as u64,
                evs[i].position,
                evs[i].side_effect,
            ),
    decreases evs.len(),
{
    if evs.len() > 0 {
        lemma_pill_batch_index(evs.drop_last(), b);
        assert(forall|k: int| 0 <= k < evs.len() - 1 ==> #[trigger] evs.drop_last()[k] == evs[k]);
    }
}

/// What stands at each index of a label batch.
pub proof fn lemma_label_batch_index(evs: Seq<SpawnFloatingLabelEvent>, b: int)
    ensures
        spec_label_batch(evs, b).len() == evs.len(),
        forall|i: int|
            0 <= i < evs.len() ==> #[trigger] spec_label_batch(evs, b)[i] == spec_label_entity(
                (b + i) as u64,
                evs[i],
            ),
    decreases evs.len(),
{
    if evs.len() > 0 {
        lemma_label_batch_index(evs.drop_last(), b);
        assert(forall|k: int| 0 <= k < evs.len() - 1 ==> #[trigger] evs.drop_last()[k] == evs[k]);
    }
}

/// What stands at each index of a goal-target batch.
pub proof fn lemma_patient_batch_index(evs: Seq<SpawnPatientEvent>, b: int)
    ensures
        spec_patient_batch(evs, b).len() == evs.len(),
        forall|i: int|
            0 <= i < evs.len() ==> #[trigger] spec_patient_batch(evs, b)[i]
                == spec_patient_entity((b + i) as u64, evs[i].0),
    decreases evs.len(),
{
    if evs.len() > 0 {
        lemma_patient_batch_index(evs.drop_last(), b);
        assert(forall|k: int| 0 <= k < evs.len() - 1 ==> #[trigger] evs.drop_last()[k] == evs[k]);
    }
}

/// Platform batches from equal events have equal signatures, whatever
/// identities they start from.
pub proof fn lemma_platform_batch_sig(evs: Seq<SpawnPlatformEvent>, b1: int, b2: int)
    ensures
        spec_sigs(spec_platform_batch(evs, b1)) == spec_sigs(spec_platform_batch(evs, b2)),
{
    lemma_platform_batch_index(evs, b1);
    lemma_platform_batch_index(evs, b2);
    assert(spec_sigs(spec_platform_batch(evs, b1)) =~= spec_sigs(spec_platform_batch(evs, b2)));
}

/// Pickup batches from events with the same positions have equal
/// signatures: neither the identities nor the drawn side effects show.
pub proof fn lemma_pill_batch_sig(e1: Seq<SpawnPillEvent>, e2: Seq<SpawnPillEvent>, b1: int, b2: int)
    requires
        e1.len() == e2.len(),
        forall|k: int| 0 <= k < e1.len() ==> (#[trigger] e1[k]).position == e2[k].position,
    ensures
        spec_sigs(spec_pill_batch(e1, b1)) == spec_sigs(spec_pill_batch(e2, b2)),
{
    lemma_pill_batch_index(e1, b1);
    lemma_pill_batch_index(e2, b2);
    assert(spec_sigs(spec_pill_batch(e1, b1)) =~= spec_sigs(spec_pill_batch(e2, b2)));
}

/// Label batches from events at the same positions have equal
/// signatures.
pub proof fn lemma_label_batch_sig(
    e1: Seq<SpawnFloatingLabelEvent>,
    e2: Seq<SpawnFloatingLabelEvent>,
    b1: int,
    b2: int,
)
    requires
        e1.len() == e2.len(),
        forall|k: int| 0 <= k < e1.len() ==> (#[trigger] e1[k]).1 == e2[k].1,
    ensures
        spec_sigs(spec_label_batch(e1, b1)) == spec_sigs(spec_label_batch(e2, b2)),
{
    lemma_label_batch_index(e1, b1);
    lemma_label_batch_index(e2, b2);
    assert(spec_sigs(spec_label_batch(e1, b1)) =~= spec_sigs(spec_label_batch(e2, b2)));
}

/// Goal-target batches from equal events have equal signatures.
pub proof fn lemma_patient_batch_sig(evs: Seq<SpawnPatientEvent>, b1: int, b2: int)
    ensures
        spec_sigs(spec_patient_batch(evs, b1)) == spec_sigs(spec_patient_batch(evs, b2)),
{
    lemma_patient_batch_index(evs, b1);
    lemma_patient_batch_index(evs, b2);
    assert(spec_sigs(spec_patient_batch(evs, b1)) =~= spec_sigs(spec_patient_batch(evs, b2)));
}

/// Despawning a level's entities on exit and re-spawning from the same
/// level data reproduces an identical entity set — the same kinds,
/// positions and shapes in the same order — whatever fresh identities
/// the world hands out and whatever side effects the new pickups draw.
pub proof fn lemma_respawn_reproduces(
    platforms: Seq<SpawnPlatformEvent>,
    pills1: Seq<SpawnPillEvent>,
    pills2: Seq<SpawnPillEvent>,
    labels1: Seq<SpawnFloatingLabelEvent>,
    labels2: Seq<SpawnFloatingLabelEvent>,
    patients: Seq<SpawnPatientEvent>,
    b1: int,
    b2: int,
)
    requires
        pills1.len() == pills2.len(),
        forall|k: int| 0 <= k < pills1.len() ==> (#[trigger] pills1[k]).position == pills2[k].position,
        labels1.len() == labels2.len(),
        forall|k: int| 0 <= k < labels1.len() ==> (#[trigger] labels1[k]).1 == labels2[k].1,
    ensures
        spec_sigs(spec_drained_batch(platforms, pills1, labels1, patients, b1)) == spec_sigs(
            spec_drained_batch(platforms, pills2, labels2, patients, b2),
        ),
{
    let pb1 = spec_platform_batch(platforms, b1);
    let pb2 = spec_platform_batch(platforms, b2);
    let ib1 = spec_pill_batch(pills1, b1 + platforms.len());
    let ib2 = spec_pill_batch(pills2, b2 + platforms.len());
    let lb1 = spec_label_batch(labels1, b1 + platforms.len() + pills1.len());
    let lb2 = spec_label_batch(labels2, b2 + platforms.len() + pills2.len());
    let ab1 = spec_patient_batch(patients, b1 + platforms.len() + pills1.len() + labels1.len());
    let ab2 = spec_patient_batch(patients, b2 + platforms.len() + pills2.len() + labels2.len());
    lemma_platform_batch_sig(platforms, b1, b2);
    lemma_pill_batch_sig(pills1, pills2, b1 + platforms.len(), b2 + platforms.len());
    lemma_label_batch_sig(
        labels1,
        labels2,
        b1 + platforms.len() + pills1.len(),
        b2 + platforms.len() + pills2.len(),
    );
    lemma_patient_batch_sig(
        patients,
        b1 + platforms.len() + pills1.len() + labels1.len(),
        b2 + platforms.len() + pills2.len() + labels2.len(),
    );
    lemma_sigs_add(pb1 + ib1 + lb1, ab1);
    lemma_sigs_add(pb1 + ib1, lb1);
    lemma_sigs_add(pb1, ib1);
    lemma_sigs_add(pb2 + ib2 + lb2, ab2);
    lemma_sigs_add(pb2 + ib2, lb2);
    lemma_sigs_add(pb2, ib2);
}

impl World {
    /// Consume one platform spawn event: exactly one platform entity,
    /// with a fresh identity, appended to the entity set.
    pub fn spawn_platform(&mut self, ev: SpawnPlatformEvent)
        requires
            old(self).wf(),
            old(self).next_id < u64::MAX,
            -POS_LIMIT <= ev.0.x <= POS_LIMIT,
            -POS_LIMIT <= ev.0.y <= POS_LIMIT,
        ensures
            final(self).wf(),
            final(self).entities@ == old(self).entities@.push(
                spec_platform_entity(old(self).next_id, ev.0),
            ),
            final(self).next_id == old(self).next_id + 1,
            old(self).in_bounds() ==> final(self).in_bounds(),
    {
        let id = self.next_id;
        self.next_id = self.next_id + 1;
        self.entities.push(
            Entity {
                id,
                kind: EntityKind::Platform,
                position: ev.0,
                velocity: None,
                gravity: None,
                shape: Some(
                    RectCollisionShape {
                        half_size: Vec2 { x: PLATFORM_HALF_X, y: PLATFORM_HALF_Y },
                        collide: true,
                    },
                ),
                effect: None,
                text: None,
                anim: None,
            },
        );
    }

    /// Consume one pickup spawn event: exactly one pickup entity
    /// carrying the event's pre-chosen side effect.
    pub fn spawn_pill(&mut self, ev: SpawnPillEvent)
        requires
            old(self).wf(),
            old(self).next_id < u64::MAX,
            -POS_LIMIT <= ev.position.x <= POS_LIMIT,
            -POS_LIMIT <= ev.position.y <= POS_LIMIT,
        ensures
            final(self).wf(),
            final(self).entities@ == old(self).entities@.push(
                spec_pill_entity(old(self).next_id, ev.position, ev.side_effect),
            ),
            final(self).next_id == old(self).next_id + 1,
            old(self).in_bounds() ==> final(self).in_bounds(),
    {
        let id = self.next_id;
        self.next_id = self.next_id + 1;
        self.entities.push(
            Entity {
                id,
                kind: EntityKind::Pickup,
                position: ev.position,
                velocity: None,
                gravity: None,
                shape: Some(
                    RectCollisionShape {
                        half_size: Vec2 { x: PILL_HALF_X, y: PILL_HALF_Y },
                        collide: false,
                    },
                ),
                effect: Some(ev.side_effect),
                text: None,
                anim: Some(Anim::new(PILL_ANIMATION_PERIOD_MICROS, PILL_ANIMATION_LENGTH)),
            },
        );
    }

    /// Consume the goal-target spawn event: the single goal entity of
    /// the level.
    pub fn spawn_patient(&mut self, ev: SpawnPatientEvent)
        requires
            old(self).wf(),
            old(self).next_id < u64::MAX,
            !old(self).spec_has_kind(EntityKind::Goal),
            -POS_LIMIT <= ev.0.x <= POS_LIMIT,
            -POS_LIMIT <= ev.0.y <= POS_LIMIT,
        ensures
            final(self).wf(),
            final(self).entities@ == old(self).entities@.push(
                spec_patient_entity(old(self).next_id, ev.0),
            ),
            final(self).next_id == old(self).next_id + 1,
            old(self).in_bounds() ==> final(self).in_bounds(),
    {
        let id = self.next_id;
        self.next_id = self.next_id + 1;
        self.entities.push(
            Entity {
                id,
                kind: EntityKind::Goal,
                position: ev.0,
                velocity: None,
                gravity: None,
                shape: Some(
                    RectCollisionShape {
                        half_size: Vec2 { x: PERSON_HALF_X, y: PERSON_HALF_Y },
                        collide: false,
                    },
                ),
                effect: None,
                text: None,
                anim: Some(
                    Anim::new(PATIENT_ANIMATION_PERIOD_MICROS, PATIENT_ANIMATION_LENGTH),
                ),
            },
        );
    }

    /// Consume one floating-label spawn event.
    pub fn spawn_label(&mut self, ev: SpawnFloatingLabelEvent)
        requires
            old(self).wf(),
            old(self).next_id < u64::MAX,
            -POS_LIMIT <= ev.1.x <= POS_LIMIT,
            -POS_LIMIT <= ev.1.y <= POS_LIMIT,
        ensures
            final(self).wf(),
            final(self).entities@ == old(self).entities@.push(
                spec_label_entity(old(self).next_id, ev),
            ),
            final(self).next_id == old(self).next_id + 1,
            old(self).in_bounds() ==> final(self).in_bounds(),
    {
        let id = self.next_id;
        self.next_id = self.next_id + 1;
        self.entities.push(
            Entity {
                id,
                kind: EntityKind::Label,
                position: ev.1,
                velocity: None,
                gravity: None,
                shape: None,
                effect: None,
                text: Some(ev.0),
                anim: None,
            },
        );
    }

    /// Spawn the single player body on level entry.
    pub fn spawn_player(&mut self)
        requires
            old(self).wf(),
            old(self).next_id < u64::MAX,
            !old(self).spec_has_kind(EntityKind::Player),
        ensures
            final(self).wf(),
            final(self).entities@ == old(self).entities@.push(
                spec_player_entity(old(self).next_id),
            ),
            final(self).next_id == old(self).next_id + 1,
            old(self).in_bounds() ==> final(self).in_bounds(),
    {
        let id = self.next_id;
        self.next_id = self.next_id + 1;
        self.entities.push(
            Entity {
                id,
                kind: EntityKind::Player,
                position: Vec2 { x: 0, y: 0 },
                velocity: Some(Velocity(Vec2 { x: 0, y: 0 })),
                gravity: Some(Gravity(Vec2 { x: 0, y: -1i64 })),
                shape: Some(
                    RectCollisionShape {
                        half_size: Vec2 { x: PERSON_HALF_X, y: PERSON_HALF_Y },
                        collide: true,
                    },
                ),
                effect: None,
                text: None,
                anim: None,
            },
        );
    }

    /// Drain every spawn queue completely, in one pass: platforms, then
    /// pickups, then labels, then the goal target.  Every queued event
    /// produces exactly one entity, in queue order, with consecutive
    /// fresh identities; the queues come back empty.
    pub fn drain_spawns(&mut self, queues: &mut SpawnQueues)
        requires
            old(self).wf(),
            old(self).next_id + old(queues).total_len() <= u64::MAX,
            old(queues).spec_in_bounds(),
            old(queues).patients@.len() <= 1,
            old(queues).patients@.len() == 1 ==> !old(self).spec_has_kind(EntityKind::Goal),
        ensures
            final(self).wf(),
            final(queues).platforms@.len() == 0,
            final(queues).pills@.len() == 0,
            final(queues).labels@.len() == 0,
            final(queues).patients@.len() == 0,
            final(self).entities@ == old(self).entities@ + spec_drained_batch(
                old(queues).platforms@,
                old(queues).pills@,
                old(queues).labels@,
                old(queues).patients@,
                old(self).next_id as int,
            ),
            final(self).next_id == old(self).next_id + old(queues).total_len(),
            old(self).in_bounds() ==> final(self).in_bounds(),
            final(self).spec_has_kind(EntityKind::Player) == old(self).spec_has_kind(
                EntityKind::Player,
            ),
    {
        let ghost ents0 = self.entities@;
        let ghost base = old(self).next_id as int;
        let ghost pq = queues.platforms@;
        let ghost iq = queues.pills@;
        let ghost lq = queues.labels@;
        let ghost aq = queues.patients@;

        let ghost mut k: int = 0;
        while queues.platforms.len() > 0
            invariant
                0 <= k <= pq.len(),
                self.wf(),
                self.next_id == base + k,
                base + pq.len() + iq.len() + lq.len() + aq.len() <= u64::MAX,
                self.entities@ == ents0 + spec_platform_batch(pq.take(k), base),
                queues.platforms@ == pq.skip(k),
                queues.pills@ == iq,
                queues.labels@ == lq,
                queues.patients@ == aq,
                old(queues).spec_in_bounds(),
                pq == old(queues).platforms@,
                self.spec_has_kind(EntityKind::Goal) == old(self).spec_has_kind(EntityKind::Goal),
                self.spec_has_kind(EntityKind::Player) == old(self).spec_has_kind(
                    EntityKind::Player,
                ),
                old(self).in_bounds() ==> self.in_bounds(),
            decreases pq.len() - k,
        {
            proof {
                assert(pq.skip(k)[0] == pq[k]);
            }
            let ev = queues.platforms.remove(0);
            let ghost pre = self.entities@;
            self.spawn_platform(ev);
            proof {
                k = k + 1;
                assert(pq.take(k).drop_last() =~= pq.take(k - 1));
                assert(pq.take(k).last() == pq[k - 1]);
                assert(self.entities@ =~= ents0 + spec_platform_batch(pq.take(k), base));
                assert(queues.platforms@ =~= pq.skip(k));
                crate::world::lemma_push_has_kind(
                    pre,
                    spec_platform_entity((base + k - 1) as u64, pq[k - 1].0),
                    EntityKind::Goal,
                );
                crate::world::lemma_push_has_kind(
                    pre,
                    spec_platform_entity((base + k - 1) as u64, pq[k - 1].0),
                    EntityKind::Player,
                );
            }
        }
        proof {
            assert(pq.take(k) =~= pq);
        }

        let ghost base2 = base + pq.len();
        let ghost mut k2: int = 0;
        while queues.pills.len() > 0
            invariant
                0 <= k2 <= iq.len(),
                self.wf(),
                self.next_id == base2 + k2,
                base2 + iq.len() + lq.len() + aq.len() <= u64::MAX,
                self.entities@ == ents0 + spec_platform_batch(pq, base) + spec_pill_batch(
                    iq.take(k2),
                    base2,
                ),
                queues.platforms@.len() == 0,
                queues.pills@ == iq.skip(k2),
                queues.labels@ == lq,
                queues.patients@ == aq,
                old(queues).spec_in_bounds(),
                iq == old(queues).pills@,
                self.spec_has_kind(EntityKind::Goal) == old(self).spec_has_kind(EntityKind::Goal),
                self.spec_has_kind(EntityKind::Player) == old(self).spec_has_kind(
                    EntityKind::Player,
                ),
                old(self).in_bounds() ==> self.in_bounds(),
            decreases iq.len() - k2,
        {
            proof {
                assert(iq.skip(k2)[0] == iq[k2]);
            }
            let ev = queues.pills.remove(0);
            let ghost pre = self.entities@;
            self.spawn_pill(ev);
            proof {
                k2 = k2 + 1;
                assert(iq.take(k2).drop_last() =~= iq.take(k2 - 1));
                assert(iq.take(k2).last() == iq[k2 - 1]);
                assert(self.entities@ =~= ents0 + spec_platform_batch(pq, base) + spec_pill_batch(
                    iq.take(k2),
                    base2,
                ));
                assert(queues.pills@ =~= iq.skip(k2));
                crate::world::lemma_push_has_kind(
                    pre,
                    spec_pill_entity(
                        (base2 + k2 - 1) as u64,
                        iq[k2 - 1].position,
                        iq[k2 - 1].side_effect,
                    ),
                    EntityKind::Goal,
                );
                crate::world::lemma_push_has_kind(
                    pre,
                    spec_pill_entity(
                        (base2 + k2 - 1) as u64,
                        iq[k2 - 1].position,
                        iq[k2 - 1].side_effect,
                    ),
                    EntityKind::Player,
                );
            }
        }
        proof {
            assert(iq.take(k2) =~= iq);
        }

        let ghost base3 = base2 + iq.len();
        let ghost mut k3: int = 0;
        while queues.labels.len() > 0
            invariant
                0 <= k3 <= lq.len(),
                self.wf(),
                self.next_id == base3 + k3,
                base3 + lq.len() + aq.len() <= u64::MAX,
                self.entities@ == ents0 + spec_platform_batch(pq, base) + spec_pill_batch(
                    iq,
                    base2,
                ) + spec_label_batch(lq.take(k3), base3),
                queues.platforms@.len() == 0,
                queues.pills@.len() == 0,
                queues.labels@ == lq.skip(k3),
                queues.patients@ == aq,
                old(queues).spec_in_bounds(),
                lq == old(queues).labels@,
                self.spec_has_kind(EntityKind::Goal) == old(self).spec_has_kind(EntityKind::Goal),
                self.spec_has_kind(EntityKind::Player) == old(self).spec_has_kind(
                    EntityKind::Player,
                ),
                old(self).in_bounds() ==> self.in_bounds(),
            decreases lq.len() - k3,
        {
            proof {
                assert(lq.skip(k3)[0] == lq[k3]);
            }
            let ev = queues.labels.remove(0);
            let ghost pre = self.entities@;
            self.spawn_label(ev);
            proof {
                k3 = k3 + 1;
                assert(lq.take(k3).drop_last() =~= lq.take(k3 - 1));
                assert(lq.take(k3).last() == lq[k3 - 1]);
                assert(self.entities@ =~= ents0 + spec_platform_batch(pq, base) + spec_pill_batch(
                    iq,
                    base2,
                ) + spec_label_batch(lq.take(k3), base3));
                assert(queues.labels@ =~= lq.skip(k3));
                crate::world::lemma_push_has_kind(
                    pre,
                    spec_label_entity((base3 + k3 - 1) as u64, lq[k3 - 1]),
                    EntityKind::Goal,
                );
                crate::world::lemma_push_has_kind(
                    pre,
                    spec_label_entity((base3 + k3 - 1) as u64, lq[k3 - 1]),
                    EntityKind::Player,
                );
            }
        }
        proof {
            assert(lq.take(k3) =~= lq);
        }

        let ghost base4 = base3 + lq.len();
        if queues.patients.len() > 0 {
            proof {
                assert(aq.skip(0)[0] == aq[0]);
            }
            let ev = queues.patients.remove(0);
            let ghost pre = self.entities@;
            self.spawn_patient(ev);
            proof {
                assert(aq.take(1 as int).drop_last() =~= aq.take(0 as int));
                assert(aq.take(1 as int).last() == aq[0]);
                assert(aq.take(1 as int) =~= aq);
                assert(aq.drop_last() =~= Seq::<SpawnPatientEvent>::empty());
                assert(spec_patient_batch(aq.drop_last(), base4) =~= Seq::<Entity>::empty());
                assert(aq.last() == aq[0]);
                assert(spec_patient_batch(aq, base4) =~= spec_patient_batch(
                    aq.drop_last(),
                    base4,
                ).push(spec_patient_entity(base4 as u64, aq[0].0)));
                assert(self.entities@ =~= ents0 + spec_platform_batch(pq, base) + spec_pill_batch(
                    iq,
                    base2,
                ) + spec_label_batch(lq, base3) + spec_patient_batch(aq, base4));
                crate::world::lemma_push_has_kind(
                    pre,
                    spec_patient_entity(base4 as u64, aq[0].0),
                    EntityKind::Player,
                );
            }
        }
        proof {
            if aq.len() == 0 {
                assert(spec_patient_batch(aq, base4) =~= Seq::<Entity>::empty());
            }
            assert(self.entities@ =~= ents0 + spec_drained_batch(pq, iq, lq, aq, base));
        }
    }

    /// Bulk despawn: remove every entity of one kind, keeping the rest
    /// in order.  How an entity was created plays no part.
    pub fn despawn_kind(&mut self, kind: EntityKind)
        requires
            old(self).wf(),
        ensures
            final(self).wf(),
            final(self).entities@ == spec_without_kind(old(self).entities@, kind),
            final(self).next_id == old(self).next_id,
            old(self).in_bounds() ==> final(self).in_bounds(),
    {
        let ghost s = self.entities@;
        let ghost mut k: int = 0;
        let mut j: usize = 0;
        while j < self.entities.len()
            invariant
                0 <= k <= s.len(),
                self.entities@ == spec_without_kind(s.take(k), kind) + s.skip(k),
                j == spec_without_kind(s.take(k), kind).len(),
                self.wf(),
                self.next_id == old(self).next_id,
                old(self).in_bounds() ==> self.in_bounds(),
            decreases s.len() - k,
        {
            proof {
                assert(s.skip(k)[0] == s[k]);
                assert(self.entities@[j as int] == s[k]);
                assert(s.take(k + 1).drop_last() =~= s.take(k));
                assert(s.take(k + 1).last() == s[k]);
            }
            if self.entities[j].kind == kind {
                let _ = self.entities.remove(j);
                proof {
                    k = k + 1;
                    assert(self.entities@ =~= spec_without_kind(s.take(k), kind) + s.skip(k));
                }
            } else {
                j = j + 1;
                proof {
                    k = k + 1;
                    assert(self.entities@ =~= spec_without_kind(s.take(k), kind) + s.skip(k));
                }
            }
        }
        proof {
            assert(s.take(k) =~= s);
            assert(s.skip(k) =~= Seq::<Entity>::empty());
            assert(self.entities@ =~= spec_without_kind(s, kind));
        }
    }
}

} // verus!
