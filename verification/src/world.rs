//! The entity set: opaque identities with independently attached
//! components, owned by a single-threaded world.  Entities are created
//! by the lifecycle pipeline and removed individually (pickup
//! collection) or in bulk (level exit).

use vstd::prelude::*;

use crate::components::{Gravity, RectCollisionShape, Velocity};
use crate::math::Vec2;
use crate::side_effects::SideEffect;
use crate::timer::AnimationTimer;

verus! {

/// Bound (2^39) on positions, velocities and half-extents entering a
/// fixed tick: one tick of integration then stays inside the collision
/// resolver's working range.
pub const POS_LIMIT: i64 = 0x80_0000_0000;

/// Bound (2^20) on gravity components entering a fixed tick.
pub const GRAV_LIMIT: i64 = 0x10_0000;

/// The dynamic entity kinds the lifecycle pipeline manages.
#[derive(Clone, Copy, Debug, PartialEq, Eq, Structural)]
pub enum EntityKind {
    Player,
    Platform,
    Pickup,
    Goal,
    Label,
}

/// Animation state of a sprite-strip entity: a repeating timer and the
/// current frame of a strip of `length` frames.
#[derive(Clone, Copy, Debug, PartialEq, Eq, Structural)]
pub struct Anim {
    pub timer: AnimationTimer,
    pub length: usize,
    pub frame: usize,
}

impl Anim {
    pub open spec fn wf(self) -> bool {
        self.timer.wf() && self.length >= 1 && self.frame < self.length
    }

    pub fn new(period_micros: u64, length: usize) -> (a: Anim)
        requires
            0 < period_micros <= crate::timer::TIME_LIMIT_MICROS,
            length >= 1,
        ensures
            a == (Anim { timer: AnimationTimer { period_micros, elapsed_micros: 0 }, length, frame: 0 }),
            a.wf(),
    {
        Anim { timer: AnimationTimer::new(period_micros), length, frame: 0 }
    }

    /// Advance by one frame's wall-clock delta; every full timer period
    /// the strip steps one frame, wrapping at its length.
    pub fn advance(&mut self, delta_micros: u64)
        requires
            old(self).wf(),
            delta_micros <= crate::timer::TIME_LIMIT_MICROS,
        ensures
            final(self).wf(),
            final(self).length == old(self).length,
            final(self).timer.period_micros == old(self).timer.period_micros,
            final(self).timer.elapsed_micros == (old(self).timer.elapsed_micros + delta_micros) % (
            old(self).timer.period_micros as int),
            (old(self).timer.elapsed_micros + delta_micros >= old(self).timer.period_micros)
                ==> final(self).frame == (old(self).frame + 1) % (old(self).length as int),
            (old(self).timer.elapsed_micros + delta_micros < old(self).timer.period_micros)
                ==> final(self).frame == old(self).frame,
    {
        let fired = self.timer.tick(delta_micros);
        if fired {
            self.frame = (self.frame + 1) % self.length;
        }
    }
}

/// One entity: an identity plus its attached components.  Absent
/// components are `None`; which must be present is fixed per kind.
#[derive(Debug)]
pub struct Entity {
    pub id: u64,
    pub kind: EntityKind,
    pub position: Vec2,
    pub velocity: Option<Velocity>,
    pub gravity: Option<Gravity>,
    pub shape: Option<RectCollisionShape>,
    pub effect: Option<SideEffect>,
    pub text: Option<String>,
    pub anim: Option<Anim>,
}

impl Entity {
    /// Component layout required of each kind: the player is the movable
    /// body; platforms, pickups and the goal target are static shapes;
    /// pickups carry their pre-assigned side effect; labels carry text.
    pub open spec fn wf(self) -> bool {
        &&& match self.kind {
            EntityKind::Player => {
                &&& self.velocity is Some
                &&& self.gravity is Some
                &&& self.shape is Some
            },
            EntityKind::Platform => self.velocity is None && self.shape is Some,
            EntityKind::Pickup => {
                &&& self.velocity is None
                &&& self.shape is Some
                &&& self.effect is Some
            },
            EntityKind::Goal => self.velocity is None && self.shape is Some,
            EntityKind::Label => self.velocity is None && self.text is Some,
        }
        &&& (self.shape is Some ==> self.shape->0.wf())
        &&& (self.anim is Some ==> self.anim->0.wf())
    }

    /// All spatial data inside the per-tick bounds.
    pub open spec fn in_bounds(self) -> bool {
        &&& -POS_LIMIT <= self.position.x <= POS_LIMIT
        &&& -POS_LIMIT <= self.position.y <= POS_LIMIT
        &&& (self.velocity is Some ==> -POS_LIMIT <= (self.velocity->0).0.x <= POS_LIMIT
            && -POS_LIMIT <= (self.velocity->0).0.y <= POS_LIMIT)
        &&& (self.gravity is Some ==> -GRAV_LIMIT <= (self.gravity->0).0.x <= GRAV_LIMIT
            && -GRAV_LIMIT <= (self.gravity->0).0.y <= GRAV_LIMIT)
        &&& (self.shape is Some ==> self.shape->0.half_size.x <= POS_LIMIT
            && self.shape->0.half_size.y <= POS_LIMIT)
    }
}

/// One animation state after absorbing a frame delta: elapsed time
/// wraps at the period and the strip steps one frame each full period.
pub open spec fn spec_anim_advance(a: Anim, delta_micros: u64) -> Anim {
    let total = a.timer.elapsed_micros + delta_micros;
    Anim {
        timer: AnimationTimer {
            period_micros: a.timer.period_micros,
            elapsed_micros: (total % (a.timer.period_micros as int)) as u64,
        },
        length: a.length,
        frame: (if total >= a.timer.period_micros {
            ((a.frame + 1) % (a.length as int)) as usize
        } else {
            a.frame
        }),
    }
}

/// One entity after the animation pass.
pub open spec fn spec_animate_entity(e: Entity, delta_micros: u64) -> Entity {
    if e.anim is Some {
        Entity { anim: Some(spec_anim_advance(e.anim->0, delta_micros)), ..e }
    } else {
        e
    }
}

/// The animation pass over the whole entity set.
pub open spec fn spec_animation_pass(s: Seq<Entity>, delta_micros: u64) -> Seq<Entity> {
    s.map_values(|e: Entity| spec_animate_entity(e, delta_micros))
}

/// Whether some entity of the given kind stands in the list.
pub open spec fn seq_has_kind(s: Seq<Entity>, kind: EntityKind) -> bool {
    exists|i: int| 0 <= i < s.len() && (#[trigger] s[i]).kind == kind
}

/// The index of an entity of the given kind (the unique one, when at
/// most one exists).
pub open spec fn seq_kind_index(s: Seq<Entity>, kind: EntityKind) -> int {
    choose|i: int| 0 <= i < s.len() && (#[trigger] s[i]).kind == kind
}

/// Appending one entity adds its kind and nothing else.
pub proof fn lemma_push_has_kind(s: Seq<Entity>, e: Entity, kind: EntityKind)
    ensures
        seq_has_kind(s.push(e), kind) == (seq_has_kind(s, kind) || e.kind == kind),
{
    if seq_has_kind(s, kind) {
        let i = seq_kind_index(s, kind);
        assert(s.push(e)[i].kind == kind);
    }
    if e.kind == kind {
        assert(s.push(e)[s.len() as int].kind == kind);
    }
    if seq_has_kind(s.push(e), kind) {
        let i = seq_kind_index(s.push(e), kind);
        if i < s.len() {
            assert(s[i].kind == kind);
        }
    }
}

/// Two entity lists whose kinds agree pointwise hold the same singleton
/// lookups, provided the kind occurs at most once in the first.
pub proof fn lemma_kinds_agree_lookup(s: Seq<Entity>, s2: Seq<Entity>, kind: EntityKind)
    requires
        s2.len() == s.len(),
        forall|i: int| 0 <= i < s.len() ==> (#[trigger] s2[i]).kind == s[i].kind,
        forall|i: int, j: int|
            0 <= i < s.len() && 0 <= j < s.len() && (#[trigger] s[i]).kind == kind
                && (#[trigger] s[j]).kind == kind ==> i == j,
    ensures
        seq_has_kind(s2, kind) == seq_has_kind(s, kind),
        seq_has_kind(s, kind) ==> seq_kind_index(s2, kind) == seq_kind_index(s, kind),
{
    if seq_has_kind(s, kind) {
        let i = seq_kind_index(s, kind);
        assert(s2[i].kind == kind);
        assert(seq_has_kind(s2, kind));
        let i2 = seq_kind_index(s2, kind);
        assert(s[i2].kind == kind);
    }
    if seq_has_kind(s2, kind) {
        let i2 = seq_kind_index(s2, kind);
        assert(s[i2].kind == kind);
        assert(seq_has_kind(s, kind));
    }
}

/// The entity set and the id counter that keeps identities unique.
#[derive(Debug)]
pub struct World {
    pub entities: Vec<Entity>,
    pub next_id: u64,
}

impl World {
    pub open spec fn ids_unique(self) -> bool {
        forall|i: int, j: int|
            0 <= i < j < self.entities@.len() ==> #[trigger] self.entities@[i].id
                != #[trigger] self.entities@[j].id
    }

    /// At most one entity of the given kind.
    pub open spec fn at_most_one(self, kind: EntityKind) -> bool {
        forall|i: int, j: int|
            0 <= i < self.entities@.len() && 0 <= j < self.entities@.len()
                && #[trigger] self.entities@[i].kind == kind && #[trigger] self.entities@[j].kind
                == kind ==> i == j
    }

    pub open spec fn wf(self) -> bool {
        &&& forall|i: int|
            0 <= i < self.entities@.len() ==> (#[trigger] self.entities@[i]).wf()
        &&& forall|i: int|
            0 <= i < self.entities@.len() ==> (#[trigger] self.entities@[i]).id < self.next_id
        &&& self.ids_unique()
        &&& self.at_most_one(EntityKind::Player)
        &&& self.at_most_one(EntityKind::Goal)
    }

    /// All entities inside the per-tick spatial bounds.
    pub open spec fn in_bounds(self) -> bool {
        forall|i: int| 0 <= i < self.entities@.len() ==> (#[trigger] self.entities@[i]).in_bounds()
    }

    pub open spec fn spec_has_kind(self, kind: EntityKind) -> bool {
        seq_has_kind(self.entities@, kind)
    }

    /// The index of the entity of a singleton kind (meaningful under
    /// `at_most_one` when such an entity exists).
    pub open spec fn spec_kind_index(self, kind: EntityKind) -> int {
        seq_kind_index(self.entities@, kind)
    }

    /// Under `at_most_one`, any index holding the kind is the kind's index.
    pub proof fn lemma_kind_index_unique(self, kind: EntityKind, i: int)
        requires
            self.at_most_one(kind),
            0 <= i < self.entities@.len(),
            self.entities@[i].kind == kind,
        ensures
            self.spec_kind_index(kind) == i,
            self.spec_has_kind(kind),
    {
        assert(self.spec_has_kind(kind));
    }

    pub fn new() -> (w: World)
        ensures
            w.entities@.len() == 0,
            w.next_id == 0,
            w.wf(),
            w.in_bounds(),
    {
        World { entities: Vec::new(), next_id: 0 }
    }

    /// Whether some entity of the given kind is present.
    pub fn has_kind(&self, kind: EntityKind) -> (b: bool)
        ensures
            b == self.spec_has_kind(kind),
    {
        let n = self.entities.len();
        let mut i: usize = 0;
        while i < n
            invariant
                0 <= i <= n,
                n == self.entities@.len(),
                forall|k: int| 0 <= k < i ==> (#[trigger] self.entities@[k]).kind != kind,
            decreases n - i,
        {
            if self.entities[i].kind == kind {
                return true;
            }
            i = i + 1;
        }
        false
    }

    /// The index of the single entity of a singleton kind, if present.
    /// Missing singletons are not faults: callers treat `None` as a
    /// silent no-op for the tick.
    pub fn index_of_kind(&self, kind: EntityKind) -> (r: Option<usize>)
        ensures
            match r {
                Some(i) => i < self.entities@.len() && self.entities@[i as int].kind == kind,
                None => !self.spec_has_kind(kind),
            },
    {
        let n = self.entities.len();
        let mut i: usize = 0;
        while i < n
            invariant
                0 <= i <= n,
                n == self.entities@.len(),
                forall|k: int| 0 <= k < i ==> (#[trigger] self.entities@[k]).kind != kind,
            decreases n - i,
        {
            if self.entities[i].kind == kind {
                return Some(i);
            }
            i = i + 1;
        }
        None
    }

    /// Advance every animated entity's sprite strip by one frame's
    /// wall-clock delta: each full timer period steps the strip one
    /// frame, wrapping at its length.  Positions, velocities and shapes
    /// are untouched.
    pub fn animation_system(&mut self, delta_micros: u64)
        requires
            old(self).wf(),
            delta_micros <= crate::timer::TIME_LIMIT_MICROS,
        ensures
            final(self).entities@ == spec_animation_pass(old(self).entities@, delta_micros),
            final(self).next_id == old(self).next_id,
            final(self).wf(),
    {
        let ghost orig = self.entities@;
        let n = self.entities.len();
        let mut i: usize = 0;
        while i < n
            invariant
                0 <= i <= n,
                n == self.entities@.len(),
                n == orig.len(),
                self.wf(),
                self.next_id == old(self).next_id,
                delta_micros <= crate::timer::TIME_LIMIT_MICROS,
                forall|k: int|
                    0 <= k < n ==> (#[trigger] orig[k]).anim is Some ==> orig[k].anim->0.wf(),
                forall|k: int|
                    0 <= k < i ==> self.entities@[k] == spec_animate_entity(
                        #[trigger] orig[k],
                        delta_micros,
                    ),
                forall|k: int| i <= k < n ==> self.entities@[k] == #[trigger] orig[k],
            decreases n - i,
        {
            proof {
                assert(self.entities@[i as int] == orig[i as int]);
            }
            let e = self.entity_mut(i);
            match e.anim {
                Some(mut a) => {
                    a.advance(delta_micros);
                    e.anim = Some(a);
                },
                None => {},
            }
            i = i + 1;
        }
        proof {
            assert(self.entities@ =~= spec_animation_pass(orig, delta_micros));
        }
    }

    /// Mutable access to one entity, for the in-place system passes.
    pub fn entity_mut(&mut self, i: usize) -> (e: &mut Entity)
        requires
            i < old(self).entities@.len(),
        ensures
            *e == old(self).entities@[i as int],
            final(self).entities@ == old(self).entities@.update(i as int, *final(e)),
            final(self).next_id == old(self).next_id,
    {
        &mut self.entities[i]
    }

    /// Check the per-tick spatial bounds on every entity, so a host can
    /// establish `in_bounds` before running a tick.
    pub fn check_in_bounds(&self) -> (b: bool)
        ensures
            b == self.in_bounds(),
    {
        let n = self.entities.len();
        let mut i: usize = 0;
        while i < n
            invariant
                0 <= i <= n,
                n == self.entities@.len(),
                forall|k: int| 0 <= k < i ==> (#[trigger] self.entities@[k]).in_bounds(),
            decreases n - i,
        {
            let e = &self.entities[i];
            if !(-POS_LIMIT <= e.position.x && e.position.x <= POS_LIMIT && -POS_LIMIT
                <= e.position.y && e.position.y <= POS_LIMIT) {
                return false;
            }
            match &e.velocity {
                Some(v) => {
                    if !(-POS_LIMIT <= v.0.x && v.0.x <= POS_LIMIT && -POS_LIMIT <= v.0.y && v.0.y
                        <= POS_LIMIT) {
                        return false;
                    }
                },
                None => {},
            }
            match &e.gravity {
                Some(g) => {
                    if !(-GRAV_LIMIT <= g.0.x && g.0.x <= GRAV_LIMIT && -GRAV_LIMIT <= g.0.y && g.0.y
                        <= GRAV_LIMIT) {
                        return false;
                    }
                },
                None => {},
            }
            match &e.shape {
                Some(s) => {
                    if !(s.half_size.x <= POS_LIMIT && s.half_size.y <= POS_LIMIT) {
                        return false;
                    }
                },
                None => {},
            }
            i = i + 1;
        }
        true
    }
}

} // verus!
