//! Fixed-tick physics over the entity set: the gravity impulse, the
//! velocity integration, and the collision pass of every movable body
//! against every static collider, in entity order.

use vstd::prelude::*;

use crate::collision::{resolve_against, snug_ok, spec_resolve_against, GEOM_LIMIT};
use crate::components::Velocity;
use crate::math::{lemma_milli_bound, milli_of, mul_milli, Vec2, FACTOR_LIMIT};
use crate::world::{Entity, World, GRAV_LIMIT, POS_LIMIT};

verus! {

/// Gravity is a per-tick acceleration impulse scaled by this constant,
/// with no time-delta scaling.
pub const GRAVITY_SCALE: i64 = 50;

/// Largest velocity magnitude right after the gravity impulse:
/// `POS_LIMIT` plus `GRAV_LIMIT * GRAVITY_SCALE`.
pub const VEL_TICK_LIMIT: i64 = 0x80_0320_0000;

/// Largest position magnitude right after velocity integration (2^50);
/// still inside the collision resolver's working range.
pub const POS_TICK_LIMIT: i64 = 0x4_0000_0000_0000;

/// Positions within `posb`, velocities within `velb`, gravity and
/// half-extents within the fixed per-tick bounds.
pub open spec fn tick_bounds(s: Seq<Entity>, posb: int, velb: int) -> bool {
    forall|i: int|
        0 <= i < s.len() ==> {
            let e = #[trigger] s[i];
            &&& -posb <= e.position.x <= posb
            &&& -posb <= e.position.y <= posb
            &&& (e.velocity is Some ==> -velb <= (e.velocity->0).0.x <= velb && -velb <= (
            e.velocity->0).0.y <= velb)
            &&& (e.gravity is Some ==> -GRAV_LIMIT <= (e.gravity->0).0.x <= GRAV_LIMIT
                && -GRAV_LIMIT <= (e.gravity->0).0.y <= GRAV_LIMIT)
            &&& (e.shape is Some ==> 0 <= e.shape->0.half_size.x <= POS_LIMIT && 0
                <= e.shape->0.half_size.y <= POS_LIMIT)
        }
}

/// Entities without a velocity never move, so their positions stay
/// inside the spawn-time bound through the whole tick; the collision
/// pass leans on this to keep every snap target small.
pub open spec fn statics_bounded(s: Seq<Entity>) -> bool {
    forall|i: int|
        0 <= i < s.len() ==> ((#[trigger] s[i]).velocity is None ==> -POS_LIMIT <= s[i].position.x
            <= POS_LIMIT && -POS_LIMIT <= s[i].position.y <= POS_LIMIT)
}

/// One entity after the gravity impulse: for a body with both velocity
/// and gravity, `velocity += gravity * GRAVITY_SCALE`; anything else is
/// untouched.
pub open spec fn spec_gravity_entity(e: Entity) -> Entity {
    if e.velocity is Some && e.gravity is Some {
        let v = (e.velocity->0).0;
        let g = (e.gravity->0).0;
        Entity {
            velocity: Some(
                Velocity(
                    Vec2 {
                        x: (v.x + g.x * GRAVITY_SCALE) as i64,
                        y: (v.y + g.y * GRAVITY_SCALE) as i64,
                    },
                ),
            ),
            ..e
        }
    } else {
        e
    }
}

/// The gravity pass: the impulse applied to every entity, in place.
pub open spec fn spec_gravity_pass(s: Seq<Entity>) -> Seq<Entity> {
    s.map_values(|e: Entity| spec_gravity_entity(e))
}

/// One entity after velocity integration by the fixed delta `dt_milli`
/// (thousandths of a second): `position += velocity * dt`, each axis
/// truncated toward zero.
pub open spec fn spec_velocity_entity(e: Entity, dt_milli: int) -> Entity {
    if e.velocity is Some {
        let v = (e.velocity->0).0;
        Entity {
            position: Vec2 {
                x: (e.position.x + milli_of(v.x as int, dt_milli)) as i64,
                y: (e.position.y + milli_of(v.y as int, dt_milli)) as i64,
            },
            ..e
        }
    } else {
        e
    }
}

/// The velocity pass: every movable entity translated by one tick.
pub open spec fn spec_velocity_pass(s: Seq<Entity>, dt_milli: int) -> Seq<Entity> {
    s.map_values(|e: Entity| spec_velocity_entity(e, dt_milli))
}

/// Whether an entity takes the static, immovable side of collision
/// resolution: it has a shape that physically collides and no velocity.
pub open spec fn is_static_collider(e: Entity) -> bool {
    e.velocity is None && e.shape is Some && e.shape->0.collide
}

/// Whether an entity is resolved as a movable body: it has a velocity
/// and a physically colliding shape.
pub open spec fn is_movable_collider(e: Entity) -> bool {
    e.velocity is Some && e.shape is Some && e.shape->0.collide
}

/// The (position, half-extents) list of the static colliders, in entity
/// order.
pub open spec fn spec_statics(s: Seq<Entity>) -> Seq<(Vec2, Vec2)>
    decreases s.len(),
{
    if s.len() == 0 {
        Seq::empty()
    } else {
        spec_statics(s.drop_last()) + (if is_static_collider(s.last()) {
            seq![(s.last().position, s.last().shape->0.half_size)]
        } else {
            Seq::empty()
        })
    }
}

/// One entity after the collision pass: a movable collider is folded
/// over all static colliders in order; anything else is untouched.
pub open spec fn spec_collision_entity(e: Entity, statics: Seq<(Vec2, Vec2)>) -> Entity {
    if is_movable_collider(e) {
        let r = spec_resolve_against((e.position), (e.velocity->0).0, e.shape->0.half_size, statics);
        Entity { position: r.0, velocity: Some(Velocity(r.1)), ..e }
    } else {
        e
    }
}

/// The collision pass: every movable collider resolved against the
/// static colliders of the same (pre-pass) entity set.
pub open spec fn spec_collision_pass(s: Seq<Entity>) -> Seq<Entity> {
    s.map_values(|e: Entity| spec_collision_entity(e, spec_statics(s)))
}

/// The fold over static colliders keeps the position inside `posb` and
/// the velocity inside `velb`: every step either keeps a coordinate or
/// snaps it to a sum of three values bounded by `sb`.
pub proof fn lemma_resolve_against_bounds(
    mp: Vec2,
    mv: Vec2,
    mh: Vec2,
    statics: Seq<(Vec2, Vec2)>,
    posb: int,
    velb: int,
    sb: int,
)
    requires
        -posb <= mp.x <= posb,
        -posb <= mp.y <= posb,
        -velb <= mv.x <= velb,
        -velb <= mv.y <= velb,
        0 <= velb,
        0 <= mh.x <= sb,
        0 <= mh.y <= sb,
        3 * sb <= posb <= GEOM_LIMIT,
        forall|k: int|
            0 <= k < statics.len() ==> {
                &&& -sb <= (#[trigger] statics[k]).0.x <= sb
                &&& -sb <= statics[k].0.y <= sb
                &&& 0 <= statics[k].1.x <= sb
                &&& 0 <= statics[k].1.y <= sb
            },
    ensures
        ({
            let r = spec_resolve_against(mp, mv, mh, statics);
            &&& -posb <= r.0.x <= posb
            &&& -posb <= r.0.y <= posb
            &&& -velb <= r.1.x <= velb
            &&& -velb <= r.1.y <= velb
        }),
    decreases statics.len(),
{
    if statics.len() > 0 {
        lemma_resolve_against_bounds(mp, mv, mh, statics.drop_last(), posb, velb, sb);
    }
}

/// A world inside the spawn-time bounds meets the gravity pass's entry
/// bounds, and its unmoved entities are where spawning left them.
pub proof fn lemma_in_bounds_at_tick_entry(w: World)
    requires
        w.wf(),
        w.in_bounds(),
    ensures
        tick_bounds(w.entities@, POS_LIMIT as int, POS_LIMIT as int),
        statics_bounded(w.entities@),
{
    assert forall|i: int| 0 <= i < w.entities@.len() implies {
        let e = #[trigger] w.entities@[i];
        &&& -POS_LIMIT <= e.position.x <= POS_LIMIT
        &&& -POS_LIMIT <= e.position.y <= POS_LIMIT
        &&& (e.velocity is Some ==> -POS_LIMIT <= (e.velocity->0).0.x <= POS_LIMIT && -POS_LIMIT
            <= (e.velocity->0).0.y <= POS_LIMIT)
        &&& (e.gravity is Some ==> -GRAV_LIMIT <= (e.gravity->0).0.x <= GRAV_LIMIT && -GRAV_LIMIT
            <= (e.gravity->0).0.y <= GRAV_LIMIT)
        &&& (e.shape is Some ==> 0 <= e.shape->0.half_size.x <= POS_LIMIT && 0
            <= e.shape->0.half_size.y <= POS_LIMIT)
    } by {
        assert(w.entities@[i].in_bounds());
        assert(w.entities@[i].wf());
    }
}

/// One whole fixed tick of physics, in the mandated order: the gravity
/// impulse, then velocity integration, then collision resolution.
pub open spec fn spec_after_physics(s: Seq<Entity>, dt_milli: int) -> Seq<Entity> {
    spec_collision_pass(spec_velocity_pass(spec_gravity_pass(s), dt_milli))
}

/// `n` fixed ticks of physics.
pub open spec fn spec_physics_iter(s: Seq<Entity>, dt_milli: int, n: nat) -> Seq<Entity>
    decreases n,
{
    if n == 0 {
        s
    } else {
        spec_after_physics(spec_physics_iter(s, dt_milli, (n - 1) as nat), dt_milli)
    }
}

/// Free fall accumulates linearly: an entity with gravity whose shape
/// never physically collides gains exactly one gravity impulse per
/// fixed tick, so after `n` ticks its velocity is the initial velocity
/// plus `n` times `gravity * GRAVITY_SCALE`, on each axis.
pub proof fn lemma_free_fall_velocity(s: Seq<Entity>, dt_milli: int, i: int, n: nat)
    requires
        0 <= i < s.len(),
        s[i].velocity is Some,
        s[i].gravity is Some,
        !(s[i].shape is Some && s[i].shape->0.collide),
        -POS_LIMIT <= (s[i].velocity->0).0.x <= POS_LIMIT,
        -POS_LIMIT <= (s[i].velocity->0).0.y <= POS_LIMIT,
        -GRAV_LIMIT <= (s[i].gravity->0).0.x <= GRAV_LIMIT,
        -GRAV_LIMIT <= (s[i].gravity->0).0.y <= GRAV_LIMIT,
        n <= 0x10_0000,
    ensures
        ({
            let e = spec_physics_iter(s, dt_milli, n)[i];
            let v0 = (s[i].velocity->0).0;
            let g = (s[i].gravity->0).0;
            &&& spec_physics_iter(s, dt_milli, n).len() == s.len()
            &&& e.velocity is Some
            &&& (e.velocity->0).0.x == v0.x + n * (g.x * GRAVITY_SCALE)
            &&& (e.velocity->0).0.y == v0.y + n * (g.y * GRAVITY_SCALE)
            &&& e.gravity == s[i].gravity
            &&& e.shape == s[i].shape
        }),
    decreases n,
{
    let v0 = (s[i].velocity->0).0;
    let g = (s[i].gravity->0).0;
    if n > 0 {
        lemma_free_fall_velocity(s, dt_milli, i, (n - 1) as nat);
        let prev = spec_physics_iter(s, dt_milli, (n - 1) as nat);
        let e1 = prev[i];
        assert((n - 1) * (g.x * GRAVITY_SCALE) + (g.x * GRAVITY_SCALE) == n * (g.x
            * GRAVITY_SCALE)) by (nonlinear_arith);
        assert((n - 1) * (g.y * GRAVITY_SCALE) + (g.y * GRAVITY_SCALE) == n * (g.y
            * GRAVITY_SCALE)) by (nonlinear_arith);
        assert(-0x10_0000 * (GRAV_LIMIT * GRAVITY_SCALE) <= (n - 1) * (g.x * GRAVITY_SCALE)
            <= 0x10_0000 * (GRAV_LIMIT * GRAVITY_SCALE)) by (nonlinear_arith)
            requires
                0 <= (n - 1) <= 0x10_0000,
                -GRAV_LIMIT * GRAVITY_SCALE <= g.x * GRAVITY_SCALE <= GRAV_LIMIT * GRAVITY_SCALE,
        ;
        assert(-0x10_0000 * (GRAV_LIMIT * GRAVITY_SCALE) <= (n - 1) * (g.y * GRAVITY_SCALE)
            <= 0x10_0000 * (GRAV_LIMIT * GRAVITY_SCALE)) by (nonlinear_arith)
            requires
                0 <= (n - 1) <= 0x10_0000,
                -GRAV_LIMIT * GRAVITY_SCALE <= g.y * GRAVITY_SCALE <= GRAV_LIMIT * GRAVITY_SCALE,
        ;
        let e2 = spec_gravity_entity(e1);
        let afterg = spec_gravity_pass(prev);
        let afterv = spec_velocity_pass(afterg, dt_milli);
        assert(afterg[i] == e2);
        assert(afterv[i].velocity == e2.velocity && afterv[i].shape == e2.shape && afterv[i].gravity
            == e2.gravity);
        assert(!is_movable_collider(afterv[i]));
        assert(spec_collision_pass(afterv)[i] == afterv[i]);
    }
}

impl World {
    /// Apply the gravity impulse to every entity carrying both gravity
    /// and velocity.  Runs first in each fixed tick, so one tick of
    /// falling is visible as displacement in the same tick.
    pub fn gravity_system(&mut self)
        requires
            old(self).wf(),
            tick_bounds(old(self).entities@, POS_LIMIT as int, POS_LIMIT as int),
        ensures
            final(self).entities@ == spec_gravity_pass(old(self).entities@),
            final(self).next_id == old(self).next_id,
            final(self).wf(),
            tick_bounds(final(self).entities@, POS_LIMIT as int, VEL_TICK_LIMIT as int),
            statics_bounded(final(self).entities@),
    {
        let ghost orig = self.entities@;
        let n = self.entities.len();
        let mut i: usize = 0;
        while i < n
            invariant
                0 <= i <= n,
                n == self.entities@.len(),
                n == orig.len(),
                self.wf(),
                self.next_id == old(self).next_id,
                tick_bounds(orig, POS_LIMIT as int, POS_LIMIT as int),
                tick_bounds(self.entities@, POS_LIMIT as int, VEL_TICK_LIMIT as int),
                statics_bounded(self.entities@),
                forall|k: int| 0 <= k < i ==> self.entities@[k] == spec_gravity_entity(#[trigger] orig[k]),
                forall|k: int| i <= k < n ==> self.entities@[k] == #[trigger] orig[k],
            decreases n - i,
        {
            proof {
                assert(self.entities@[i as int] == orig[i as int]);
            }
            let e = self.entity_mut(i);
            match (e.velocity, e.gravity) {
                (Some(v), Some(g)) => {
                    e.velocity = Some(
                        Velocity(
                            Vec2 {
                                x: v.0.x + g.0.x * GRAVITY_SCALE,
                                y: v.0.y + g.0.y * GRAVITY_SCALE,
                            },
                        ),
                    );
                },
                _ => {},
            }
            i = i + 1;
        }
        proof {
            assert(self.entities@ =~= spec_gravity_pass(orig));
        }
    }

    /// Translate every movable entity by `velocity * dt`, the fixed
    /// delta given in thousandths of a second.  Runs right after the
    /// gravity pass.
    pub fn velocity_system(&mut self, dt_milli: i64)
        requires
            old(self).wf(),
            0 <= dt_milli <= FACTOR_LIMIT,
            tick_bounds(old(self).entities@, POS_LIMIT as int, VEL_TICK_LIMIT as int),
        ensures
            final(self).entities@ == spec_velocity_pass(old(self).entities@, dt_milli as int),
            final(self).next_id == old(self).next_id,
            final(self).wf(),
            tick_bounds(final(self).entities@, POS_TICK_LIMIT as int, VEL_TICK_LIMIT as int),
            statics_bounded(final(self).entities@),
    {
        let ghost orig = self.entities@;
        let n = self.entities.len();
        let mut i: usize = 0;
        while i < n
            invariant
                0 <= i <= n,
                n == self.entities@.len(),
                n == orig.len(),
                self.wf(),
                self.next_id == old(self).next_id,
                0 <= dt_milli <= FACTOR_LIMIT,
                tick_bounds(orig, POS_LIMIT as int, VEL_TICK_LIMIT as int),
                tick_bounds(self.entities@, POS_TICK_LIMIT as int, VEL_TICK_LIMIT as int),
                statics_bounded(self.entities@),
                forall|k: int|
                    0 <= k < i ==> self.entities@[k] == spec_velocity_entity(
                        #[trigger] orig[k],
                        dt_milli as int,
                    ),
                forall|k: int| i <= k < n ==> self.entities@[k] == #[trigger] orig[k],
            decreases n - i,
        {
            proof {
                assert(self.entities@[i as int] == orig[i as int]);
            }
            let e = self.entity_mut(i);
            match e.velocity {
                Some(v) => {
                    let dx = mul_milli(v.0.x, dt_milli);
                    let dy = mul_milli(v.0.y, dt_milli);
                    proof {
                        lemma_milli_bound(v.0.x as int, dt_milli as int, VEL_TICK_LIMIT as int);
                        lemma_milli_bound(v.0.y as int, dt_milli as int, VEL_TICK_LIMIT as int);
                        assert((VEL_TICK_LIMIT * dt_milli) <= VEL_TICK_LIMIT * FACTOR_LIMIT)
                            by (nonlinear_arith)
                            requires
                                0 <= dt_milli <= FACTOR_LIMIT,
                                0 < VEL_TICK_LIMIT,
                        ;
                        vstd::arithmetic::div_mod::lemma_div_is_ordered(
                            VEL_TICK_LIMIT * dt_milli,
                            VEL_TICK_LIMIT * FACTOR_LIMIT,
                            1000,
                        );
                    }
                    e.position = Vec2 { x: e.position.x + dx, y: e.position.y + dy };
                },
                None => {},
            }
            i = i + 1;
        }
        proof {
            assert(self.entities@ =~= spec_velocity_pass(orig, dt_milli as int));
        }
    }

    /// Resolve every movable collider against every static collider, in
    /// entity order: overlap is classified by smallest penetration and
    /// answered with a positional snap plus velocity zeroing on the
    /// resolved axis.  A later static collider overwrites what an
    /// earlier one did to the same body.  Runs right after integration.
    pub fn collision_system(&mut self)
        requires
            old(self).wf(),
            tick_bounds(old(self).entities@, POS_TICK_LIMIT as int, VEL_TICK_LIMIT as int),
            statics_bounded(old(self).entities@),
        ensures
            final(self).entities@ == spec_collision_pass(old(self).entities@),
            final(self).next_id == old(self).next_id,
            final(self).wf(),
            tick_bounds(final(self).entities@, POS_TICK_LIMIT as int, VEL_TICK_LIMIT as int),
            statics_bounded(final(self).entities@),
    {
        let ghost orig = self.entities@;
        let n = self.entities.len();

        // collect the static colliders once; they do not move during the pass
        let mut statics: Vec<(Vec2, Vec2)> = Vec::new();
        let mut i: usize = 0;
        while i < n
            invariant
                0 <= i <= n,
                n == self.entities@.len(),
                self.entities@ == orig,
                self.wf(),
                tick_bounds(orig, POS_TICK_LIMIT as int, VEL_TICK_LIMIT as int),
                statics_bounded(orig),
                statics@ == spec_statics(orig.take(i as int)),
            decreases n - i,
        {
            let e = &self.entities[i];
            match (&e.velocity, &e.shape) {
                (None, Some(s)) => {
                    if s.collide {
                        statics.push((e.position, s.half_size));
                    }
                },
                _ => {},
            }
            proof {
                assert(orig.take(i + 1).drop_last() =~= orig.take(i as int));
                assert(orig.take(i + 1).last() == orig[i as int]);
            }
            i = i + 1;
        }
        proof {
            assert(orig.take(n as int) =~= orig);
        }

        // statics are unmoved entities, hence snug for the resolver
        proof {
            assert forall|k: int| 0 <= k < statics@.len() implies {
                let st = #[trigger] statics@[k];
                &&& -POS_LIMIT <= st.0.x <= POS_LIMIT
                &&& -POS_LIMIT <= st.0.y <= POS_LIMIT
                &&& 0 <= st.1.x <= POS_LIMIT
                &&& 0 <= st.1.y <= POS_LIMIT
            } by {
                lemma_statics_are_snug(orig, k);
            }
        }

        let mut i: usize = 0;
        while i < n
            invariant
                0 <= i <= n,
                n == self.entities@.len(),
                n == orig.len(),
                self.wf(),
                self.next_id == old(self).next_id,
                tick_bounds(orig, POS_TICK_LIMIT as int, VEL_TICK_LIMIT as int),
                statics_bounded(orig),
                statics@ == spec_statics(orig),
                forall|k: int|
                    0 <= k < statics@.len() ==> {
                        let st = #[trigger] statics@[k];
                        &&& -POS_LIMIT <= st.0.x <= POS_LIMIT
                        &&& -POS_LIMIT <= st.0.y <= POS_LIMIT
                        &&& 0 <= st.1.x <= POS_LIMIT
                        &&& 0 <= st.1.y <= POS_LIMIT
                    },
                tick_bounds(self.entities@, POS_TICK_LIMIT as int, VEL_TICK_LIMIT as int),
                statics_bounded(self.entities@),
                forall|k: int|
                    0 <= k < i ==> self.entities@[k] == spec_collision_entity(
                        #[trigger] orig[k],
                        spec_statics(orig),
                    ),
                forall|k: int| i <= k < n ==> self.entities@[k] == #[trigger] orig[k],
            decreases n - i,
        {
            proof {
                assert(self.entities@[i as int] == orig[i as int]);
            }
            let movable = match (&self.entities[i].velocity, &self.entities[i].shape) {
                (Some(_), Some(s)) => s.collide,
                _ => false,
            };
            if movable {
                let e = self.entity_mut(i);
                let mh = match &e.shape {
                    Some(s) => s.half_size,
                    None => Vec2 { x: 0, y: 0 },  // unreachable: movable has a shape
                };
                let mut pos = e.position;
                let mut vel = match e.velocity {
                    Some(v) => v,
                    None => Velocity(Vec2 { x: 0, y: 0 }),  // unreachable: movable has a velocity
                };
                resolve_against(&mut pos, &mut vel, mh, &statics);
                proof {
                    lemma_resolve_against_bounds(
                        orig[i as int].position,
                        (orig[i as int].velocity->0).0,
                        mh,
                        statics@,
                        POS_TICK_LIMIT as int,
                        VEL_TICK_LIMIT as int,
                        POS_LIMIT as int,
                    );
                }
                e.position = pos;
                e.velocity = Some(vel);
            }
            i = i + 1;
        }
        proof {
            assert(self.entities@ =~= spec_collision_pass(orig));
        }
    }
}

/// Each collected static collider came from an entity that never moved,
/// so its position and half-extents sit inside the spawn-time bound.
pub proof fn lemma_statics_are_snug(s: Seq<Entity>, k: int)
    requires
        tick_bounds(s, POS_TICK_LIMIT as int, VEL_TICK_LIMIT as int),
        statics_bounded(s),
        0 <= k < spec_statics(s).len(),
    ensures
        -POS_LIMIT <= spec_statics(s)[k].0.x <= POS_LIMIT,
        -POS_LIMIT <= spec_statics(s)[k].0.y <= POS_LIMIT,
        0 <= spec_statics(s)[k].1.x <= POS_LIMIT,
        0 <= spec_statics(s)[k].1.y <= POS_LIMIT,
        snug_ok(spec_statics(s)[k].0, spec_statics(s)[k].1),
    decreases s.len(),
{
    if s.len() > 0 {
        assert(forall|j: int| 0 <= j < s.len() - 1 ==> #[trigger] s.drop_last()[j] == s[j]);
        if k < spec_statics(s.drop_last()).len() {
            lemma_statics_are_snug(s.drop_last(), k);
        } else {
            assert(is_static_collider(s.last()));
            assert(s.last() == s[s.len() - 1]);
        }
    }
}

} // verus!
