//! The player: its runtime stats, the velocity-driven finite-state
//! controller, and the fixed-step systems that read input, collect
//! pickups and test the goal.

use vstd::prelude::*;

use crate::collision::{overlaps, spec_overlaps};
use crate::components::Velocity;
use crate::math::{milli_of, mul_milli, Vec2, FACTOR_LIMIT};
use crate::physics::{tick_bounds, statics_bounded, POS_TICK_LIMIT, VEL_TICK_LIMIT};
use crate::side_effects::ApplySideEffectEvent;
use crate::timer::AnimationTimer;
use crate::world::{Entity, EntityKind, World, POS_LIMIT};

verus! {

/// Horizontal speed set directly from held input, before the speed
/// multiplier (world units per second).
pub const RUN_SPEED: i64 = 350;

/// Vertical speed set on a jump, before the jump multiplier.
pub const JUMP_SPEED: i64 = 1000;

/// Below this vertical position the player is out of the world and the
/// level is lost.
pub const WORLD_FLOOR_Y: i64 = -5000;

/// Microseconds per player animation frame (sixteen frames a second).
pub const PLAYER_ANIMATION_PERIOD_MICROS: u64 = 62500;

/// Runtime stats of the single player: animation state, the collected
/// count, and the multiplicative modifiers pickups apply.  Multipliers
/// and the visual scale are in thousandths.
#[derive(Clone, Copy, Debug, PartialEq, Eq, Structural)]
pub struct Player {
    pub animation_timer: AnimationTimer,
    pub animation_length: usize,
    pub frame_index: usize,
    pub facing_left: bool,
    pub scale_milli: i64,
    pub medicines_collected: u32,
    pub jump_multiplier_milli: i64,
    pub speed_multiplier_milli: i64,
}

impl Player {
    /// Multipliers stay strictly positive; the animation strip is
    /// non-empty with the frame inside it; the visual scale never goes
    /// negative.
    pub open spec fn wf(self) -> bool {
        &&& self.animation_timer.wf()
        &&& self.animation_length >= 1
        &&& self.frame_index < self.animation_length
        &&& self.scale_milli >= 0
        &&& self.jump_multiplier_milli >= 1
        &&& self.speed_multiplier_milli >= 1
    }

    /// The stats a player spawns with: nothing collected, both
    /// multipliers at one, full sprite scale.
    pub open spec fn spec_initial() -> Player {
        Player {
            animation_timer: AnimationTimer {
                period_micros: PLAYER_ANIMATION_PERIOD_MICROS,
                elapsed_micros: 0,
            },
            animation_length: 15,
            frame_index: 0,
            facing_left: false,
            scale_milli: 3000,
            medicines_collected: 0,
            jump_multiplier_milli: 1000,
            speed_multiplier_milli: 1000,
        }
    }

    /// Stats of a freshly spawned player.
    pub fn new() -> (p: Player)
        ensures
            p == Player::spec_initial(),
            p.wf(),
    {
        Player {
            animation_timer: AnimationTimer::new(PLAYER_ANIMATION_PERIOD_MICROS),
            animation_length: 15,
            frame_index: 0,
            facing_left: false,
            scale_milli: 3000,
            medicines_collected: 0,
            jump_multiplier_milli: 1000,
            speed_multiplier_milli: 1000,
        }
    }
}

/// The player's animation states, re-derived from velocity every frame.
#[derive(Clone, Copy, Debug, PartialEq, Eq, Structural)]
pub enum PlayerState {
    Idle,
    Running,
    Jumping,
    Falling,
}

/// The state for a velocity: rising wins, then falling, then running;
/// a body at rest is idle.  Vertical classification beats horizontal.
pub open spec fn spec_state_of(v: Vec2) -> PlayerState {
    if v.y > 0 {
        PlayerState::Jumping
    } else if v.y < 0 {
        PlayerState::Falling
    } else if v.x != 0 {
        PlayerState::Running
    } else {
        PlayerState::Idle
    }
}

/// Recompute the player state from the current velocity.
pub fn state_of_velocity(v: &Velocity) -> (s: PlayerState)
    ensures
        s == spec_state_of(v.0),
{
    if v.0.y > 0 {
        PlayerState::Jumping
    } else if v.0.y < 0 {
        PlayerState::Falling
    } else if v.0.x != 0 {
        PlayerState::Running
    } else {
        PlayerState::Idle
    }
}

/// The state transition is a pure function of velocity: equal velocity
/// vectors yield equal states, whatever happened on earlier frames.
pub proof fn lemma_state_transition_pure(u: Vec2, v: Vec2)
    requires
        u == v,
    ensures
        spec_state_of(u) == spec_state_of(v),
{
}

/// The horizontal velocity the movement system writes: the input
/// direction times the run speed scaled by the speed multiplier.
pub open spec fn spec_run_velocity(left: bool, right: bool, speed_mult: int) -> int {
    let speed = milli_of(RUN_SPEED as int, speed_mult);
    if right && !left {
        speed
    } else if left && !right {
        -speed
    } else {
        0
    }
}

/// Whether collection removes this entity: it is a pickup and its shape
/// overlaps the player rectangle.  The collide flags play no part in
/// pickup detection.
pub open spec fn spec_pickup_hit(e: Entity, ppos: Vec2, ph: Vec2) -> bool {
    e.kind == EntityKind::Pickup && spec_overlaps(ppos, ph, e.position, e.shape->0.half_size)
}

/// The entity list after collection: every overlapping pickup removed,
/// everything else kept in order.
pub open spec fn spec_surviving(s: Seq<Entity>, ppos: Vec2, ph: Vec2) -> Seq<Entity>
    decreases s.len(),
{
    if s.len() == 0 {
        Seq::empty()
    } else {
        let prefix = spec_surviving(s.drop_last(), ppos, ph);
        if spec_pickup_hit(s.last(), ppos, ph) {
            prefix
        } else {
            prefix.push(s.last())
        }
    }
}

/// The pickups collection removes, in entity order.
pub open spec fn spec_collected(s: Seq<Entity>, ppos: Vec2, ph: Vec2) -> Seq<Entity>
    decreases s.len(),
{
    if s.len() == 0 {
        Seq::empty()
    } else {
        let prefix = spec_collected(s.drop_last(), ppos, ph);
        if spec_pickup_hit(s.last(), ppos, ph) {
            prefix.push(s.last())
        } else {
            prefix
        }
    }
}

/// No more pickups come out of a list than entities went in.
pub proof fn lemma_collected_len(s: Seq<Entity>, ppos: Vec2, ph: Vec2)
    ensures
        spec_collected(s, ppos, ph).len() + spec_surviving(s, ppos, ph).len() == s.len(),
    decreases s.len(),
{
    if s.len() > 0 {
        lemma_collected_len(s.drop_last(), ppos, ph);
    }
}

/// Collection is exact: everything removed is an overlapping pickup,
/// everything kept is not, and together they account for every entity —
/// so each collected pickup raises the count by one and dispatches one
/// event with its assigned variant, never more, never less.
pub proof fn lemma_collection_exact(s: Seq<Entity>, ppos: Vec2, ph: Vec2)
    ensures
        forall|i: int|
            0 <= i < spec_collected(s, ppos, ph).len() ==> spec_pickup_hit(
                #[trigger] spec_collected(s, ppos, ph)[i],
                ppos,
                ph,
            ),
        forall|i: int|
            0 <= i < spec_surviving(s, ppos, ph).len() ==> !spec_pickup_hit(
                #[trigger] spec_surviving(s, ppos, ph)[i],
                ppos,
                ph,
            ),
        spec_collected(s, ppos, ph).len() + spec_surviving(s, ppos, ph).len() == s.len(),
    decreases s.len(),
{
    if s.len() > 0 {
        lemma_collection_exact(s.drop_last(), ppos, ph);
    }
}

/// Collection removes pickups only, so the presence of any other kind
/// survives it.
pub proof fn lemma_surviving_kind(s: Seq<Entity>, ppos: Vec2, ph: Vec2, kind: EntityKind)
    requires
        kind != EntityKind::Pickup,
    ensures
        crate::world::seq_has_kind(spec_surviving(s, ppos, ph), kind) == crate::world::seq_has_kind(
            s,
            kind,
        ),
    decreases s.len(),
{
    if s.len() == 0 {
        assert(!crate::world::seq_has_kind(s, kind));
        assert(!crate::world::seq_has_kind(spec_surviving(s, ppos, ph), kind));
    } else {
        lemma_surviving_kind(s.drop_last(), ppos, ph, kind);
        assert(s =~= s.drop_last().push(s.last()));
        crate::world::lemma_push_has_kind(s.drop_last(), s.last(), kind);
        if !spec_pickup_hit(s.last(), ppos, ph) {
            crate::world::lemma_push_has_kind(
                spec_surviving(s.drop_last(), ppos, ph),
                s.last(),
                kind,
            );
        } else {
            assert(s.last().kind == EntityKind::Pickup);
        }
    }
}

impl World {
    /// Fixed-step movement: the player's horizontal velocity is set
    /// directly from the held left/right input — no acceleration ramp —
    /// scaled by the running speed multiplier; the sprite keeps facing
    /// the way it last moved.  Without a player this tick is a no-op.
    pub fn player_movement_system(&mut self, stats: &mut Player, left: bool, right: bool)
        requires
            old(self).wf(),
            old(stats).wf(),
            old(stats).speed_multiplier_milli <= FACTOR_LIMIT,
            tick_bounds(old(self).entities@, POS_TICK_LIMIT as int, VEL_TICK_LIMIT as int),
            statics_bounded(old(self).entities@),
        ensures
            final(self).wf(),
            final(stats).wf(),
            final(self).next_id == old(self).next_id,
            tick_bounds(final(self).entities@, POS_TICK_LIMIT as int, VEL_TICK_LIMIT as int),
            statics_bounded(final(self).entities@),
            ({
                let s = old(self).entities@;
                if old(self).spec_has_kind(EntityKind::Player) {
                    let i = old(self).spec_kind_index(EntityKind::Player);
                    let e = s[i];
                    let vx = spec_run_velocity(left, right, old(stats).speed_multiplier_milli as int);
                    &&& final(self).entities@ == s.update(
                        i,
                        Entity {
                            velocity: Some(
                                Velocity(Vec2 { x: vx as i64, y: (e.velocity->0).0.y }),
                            ),
                            ..e
                        },
                    )
                    &&& *final(stats) == (Player {
                        facing_left: (if left && !right {
                            true
                        } else if right && !left {
                            false
                        } else {
                            old(stats).facing_left
                        }),
                        ..*old(stats)
                    })
                } else {
                    final(self).entities@ == s && *final(stats) == *old(stats)
                }
            }),
    {
        let idx = self.index_of_kind(EntityKind::Player);
        match idx {
            None => {},
            Some(i) => {
                proof {
                    old(self).lemma_kind_index_unique(EntityKind::Player, i as int);
                }
                let speed = mul_milli(RUN_SPEED, stats.speed_multiplier_milli);
                let vx: i64 = if right && !left {
                    speed
                } else if left && !right {
                    proof {
                        crate::math::lemma_milli_bound(
                            RUN_SPEED as int,
                            stats.speed_multiplier_milli as int,
                            RUN_SPEED as int,
                        );
                    }
                    -speed
                } else {
                    0
                };
                if left && !right {
                    stats.facing_left = true;
                } else if right && !left {
                    stats.facing_left = false;
                }
                proof {
                    let sm = old(stats).speed_multiplier_milli as int;
                    crate::math::lemma_milli_bound(RUN_SPEED as int, sm, RUN_SPEED as int);
                    assert(RUN_SPEED * FACTOR_LIMIT < VEL_TICK_LIMIT) by (nonlinear_arith);
                    assert((RUN_SPEED * sm) <= RUN_SPEED * FACTOR_LIMIT) by (nonlinear_arith)
                        requires
                            0 <= sm <= FACTOR_LIMIT,
                    ;
                }
                let e = self.entity_mut(i);
                let vy = match e.velocity {
                    Some(v) => v.0.y,
                    None => 0,  // unreachable: the player carries a velocity
                };
                e.velocity = Some(Velocity(Vec2 { x: vx, y: vy }));
            },
        }
    }

    /// Per-frame jump: on a just-pressed jump input while idle or
    /// running, the vertical velocity is set to the jump speed scaled by
    /// the jump multiplier; jumping while airborne is a no-op, so there
    /// is no double jump.  Without a player this is a no-op.
    pub fn player_jump_system(
        &mut self,
        stats: &Player,
        state: PlayerState,
        jump_just_pressed: bool,
    )
        requires
            old(self).wf(),
            stats.wf(),
            stats.jump_multiplier_milli <= FACTOR_LIMIT,
            tick_bounds(old(self).entities@, POS_TICK_LIMIT as int, VEL_TICK_LIMIT as int),
            statics_bounded(old(self).entities@),
        ensures
            final(self).wf(),
            final(self).next_id == old(self).next_id,
            tick_bounds(final(self).entities@, POS_TICK_LIMIT as int, VEL_TICK_LIMIT as int),
            statics_bounded(final(self).entities@),
            ({
                let s = old(self).entities@;
                let grounded = state == PlayerState::Idle || state == PlayerState::Running;
                if old(self).spec_has_kind(EntityKind::Player) && jump_just_pressed && grounded {
                    let i = old(self).spec_kind_index(EntityKind::Player);
                    let e = s[i];
                    let vy = milli_of(JUMP_SPEED as int, stats.jump_multiplier_milli as int);
                    final(self).entities@ == s.update(
                        i,
                        Entity {
                            velocity: Some(
                                Velocity(Vec2 { x: (e.velocity->0).0.x, y: vy as i64 }),
                            ),
                            ..e
                        },
                    )
                } else {
                    final(self).entities@ == s
                }
            }),
    {
        if !jump_just_pressed {
            return ;
        }
        let grounded = match state {
            PlayerState::Idle | PlayerState::Running => true,
            _ => false,
        };
        if !grounded {
            return ;
        }
        let idx = self.index_of_kind(EntityKind::Player);
        match idx {
            None => {},
            Some(i) => {
                proof {
                    old(self).lemma_kind_index_unique(EntityKind::Player, i as int);
                }
                let vy = mul_milli(JUMP_SPEED, stats.jump_multiplier_milli);
                proof {
                    let jm = stats.jump_multiplier_milli as int;
                    crate::math::lemma_milli_bound(JUMP_SPEED as int, jm, JUMP_SPEED as int);
                    assert(JUMP_SPEED * FACTOR_LIMIT < VEL_TICK_LIMIT) by (nonlinear_arith);
                    assert((JUMP_SPEED * jm) <= JUMP_SPEED * FACTOR_LIMIT) by (nonlinear_arith)
                        requires
                            0 <= jm <= FACTOR_LIMIT,
                    ;
                }
                let e = self.entity_mut(i);
                let vx = match e.velocity {
                    Some(v) => v.0.x,
                    None => 0,  // unreachable: the player carries a velocity
                };
                e.velocity = Some(Velocity(Vec2 { x: vx, y: vy }));
            },
        }
    }

    /// Fixed-step pickup collection: every pickup overlapping the player
    /// is despawned, the collected count goes up by one for each, and
    /// one side-effect event per pickup is dispatched carrying that
    /// pickup's pre-assigned variant — in the same logical step, in
    /// entity order.  Without a player this tick is a no-op.
    pub fn player_pill_collision_system(
        &mut self,
        stats: &mut Player,
        events: &mut Vec<ApplySideEffectEvent>,
    )
        requires
            old(self).wf(),
            old(stats).wf(),
            tick_bounds(old(self).entities@, POS_TICK_LIMIT as int, VEL_TICK_LIMIT as int),
            statics_bounded(old(self).entities@),
            old(stats).medicines_collected + old(self).entities@.len() <= u32::MAX,
        ensures
            final(self).wf(),
            final(stats).wf(),
            final(self).next_id == old(self).next_id,
            tick_bounds(final(self).entities@, POS_TICK_LIMIT as int, VEL_TICK_LIMIT as int),
            statics_bounded(final(self).entities@),
            final(self).spec_has_kind(EntityKind::Player) == old(self).spec_has_kind(
                EntityKind::Player,
            ),
            final(self).spec_has_kind(EntityKind::Goal) == old(self).spec_has_kind(
                EntityKind::Goal,
            ),
            ({
                let s = old(self).entities@;
                if old(self).spec_has_kind(EntityKind::Player) {
                    let p = s[old(self).spec_kind_index(EntityKind::Player)];
                    let ppos = p.position;
                    let ph = p.shape->0.half_size;
                    &&& final(self).entities@ == spec_surviving(s, ppos, ph)
                    &&& *final(stats) == (Player {
                        medicines_collected: (old(stats).medicines_collected + spec_collected(
                            s,
                            ppos,
                            ph,
                        ).len()) as u32,
                        ..*old(stats)
                    })
                    &&& final(events)@ == old(events)@ + spec_collected(s, ppos, ph).map_values(
                        |e: Entity| ApplySideEffectEvent(e.effect->0),
                    )
                } else {
                    &&& final(self).entities@ == s
                    &&& *final(stats) == *old(stats)
                    &&& final(events)@ == old(events)@
                }
            }),
    {
        let idx = self.index_of_kind(EntityKind::Player);
        let i = match idx {
            None => {
                return ;
            },
            Some(i) => i,
        };
        proof {
            old(self).lemma_kind_index_unique(EntityKind::Player, i as int);
        }
        let ppos = self.entities[i].position;
        let ph = match &self.entities[i].shape {
            Some(sh) => sh.half_size,
            None => {
                proof {
                    assert(false);  // the player carries a shape
                }
                Vec2 { x: 0, y: 0 }
            },
        };
        let ghost s = self.entities@;
        let ghost mut k: int = 0;
        let mut j: usize = 0;
        while j < self.entities.len()
            invariant
                0 <= k <= s.len(),
                self.entities@ == spec_surviving(s.take(k), ppos, ph) + s.skip(k),
                j == spec_surviving(s.take(k), ppos, ph).len(),
                stats.medicines_collected == old(stats).medicines_collected + spec_collected(
                    s.take(k),
                    ppos,
                    ph,
                ).len(),
                *stats == (Player {
                    medicines_collected: stats.medicines_collected,
                    ..*old(stats)
                }),
                events@ == old(events)@ + spec_collected(s.take(k), ppos, ph).map_values(
                    |e: Entity| ApplySideEffectEvent(e.effect->0),
                ),
                self.wf(),
                old(stats).wf(),
                self.next_id == old(self).next_id,
                tick_bounds(self.entities@, POS_TICK_LIMIT as int, VEL_TICK_LIMIT as int),
                statics_bounded(self.entities@),
                tick_bounds(s, POS_TICK_LIMIT as int, VEL_TICK_LIMIT as int),
                old(stats).medicines_collected + s.len() <= u32::MAX,
                -POS_TICK_LIMIT <= ppos.x <= POS_TICK_LIMIT,
                -POS_TICK_LIMIT <= ppos.y <= POS_TICK_LIMIT,
                0 <= ph.x <= POS_LIMIT,
                0 <= ph.y <= POS_LIMIT,
            decreases s.len() - k,
        {
            proof {
                lemma_collected_len(s.take(k), ppos, ph);
                assert(s.skip(k)[0] == s[k]);
                assert(self.entities@[j as int] == s[k]);
            }
            let hit = if matches!(self.entities[j].kind, EntityKind::Pickup) {
                match &self.entities[j].shape {
                    Some(sh) => overlaps(ppos, ph, self.entities[j].position, sh.half_size),
                    None => {
                        proof {
                            assert(false);  // a pickup carries a shape
                        }
                        false
                    },
                }
            } else {
                false
            };
            proof {
                assert(hit == spec_pickup_hit(s[k], ppos, ph));
                assert(s.take(k + 1).drop_last() =~= s.take(k));
                assert(s.take(k + 1).last() == s[k]);
            }
            if hit {
                let removed = self.entities.remove(j);
                stats.medicines_collected = stats.medicines_collected + 1;
                let effect = match removed.effect {
                    Some(se) => se,
                    None => {
                        proof {
                            assert(false);  // a pickup carries its side effect
                        }
                        crate::side_effects::SideEffect::Slowness
                    },
                };
                events.push(ApplySideEffectEvent(effect));
                proof {
                    k = k + 1;
                    assert(self.entities@ =~= spec_surviving(s.take(k), ppos, ph) + s.skip(k));
                    assert(events@ =~= old(events)@ + spec_collected(s.take(k), ppos, ph)
                        .map_values(|e: Entity| ApplySideEffectEvent(e.effect->0)));
                }
            } else {
                j = j + 1;
                proof {
                    k = k + 1;
                    assert(self.entities@ =~= spec_surviving(s.take(k), ppos, ph) + s.skip(k));
                }
            }
        }
        proof {
            assert(s.take(k) =~= s);
            assert(s.skip(k) =~= Seq::<Entity>::empty());
            assert(self.entities@ =~= spec_surviving(s, ppos, ph));
            lemma_surviving_kind(s, ppos, ph, EntityKind::Player);
            lemma_surviving_kind(s, ppos, ph, EntityKind::Goal);
        }
    }

    /// Fixed-step goal test: level completion is signalled exactly when
    /// the player overlaps the goal target while the collected count
    /// equals the level's goal count — strictly fewer collected is a
    /// silent no-op.  Missing player or goal is a silent no-op too.
    pub fn player_patient_collision_system(&self, stats: &Player, pill_goal: u32) -> (completed:
        bool)
        requires
            self.wf(),
            tick_bounds(self.entities@, POS_TICK_LIMIT as int, VEL_TICK_LIMIT as int),
        ensures
            completed == ({
                let s = self.entities@;
                let p = s[self.spec_kind_index(EntityKind::Player)];
                let g = s[self.spec_kind_index(EntityKind::Goal)];
                &&& self.spec_has_kind(EntityKind::Player)
                &&& self.spec_has_kind(EntityKind::Goal)
                &&& spec_overlaps(p.position, p.shape->0.half_size, g.position, g.shape->0.half_size)
                &&& stats.medicines_collected == pill_goal
            }),
    {
        let pi = match self.index_of_kind(EntityKind::Player) {
            None => {
                return false;
            },
            Some(i) => i,
        };
        let gi = match self.index_of_kind(EntityKind::Goal) {
            None => {
                return false;
            },
            Some(i) => i,
        };
        proof {
            self.lemma_kind_index_unique(EntityKind::Player, pi as int);
            self.lemma_kind_index_unique(EntityKind::Goal, gi as int);
        }
        let ph = match &self.entities[pi].shape {
            Some(sh) => sh.half_size,
            None => {
                proof {
                    assert(false);  // the player carries a shape
                }
                Vec2 { x: 0, y: 0 }
            },
        };
        let gh = match &self.entities[gi].shape {
            Some(sh) => sh.half_size,
            None => {
                proof {
                    assert(false);  // the goal target carries a shape
                }
                Vec2 { x: 0, y: 0 }
            },
        };
        let touching = overlaps(
            self.entities[pi].position,
            ph,
            self.entities[gi].position,
            gh,
        );
        touching && stats.medicines_collected == pill_goal
    }

    /// Per-frame fail check: the level is lost the moment the player's
    /// vertical position falls below the world floor.
    pub fn player_out_of_bounds_system(&self) -> (game_over: bool)
        requires
            self.wf(),
        ensures
            game_over == (self.spec_has_kind(EntityKind::Player)
                && self.entities@[self.spec_kind_index(EntityKind::Player)].position.y
                < WORLD_FLOOR_Y),
    {
        let idx = self.index_of_kind(EntityKind::Player);
        match idx {
            None => false,
            Some(i) => {
                proof {
                    self.lemma_kind_index_unique(EntityKind::Player, i as int);
                }
                self.entities[i].position.y < WORLD_FLOOR_Y
            },
        }
    }
}

} // verus!
