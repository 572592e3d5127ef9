//! Pickup side effects: the variant carried by each pickup, the event
//! that applies one to the player, and the random draw used when a
//! pickup is spawned.

use vstd::prelude::*;

use rand::Rng;

use crate::components::RectCollisionShape;
use crate::math::{
    lemma_milli_nonneg, lemma_milli_shrinks, milli_of, mul_milli, Vec2, COORD_LIMIT,
};
use crate::physics::{statics_bounded, tick_bounds, POS_TICK_LIMIT, VEL_TICK_LIMIT};
use crate::player::Player;
use crate::world::{Entity, EntityKind, World};

verus! {

/// Thousandths-factor a shrink applies to the visual scale and the
/// collision half-extents.
pub const SHRINK_SIZE_FACTOR_MILLI: i64 = 730;

/// Thousandths-factor a shrink applies to the jump multiplier.
pub const SHRINK_JUMP_FACTOR_MILLI: i64 = 850;

/// Thousandths-factor a speed-up applies to the speed multiplier.
pub const SPEED_FACTOR_MILLI: i64 = 1500;

/// Thousandths-factor a slow-down applies to the speed multiplier.
pub const SLOWNESS_FACTOR_MILLI: i64 = 800;

/// The effect a pickup applies to the player when collected.
#[derive(Clone, Copy, Debug, PartialEq, Eq, Structural)]
pub enum SideEffect {
    Shrink,
    Speed,
    Slowness,
}

/// Request to apply one side effect to the player.  Created at
/// pickup-collision detection, consumed exactly once by the player.
#[derive(Clone, Copy, Debug, PartialEq, Eq, Structural)]
pub struct ApplySideEffectEvent(pub SideEffect);

impl SideEffect {
    /// The variant drawn for an index in `0..3`; any larger draw falls
    /// back to `Slowness`.
    pub open spec fn spec_from_index(i: u8) -> SideEffect {
        if i == 0 {
            SideEffect::Shrink
        } else if i == 1 {
            SideEffect::Speed
        } else {
            SideEffect::Slowness
        }
    }

    pub fn from_index(i: u8) -> (e: SideEffect)
        ensures
            e == SideEffect::spec_from_index(i),
    {
        match i {
            0 => SideEffect::Shrink,
            1 => SideEffect::Speed,
            _ => SideEffect::Slowness,
        }
    }
}

/// Relies on rand's `Rng::gen_range` on the thread-local generator:
/// for the non-empty range `0..3` it returns a uniformly drawn value in
/// that range and does not panic.  Nothing more can be promised of a
/// random draw.
#[verifier::external_body]
fn draw_index_of_three() -> (r: u8)
    ensures
        r < 3,
{
    rand::thread_rng().gen_range(0..3u8)
}

/// A freshly drawn side effect for a pickup about to spawn.  The choice
/// is random; each of the three variants can come back.
pub fn random_side_effect() -> (e: SideEffect) {
    let i = draw_index_of_three();
    SideEffect::from_index(i)
}

impl World {
    /// Apply one collected side effect to the player, multiplicatively:
    /// a shrink scales the visual size, the collision half-extents and
    /// the jump multiplier down; a speed-up or slow-down scales the
    /// speed multiplier.  Repeated effects compound — nothing resets or
    /// clamps them.  Without a player this is a no-op.
    ///
    /// The thousandths representation forces the lower bounds on the
    /// multiplier being shrunk: the scaled value must stay above zero.
    pub fn apply_side_effect(&mut self, stats: &mut Player, effect: SideEffect)
        requires
            old(self).wf(),
            old(stats).wf(),
            tick_bounds(old(self).entities@, POS_TICK_LIMIT as int, VEL_TICK_LIMIT as int),
            statics_bounded(old(self).entities@),
            old(stats).scale_milli <= COORD_LIMIT,
            old(stats).jump_multiplier_milli <= COORD_LIMIT,
            old(stats).speed_multiplier_milli <= COORD_LIMIT,
            effect == SideEffect::Shrink ==> old(stats).jump_multiplier_milli >= 2,
            effect == SideEffect::Slowness ==> old(stats).speed_multiplier_milli >= 2,
        ensures
            final(self).wf(),
            final(stats).wf(),
            final(self).next_id == old(self).next_id,
            tick_bounds(final(self).entities@, POS_TICK_LIMIT as int, VEL_TICK_LIMIT as int),
            statics_bounded(final(self).entities@),
            ({
                let s = old(self).entities@;
                if old(self).spec_has_kind(EntityKind::Player) {
                    let i = old(self).spec_kind_index(EntityKind::Player);
                    let e = s[i];
                    let half = e.shape->0.half_size;
                    match effect {
                        SideEffect::Shrink => {
                            &&& final(self).entities@ == s.update(
                                i,
                                Entity {
                                    shape: Some(
                                        RectCollisionShape {
                                            half_size: Vec2 {
                                                x: milli_of(
                                                    half.x as int,
                                                    SHRINK_SIZE_FACTOR_MILLI as int,
                                                ) as i64,
                                                y: milli_of(
                                                    half.y as int,
                                                    SHRINK_SIZE_FACTOR_MILLI as int,
                                                ) as i64,
                                            },
                                            collide: e.shape->0.collide,
                                        },
                                    ),
                                    ..e
                                },
                            )
                            &&& *final(stats) == (Player {
                                scale_milli: milli_of(
                                    old(stats).scale_milli as int,
                                    SHRINK_SIZE_FACTOR_MILLI as int,
                                ) as i64,
                                jump_multiplier_milli: milli_of(
                                    old(stats).jump_multiplier_milli as int,
                                    SHRINK_JUMP_FACTOR_MILLI as int,
                                ) as i64,
                                ..*old(stats)
                            })
                        },
                        SideEffect::Speed => {
                            &&& final(self).entities@ == s
                            &&& *final(stats) == (Player {
                                speed_multiplier_milli: milli_of(
                                    old(stats).speed_multiplier_milli as int,
                                    SPEED_FACTOR_MILLI as int,
                                ) as i64,
                                ..*old(stats)
                            })
                        },
                        SideEffect::Slowness => {
                            &&& final(self).entities@ == s
                            &&& *final(stats) == (Player {
                                speed_multiplier_milli: milli_of(
                                    old(stats).speed_multiplier_milli as int,
                                    SLOWNESS_FACTOR_MILLI as int,
                                ) as i64,
                                ..*old(stats)
                            })
                        },
                    }
                } else {
                    final(self).entities@ == s && *final(stats) == *old(stats)
                }
            }),
    {
        let idx = self.index_of_kind(EntityKind::Player);
        let i = match idx {
            None => {
                return ;
            },
            Some(i) => i,
        };
        proof {
            old(self).lemma_kind_index_unique(EntityKind::Player, i as int);
        }
        match effect {
            SideEffect::Shrink => {
                proof {
                    lemma_milli_nonneg(old(stats).scale_milli as int, SHRINK_SIZE_FACTOR_MILLI as int);
                    lemma_milli_shrinks(old(stats).scale_milli as int, SHRINK_SIZE_FACTOR_MILLI as int);
                    let jm = old(stats).jump_multiplier_milli as int;
                    lemma_milli_shrinks(jm, SHRINK_JUMP_FACTOR_MILLI as int);
                    assert(jm * 850 >= 2 * 850) by (nonlinear_arith)
                        requires
                            jm >= 2,
                    ;
                    vstd::arithmetic::div_mod::lemma_div_is_ordered((2 * 850) as int, jm * 850, 1000);
                }
                stats.scale_milli = mul_milli(stats.scale_milli, SHRINK_SIZE_FACTOR_MILLI);
                stats.jump_multiplier_milli = mul_milli(
                    stats.jump_multiplier_milli,
                    SHRINK_JUMP_FACTOR_MILLI,
                );
                let e = self.entity_mut(i);
                match &e.shape {
                    Some(sh) => {
                        let half = sh.half_size;
                        let collide = sh.collide;
                        proof {
                            lemma_milli_shrinks(half.x as int, SHRINK_SIZE_FACTOR_MILLI as int);
                            lemma_milli_shrinks(half.y as int, SHRINK_SIZE_FACTOR_MILLI as int);
                        }
                        let hx = mul_milli(half.x, SHRINK_SIZE_FACTOR_MILLI);
                        let hy = mul_milli(half.y, SHRINK_SIZE_FACTOR_MILLI);
                        e.shape = Some(
                            RectCollisionShape { half_size: Vec2 { x: hx, y: hy }, collide },
                        );
                    },
                    None => {
                        proof {
                            assert(false);  // the player carries a shape
                        }
                    },
                }
            },
            SideEffect::Speed => {
                proof {
                    let sm = old(stats).speed_multiplier_milli as int;
                    lemma_milli_nonneg(sm, SPEED_FACTOR_MILLI as int);
                    assert(sm * 1500 >= sm * 1000) by (nonlinear_arith)
                        requires
                            sm >= 0,
                    ;
                    vstd::arithmetic::div_mod::lemma_div_is_ordered(sm * 1000, sm * 1500, 1000);
                    vstd::arithmetic::div_mod::lemma_div_multiples_vanish(sm, 1000);
                }
                stats.speed_multiplier_milli = mul_milli(
                    stats.speed_multiplier_milli,
                    SPEED_FACTOR_MILLI,
                );
            },
            SideEffect::Slowness => {
                proof {
                    let sm = old(stats).speed_multiplier_milli as int;
                    lemma_milli_shrinks(sm, SLOWNESS_FACTOR_MILLI as int);
                    assert(sm * 800 >= 2 * 800) by (nonlinear_arith)
                        requires
                            sm >= 2,
                    ;
                    vstd::arithmetic::div_mod::lemma_div_is_ordered((2 * 800) as int, sm * 800, 1000);
                }
                stats.speed_multiplier_milli = mul_milli(
                    stats.speed_multiplier_milli,
                    SLOWNESS_FACTOR_MILLI,
                );
            },
        }
    }
}

} // verus!
