//! The per-entity spatial components: velocity, gravity, and the
//! axis-aligned rectangle collision shape.

use vstd::prelude::*;

use crate::math::Vec2;
use crate::timer::CountdownTimer;
use crate::GameState;

verus! {

/// Velocity in world units per second.  An entity carrying one is
/// "movable": it is integrated every fixed tick and pushes against
/// static shapes during collision resolution.
#[derive(Clone, Copy, Debug, PartialEq, Eq, Structural)]
pub struct Velocity(pub Vec2);

/// Per-tick acceleration impulse.  Constant per entity type, set at
/// spawn and never mutated afterwards.
#[derive(Clone, Copy, Debug, PartialEq, Eq, Structural)]
pub struct Gravity(pub Vec2);

/// A rectangle collision shape, centered on the entity's position and
/// described by its half-extents.
///
/// Shapes with `collide == false` still participate in overlap tests
/// (pickup and goal detection) but never resolve physically; shapes with
/// `collide == true` resolve against movable bodies.
#[derive(Clone, Copy, Debug, PartialEq, Eq, Structural)]
pub struct RectCollisionShape {
    pub half_size: Vec2,
    pub collide: bool,
}

impl RectCollisionShape {
    /// Half-extents never go negative.
    pub open spec fn wf(self) -> bool {
        self.half_size.x >= 0 && self.half_size.y >= 0
    }

    pub fn new(half_size: Vec2, collide: bool) -> (s: RectCollisionShape)
        requires
            half_size.x >= 0,
            half_size.y >= 0,
        ensures
            s == (RectCollisionShape { half_size, collide }),
            s.wf(),
    {
        RectCollisionShape { half_size, collide }
    }
}

/// A running scene fade: once its timer has absorbed the whole fade
/// time, the host is asked to enter the stored next scene.  The host
/// reads the fade's progress to draw the overlay; its colour is the
/// host's concern.
#[derive(Clone, Copy, Debug, PartialEq, Eq, Structural)]
pub struct ScreenFade {
    pub fade_timer: CountdownTimer,
    pub next_state: GameState,
}

impl ScreenFade {
    pub open spec fn wf(self) -> bool {
        self.fade_timer.wf() && self.fade_timer.limit_micros > 0
    }

    pub fn new(fade_time_micros: u64, next_state: GameState) -> (f: ScreenFade)
        requires
            0 < fade_time_micros <= crate::timer::TIME_LIMIT_MICROS,
        ensures
            f == (ScreenFade {
                fade_timer: CountdownTimer { limit_micros: fade_time_micros, elapsed_micros: 0 },
                next_state,
            }),
            f.wf(),
    {
        ScreenFade { fade_timer: CountdownTimer::new(fade_time_micros), next_state }
    }

    /// Advance the fade by one frame; when the fade time has fully
    /// elapsed, the stored next scene is requested, exactly once per
    /// construction, and the fade is done.
    pub fn tick(&mut self, delta_micros: u64) -> (next: Option<GameState>)
        requires
            old(self).wf(),
            delta_micros <= crate::timer::TIME_LIMIT_MICROS,
        ensures
            final(self).wf(),
            final(self).next_state == old(self).next_state,
            final(self).fade_timer.limit_micros == old(self).fade_timer.limit_micros,
            next == (if old(self).fade_timer.elapsed_micros + delta_micros >= old(
                self,
            ).fade_timer.limit_micros {
                Some(old(self).next_state)
            } else {
                None::<GameState>
            }),
    {
        let finished = self.fade_timer.tick(delta_micros);
        if finished {
            Some(self.next_state)
        } else {
            None
        }
    }

    /// How far the fade has come, in thousandths of the fade time; the
    /// host uses it as the overlay's opacity.
    pub fn progress_milli(&self) -> (p: u64)
        requires
            self.wf(),
        ensures
            p == self.fade_timer.elapsed_micros * 1000 / (self.fade_timer.limit_micros as int),
            p <= 1000,
    {
        proof {
            assert(self.fade_timer.elapsed_micros * 1000 <= self.fade_timer.limit_micros * 1000)
                by (nonlinear_arith)
                requires
                    self.fade_timer.elapsed_micros <= self.fade_timer.limit_micros,
            ;
            vstd::arithmetic::div_mod::lemma_div_is_ordered(
                self.fade_timer.elapsed_micros * 1000,
                self.fade_timer.limit_micros * 1000,
                self.fade_timer.limit_micros as int,
            );
            vstd::arithmetic::div_mod::lemma_div_multiples_vanish(
                1000,
                self.fade_timer.limit_micros as int,
            );
        }
        self.fade_timer.elapsed_micros * 1000 / self.fade_timer.limit_micros
    }
}

} // verus!
