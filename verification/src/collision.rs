//! Axis-aligned rectangle collision: overlap detection, contact
//! classification by smallest penetration depth, and positional
//! resolution with velocity zeroing on the resolved axis.
//!
//! Rectangles are centered on their entity's position and described by
//! half-extents.  Touching edges do not overlap; the test is strict.
//! When a pair overlaps, each axis is checked for a one-sided contact
//! (the movable rectangle pokes into the static one from exactly one
//! side); the axis with the smaller penetration wins, ties favor the
//! vertical axis, and a pair with no one-sided contact on either axis
//! counts as full containment, resolved like a hit from the top.

use vstd::prelude::*;

use crate::components::{RectCollisionShape, Velocity};
use crate::math::Vec2;

verus! {

/// Largest coordinate magnitude (position or half-extent component) the
/// resolver accepts (2^51).  Integrating a `COORD_LIMIT`-bounded world by
/// a `FACTOR_LIMIT`-bounded delta stays far below it, and every sum the
/// resolver forms stays inside `i64`.
pub const GEOM_LIMIT: i64 = 0x8_0000_0000_0000;

/// Tighter bound (2^49) on static rectangles and on the movable body's
/// half-extents: a snapped position is a sum of three such values and so
/// stays inside `GEOM_LIMIT`.
pub const STATIC_LIMIT: i64 = 0x2_0000_0000_0000;

/// Where the movable rectangle sits relative to the static one it
/// penetrates; `Inside` is full containment with no one-sided contact.
#[derive(Clone, Copy, Debug, PartialEq, Eq, Structural)]
pub enum Contact {
    Top,
    Bottom,
    Left,
    Right,
    Inside,
}

/// Strict axis-aligned overlap of the two centered rectangles.
pub open spec fn spec_overlaps(mp: Vec2, mh: Vec2, sp: Vec2, sh: Vec2) -> bool {
    &&& mp.x - mh.x < sp.x + sh.x
    &&& mp.x + mh.x > sp.x - sh.x
    &&& mp.y - mh.y < sp.y + sh.y
    &&& mp.y + mh.y > sp.y - sh.y
}

/// One-sided contact on the horizontal axis: `Left` when the movable
/// rectangle pokes into the static one from the left, `Right` from the
/// right; `None` when its x-span neither enters from a single side
/// (it is contained in, or spans, the static x-extent).  The `int` is
/// the penetration depth.
pub open spec fn spec_x_contact(mp: Vec2, mh: Vec2, sp: Vec2, sh: Vec2) -> Option<
    (Contact, int),
> {
    let a_min = mp.x - mh.x;
    let a_max = mp.x + mh.x;
    let b_min = sp.x - sh.x;
    let b_max = sp.x + sh.x;
    if a_min < b_min && a_max > b_min && a_max < b_max {
        Some((Contact::Left, a_max - b_min))
    } else if a_min > b_min && a_min < b_max && a_max > b_max {
        Some((Contact::Right, b_max - a_min))
    } else {
        None
    }
}

/// One-sided contact on the vertical axis: `Bottom` when the movable
/// rectangle pokes into the static one from below, `Top` from above.
pub open spec fn spec_y_contact(mp: Vec2, mh: Vec2, sp: Vec2, sh: Vec2) -> Option<
    (Contact, int),
> {
    let a_min = mp.y - mh.y;
    let a_max = mp.y + mh.y;
    let b_min = sp.y - sh.y;
    let b_max = sp.y + sh.y;
    if a_min < b_min && a_max > b_min && a_max < b_max {
        Some((Contact::Bottom, a_max - b_min))
    } else if a_min > b_min && a_min < b_max && a_max > b_max {
        Some((Contact::Top, b_max - a_min))
    } else {
        None
    }
}

/// The contact for a pair of rectangles: `None` without strict overlap;
/// otherwise the one-sided contact of the axis with the smaller
/// penetration depth, ties and a missing horizontal contact favoring the
/// vertical axis, and `Inside` when neither axis has a one-sided contact.
pub open spec fn spec_classify(mp: Vec2, mh: Vec2, sp: Vec2, sh: Vec2) -> Option<Contact> {
    if !spec_overlaps(mp, mh, sp, sh) {
        None
    } else {
        match (spec_x_contact(mp, mh, sp, sh), spec_y_contact(mp, mh, sp, sh)) {
            (None, None) => Some(Contact::Inside),
            (Some(xc), None) => Some(xc.0),
            (None, Some(yc)) => Some(yc.0),
            (Some(xc), Some(yc)) => if yc.1 <= xc.1 {
                Some(yc.0)
            } else {
                Some(xc.0)
            },
        }
    }
}

/// The movable pair (position, velocity) after resolving one contact:
/// snapped flush against the side it entered from, velocity zeroed on
/// that axis, the other axis untouched; containment resolves like a hit
/// from the top.
pub open spec fn spec_resolve(mp: Vec2, mv: Vec2, mh: Vec2, sp: Vec2, sh: Vec2) -> (
    Vec2,
    Vec2,
) {
    match spec_classify(mp, mh, sp, sh) {
        None => (mp, mv),
        Some(c) => match c {
            Contact::Top | Contact::Inside => (
                Vec2 { x: mp.x, y: (sp.y + sh.y + mh.y) as i64 },
                Vec2 { x: mv.x, y: 0 },
            ),
            Contact::Bottom => (
                Vec2 { x: mp.x, y: (sp.y - sh.y - mh.y) as i64 },
                Vec2 { x: mv.x, y: 0 },
            ),
            Contact::Left => (
                Vec2 { x: (sp.x - sh.x - mh.x) as i64, y: mp.y },
                Vec2 { x: 0, y: mv.y },
            ),
            Contact::Right => (
                Vec2 { x: (sp.x + sh.x + mh.x) as i64, y: mp.y },
                Vec2 { x: 0, y: mv.y },
            ),
        },
    }
}

/// Every coordinate of the pair within the resolver's working range.
pub open spec fn geom_ok(p: Vec2, h: Vec2) -> bool {
    &&& -GEOM_LIMIT <= p.x <= GEOM_LIMIT
    &&& -GEOM_LIMIT <= p.y <= GEOM_LIMIT
    &&& 0 <= h.x <= GEOM_LIMIT
    &&& 0 <= h.y <= GEOM_LIMIT
}

/// Every coordinate of the pair within the snap-safe range.
pub open spec fn snug_ok(p: Vec2, h: Vec2) -> bool {
    &&& -STATIC_LIMIT <= p.x <= STATIC_LIMIT
    &&& -STATIC_LIMIT <= p.y <= STATIC_LIMIT
    &&& 0 <= h.x <= STATIC_LIMIT
    &&& 0 <= h.y <= STATIC_LIMIT
}

/// Strict overlap test between two centered rectangles, used for pickup
/// and goal detection, where shapes take part whether or not they
/// physically collide.
pub fn overlaps(mp: Vec2, mh: Vec2, sp: Vec2, sh: Vec2) -> (b: bool)
    requires
        geom_ok(mp, mh),
        geom_ok(sp, sh),
    ensures
        b == spec_overlaps(mp, mh, sp, sh),
{
    mp.x - mh.x < sp.x + sh.x && mp.x + mh.x > sp.x - sh.x && mp.y - mh.y < sp.y + sh.y && mp.y
        + mh.y > sp.y - sh.y
}

/// Classify the contact of the movable rectangle at `mp` against the
/// static one at `sp`.
pub fn detect(mp: Vec2, mh: Vec2, sp: Vec2, sh: Vec2) -> (c: Option<Contact>)
    requires
        geom_ok(mp, mh),
        geom_ok(sp, sh),
    ensures
        c == spec_classify(mp, mh, sp, sh),
{
    let a_min_x = mp.x - mh.x;
    let a_max_x = mp.x + mh.x;
    let b_min_x = sp.x - sh.x;
    let b_max_x = sp.x + sh.x;
    let a_min_y = mp.y - mh.y;
    let a_max_y = mp.y + mh.y;
    let b_min_y = sp.y - sh.y;
    let b_max_y = sp.y + sh.y;

    if !(a_min_x < b_max_x && a_max_x > b_min_x && a_min_y < b_max_y && a_max_y > b_min_y) {
        return None;
    }

    let x_contact: Option<(Contact, i64)> = if a_min_x < b_min_x && a_max_x > b_min_x && a_max_x
        < b_max_x {
        Some((Contact::Left, a_max_x - b_min_x))
    } else if a_min_x > b_min_x && a_min_x < b_max_x && a_max_x > b_max_x {
        Some((Contact::Right, b_max_x - a_min_x))
    } else {
        None
    };

    let y_contact: Option<(Contact, i64)> = if a_min_y < b_min_y && a_max_y > b_min_y && a_max_y
        < b_max_y {
        Some((Contact::Bottom, a_max_y - b_min_y))
    } else if a_min_y > b_min_y && a_min_y < b_max_y && a_max_y > b_max_y {
        Some((Contact::Top, b_max_y - a_min_y))
    } else {
        None
    };

    match (x_contact, y_contact) {
        (None, None) => Some(Contact::Inside),
        (Some(xc), None) => Some(xc.0),
        (None, Some(yc)) => Some(yc.0),
        (Some(xc), Some(yc)) => if yc.1 <= xc.1 {
            Some(yc.0)
        } else {
            Some(xc.0)
        },
    }
}

/// Resolve the movable body at `pos` with velocity `vel` against one
/// static rectangle: detect the contact and snap/zero accordingly.
/// The collide flags play no part here; callers skip non-colliding pairs.
pub fn resolve_pair(
    pos: &mut Vec2,
    vel: &mut Velocity,
    mh: Vec2,
    sp: Vec2,
    sh: Vec2,
)
    requires
        geom_ok(*old(pos), mh),
        0 <= mh.x <= STATIC_LIMIT,
        0 <= mh.y <= STATIC_LIMIT,
        snug_ok(sp, sh),
    ensures
        (*final(pos), final(vel).0) == spec_resolve(*old(pos), old(vel).0, mh, sp, sh),
        geom_ok(*final(pos), mh),
{
    let c = detect(*pos, mh, sp, sh);
    match c {
        None => {},
        Some(Contact::Top) | Some(Contact::Inside) => {
            vel.0.y = 0;
            pos.y = sp.y + sh.y + mh.y;
        },
        Some(Contact::Bottom) => {
            vel.0.y = 0;
            pos.y = sp.y - sh.y - mh.y;
        },
        Some(Contact::Left) => {
            vel.0.x = 0;
            pos.x = sp.x - sh.x - mh.x;
        },
        Some(Contact::Right) => {
            vel.0.x = 0;
            pos.x = sp.x + sh.x + mh.x;
        },
    }
}

/// One movable body folded, in order, over a list of static rectangles:
/// each static collider is resolved against the body's running position
/// and velocity, so a later collider overwrites what an earlier one did.
pub open spec fn spec_resolve_against(
    mp: Vec2,
    mv: Vec2,
    mh: Vec2,
    statics: Seq<(Vec2, Vec2)>,
) -> (Vec2, Vec2)
    decreases statics.len(),
{
    if statics.len() == 0 {
        (mp, mv)
    } else {
        let prev = spec_resolve_against(mp, mv, mh, statics.drop_last());
        spec_resolve(prev.0, prev.1, mh, statics.last().0, statics.last().1)
    }
}

/// Resolve one movable body against every static rectangle in the list,
/// in list order, last write winning.
pub fn resolve_against(
    pos: &mut Vec2,
    vel: &mut Velocity,
    mh: Vec2,
    statics: &Vec<(Vec2, Vec2)>,
)
    requires
        geom_ok(*old(pos), mh),
        0 <= mh.x <= STATIC_LIMIT,
        0 <= mh.y <= STATIC_LIMIT,
        forall|k: int|
            0 <= k < statics@.len() ==> snug_ok(
                #[trigger] statics@[k].0,
                statics@[k].1,
            ),
    ensures
        (*final(pos), final(vel).0) == spec_resolve_against(
            *old(pos),
            old(vel).0,
            mh,
            statics@,
        ),
        geom_ok(*final(pos), mh),
{
    let ghost p0 = *pos;
    let ghost v0 = vel.0;
    let n = statics.len();
    let mut i: usize = 0;
    while i < n
        invariant
            0 <= i <= n,
            n == statics@.len(),
            geom_ok(*pos, mh),
            0 <= mh.x <= STATIC_LIMIT,
            0 <= mh.y <= STATIC_LIMIT,
            forall|k: int|
                0 <= k < statics@.len() ==> snug_ok(#[trigger] statics@[k].0, statics@[k].1),
            (*pos, vel.0) == spec_resolve_against(p0, v0, mh, statics@.take(i as int)),
        decreases n - i,
    {
        let (sp, sh) = statics[i];
        resolve_pair(pos, vel, mh, sp, sh);
        proof {
            assert(statics@.take(i + 1).drop_last() =~= statics@.take(i as int));
            assert(statics@.take(i + 1).last() == statics@[i as int]);
        }
        i = i + 1;
    }
    proof {
        assert(statics@.take(n as int) =~= statics@);
    }
}

/// A movable rectangle overlapping a static one from directly above —
/// its underside inside the static rectangle's vertical span, its top
/// above it, and its horizontal span inside the static one's — always
/// comes to rest exactly on top: the bottom edge lands on the static top
/// edge and the vertical velocity is exactly zero, whatever the incoming
/// velocity was.  The horizontal axis is untouched.
pub proof fn lemma_rests_on_top(mp: Vec2, mv: Vec2, mh: Vec2, sp: Vec2, sh: Vec2)
    requires
        spec_overlaps(mp, mh, sp, sh),
        // entered from above: bottom edge below the static top, top edge above it
        mp.y - mh.y > sp.y - sh.y,
        mp.y + mh.y > sp.y + sh.y,
        // directly above: horizontal span inside the static span
        mp.x - mh.x >= sp.x - sh.x,
        mp.x + mh.x <= sp.x + sh.x,
        geom_ok(mp, mh),
        geom_ok(sp, sh),
    ensures
        spec_resolve(mp, mv, mh, sp, sh).0.y == sp.y + sh.y + mh.y,
        spec_resolve(mp, mv, mh, sp, sh).1.y == 0,
        spec_resolve(mp, mv, mh, sp, sh).0.x == mp.x,
        spec_resolve(mp, mv, mh, sp, sh).1.x == mv.x,
{
    assert(spec_x_contact(mp, mh, sp, sh) is None);
    assert(spec_y_contact(mp, mh, sp, sh) == Some((Contact::Top, sp.y + sh.y - (mp.y - mh.y))));
    assert(spec_classify(mp, mh, sp, sh) == Some(Contact::Top));
}

} // verus!
