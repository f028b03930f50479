//! What a cast ray reports, and the decisions of an intersection test.
//!
//! An intersection test computes a discriminant, two roots and a normal in
//! floating point. What it then decides is fixed by comparisons alone: whether
//! there is a hit, at which root, and which way the normal has to face. Those
//! decisions are the functions of this module.

use vstd::prelude::*;
use core::ops::Neg;
use crate::scalar::Scalar;
use crate::shape::Shape;
use crate::vec::Vec3;

verus! {

/// The bit pattern of `3.0`, the far end of the default clip window.
pub const DEFAULT_T_MAX_BITS: u32 = 0x4040_0000;

/// Where a ray struck a shape.
///
/// A ray may cross a shape more than once. `entry` is the crossing that
/// counts; `collisions` holds any further ones and is empty for a sphere.
pub struct CastHit {
    pub shape: Shape,
    pub entry: Vec3,
    pub collisions: Vec<Vec3>,
    pub normal: Vec3,
    pub time: Scalar,
}

/// The outcome of testing one ray against one shape.
pub enum CastResult {
    Miss,
    Hit(CastHit),
}

impl CastResult {
    /// The number of crossings reported: none for a miss, else the entry and
    /// each further collision.
    pub open spec fn crossings(self) -> nat {
        match self {
            CastResult::Miss => 0,
            CastResult::Hit(hit) => 1 + hit.collisions@.len(),
        }
    }

    /// The number of crossings. It has to fit a `usize`, which it does for
    /// every list of collisions that memory can hold.
    pub fn hit_count(&self) -> (count: usize)
        requires
            self.crossings() <= usize::MAX,
        ensures
            count == self.crossings(),
    {
        match self {
            CastResult::Miss => 0,
            CastResult::Hit(hit) => 1 + hit.collisions.len(),
        }
    }

    /// The hit record, if the ray hit.
    pub fn hit(self) -> (hit: Option<CastHit>)
        ensures
            hit == match self {
                CastResult::Miss => None::<CastHit>,
                CastResult::Hit(record) => Some(record),
            },
    {
        match self {
            CastResult::Hit(hit) => Some(hit),
            CastResult::Miss => None,
        }
    }
}

/// The range of ray parameters in which a crossing counts as a hit.
#[derive(Clone, Copy, Debug, PartialEq, Eq, Structural)]
pub struct Window {
    pub t_min: Scalar,
    pub t_max: Scalar,
}

impl Window {
    /// `t` lies before the near end or beyond the far end. A NaN does
    /// neither, so it is not out of bounds.
    pub open spec fn out_of_bounds_spec(&self, t: Scalar) -> bool {
        t.lt_spec(self.t_min) || self.t_max.lt_spec(t)
    }

    /// The root at which the ray hits: the nearer `root` unless it is out of
    /// bounds, then `second_root` unless that is out of bounds too.
    pub open spec fn select_spec(&self, root: Scalar, second_root: Scalar) -> Option<Scalar> {
        if !self.out_of_bounds_spec(root) {
            Some(root)
        } else if !self.out_of_bounds_spec(second_root) {
            Some(second_root)
        } else {
            None
        }
    }

    /// The ray parameter at which a ray hits a sphere, given the
    /// discriminant of the intersection equation and its two roots,
    /// `root <= second_root`: none where the discriminant is negative,
    /// because then the equation has no real root.
    pub open spec fn hit_time_spec(
        &self,
        discriminant: Scalar,
        root: Scalar,
        second_root: Scalar,
    ) -> Option<Scalar> {
        if discriminant.lt_spec(Scalar::zero_spec()) {
            None
        } else {
            self.select_spec(root, second_root)
        }
    }

    pub fn new(t_min: Scalar, t_max: Scalar) -> (window: Window)
        ensures
            window == (Window { t_min, t_max }),
    {
        Window { t_min, t_max }
    }

    #[verifier::when_used_as_spec(out_of_bounds_spec)]
    pub fn out_of_bounds(&self, t: Scalar) -> (out: bool)
        ensures
            out == self.out_of_bounds_spec(t),
    {
        t.lt(self.t_min) || self.t_max.lt(t)
    }

    #[verifier::when_used_as_spec(select_spec)]
    pub fn select(&self, root: Scalar, second_root: Scalar) -> (t: Option<Scalar>)
        ensures
            t == self.select_spec(root, second_root),
    {
        if !self.out_of_bounds(root) {
            Some(root)
        } else if !self.out_of_bounds(second_root) {
            Some(second_root)
        } else {
            None
        }
    }

    #[verifier::when_used_as_spec(hit_time_spec)]
    pub fn hit_time(&self, discriminant: Scalar, root: Scalar, second_root: Scalar) -> (t: Option<
        Scalar,
    >)
        ensures
            t == self.hit_time_spec(discriminant, root, second_root),
    {
        if discriminant.lt(Scalar::zero()) {
            None
        } else {
            self.select(root, second_root)
        }
    }
}

impl Default for Window {
    /// The window from `0.0` to `3.0`.
    fn default() -> (window: Window)
        ensures
            window == (Window {
                t_min: Scalar::zero_spec(),
                t_max: Scalar { bits: DEFAULT_T_MAX_BITS },
            }),
    {
        Window { t_min: Scalar::zero(), t_max: Scalar::from_bits(DEFAULT_T_MAX_BITS) }
    }
}

/// The normal of a hit: the outward normal where the ray strikes the front
/// face, which is where `facing`, the dot product of the ray's direction
/// and the outward normal, is negative; else the outward normal flipped,
/// so that the normal always opposes the ray.
pub open spec fn oriented_normal(outward_normal: Vec3, facing: Scalar) -> Vec3 {
    if facing.lt_spec(Scalar::zero_spec()) {
        outward_normal
    } else {
        outward_normal.negated()
    }
}

impl Shape {
    /// The result of a cast that hit this shape at `entry`, at ray parameter
    /// `time`.
    pub fn hit_at(&self, entry: Vec3, outward_normal: Vec3, facing: Scalar, time: Scalar) -> (result:
        CastResult)
        ensures
            result matches CastResult::Hit(hit) && hit.shape == *self && hit.entry == entry
                && hit.time == time && hit.normal == oriented_normal(outward_normal, facing)
                && hit.collisions@ == Seq::<Vec3>::empty(),
    {
        let normal = if facing.lt(Scalar::zero()) {
            outward_normal
        } else {
            outward_normal.neg()
        };
        CastResult::Hit(CastHit { shape: *self, entry, collisions: Vec::new(), normal, time })
    }
}

/// The better of the nearest hit so far and the next hit: the next one only
/// where its time is below the time of the one held. Where the two times do
/// not compare, because one is a NaN, the one held stays.
pub open spec fn nearer(best: CastHit, next: CastHit) -> CastHit {
    if next.time.lt_spec(best.time) {
        next
    } else {
        best
    }
}

/// The nearest hit among the results of casting one ray at each shape of a
/// scene, going through them in order: the hit with the smallest time, and of
/// several with that time the first.
pub open spec fn nearest_hit(results: Seq<CastResult>) -> Option<CastHit>
    decreases results.len(),
{
    if results.len() == 0 {
        None
    } else {
        let before = nearest_hit(results.drop_last());
        match results.last() {
            CastResult::Miss => before,
            CastResult::Hit(hit) => match before {
                None => Some(hit),
                Some(best) => Some(nearer(best, hit)),
            },
        }
    }
}

/// `results[i]` is a hit, and its record is `hit`.
pub open spec fn hit_record_at(results: Seq<CastResult>, i: int, hit: CastHit) -> bool {
    0 <= i < results.len() && results[i] == CastResult::Hit(hit)
}

/// No hit among the results has a NaN for its time.
pub open spec fn times_are_numbers(results: Seq<CastResult>) -> bool {
    forall|i: int, hit: CastHit| #[trigger]
        hit_record_at(results, i, hit) ==> !hit.time.is_nan_spec()
}

/// There is a nearest hit exactly where some shape was hit, and the nearest
/// hit is the record of one of the hits.
pub proof fn lemma_nearest_hit_is_a_hit(results: Seq<CastResult>)
    ensures
        nearest_hit(results) is None <==> forall|i: int|
            0 <= i < results.len() ==> #[trigger] results[i] is Miss,
        nearest_hit(results) matches Some(best) ==> exists|i: int| hit_record_at(results, i, best),
    decreases results.len(),
{
    if results.len() > 0 {
        let earlier = results.drop_last();
        lemma_nearest_hit_is_a_hit(earlier);
        let last = results.len() - 1;
        match nearest_hit(results) {
            None => {
                assert forall|i: int| 0 <= i < results.len() implies #[trigger] results[i] is Miss by {
                    if i < last {
                        assert(earlier[i] is Miss);
                    }
                }
            },
            Some(best) => {
                if results[last] matches CastResult::Hit(hit) && hit == best {
                    assert(hit_record_at(results, last, best));
                } else {
                    let i = choose|i: int| hit_record_at(earlier, i, best);
                    assert(hit_record_at(results, i, best));
                }
                if forall|i: int| 0 <= i < results.len() ==> #[trigger] results[i] is Miss {
                    let i = choose|i: int| hit_record_at(results, i, best);
                    assert(results[i] is Miss);
                }
            },
        }
    }
}

/// `best` is the record of the hit at `i`, no hit has a time below its time,
/// and every hit before `i` has a time above it: it is the first of the hits
/// with the smallest time.
pub open spec fn first_minimum_at(results: Seq<CastResult>, i: int, best: CastHit) -> bool {
    &&& hit_record_at(results, i, best)
    &&& forall|j: int, hit: CastHit| #[trigger]
        hit_record_at(results, j, hit) ==> best.time.key() <= hit.time.key()
    &&& forall|j: int, hit: CastHit| #[trigger]
        hit_record_at(results, j, hit) && j < i ==> best.time.key() < hit.time.key()
}

/// Where every time is a number, the nearest hit is the first of the hits
/// with the smallest time.
pub proof fn lemma_nearest_hit_is_minimal(results: Seq<CastResult>)
    requires
        times_are_numbers(results),
    ensures
        nearest_hit(results) matches Some(best) ==> exists|i: int|
            first_minimum_at(results, i, best),
    decreases results.len(),
{
    if results.len() > 0 {
        let earlier = results.drop_last();
        let last = results.len() - 1;
        assert forall|i: int, hit: CastHit| #[trigger]
            hit_record_at(earlier, i, hit) implies !hit.time.is_nan_spec() by {
            assert(hit_record_at(results, i, hit));
        }
        assert forall|j: int, hit: CastHit| j < last && #[trigger]
            hit_record_at(results, j, hit) implies hit_record_at(earlier, j, hit) by {}
        lemma_nearest_hit_is_minimal(earlier);
        lemma_nearest_hit_is_a_hit(earlier);
        if let Some(best) = nearest_hit(results) {
            match (nearest_hit(earlier), results[last]) {
                (Some(held), CastResult::Miss) => {
                    let i = choose|i: int| first_minimum_at(earlier, i, held);
                    assert(hit_record_at(results, i, best));
                    assert(first_minimum_at(results, i, best));
                },
                (None, CastResult::Miss) => {},
                (None, CastResult::Hit(next)) => {
                    assert forall|j: int, hit: CastHit| #[trigger]
                        hit_record_at(results, j, hit) implies j == last by {
                        if j < last {
                            assert(earlier[j] is Miss);
                        }
                    }
                    assert(first_minimum_at(results, last, best));
                },
                (Some(held), CastResult::Hit(next)) => {
                    let i = choose|i: int| first_minimum_at(earlier, i, held);
                    let at = if next.time.lt_spec(held.time) {
                        last
                    } else {
                        i
                    };
                    assert(hit_record_at(results, last, next));
                    assert(hit_record_at(results, i, held));
                    assert(first_minimum_at(results, at, best));
                },
            }
        }
    }
}

/// Of two hits whose times are numbers, the nearest has the smaller of the
/// two times.
pub proof fn lemma_nearest_of_two(first: CastHit, second: CastHit)
    requires
        !first.time.is_nan_spec(),
        !second.time.is_nan_spec(),
    ensures
        nearest_hit(seq![CastResult::Hit(first), CastResult::Hit(second)]) matches Some(best)
            && best.time.key() == vstd::math::min(first.time.key(), second.time.key()),
        nearest_hit(seq![CastResult::Hit(first), CastResult::Hit(second)]) == Some(
            nearer(first, second),
        ),
{
    let both = seq![CastResult::Hit(first), CastResult::Hit(second)];
    let one = seq![CastResult::Hit(first)];
    assert(both.drop_last() == one);
    assert(one.drop_last() == Seq::<CastResult>::empty());
    assert(nearest_hit(one.drop_last()) is None);
    assert(nearest_hit(one) == Some(first));
}

/// A ray that runs the other way strikes the other face: where `facing`
/// changes its sign, the oriented normal is flipped. A ray that grazes the
/// surface, with `facing` zero, is taken to strike the back face whichever way
/// it runs.
pub proof fn lemma_reversed_ray_flips_normal(outward_normal: Vec3, facing: Scalar)
    requires
        !facing.is_nan_spec(),
        facing.key() != 0,
    ensures
        oriented_normal(outward_normal, facing.neg_spec()) == oriented_normal(
            outward_normal,
            facing,
        ).negated(),
{
}

/// A selected root is one of the two roots and is not out of bounds, nothing
/// is selected only where both roots are out of bounds, and the nearer root
/// is never passed over for the second one.
pub proof fn lemma_select_within(window: Window, root: Scalar, second_root: Scalar)
    ensures
        window.select_spec(root, second_root) matches Some(t) ==> (t == root || t == second_root)
            && !window.out_of_bounds_spec(t),
        window.select_spec(root, second_root) is None <==> window.out_of_bounds_spec(root)
            && window.out_of_bounds_spec(second_root),
        !window.out_of_bounds_spec(root) ==> window.select_spec(root, second_root) == Some(root),
{
}

/// In a window whose ends are numbers, a selected root that is a number lies
/// between the ends, both included.
pub proof fn lemma_selected_root_in_window(window: Window, root: Scalar, second_root: Scalar)
    requires
        !window.t_min.is_nan_spec(),
        !window.t_max.is_nan_spec(),
    ensures
        window.select_spec(root, second_root) matches Some(t) ==> t.is_nan_spec()
            || window.t_min.key() <= t.key() <= window.t_max.key(),
{
}

} // verus!
