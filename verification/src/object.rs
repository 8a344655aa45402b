//! Polar geometry: points, axis-aligned polar regions (`Part`), the angular
//! wraparound arithmetic, and the collision test between polar objects.

use vstd::prelude::*;
use vstd::arithmetic::div_mod::{
    lemma_fundamental_div_mod, lemma_fundamental_div_mod_converse_mod, lemma_mod_multiples_vanish,
    lemma_small_mod,
};
use crate::ANG_FULL;

verus! {

broadcast use vstd::arithmetic::div_mod::lemma_mod_division_less_than_divisor;

/// Absolute bound on radial coordinates of any part, in micro-units.
/// Keeps every intermediate sum far inside the `i64` range.
pub const RAD_CAP: i64 = 2_000_000_000_000;

/// A pair of fixed-point coordinates. Depending on context it is either a
/// (radial, angular) position or a (radial-width, angular-width) size.
#[derive(Clone, Copy, PartialEq, Eq, Structural, Debug)]
pub struct Point {
    pub x: i64,
    pub y: i64,
}

/// An RGBA colour tag, each channel in micro-units of intensity
/// (`0` .. `UNIT`). Pure rendering data; never read by the simulation.
#[derive(Clone, Copy, PartialEq, Eq, Structural, Debug)]
pub struct Color {
    pub red: i64,
    pub green: i64,
    pub blue: i64,
    pub alpha: i64,
}

/// An axis-aligned region of polar space: the radial interval
/// `[radial_min, radial_max)` crossed with the angular interval
/// `[angular_min, angular_max)` taken modulo one revolution.
///
/// A well-formed part has `angular_min` normalized into `[0, ANG_FULL)`;
/// `angular_max` may exceed `ANG_FULL` to describe an interval that wraps
/// through the seam, and `angular_max - angular_min == ANG_FULL` describes
/// the full circle.
#[derive(Clone, Copy, PartialEq, Eq, Structural, Debug)]
pub struct Part {
    pub radial_min: i64,
    pub radial_max: i64,
    pub angular_min: i64,
    pub angular_max: i64,
    pub color: Color,
}

/// Euclidean remainder of `v` modulo one angular revolution: the
/// normalization applied to every angular coordinate.
pub open spec fn emod(v: int) -> int {
    v % (ANG_FULL as int)
}

/// The angular interval `[start, start + width)`, taken modulo one
/// revolution, covers the angle `x`. A non-positive `width` covers nothing;
/// a `width` of `ANG_FULL` or more covers everything.
pub open spec fn ang_covers(start: int, width: int, x: int) -> bool {
    emod(x - start) < width
}

/// The two angular intervals `[a_min, a_max)` and `[b_min, b_max)`, each
/// taken modulo one revolution, share at least one angle. Degenerate
/// (zero-width) intervals overlap nothing, and touching endpoints do not
/// count as overlap.
pub open spec fn ang_intervals_overlap(a_min: int, a_max: int, b_min: int, b_max: int) -> bool {
    exists|x: int|
        0 <= x < ANG_FULL && #[trigger] ang_covers(a_min, a_max - a_min, x) && #[trigger] ang_covers(
            b_min,
            b_max - b_min,
            x,
        )
}

/// Normalizes `v` into `[0, ANG_FULL)` by the Euclidean remainder.
pub fn emod_i64(v: i64) -> (r: i64)
    requires
        -0x2000_0000_0000_0000 <= v <= 0x2000_0000_0000_0000,
    ensures
        r == emod(v as int),
        0 <= r < ANG_FULL,
{
    let s: u64 = ANG_FULL as u64;
    if v >= 0 {
        let m: u64 = (v as u64) % s;
        proof {
            lemma_fundamental_div_mod(v as int, ANG_FULL as int);
        }
        m as i64
    } else {
        let n: i64 = -v;
        let m: u64 = (n as u64) % s;
        proof {
            lemma_fundamental_div_mod(n as int, ANG_FULL as int);
        }
        if m == 0 {
            proof {
                let q = (n as int) / (ANG_FULL as int);
                lemma_fundamental_div_mod_converse_mod(v as int, ANG_FULL as int, -q, 0);
            }
            0
        } else {
            proof {
                let q = (n as int) / (ANG_FULL as int);
                lemma_fundamental_div_mod_converse_mod(
                    v as int,
                    ANG_FULL as int,
                    -q - 1,
                    ANG_FULL - m,
                );
            }
            (s - m) as i64
        }
    }
}

/// Decides whether two angular intervals overlap, handling wraparound across
/// the `0`/`ANG_FULL` seam. Each interval is `[min, max)` modulo one
/// revolution, with `min` normalized and `max - min` between `0` (empty) and
/// `ANG_FULL` (the full circle).
pub fn angular_overlap(a_min: i64, a_max: i64, b_min: i64, b_max: i64) -> (r: bool)
    requires
        0 <= a_min < ANG_FULL,
        a_min <= a_max <= a_min + ANG_FULL,
        0 <= b_min < ANG_FULL,
        b_min <= b_max <= b_min + ANG_FULL,
    ensures
        r == ang_intervals_overlap(a_min as int, a_max as int, b_min as int, b_max as int),
{
    let wa: i64 = a_max - a_min;
    let wb: i64 = b_max - b_min;
    if wa <= 0 || wb <= 0 {
        proof {
            assert(forall|x: int|
                !(0 <= x < ANG_FULL && #[trigger] ang_covers(a_min as int, a_max - a_min, x)
                    && ang_covers(b_min as int, b_max - b_min, x)));
        }
        false
    } else if wa == ANG_FULL {
        proof {
            lemma_small_mod(0nat, ANG_FULL as nat);
            assert(ang_covers(b_min as int, b_max - b_min, b_min as int));
            assert(ang_covers(a_min as int, a_max - a_min, b_min as int));
        }
        true
    } else if wb == ANG_FULL {
        proof {
            lemma_small_mod(0nat, ANG_FULL as nat);
            assert(ang_covers(a_min as int, a_max - a_min, a_min as int));
            assert(ang_covers(b_min as int, b_max - b_min, a_min as int));
        }
        true
    } else {
        let d_ba: i64 = emod_i64(b_min - a_min);
        let d_ab: i64 = emod_i64(a_min - b_min);
        let r: bool = d_ba < wa || d_ab < wb;
        proof {
            lemma_small_mod(0nat, ANG_FULL as nat);
            if r {
                if d_ba < wa {
                    assert(ang_covers(a_min as int, a_max - a_min, b_min as int));
                    assert(ang_covers(b_min as int, b_max - b_min, b_min as int));
                } else {
                    assert(ang_covers(a_min as int, a_max - a_min, a_min as int));
                    assert(ang_covers(b_min as int, b_max - b_min, a_min as int));
                }
            } else {
                assert forall|x: int|
                    0 <= x < ANG_FULL implies !(#[trigger] ang_covers(a_min as int, a_max - a_min, x)
                    && ang_covers(b_min as int, b_max - b_min, x)) by {
                    if ang_covers(a_min as int, a_max - a_min, x) && ang_covers(
                        b_min as int,
                        b_max - b_min,
                        x,
                    ) {
                        let s = ANG_FULL as int;
                        let u = emod(x - a_min);
                        let v = emod(x - b_min);
                        lemma_fundamental_div_mod(x - a_min, s);
                        lemma_fundamental_div_mod(x - b_min, s);
                        let k1 = (x - a_min) / s;
                        let k2 = (x - b_min) / s;
                        assert(b_min - a_min == s * (k1 - k2) + (u - v)) by {
                            assert(x - a_min == s * k1 + u);
                            assert(x - b_min == s * k2 + v);
                            assert(s * k1 - s * k2 == s * (k1 - k2)) by (nonlinear_arith);
                        }
                        lemma_mod_multiples_vanish(k1 - k2, u - v, s);
                        assert(emod(b_min - a_min) == emod(u - v));
                        assert(a_min - b_min == s * (k2 - k1) + (v - u)) by {
                            assert(s * k2 - s * k1 == s * (k2 - k1)) by (nonlinear_arith);
                        }
                        lemma_mod_multiples_vanish(k2 - k1, v - u, s);
                        assert(emod(a_min - b_min) == emod(v - u));
                        if u >= v {
                            lemma_small_mod((u - v) as nat, s as nat);
                            assert(d_ba == u - v);
                            assert(u < wa);
                            assert(false);
                        } else {
                            lemma_small_mod((v - u) as nat, s as nat);
                            assert(d_ab == v - u);
                            assert(v < wb);
                            assert(false);
                        }
                    }
                }
            }
        }
        r
    }
}

/// The overlap test on angular intervals is symmetric: whether two intervals
/// share an angle does not depend on their order.
pub proof fn lemma_angular_overlap_symmetric(a_min: int, a_max: int, b_min: int, b_max: int)
    ensures
        ang_intervals_overlap(a_min, a_max, b_min, b_max) == ang_intervals_overlap(
            b_min,
            b_max,
            a_min,
            a_max,
        ),
{
    if ang_intervals_overlap(a_min, a_max, b_min, b_max) {
        let x = choose|x: int|
            0 <= x < ANG_FULL && #[trigger] ang_covers(a_min, a_max - a_min, x) && ang_covers(
                b_min,
                b_max - b_min,
                x,
            );
        assert(0 <= x < ANG_FULL && ang_covers(b_min, b_max - b_min, x) && ang_covers(
            a_min,
            a_max - a_min,
            x,
        ));
    }
    if ang_intervals_overlap(b_min, b_max, a_min, a_max) {
        let x = choose|x: int|
            0 <= x < ANG_FULL && #[trigger] ang_covers(b_min, b_max - b_min, x) && ang_covers(
                a_min,
                a_max - a_min,
                x,
            );
        assert(0 <= x < ANG_FULL && ang_covers(a_min, a_max - a_min, x) && ang_covers(
            b_min,
            b_max - b_min,
            x,
        ));
    }
}

} // verus!

verus! {

impl Part {
    /// A part is well-formed when its radial interval is ordered and bounded
    /// and its angular interval is normalized.
    pub open spec fn wf(self) -> bool {
        &&& -RAD_CAP <= self.radial_min <= self.radial_max <= RAD_CAP
        &&& 0 <= self.angular_min < ANG_FULL
        &&& self.angular_min <= self.angular_max <= self.angular_min + ANG_FULL
    }
}

/// Part `p` covers the polar point at radius `r` and angle `x`: the point
/// lies strictly inside the part's radial band and angular arc.
pub open spec fn part_covers(p: Part, r: int, x: int) -> bool {
    &&& p.radial_min <= r < p.radial_max
    &&& 0 <= x < ANG_FULL
    &&& ang_covers(p.angular_min as int, p.angular_max - p.angular_min, x)
}

/// Two parts overlap when some polar point lies inside both. Zero-width
/// parts overlap nothing, and parts that merely touch do not overlap.
pub open spec fn parts_overlap(p: Part, q: Part) -> bool {
    exists|r: int, x: int| #[trigger] part_covers(p, r, x) && #[trigger] part_covers(q, r, x)
}

/// Decides whether two parts overlap: their radial intervals intersect and
/// their angular intervals intersect under wraparound.
pub fn part_overlap(p: &Part, q: &Part) -> (r: bool)
    requires
        p.wf(),
        q.wf(),
    ensures
        r == parts_overlap(*p, *q),
{
    let rad_lo: i64 = if p.radial_min >= q.radial_min {
        p.radial_min
    } else {
        q.radial_min
    };
    let rad_hi: i64 = if p.radial_max <= q.radial_max {
        p.radial_max
    } else {
        q.radial_max
    };
    if rad_lo >= rad_hi {
        proof {
            assert(forall|r: int, x: int|
                !(#[trigger] part_covers(*p, r, x) && #[trigger] part_covers(*q, r, x)));
        }
        return false;
    }
    let ang = angular_overlap(p.angular_min, p.angular_max, q.angular_min, q.angular_max);
    proof {
        if ang {
            let x = choose|x: int|
                0 <= x < ANG_FULL && #[trigger] ang_covers(
                    p.angular_min as int,
                    p.angular_max - p.angular_min,
                    x,
                ) && ang_covers(q.angular_min as int, q.angular_max - q.angular_min, x);
            assert(part_covers(*p, rad_lo as int, x));
            assert(part_covers(*q, rad_lo as int, x));
        } else {
            assert forall|r: int, x: int|
                !(#[trigger] part_covers(*p, r, x) && #[trigger] part_covers(*q, r, x)) by {
                if part_covers(*p, r, x) && part_covers(*q, r, x) {
                    assert(ang_intervals_overlap(
                        p.angular_min as int,
                        p.angular_max as int,
                        q.angular_min as int,
                        q.angular_max as int,
                    ));
                }
            }
        }
    }
    ang
}

/// Overlap between two parts does not depend on their order.
pub proof fn lemma_parts_overlap_symmetric(p: Part, q: Part)
    ensures
        parts_overlap(p, q) == parts_overlap(q, p),
{
    if parts_overlap(p, q) {
        let (r, x) = choose|r: int, x: int|
            #[trigger] part_covers(p, r, x) && #[trigger] part_covers(q, r, x);
        assert(part_covers(q, r, x) && part_covers(p, r, x));
    }
    if parts_overlap(q, p) {
        let (r, x) = choose|r: int, x: int|
            #[trigger] part_covers(q, r, x) && #[trigger] part_covers(p, r, x);
        assert(part_covers(p, r, x) && part_covers(q, r, x));
    }
}

/// Two lists of parts collide when some part of one overlaps some part of
/// the other.
pub open spec fn objects_collide(pa: Seq<Part>, pb: Seq<Part>) -> bool {
    exists|i: int, j: int|
        0 <= i < pa.len() && 0 <= j < pb.len() && #[trigger] parts_overlap(pa[i], pb[j])
}

/// The collision test is symmetric: `objects_collide(a, b)` holds exactly
/// when `objects_collide(b, a)` does.
pub proof fn lemma_collision_symmetric(pa: Seq<Part>, pb: Seq<Part>)
    ensures
        objects_collide(pa, pb) == objects_collide(pb, pa),
{
    if objects_collide(pa, pb) {
        let (i, j) = choose|i: int, j: int|
            0 <= i < pa.len() && 0 <= j < pb.len() && #[trigger] parts_overlap(pa[i], pb[j]);
        lemma_parts_overlap_symmetric(pa[i], pb[j]);
        assert(0 <= j < pb.len() && 0 <= i < pa.len() && parts_overlap(pb[j], pa[i]));
    }
    if objects_collide(pb, pa) {
        let (i, j) = choose|i: int, j: int|
            0 <= i < pb.len() && 0 <= j < pa.len() && #[trigger] parts_overlap(pb[i], pa[j]);
        lemma_parts_overlap_symmetric(pb[i], pa[j]);
        assert(0 <= j < pa.len() && 0 <= i < pb.len() && parts_overlap(pa[j], pb[i]));
    }
}

/// A simulated polar object: it has a position, and it occupies a region of
/// polar space described by a list of parts.
pub trait Object: Sized {
    /// Bounds under which the object's parts are meaningful geometry.
    spec fn obj_wf(&self) -> bool;

    /// The polar region the object currently occupies, as mathematical data.
    spec fn parts_view(&self) -> Seq<Part>;

    /// The object's current (radial, angular) position.
    spec fn position_view(&self) -> Point;

    /// A well-formed object emits only well-formed parts.
    proof fn lemma_parts_wf(&self)
        requires
            self.obj_wf(),
        ensures
            forall|i: int|
                0 <= i < self.parts_view().len() ==> (#[trigger] self.parts_view()[i]).wf(),
    ;

    /// Returns the object's current position.
    fn get_position(&self) -> (p: Point)
        ensures
            p == self.position_view(),
    ;

    /// Emits the parts describing the object's current occupied region.
    fn get_render_parts(&self) -> (v: Vec<Part>)
        requires
            self.obj_wf(),
        ensures
            v@ == self.parts_view(),
    ;
}

/// Decides whether two polar objects collide: whether any part of one
/// geometrically overlaps any part of the other, with angular wraparound
/// handled as a circular domain.
#[verifier::loop_isolation(false)]
pub fn collision<A: Object, B: Object>(a: &A, b: &B) -> (r: bool)
    requires
        a.obj_wf(),
        b.obj_wf(),
    ensures
        r == objects_collide(a.parts_view(), b.parts_view()),
{
    let pa = a.get_render_parts();
    let pb = b.get_render_parts();
    proof {
        a.lemma_parts_wf();
        b.lemma_parts_wf();
    }
    let mut i: usize = 0;
    while i < pa.len()
        invariant
            i <= pa.len(),
            forall|i2: int, j2: int|
                0 <= i2 < i && 0 <= j2 < pb@.len() ==> !(#[trigger] parts_overlap(pa@[i2], pb@[j2])),
        decreases pa.len() - i,
    {
        let mut j: usize = 0;
        while j < pb.len()
            invariant
                i < pa.len(),
                j <= pb.len(),
                forall|j2: int| 0 <= j2 < j ==> !(#[trigger] parts_overlap(pa@[i as int], pb@[j2])),
            decreases pb.len() - j,
        {
            if part_overlap(&pa[i], &pb[j]) {
                return true;
            }
            j += 1;
        }
        i += 1;
    }
    false
}

} // verus!

verus! {

/// `v` clamped into the closed interval `[lo, hi]`.
pub open spec fn clamp(v: int, lo: int, hi: int) -> int {
    if v < lo {
        lo
    } else if v > hi {
        hi
    } else {
        v
    }
}

/// Halves a non-negative value, rounding toward zero.
pub fn half_nonneg(v: i64) -> (h: i64)
    requires
        0 <= v,
    ensures
        h == v as int / 2,
{
    let h: u64 = (v as u64) / 2;
    h as i64
}

} // verus!
