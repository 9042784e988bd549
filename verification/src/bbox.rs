//! Axis-aligned bounding boxes over indexed position data: the box covers
//! exactly the vertices that the index array references, under the strict
//! single-precision `<` comparison. An empty index array leaves the
//! sentinels untouched (minimum above maximum), which signals "no geometry".

use crate::scalar::{
    Scalar, ScalarView, lt_bits, max_finite, max_finite_view, min_finite, min_finite_view,
    scalar_lt, scalars_view,
};
use vstd::prelude::*;

verus! {

/// The six scalars of an axis-aligned bounding box.
pub struct BoundingBox {
    pub min_x: Scalar,
    pub min_y: Scalar,
    pub min_z: Scalar,
    pub max_x: Scalar,
    pub max_y: Scalar,
    pub max_z: Scalar,
}

/// The mathematical view of a bounding box.
pub struct BoundingBoxView {
    pub min_x: ScalarView,
    pub min_y: ScalarView,
    pub min_z: ScalarView,
    pub max_x: ScalarView,
    pub max_y: ScalarView,
    pub max_z: ScalarView,
}

impl View for BoundingBox {
    type V = BoundingBoxView;

    open spec fn view(&self) -> BoundingBoxView {
        BoundingBoxView {
            min_x: self.min_x@,
            min_y: self.min_y@,
            min_z: self.min_z@,
            max_x: self.max_x@,
            max_y: self.max_y@,
            max_z: self.max_z@,
        }
    }
}

/// The box the fold starts from: minima at the largest finite value, maxima
/// at the smallest, so that the first referenced vertex wins every
/// comparison and an empty index array leaves minimum above maximum.
pub open spec fn sentinel_box() -> BoundingBoxView {
    BoundingBoxView {
        min_x: max_finite_view(),
        min_y: max_finite_view(),
        min_z: max_finite_view(),
        max_x: min_finite_view(),
        max_y: min_finite_view(),
        max_z: min_finite_view(),
    }
}

/// One fold step: widen `acc` by the position triple that `idx` references.
pub open spec fn bbox_step(positions: Seq<ScalarView>, idx: u32, acc: BoundingBoxView) -> BoundingBoxView {
    let x = positions[3 * (idx as int)];
    let y = positions[3 * (idx as int) + 1];
    let z = positions[3 * (idx as int) + 2];
    BoundingBoxView {
        min_x: if scalar_lt(x.bits, acc.min_x.bits) {
            x
        } else {
            acc.min_x
        },
        min_y: if scalar_lt(y.bits, acc.min_y.bits) {
            y
        } else {
            acc.min_y
        },
        min_z: if scalar_lt(z.bits, acc.min_z.bits) {
            z
        } else {
            acc.min_z
        },
        max_x: if scalar_lt(acc.max_x.bits, x.bits) {
            x
        } else {
            acc.max_x
        },
        max_y: if scalar_lt(acc.max_y.bits, y.bits) {
            y
        } else {
            acc.max_y
        },
        max_z: if scalar_lt(acc.max_z.bits, z.bits) {
            z
        } else {
            acc.max_z
        },
    }
}

/// The fold of `bbox_step` over the index array, in index order.
pub open spec fn bbox_fold(positions: Seq<ScalarView>, indices: Seq<u32>, acc: BoundingBoxView) -> BoundingBoxView
    decreases indices.len(),
{
    if indices.len() == 0 {
        acc
    } else {
        bbox_step(positions, indices.last(), bbox_fold(positions, indices.drop_last(), acc))
    }
}

/// The bounding box of the vertices that `indices` references in
/// `positions`, starting from the sentinel box.
pub open spec fn spec_bbox(positions: Seq<ScalarView>, indices: Seq<u32>) -> BoundingBoxView {
    bbox_fold(positions, indices, sentinel_box())
}

/// `b` bounds the position triple referenced by `indices[k]`: under the
/// strict comparison no coordinate lies below the box's minimum or above
/// its maximum on any axis.
pub open spec fn bounds_vertex(
    positions: Seq<ScalarView>,
    indices: Seq<u32>,
    k: int,
    b: BoundingBoxView,
) -> bool {
    let i = indices[k] as int;
    &&& !scalar_lt(positions[3 * i].bits, b.min_x.bits)
    &&& !scalar_lt(positions[3 * i + 1].bits, b.min_y.bits)
    &&& !scalar_lt(positions[3 * i + 2].bits, b.min_z.bits)
    &&& !scalar_lt(b.max_x.bits, positions[3 * i].bits)
    &&& !scalar_lt(b.max_y.bits, positions[3 * i + 1].bits)
    &&& !scalar_lt(b.max_z.bits, positions[3 * i + 2].bits)
}

/// The smaller of `v` and `cur` under the strict comparison, `cur` when the
/// comparison does not decide. Keeping the running minimum this way never
/// lets a value that the old minimum bounded fall below the new one.
fn min_scalar(v: &Scalar, cur: &Scalar) -> (r: Scalar)
    ensures
        r@ == (if scalar_lt(v@.bits, cur@.bits) {
            v@
        } else {
            cur@
        }),
        !scalar_lt(v@.bits, r@.bits),
        forall|c: u32| !scalar_lt(c, cur@.bits) ==> !scalar_lt(c, r@.bits),
{
    if lt_bits(v.bits, cur.bits) {
        v.clone()
    } else {
        cur.clone()
    }
}

/// The larger of `v` and `cur` under the strict comparison, `cur` when the
/// comparison does not decide.
fn max_scalar(v: &Scalar, cur: &Scalar) -> (r: Scalar)
    ensures
        r@ == (if scalar_lt(cur@.bits, v@.bits) {
            v@
        } else {
            cur@
        }),
        !scalar_lt(r@.bits, v@.bits),
        forall|c: u32| !scalar_lt(cur@.bits, c) ==> !scalar_lt(r@.bits, c),
{
    if lt_bits(cur.bits, v.bits) {
        v.clone()
    } else {
        cur.clone()
    }
}

/// Computes the axis-aligned bounding box of the vertices that `indices`
/// references in `positions`: the fold of componentwise strict min/max over
/// the referenced triples, started at the sentinels. Every referenced
/// coordinate lies within the box, and an empty index array returns the
/// sentinel box unchanged.
pub fn calculate_bounding_box(positions: &Vec<Scalar>, indices: &Vec<u32>) -> (r: BoundingBox)
    requires
        forall|k: int| #![trigger indices@[k]]
            0 <= k < indices@.len() ==> 3 * (indices@[k] as int) + 2 < positions@.len(),
    ensures
        r@ == spec_bbox(scalars_view(positions@), indices@),
        forall|k: int|
            0 <= k < indices@.len() ==> #[trigger] bounds_vertex(
                scalars_view(positions@),
                indices@,
                k,
                r@,
            ),
        indices@.len() == 0 ==> r@ == sentinel_box(),
{
    let ghost pv = scalars_view(positions@);
    let mut min_x = max_finite();
    let mut min_y = max_finite();
    let mut min_z = max_finite();
    let mut max_x = min_finite();
    let mut max_y = min_finite();
    let mut max_z = min_finite();
    let ghost mut gb = sentinel_box();
    let n = indices.len();
    let mut i_idx: usize = 0;
    while i_idx < n
        invariant
            n == indices@.len(),
            pv == scalars_view(positions@),
            i_idx <= n,
            forall|k: int| #![trigger indices@[k]]
                0 <= k < indices@.len() ==> 3 * (indices@[k] as int) + 2 < positions@.len(),
            gb == (BoundingBoxView {
                min_x: min_x@,
                min_y: min_y@,
                min_z: min_z@,
                max_x: max_x@,
                max_y: max_y@,
                max_z: max_z@,
            }),
            gb == bbox_fold(pv, indices@.take(i_idx as int), sentinel_box()),
            forall|k: int| 0 <= k < i_idx ==> #[trigger] bounds_vertex(pv, indices@, k, gb),
        decreases n - i_idx,
    {
        let f_idx = indices[i_idx];
        let plen = positions.len();
        proof {
            assert(3 * (indices@[i_idx as int] as int) + 2 < plen as int);
        }
        let x_idx = 3 * (f_idx as usize);
        let y_idx = 3 * (f_idx as usize) + 1;
        let z_idx = 3 * (f_idx as usize) + 2;
        let ghost prev = gb;
        min_x = min_scalar(&positions[x_idx], &min_x);
        min_y = min_scalar(&positions[y_idx], &min_y);
        min_z = min_scalar(&positions[z_idx], &min_z);
        max_x = max_scalar(&positions[x_idx], &max_x);
        max_y = max_scalar(&positions[y_idx], &max_y);
        max_z = max_scalar(&positions[z_idx], &max_z);
        proof {
            gb = bbox_step(pv, indices@[i_idx as int], prev);
            assert(gb == (BoundingBoxView {
                min_x: min_x@,
                min_y: min_y@,
                min_z: min_z@,
                max_x: max_x@,
                max_y: max_y@,
                max_z: max_z@,
            }));
            assert(indices@.take(i_idx + 1).drop_last() =~= indices@.take(i_idx as int));
            assert(indices@.take(i_idx + 1).last() == indices@[i_idx as int]);
            assert(gb == bbox_fold(pv, indices@.take(i_idx + 1), sentinel_box()));
            assert forall|k: int| 0 <= k < i_idx + 1 implies #[trigger] bounds_vertex(
                pv,
                indices@,
                k,
                gb,
            ) by {
                if k < i_idx {
                    assert(bounds_vertex(pv, indices@, k, prev));
                }
            };
        }
        i_idx = i_idx + 1;
    }
    proof {
        assert(indices@.take(n as int) =~= indices@);
    }
    BoundingBox { min_x, min_y, min_z, max_x, max_y, max_z }
}

} // verus!
