//! 4x4 column-major matrices of single-precision scalars.
//!
//! A matrix is a `Vec<Scalar>` of length 16 in column-major order, as the
//! camera transform is handed in.  `try_inverse` performs Gauss-Jordan
//! elimination without pivoting and fails on a zero diagonal entry.

use vstd::prelude::*;

use crate::scalar::{
    is_zero_bits, s_add, s_div, s_mul, s_sub, sc, sf_add, sf_div, sf_is_zero, sf_mul, sf_sub,
    Scalar, ONE_BITS, ZERO_BITS,
};
use crate::vec3::V3;

verus! {

/// Whether a vector holds a full 4x4 matrix.
pub open spec fn mat4_wf(m: Seq<Scalar>) -> bool {
    m.len() == 16
}

/// The homogeneous transform of a point: the matrix is applied to
/// `(x, y, z, 1)` and the result is divided by its fourth coordinate;
/// `None` when that coordinate is zero.
pub open spec fn spec_transform_homogeneous(t: Seq<Scalar>, p: V3) -> Option<V3> {
    let y3 = s_add(
        s_add(s_add(s_mul(t[3], p.x), s_mul(t[7], p.y)), s_mul(t[11], p.z)),
        t[15],
    );
    if is_zero_bits(y3.bits) {
        None
    } else {
        let y0 = s_add(
            s_add(s_add(s_mul(t[0], p.x), s_mul(t[4], p.y)), s_mul(t[8], p.z)),
            t[12],
        );
        let y1 = s_add(
            s_add(s_add(s_mul(t[1], p.x), s_mul(t[5], p.y)), s_mul(t[9], p.z)),
            t[13],
        );
        let y2 = s_add(
            s_add(s_add(s_mul(t[2], p.x), s_mul(t[6], p.y)), s_mul(t[10], p.z)),
            t[14],
        );
        Some(V3 { x: s_div(y0, y3), y: s_div(y1, y3), z: s_div(y2, y3) })
    }
}

/// The transform of a direction: the linear part alone is applied.
pub open spec fn spec_transform_direction(t: Seq<Scalar>, d: V3) -> V3 {
    V3 {
        x: s_add(s_add(s_mul(t[0], d.x), s_mul(t[4], d.y)), s_mul(t[8], d.z)),
        y: s_add(s_add(s_mul(t[1], d.x), s_mul(t[5], d.y)), s_mul(t[9], d.z)),
        z: s_add(s_add(s_mul(t[2], d.x), s_mul(t[6], d.y)), s_mul(t[10], d.z)),
    }
}

/// One cell of the matrix after the Gauss-Jordan pivot step on row `i`.
pub open spec fn pivot_cell(a: Seq<Scalar>, i: int, idx: int) -> Scalar {
    let t = s_div(sc(ONE_BITS), a[i * 4 + i]);
    let row = idx / 4;
    let col = idx % 4;
    if row == i {
        if col == i {
            s_mul(sc(ONE_BITS), t)
        } else {
            s_mul(a[idx], t)
        }
    } else {
        let tmp2 = a[row * 4 + i];
        let ricol = if col == i {
            s_mul(sc(ONE_BITS), t)
        } else {
            s_mul(a[i * 4 + col], t)
        };
        if col == i {
            s_sub(sc(ZERO_BITS), s_mul(tmp2, ricol))
        } else {
            s_sub(a[idx], s_mul(tmp2, ricol))
        }
    }
}

/// The matrix after the Gauss-Jordan pivot step on row `i`: row `i` is
/// scaled by the reciprocal of its diagonal entry (the diagonal entry
/// itself standing for one), and that scaled row, weighted by each other
/// row's entry in column `i`, is subtracted from that row (the entry
/// itself standing for zero).
pub open spec fn pivot_mat(a: Seq<Scalar>, i: int) -> Seq<Scalar> {
    Seq::new(16, |idx: int| pivot_cell(a, i, idx))
}

/// Gauss-Jordan elimination from row `i` on: `None` as soon as a diagonal
/// entry is a zero, else the state after all remaining pivot steps.
pub open spec fn gauss_from(a: Seq<Scalar>, i: int) -> Option<Seq<Scalar>>
    decreases 4 - i,
{
    if i >= 4 {
        Some(a)
    } else if is_zero_bits(a[i * 4 + i].bits) {
        None
    } else {
        gauss_from(pivot_mat(a, i), i + 1)
    }
}

/// The inverse of the matrix by Gauss-Jordan elimination without
/// pivoting; `None` when a diagonal entry of the reduced matrix is zero.
pub open spec fn spec_try_inverse(b: Seq<Scalar>) -> Option<Seq<Scalar>> {
    gauss_from(b, 0)
}

/// The homogeneous transform of a point; `None` when the fourth
/// homogeneous coordinate is zero.
pub fn transform_homogeneous(t: &Vec<Scalar>, p: V3) -> (r: Option<V3>)
    requires
        mat4_wf(t@),
    ensures
        r == spec_transform_homogeneous(t@, p),
{
    let y3 = sf_add(
        sf_add(sf_add(sf_mul(t[3], p.x), sf_mul(t[7], p.y)), sf_mul(t[11], p.z)),
        t[15],
    );
    if sf_is_zero(y3) {
        return None;
    }
    let y0 = sf_add(
        sf_add(sf_add(sf_mul(t[0], p.x), sf_mul(t[4], p.y)), sf_mul(t[8], p.z)),
        t[12],
    );
    let y1 = sf_add(
        sf_add(sf_add(sf_mul(t[1], p.x), sf_mul(t[5], p.y)), sf_mul(t[9], p.z)),
        t[13],
    );
    let y2 = sf_add(
        sf_add(sf_add(sf_mul(t[2], p.x), sf_mul(t[6], p.y)), sf_mul(t[10], p.z)),
        t[14],
    );
    Some(V3 { x: sf_div(y0, y3), y: sf_div(y1, y3), z: sf_div(y2, y3) })
}

/// The transform of a direction by the linear part of the matrix.
pub fn transform_direction(t: &Vec<Scalar>, d: V3) -> (r: V3)
    requires
        mat4_wf(t@),
    ensures
        r == spec_transform_direction(t@, d),
{
    V3 {
        x: sf_add(sf_add(sf_mul(t[0], d.x), sf_mul(t[4], d.y)), sf_mul(t[8], d.z)),
        y: sf_add(sf_add(sf_mul(t[1], d.x), sf_mul(t[5], d.y)), sf_mul(t[9], d.z)),
        z: sf_add(sf_add(sf_mul(t[2], d.x), sf_mul(t[6], d.y)), sf_mul(t[10], d.z)),
    }
}

/// One Gauss-Jordan pivot step on row `i`.
fn pivot_step(a: &Vec<Scalar>, i: usize) -> (r: Vec<Scalar>)
    requires
        a@.len() == 16,
        i < 4,
    ensures
        r@ == pivot_mat(a@, i as int),
{
    let d = a[i * 4 + i];
    let t = sf_div(Scalar { bits: ONE_BITS }, d);
    let mut out: Vec<Scalar> = Vec::new();
    let mut idx: usize = 0;
    while idx < 16
        invariant
            a@.len() == 16,
            i < 4,
            t == s_div(sc(ONE_BITS), a@[i * 4 + i]),
            idx <= 16,
            out@.len() == idx,
            forall|k: int| 0 <= k < idx ==> out@[k] == pivot_cell(a@, i as int, k),
        decreases 16 - idx,
    {
        let row = idx / 4;
        let col = idx % 4;
        let cell = if row == i {
            if col == i {
                sf_mul(Scalar { bits: ONE_BITS }, t)
            } else {
                sf_mul(a[idx], t)
            }
        } else {
            let tmp2 = a[row * 4 + i];
            let ricol = if col == i {
                sf_mul(Scalar { bits: ONE_BITS }, t)
            } else {
                sf_mul(a[i * 4 + col], t)
            };
            if col == i {
                sf_sub(Scalar { bits: ZERO_BITS }, sf_mul(tmp2, ricol))
            } else {
                sf_sub(a[idx], sf_mul(tmp2, ricol))
            }
        };
        out.push(cell);
        idx = idx + 1;
    }
    proof {
        assert(out@ =~= pivot_mat(a@, i as int));
    }
    out
}

/// The inverse of the matrix by Gauss-Jordan elimination without
/// pivoting; `None` when a diagonal entry of the reduced matrix is zero.
pub fn try_inverse(b: &Vec<Scalar>) -> (r: Option<Vec<Scalar>>)
    requires
        mat4_wf(b@),
    ensures
        (match r {
            Some(m) => spec_try_inverse(b@) == Some(m@) && mat4_wf(m@),
            None => spec_try_inverse(b@) is None,
        }),
{
    let mut a: Vec<Scalar> = Vec::new();
    let mut k: usize = 0;
    while k < 16
        invariant
            b@.len() == 16,
            k <= 16,
            a@ == b@.take(k as int),
        decreases 16 - k,
    {
        a.push(b[k]);
        k = k + 1;
    }
    proof {
        assert(a@ =~= b@);
    }
    let mut i: usize = 0;
    while i < 4
        invariant
            a@.len() == 16,
            i <= 4,
            gauss_from(b@, 0) == gauss_from(a@, i as int),
        decreases 4 - i,
    {
        let d = a[i * 4 + i];
        if sf_is_zero(d) {
            return None;
        }
        a = pivot_step(&a, i);
        i = i + 1;
    }
    Some(a)
}

/// The identity matrix.
pub fn identity() -> (r: Vec<Scalar>)
    ensures
        mat4_wf(r@),
        forall|k: int|
            0 <= k < 16 ==> r@[k] == (if k % 5 == 0 {
                sc(ONE_BITS)
            } else {
                sc(ZERO_BITS)
            }),
{
    let mut out: Vec<Scalar> = Vec::new();
    let mut idx: usize = 0;
    while idx < 16
        invariant
            idx <= 16,
            out@.len() == idx,
            forall|k: int|
                0 <= k < idx ==> out@[k] == (if k % 5 == 0 {
                    sc(ONE_BITS)
                } else {
                    sc(ZERO_BITS)
                }),
        decreases 16 - idx,
    {
        if idx % 5 == 0 {
            out.push(Scalar { bits: ONE_BITS });
        } else {
            out.push(Scalar { bits: ZERO_BITS });
        }
        idx = idx + 1;
    }
    out
}

} // verus!
