//! Triangles in 3D: ray intersection, its analytic derivative, normals and
//! barycentric coordinates.
//!
//! The intersection follows the Möller-Trumbore algorithm; the backward
//! function pushes sensitivities of the intersection outputs `(t, u, v)`
//! back onto the three corner positions, with the same intermediate values
//! and in the same association order as the forward computation.

use vstd::prelude::*;

use crate::scalar::{
    lt_bits, s_add, s_div, s_mul, s_neg, s_sub, sc, sf_add, sf_div, sf_lt, sf_mul, sf_neg, sf_sub,
    Scalar, EPSILON_BITS, NEG_ONE_BITS, ONE_BITS, ZERO_BITS,
};
use crate::vec3::V3;

verus! {

/// The (unnormalized) triangle normal: the cross product of two edges.
pub open spec fn spec_normal(v1: V3, v2: V3, v3: V3) -> V3 {
    V3 {
        x: s_sub(
            s_mul(s_sub(v2.y, v1.y), s_sub(v3.z, v1.z)),
            s_mul(s_sub(v2.z, v1.z), s_sub(v3.y, v1.y)),
        ),
        y: s_sub(
            s_mul(s_sub(v2.z, v1.z), s_sub(v3.x, v1.x)),
            s_mul(s_sub(v2.x, v1.x), s_sub(v3.z, v1.z)),
        ),
        z: s_sub(
            s_mul(s_sub(v2.x, v1.x), s_sub(v3.y, v1.y)),
            s_mul(s_sub(v2.y, v1.y), s_sub(v3.x, v1.x)),
        ),
    }
}

/// The (unnormalized) triangle normal: the cross product of two edges.
pub fn normal(v1: V3, v2: V3, v3: V3) -> (r: V3)
    ensures
        r == spec_normal(v1, v2, v3),
{
    V3 {
        x: sf_sub(
            sf_mul(sf_sub(v2.y, v1.y), sf_sub(v3.z, v1.z)),
            sf_mul(sf_sub(v2.z, v1.z), sf_sub(v3.y, v1.y)),
        ),
        y: sf_sub(
            sf_mul(sf_sub(v2.z, v1.z), sf_sub(v3.x, v1.x)),
            sf_mul(sf_sub(v2.x, v1.x), sf_sub(v3.z, v1.z)),
        ),
        z: sf_sub(
            sf_mul(sf_sub(v2.x, v1.x), sf_sub(v3.y, v1.y)),
            sf_mul(sf_sub(v2.y, v1.y), sf_sub(v3.x, v1.x)),
        ),
    }
}

/// The Möller-Trumbore line/triangle intersection parameter: `None` when
/// the determinant is within machine epsilon of zero (the line is parallel
/// to the triangle's plane) or the intersection point falls outside the
/// triangle; else the parameter `t` with
/// `org + t * dir = (1 - u - v) * p0 + u * p1 + v * p2`.
pub open spec fn spec_intersection_against_line(
    p0: V3,
    p1: V3,
    p2: V3,
    ray_org: V3,
    ray_dir: V3,
) -> Option<Scalar> {
    let eps = sc(EPSILON_BITS);
    let edge1 = p1.spec_sub(p0);
    let edge2 = p2.spec_sub(p0);
    let pvec = ray_dir.spec_cross(edge2);
    let det = edge1.spec_dot(pvec);
    if lt_bits(s_neg(eps).bits, det.bits) && lt_bits(det.bits, eps.bits) {
        None
    } else {
        let invdet = s_div(sc(ONE_BITS), det);
        let tvec = ray_org.spec_sub(p0);
        let u = s_mul(invdet, tvec.spec_dot(pvec));
        if lt_bits(u.bits, ZERO_BITS) || lt_bits(ONE_BITS, u.bits) {
            None
        } else {
            let qvec = tvec.spec_cross(edge1);
            let v = s_mul(invdet, ray_dir.spec_dot(qvec));
            if lt_bits(v.bits, ZERO_BITS) || lt_bits(ONE_BITS, s_add(u, v).bits) {
                None
            } else {
                Some(s_mul(invdet, edge2.spec_dot(qvec)))
            }
        }
    }
}

/// The Möller-Trumbore line/triangle intersection parameter.
pub fn intersection_against_line(p0: V3, p1: V3, p2: V3, ray_org: V3, ray_dir: V3) -> (r: Option<
    Scalar,
>)
    ensures
        r == spec_intersection_against_line(p0, p1, p2, ray_org, ray_dir),
{
    let eps = Scalar { bits: EPSILON_BITS };
    let edge1 = p1.sub(p0);
    let edge2 = p2.sub(p0);
    let pvec = ray_dir.cross(edge2);
    let det = edge1.dot(pvec);
    if sf_lt(sf_neg(eps), det) && sf_lt(det, eps) {
        return None;
    }
    let invdet = sf_div(Scalar { bits: ONE_BITS }, det);
    let tvec = ray_org.sub(p0);
    let u = sf_mul(invdet, tvec.dot(pvec));
    if sf_lt(u, Scalar { bits: ZERO_BITS }) || sf_lt(Scalar { bits: ONE_BITS }, u) {
        return None;
    }
    let qvec = tvec.cross(edge1);
    let v = sf_mul(invdet, ray_dir.dot(qvec));
    if sf_lt(v, Scalar { bits: ZERO_BITS }) || sf_lt(Scalar { bits: ONE_BITS }, sf_add(u, v)) {
        return None;
    }
    Some(sf_mul(invdet, edge2.dot(qvec)))
}

/// The intersection parameters `(t, u, v)` recomputed without the
/// rejection tests, together with the sensitivities of the three corner
/// positions for given sensitivities `(d_t, d_u, d_v)` of the outputs:
/// the analytic reverse pass of the intersection.
pub open spec fn spec_intersection_bwd_wrt_tri(
    p0: V3,
    p1: V3,
    p2: V3,
    org: V3,
    dir: V3,
    d_t: Scalar,
    d_u: Scalar,
    d_v: Scalar,
) -> (Scalar, Scalar, Scalar, V3, V3, V3) {
    let e1 = p0.spec_sub(p1);
    let e2 = p2.spec_sub(p0);
    let n = e1.spec_cross(e2);
    let n_dot_dir = n.spec_dot(dir);
    let inv_det = s_div(sc(ONE_BITS), n_dot_dir);
    let c = p0.spec_sub(org);
    let n_dot_c = n.spec_dot(c);
    let t = s_mul(inv_det, n_dot_c);
    let r = dir.spec_cross(c);
    let r_dot_e2 = r.spec_dot(e2);
    let u = s_mul(inv_det, r_dot_e2);
    let r_dot_e1 = r.spec_dot(e1);
    let v = s_mul(inv_det, r_dot_e1);
    let d_n_dot_c = s_mul(d_t, inv_det);
    let d_r_dot_e2 = s_mul(d_u, inv_det);
    let d_r_dot_e1 = s_mul(d_v, inv_det);
    let d_inv_det = s_add(
        s_add(s_mul(d_t, n_dot_c), s_mul(d_u, r_dot_e2)),
        s_mul(d_v, r_dot_e1),
    );
    let d_n0 = c.spec_scale(d_n_dot_c);
    let d_c0 = n.spec_scale(d_n_dot_c);
    let d_e20 = r.spec_scale(d_r_dot_e2);
    let d_e10 = r.spec_scale(d_r_dot_e1);
    let d_r = e2.spec_scale(d_r_dot_e2).spec_add(e1.spec_scale(d_r_dot_e1));
    let d_n_dot_dir = s_div(s_div(s_neg(d_inv_det), n_dot_dir), n_dot_dir);
    let d_n = d_n0.spec_add(dir.spec_scale(d_n_dot_dir));
    let d_c = d_c0.spec_add(d_r.spec_cross(dir));
    let d_e2 = d_e20.spec_add(d_n.spec_cross(e1));
    let d_e1 = d_e10.spec_add(e2.spec_cross(d_n));
    let d_p0 = d_e1.spec_sub(d_e2).spec_add(d_c);
    let d_p1 = d_e1.spec_scale(sc(NEG_ONE_BITS));
    let d_p2 = d_e2;
    (t, u, v, d_p0, d_p1, d_p2)
}

/// The analytic reverse pass of the line/triangle intersection.
pub fn intersection_against_line_bwd_wrt_tri(
    p0: V3,
    p1: V3,
    p2: V3,
    org: V3,
    dir: V3,
    d_t: Scalar,
    d_u: Scalar,
    d_v: Scalar,
) -> (r: (Scalar, Scalar, Scalar, V3, V3, V3))
    ensures
        r == spec_intersection_bwd_wrt_tri(p0, p1, p2, org, dir, d_t, d_u, d_v),
{
    let e1 = p0.sub(p1);
    let e2 = p2.sub(p0);
    let n = e1.cross(e2);
    let n_dot_dir = n.dot(dir);
    let inv_det = sf_div(Scalar { bits: ONE_BITS }, n_dot_dir);
    let c = p0.sub(org);
    let n_dot_c = n.dot(c);
    let t = sf_mul(inv_det, n_dot_c);
    let r = dir.cross(c);
    let r_dot_e2 = r.dot(e2);
    let u = sf_mul(inv_det, r_dot_e2);
    let r_dot_e1 = r.dot(e1);
    let v = sf_mul(inv_det, r_dot_e1);
    let d_n_dot_c = sf_mul(d_t, inv_det);
    let d_r_dot_e2 = sf_mul(d_u, inv_det);
    let d_r_dot_e1 = sf_mul(d_v, inv_det);
    let d_inv_det = sf_add(
        sf_add(sf_mul(d_t, n_dot_c), sf_mul(d_u, r_dot_e2)),
        sf_mul(d_v, r_dot_e1),
    );
    let d_n0 = c.scale(d_n_dot_c);
    let d_c0 = n.scale(d_n_dot_c);
    let d_e20 = r.scale(d_r_dot_e2);
    let d_e10 = r.scale(d_r_dot_e1);
    let d_r = e2.scale(d_r_dot_e2).add(e1.scale(d_r_dot_e1));
    let d_n_dot_dir = sf_div(sf_div(sf_neg(d_inv_det), n_dot_dir), n_dot_dir);
    let d_n = d_n0.add(dir.scale(d_n_dot_dir));
    let d_c = d_c0.add(d_r.cross(dir));
    let d_e2 = d_e20.add(d_n.cross(e1));
    let d_e1 = d_e10.add(e2.cross(d_n));
    let d_p0 = d_e1.sub(d_e2).add(d_c);
    let d_p1 = d_e1.scale(Scalar { bits: NEG_ONE_BITS });
    let d_p2 = d_e2;
    (t, u, v, d_p0, d_p1, d_p2)
}

/// The signed volume of a tetrahedron, one sixth of the triple product.
pub open spec fn spec_tet_volume(v1: V3, v2: V3, v3: V3, v4: V3) -> Scalar {
    let one = sc(ONE_BITS);
    let three = s_add(s_add(one, one), one);
    let one_6th = s_div(one, s_add(three, three));
    let a0 = s_mul(
        s_sub(v2.x, v1.x),
        s_sub(
            s_mul(s_sub(v3.y, v1.y), s_sub(v4.z, v1.z)),
            s_mul(s_sub(v4.y, v1.y), s_sub(v3.z, v1.z)),
        ),
    );
    let a1 = s_mul(
        s_neg(s_sub(v2.y, v1.y)),
        s_sub(
            s_mul(s_sub(v3.x, v1.x), s_sub(v4.z, v1.z)),
            s_mul(s_sub(v4.x, v1.x), s_sub(v3.z, v1.z)),
        ),
    );
    let a2 = s_mul(
        s_sub(v2.z, v1.z),
        s_sub(
            s_mul(s_sub(v3.x, v1.x), s_sub(v4.y, v1.y)),
            s_mul(s_sub(v4.x, v1.x), s_sub(v3.y, v1.y)),
        ),
    );
    s_mul(s_add(s_add(a0, a1), a2), one_6th)
}

/// The signed volume of a tetrahedron, one sixth of the triple product.
pub fn tet_volume(v1: V3, v2: V3, v3: V3, v4: V3) -> (r: Scalar)
    ensures
        r == spec_tet_volume(v1, v2, v3, v4),
{
    let one = Scalar { bits: ONE_BITS };
    let three = sf_add(sf_add(one, one), one);
    let one_6th = sf_div(one, sf_add(three, three));
    let a0 = sf_mul(
        sf_sub(v2.x, v1.x),
        sf_sub(
            sf_mul(sf_sub(v3.y, v1.y), sf_sub(v4.z, v1.z)),
            sf_mul(sf_sub(v4.y, v1.y), sf_sub(v3.z, v1.z)),
        ),
    );
    let a1 = sf_mul(
        sf_neg(sf_sub(v2.y, v1.y)),
        sf_sub(
            sf_mul(sf_sub(v3.x, v1.x), sf_sub(v4.z, v1.z)),
            sf_mul(sf_sub(v4.x, v1.x), sf_sub(v3.z, v1.z)),
        ),
    );
    let a2 = sf_mul(
        sf_sub(v2.z, v1.z),
        sf_sub(
            sf_mul(sf_sub(v3.x, v1.x), sf_sub(v4.y, v1.y)),
            sf_mul(sf_sub(v4.x, v1.x), sf_sub(v3.y, v1.y)),
        ),
    );
    sf_mul(sf_add(sf_add(a0, a1), a2), one_6th)
}

/// The barycentric coordinates of a point with respect to a triangle,
/// from the ratios of three tetrahedron volumes over the triangle's
/// normal direction.
pub open spec fn spec_to_barycentric_coords(p0: V3, p1: V3, p2: V3, q: V3) -> V3 {
    let n = p1.spec_sub(p0).spec_cross(p2.spec_sub(p0));
    let s = q.spec_add(n);
    let r0 = spec_tet_volume(p1, p2, q, s);
    let r1 = spec_tet_volume(p2, p0, q, s);
    let r2 = spec_tet_volume(p0, p1, q, s);
    let tmp = s_div(sc(ONE_BITS), s_add(s_add(r0, r1), r2));
    V3 { x: s_mul(r0, tmp), y: s_mul(r1, tmp), z: s_mul(r2, tmp) }
}

/// The barycentric coordinates of a point with respect to a triangle.
pub fn to_barycentric_coords(p0: V3, p1: V3, p2: V3, q: V3) -> (r: V3)
    ensures
        r == spec_to_barycentric_coords(p0, p1, p2, q),
{
    let n = p1.sub(p0).cross(p2.sub(p0));
    let s = q.add(n);
    let r0 = tet_volume(p1, p2, q, s);
    let r1 = tet_volume(p2, p0, q, s);
    let r2 = tet_volume(p0, p1, q, s);
    let tmp = sf_div(Scalar { bits: ONE_BITS }, sf_add(sf_add(r0, r1), r2));
    V3 { x: sf_mul(r0, tmp), y: sf_mul(r1, tmp), z: sf_mul(r2, tmp) }
}

} // verus!
