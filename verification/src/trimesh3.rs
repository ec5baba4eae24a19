//! Triangle meshes: an index buffer of triangles (three vertex indices
//! each) and a position buffer (three scalars per vertex), with the
//! closest-hit query, vertex transforms and mesh concatenation.

use vstd::prelude::*;

use crate::mat4::{mat4_wf, spec_transform_homogeneous, transform_homogeneous};
use crate::scalar::{ge_bits, lt_bits, sf_ge, sf_lt, Scalar, ZERO_BITS};
use crate::tri3::{intersection_against_line, spec_intersection_against_line};
use crate::vec3::V3;

verus! {

/// The vertex at position-buffer offset `3 * iv`.
pub open spec fn spec_vtx3(vtx2xyz: Seq<Scalar>, iv: int) -> V3 {
    V3 { x: vtx2xyz[iv * 3], y: vtx2xyz[iv * 3 + 1], z: vtx2xyz[iv * 3 + 2] }
}

/// Mesh validity for a 32-bit index buffer: whole triangles, whole
/// vertices, and every index a valid offset into the position buffer.
pub open spec fn trimesh_wf_u32(tri2vtx: Seq<u32>, vtx2xyz: Seq<Scalar>) -> bool {
    &&& tri2vtx.len() % 3 == 0
    &&& vtx2xyz.len() % 3 == 0
    &&& forall|k: int| 0 <= k < tri2vtx.len() ==> (tri2vtx[k] as int) * 3 + 3 <= vtx2xyz.len()
}

/// Mesh validity for a `usize` index buffer.
pub open spec fn trimesh_wf_usize(tri2vtx: Seq<usize>, vtx2xyz: Seq<Scalar>) -> bool {
    &&& tri2vtx.len() % 3 == 0
    &&& vtx2xyz.len() % 3 == 0
    &&& forall|k: int| 0 <= k < tri2vtx.len() ==> (tri2vtx[k] as int) * 3 + 3 <= vtx2xyz.len()
}

/// The corner `j` (0, 1 or 2) of triangle `i_tri` of a 32-bit mesh.
pub open spec fn spec_corner_u32(
    tri2vtx: Seq<u32>,
    vtx2xyz: Seq<Scalar>,
    i_tri: int,
    j: int,
) -> V3 {
    spec_vtx3(vtx2xyz, tri2vtx[i_tri * 3 + j] as int)
}

/// The corner `j` (0, 1 or 2) of triangle `i_tri` of a `usize` mesh.
pub open spec fn spec_corner_usize(
    tri2vtx: Seq<usize>,
    vtx2xyz: Seq<Scalar>,
    i_tri: int,
    j: int,
) -> V3 {
    spec_vtx3(vtx2xyz, tri2vtx[i_tri * 3 + j] as int)
}

/// The three corner positions of triangle `i_tri` of a 32-bit mesh.
pub fn to_corner_points(tri2vtx: &Vec<u32>, vtx2xyz: &Vec<Scalar>, i_tri: usize) -> (r: (
    V3,
    V3,
    V3,
))
    requires
        trimesh_wf_u32(tri2vtx@, vtx2xyz@),
        i_tri * 3 + 2 < tri2vtx@.len(),
    ensures
        r.0 == spec_corner_u32(tri2vtx@, vtx2xyz@, i_tri as int, 0),
        r.1 == spec_corner_u32(tri2vtx@, vtx2xyz@, i_tri as int, 1),
        r.2 == spec_corner_u32(tri2vtx@, vtx2xyz@, i_tri as int, 2),
{
    let _nt = tri2vtx.len();
    let _nv = vtx2xyz.len();
    let i0 = tri2vtx[i_tri * 3] as usize;
    let i1 = tri2vtx[i_tri * 3 + 1] as usize;
    let i2 = tri2vtx[i_tri * 3 + 2] as usize;
    (
        V3 { x: vtx2xyz[i0 * 3], y: vtx2xyz[i0 * 3 + 1], z: vtx2xyz[i0 * 3 + 2] },
        V3 { x: vtx2xyz[i1 * 3], y: vtx2xyz[i1 * 3 + 1], z: vtx2xyz[i1 * 3 + 2] },
        V3 { x: vtx2xyz[i2 * 3], y: vtx2xyz[i2 * 3 + 1], z: vtx2xyz[i2 * 3 + 2] },
    )
}

/// The candidate hit of the ray against triangle `i_tri`: its line
/// intersection parameter, kept only when it is at or beyond the origin.
pub open spec fn spec_ray_hit(
    ray_org: V3,
    ray_dir: V3,
    tri2vtx: Seq<usize>,
    vtx2xyz: Seq<Scalar>,
    i_tri: int,
) -> Option<Scalar> {
    match spec_intersection_against_line(
        spec_corner_usize(tri2vtx, vtx2xyz, i_tri, 0),
        spec_corner_usize(tri2vtx, vtx2xyz, i_tri, 1),
        spec_corner_usize(tri2vtx, vtx2xyz, i_tri, 2),
        ray_org,
        ray_dir,
    ) {
        Some(t) => if ge_bits(t.bits, ZERO_BITS) {
            Some(t)
        } else {
            None
        },
        None => None,
    }
}

/// The earliest hit among triangles `i_tri` onward, starting from the
/// best candidate seen so far: a later triangle replaces the candidate
/// only when its parameter compares strictly below.
pub open spec fn spec_first_hit_from(
    ray_org: V3,
    ray_dir: V3,
    tri2vtx: Seq<usize>,
    vtx2xyz: Seq<Scalar>,
    i_tri: int,
    best: Option<(Scalar, usize)>,
) -> Option<(Scalar, usize)>
    decreases tri2vtx.len() / 3 - i_tri,
{
    if i_tri < 0 || i_tri >= tri2vtx.len() / 3 {
        best
    } else {
        let next = match spec_ray_hit(ray_org, ray_dir, tri2vtx, vtx2xyz, i_tri) {
            Some(t) => match best {
                Some((bt, bi)) => if lt_bits(t.bits, bt.bits) {
                    Some((t, i_tri as usize))
                } else {
                    Some((bt, bi))
                },
                None => Some((t, i_tri as usize)),
            },
            None => best,
        };
        spec_first_hit_from(ray_org, ray_dir, tri2vtx, vtx2xyz, i_tri + 1, next)
    }
}

/// The hit of the ray with the smallest parameter over the whole mesh,
/// with its triangle index (the lowest index on an exactly tied
/// parameter); `None` when no triangle is hit.
pub open spec fn spec_first_intersection_ray(
    ray_org: V3,
    ray_dir: V3,
    tri2vtx: Seq<usize>,
    vtx2xyz: Seq<Scalar>,
) -> Option<(Scalar, usize)> {
    spec_first_hit_from(ray_org, ray_dir, tri2vtx, vtx2xyz, 0, None)
}

/// The hit of the ray with the smallest parameter over the whole mesh.
pub fn first_intersection_ray(
    ray_org: V3,
    ray_dir: V3,
    tri2vtx: &Vec<usize>,
    vtx2xyz: &Vec<Scalar>,
) -> (r: Option<(Scalar, usize)>)
    requires
        trimesh_wf_usize(tri2vtx@, vtx2xyz@),
    ensures
        r == spec_first_intersection_ray(ray_org, ray_dir, tri2vtx@, vtx2xyz@),
{
    let num_tri = tri2vtx.len() / 3;
    let _num_vtx = vtx2xyz.len();
    let mut best: Option<(Scalar, usize)> = None;
    let mut i_tri: usize = 0;
    while i_tri < num_tri
        invariant
            trimesh_wf_usize(tri2vtx@, vtx2xyz@),
            tri2vtx@.len() <= usize::MAX,
            vtx2xyz@.len() <= usize::MAX,
            num_tri == tri2vtx@.len() / 3,
            i_tri <= num_tri,
            spec_first_intersection_ray(ray_org, ray_dir, tri2vtx@, vtx2xyz@)
                == spec_first_hit_from(ray_org, ray_dir, tri2vtx@, vtx2xyz@, i_tri as int, best),
        decreases num_tri - i_tri,
    {
        proof {
            assert(tri2vtx@.len() == num_tri * 3) by (nonlinear_arith)
                requires
                    tri2vtx@.len() % 3 == 0,
                    num_tri == tri2vtx@.len() / 3,
            ;
            assert(i_tri * 3 + 2 < tri2vtx@.len()) by (nonlinear_arith)
                requires
                    i_tri < num_tri,
                    tri2vtx@.len() == num_tri * 3,
            ;
        }
        let i0 = tri2vtx[i_tri * 3] as usize;
        let i1 = tri2vtx[i_tri * 3 + 1] as usize;
        let i2 = tri2vtx[i_tri * 3 + 2] as usize;
        let p0 = V3 { x: vtx2xyz[i0 * 3], y: vtx2xyz[i0 * 3 + 1], z: vtx2xyz[i0 * 3 + 2] };
        let p1 = V3 { x: vtx2xyz[i1 * 3], y: vtx2xyz[i1 * 3 + 1], z: vtx2xyz[i1 * 3 + 2] };
        let p2 = V3 { x: vtx2xyz[i2 * 3], y: vtx2xyz[i2 * 3 + 1], z: vtx2xyz[i2 * 3 + 2] };
        match intersection_against_line(p0, p1, p2, ray_org, ray_dir) {
            Some(t) => {
                if sf_ge(t, Scalar { bits: ZERO_BITS }) {
                    match best {
                        Some((bt, _bi)) => {
                            if sf_lt(t, bt) {
                                best = Some((t, i_tri));
                            }
                        },
                        None => {
                            best = Some((t, i_tri));
                        },
                    }
                }
            },
            None => {},
        }
        i_tri = i_tri + 1;
    }
    best
}

/// Whether every vertex of the position buffer survives the homogeneous
/// transform (no vertex lands at a zero fourth coordinate).
pub open spec fn spec_all_transform_ok(m: Seq<Scalar>, vtx2xyz: Seq<Scalar>) -> bool {
    forall|iv: int|
        0 <= iv < vtx2xyz.len() / 3 ==> spec_transform_homogeneous(m, spec_vtx3(vtx2xyz, iv))
            is Some
}

/// The position buffer with every vertex sent through the homogeneous
/// transform.
pub open spec fn spec_transformed_vtx2xyz(m: Seq<Scalar>, vtx2xyz: Seq<Scalar>) -> Seq<Scalar> {
    Seq::new(
        vtx2xyz.len(),
        |k: int|
            {
                let p = spec_transform_homogeneous(m, spec_vtx3(vtx2xyz, k / 3))->Some_0;
                if k % 3 == 0 {
                    p.x
                } else if k % 3 == 1 {
                    p.y
                } else {
                    p.z
                }
            },
    )
}

/// Every vertex sent through the homogeneous transform; `None` when some
/// vertex lands at a zero fourth coordinate.
pub fn transform_vtx2xyz(vtx2xyz: &Vec<Scalar>, m: &Vec<Scalar>) -> (r: Option<Vec<Scalar>>)
    requires
        mat4_wf(m@),
        vtx2xyz@.len() % 3 == 0,
    ensures
        (match r {
            Some(out) => spec_all_transform_ok(m@, vtx2xyz@) && out@ == spec_transformed_vtx2xyz(
                m@,
                vtx2xyz@,
            ),
            None => !spec_all_transform_ok(m@, vtx2xyz@),
        }),
{
    let num_vtx = vtx2xyz.len() / 3;
    let mut out: Vec<Scalar> = Vec::new();
    let mut iv: usize = 0;
    while iv < num_vtx
        invariant
            mat4_wf(m@),
            vtx2xyz@.len() % 3 == 0,
            vtx2xyz@.len() <= usize::MAX,
            num_vtx == vtx2xyz@.len() / 3,
            iv <= num_vtx,
            out@.len() == iv * 3,
            forall|jv: int|
                0 <= jv < iv ==> spec_transform_homogeneous(m@, spec_vtx3(vtx2xyz@, jv)) is Some,
            forall|k: int|
                0 <= k < iv * 3 ==> out@[k] == spec_transformed_vtx2xyz(m@, vtx2xyz@)[k],
        decreases num_vtx - iv,
    {
        proof {
            assert(vtx2xyz@.len() == num_vtx * 3) by (nonlinear_arith)
                requires
                    vtx2xyz@.len() % 3 == 0,
                    num_vtx == vtx2xyz@.len() / 3,
            ;
            assert(iv * 3 + 2 < vtx2xyz@.len()) by (nonlinear_arith)
                requires
                    iv < num_vtx,
                    vtx2xyz@.len() == num_vtx * 3,
            ;
        }
        let p = V3 {
            x: vtx2xyz[iv * 3],
            y: vtx2xyz[iv * 3 + 1],
            z: vtx2xyz[iv * 3 + 2],
        };
        match transform_homogeneous(m, p) {
            Some(q) => {
                proof {
                    assert(p == spec_vtx3(vtx2xyz@, iv as int));
                    let b: int = (iv * 3) as int;
                    assert(b / 3 == iv && b % 3 == 0 && (b + 1) / 3 == iv && (b + 1) % 3 == 1 && (b
                        + 2) / 3 == iv && (b + 2) % 3 == 2) by (nonlinear_arith)
                        requires
                            b == (iv as int) * 3,
                    ;
                }
                out.push(q.x);
                out.push(q.y);
                out.push(q.z);
            },
            None => {
                proof {
                    assert(p == spec_vtx3(vtx2xyz@, iv as int));
                    assert(0 <= (iv as int) && (iv as int) < vtx2xyz@.len() / 3);
                    assert(!spec_all_transform_ok(m@, vtx2xyz@));
                }
                return None;
            },
        }
        iv = iv + 1;
    }
    proof {
        assert(out@ =~= spec_transformed_vtx2xyz(m@, vtx2xyz@));
    }
    Some(out)
}

/// Appends a mesh to an output mesh: the appended triangles' indices are
/// shifted by the number of vertices already present, and the appended
/// positions follow the present ones.
pub fn merge(
    out_elem2vtx: &mut Vec<usize>,
    out_vtx2xyz: &mut Vec<Scalar>,
    elem2vtx: &Vec<usize>,
    vtx2xyz: &Vec<Scalar>,
    num_dim: usize,
) -> (r: ())
    requires
        num_dim > 0,
        forall|k: int|
            0 <= k < elem2vtx@.len() ==> elem2vtx@[k] + (old(out_vtx2xyz)@.len() as int) / (num_dim as int)
                <= usize::MAX,
    ensures
        final(out_elem2vtx)@.len() == old(out_elem2vtx)@.len() + elem2vtx@.len(),
        forall|k: int|
            0 <= k < old(out_elem2vtx)@.len() ==> final(out_elem2vtx)@[k] == old(out_elem2vtx)@[k],
        forall|k: int|
            0 <= k < elem2vtx@.len() ==> final(out_elem2vtx)@[old(out_elem2vtx)@.len() + k]
                == elem2vtx@[k] + (old(out_vtx2xyz)@.len() as int) / (num_dim as int),
        final(out_vtx2xyz)@ == old(out_vtx2xyz)@ + vtx2xyz@,
{
    let num_vtx0 = out_vtx2xyz.len() / num_dim;
    let mut k: usize = 0;
    while k < elem2vtx.len()
        invariant
            num_dim > 0,
            num_vtx0 == (old(out_vtx2xyz)@.len() as int) / (num_dim as int),
            out_vtx2xyz@ == old(out_vtx2xyz)@,
            forall|j: int| 0 <= j < elem2vtx@.len() ==> elem2vtx@[j] + num_vtx0 <= usize::MAX,
            k <= elem2vtx@.len(),
            out_elem2vtx@.len() == old(out_elem2vtx)@.len() + k,
            forall|j: int|
                0 <= j < old(out_elem2vtx)@.len() ==> out_elem2vtx@[j] == old(out_elem2vtx)@[j],
            forall|j: int|
                0 <= j < k ==> out_elem2vtx@[old(out_elem2vtx)@.len() + j] == elem2vtx@[j]
                    + num_vtx0,
        decreases elem2vtx@.len() - k,
    {
        out_elem2vtx.push(elem2vtx[k] + num_vtx0);
        k = k + 1;
    }
    let mut j: usize = 0;
    while j < vtx2xyz.len()
        invariant
            j <= vtx2xyz@.len(),
            out_vtx2xyz@ == old(out_vtx2xyz)@ + vtx2xyz@.take(j as int),
            out_elem2vtx@.len() == old(out_elem2vtx)@.len() + elem2vtx@.len(),
            forall|i: int|
                0 <= i < old(out_elem2vtx)@.len() ==> out_elem2vtx@[i] == old(out_elem2vtx)@[i],
            forall|i: int|
                0 <= i < elem2vtx@.len() ==> out_elem2vtx@[old(out_elem2vtx)@.len() + i]
                    == elem2vtx@[i] + (old(out_vtx2xyz)@.len() as int) / (num_dim as int),
        decreases vtx2xyz@.len() - j,
    {
        out_vtx2xyz.push(vtx2xyz[j]);
        j = j + 1;
    }
    proof {
        assert(out_vtx2xyz@ =~= old(out_vtx2xyz)@ + vtx2xyz@);
    }
}

} // verus!
