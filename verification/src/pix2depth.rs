//! The differentiable depth renderer.
//!
//! Given a triangle mesh, a per-pixel triangle map and an NDC-to-world
//! camera matrix, the forward pass re-intersects each mapped pixel's ray
//! with its triangle and emits a normalized depth (`(ndc_z + 1) / 2`,
//! zero for misses); the backward pass pushes a per-pixel depth
//! sensitivity through the analytic derivative of the intersection and
//! scatter-accumulates it, scaled by the unnormalized ray direction's
//! norm, onto the three vertices of the hit triangle.

use vstd::prelude::*;
use vstd::pervasive::VecAdditionalExecFns;

use crate::cam3::{ray3_homogeneous, spec_ray3_homogeneous};
use crate::mat4::{mat4_wf, spec_transform_homogeneous, spec_try_inverse, transform_homogeneous, try_inverse};
use crate::scalar::{s_add, s_mul, s_neg, sc, sf_add, sf_mul, sf_neg, Scalar, HALF_BITS, ONE_BITS, ZERO_BITS};
use crate::tri3::{
    intersection_against_line, intersection_against_line_bwd_wrt_tri, spec_intersection_against_line,
    spec_intersection_bwd_wrt_tri,
};
use crate::trimesh3::{spec_corner_u32, to_corner_points, trimesh_wf_u32};
use crate::vec3::V3;

verus! {

/// The sentinel entry of the pixel-to-triangle map for a pixel whose ray
/// hits no triangle.
pub const NO_HIT: u32 = 0xFFFF_FFFF;

/// What a render can fail on.
#[derive(Clone, Copy, PartialEq, Eq, Structural, Debug)]
pub enum RenderError {
    /// The NDC-to-world camera matrix is singular.
    SingularCamera,
    /// A buffer's length disagrees with the image or mesh it is for.
    ShapeMismatch,
}

/// Validity of a pixel-to-triangle map for a mesh of `num_tri`
/// triangles: every entry is the sentinel or a valid triangle index.
pub open spec fn pix2tri_wf(pix2tri: Seq<u32>, num_tri: int) -> bool {
    forall|i: int|
        0 <= i < pix2tri.len() ==> pix2tri[i] == NO_HIT || (pix2tri[i] as int) < num_tri
}

/// The depth of one pixel: zero when the map holds the sentinel, when
/// the pixel's ray degenerates, when the re-intersection with the mapped
/// triangle rejects, or when the hit point has no normalized-device
/// image; else `(ndc_z + 1) / 2` for the hit point's NDC z.
pub open spec fn spec_pixel_depth(
    tri2vtx: Seq<u32>,
    vtx2xyz: Seq<Scalar>,
    pix2tri: Seq<u32>,
    w: usize,
    h: usize,
    ndc2world: Seq<Scalar>,
    world2ndc: Seq<Scalar>,
    i_pix: int,
) -> Scalar {
    let i_tri = pix2tri[i_pix];
    if i_tri == NO_HIT {
        sc(ZERO_BITS)
    } else {
        match spec_ray3_homogeneous(
            (((i_pix % (w as int)) as usize), ((i_pix / (w as int)) as usize)),
            (w, h),
            ndc2world,
        ) {
            None => sc(ZERO_BITS),
            Some((ray_org, ray_dir)) => {
                match spec_intersection_against_line(
                    spec_corner_u32(tri2vtx, vtx2xyz, i_tri as int, 0),
                    spec_corner_u32(tri2vtx, vtx2xyz, i_tri as int, 1),
                    spec_corner_u32(tri2vtx, vtx2xyz, i_tri as int, 2),
                    ray_org,
                    ray_dir,
                ) {
                    None => sc(ZERO_BITS),
                    Some(coeff) => {
                        let pos_world = ray_dir.spec_axpy(coeff, ray_org);
                        match spec_transform_homogeneous(world2ndc, pos_world) {
                            None => sc(ZERO_BITS),
                            Some(pos_ndc) => s_mul(s_add(pos_ndc.z, sc(ONE_BITS)), sc(HALF_BITS)),
                        }
                    },
                }
            },
        }
    }
}

/// The depth image: one depth per pixel, row-major.
pub open spec fn spec_depth_image(
    tri2vtx: Seq<u32>,
    vtx2xyz: Seq<Scalar>,
    pix2tri: Seq<u32>,
    w: usize,
    h: usize,
    ndc2world: Seq<Scalar>,
    world2ndc: Seq<Scalar>,
) -> Seq<Scalar> {
    Seq::new(
        (w * h) as nat,
        |i_pix: int|
            spec_pixel_depth(tri2vtx, vtx2xyz, pix2tri, w, h, ndc2world, world2ndc, i_pix),
    )
}

/// The depth of one pixel.
fn pixel_depth(
    tri2vtx: &Vec<u32>,
    vtx2xyz: &Vec<Scalar>,
    pix2tri: &Vec<u32>,
    w: usize,
    h: usize,
    ndc2world: &Vec<Scalar>,
    world2ndc: &Vec<Scalar>,
    i_pix: usize,
) -> (r: Scalar)
    requires
        trimesh_wf_u32(tri2vtx@, vtx2xyz@),
        pix2tri_wf(pix2tri@, (tri2vtx@.len() as int) / 3),
        pix2tri@.len() == w * h,
        i_pix < pix2tri@.len(),
        w <= u32::MAX,
        h <= u32::MAX,
        mat4_wf(ndc2world@),
        mat4_wf(world2ndc@),
    ensures
        r == spec_pixel_depth(tri2vtx@, vtx2xyz@, pix2tri@, w, h, ndc2world@, world2ndc@,
            i_pix as int),
{
    proof {
        assert(w > 0) by (nonlinear_arith)
            requires
                (i_pix as int) < (w as int) * (h as int),
                i_pix >= 0,
        ;
    }
    let i_w = i_pix % w;
    let i_h = i_pix / w;
    proof {
        assert(i_h * w + i_w == i_pix && i_w < w && i_h < h) by (nonlinear_arith)
            requires
                w > 0,
                i_w == i_pix % w,
                i_h == i_pix / w,
                (i_pix as int) < (w as int) * (h as int),
        ;
    }
    let i_tri = pix2tri[i_h * w + i_w];
    if i_tri == NO_HIT {
        return Scalar { bits: ZERO_BITS };
    }
    let ray = match ray3_homogeneous((i_w, i_h), (w, h), ndc2world) {
        Some(ray) => ray,
        None => {
            return Scalar { bits: ZERO_BITS };
        },
    };
    proof {
        assert((i_tri as int) * 3 + 2 < tri2vtx@.len()) by (nonlinear_arith)
            requires
                (i_tri as int) < tri2vtx@.len() / 3,
                tri2vtx@.len() % 3 == 0,
        ;
    }
    let (p0, p1, p2) = to_corner_points(tri2vtx, vtx2xyz, i_tri as usize);
    let coeff = match intersection_against_line(p0, p1, p2, ray.0, ray.1) {
        Some(coeff) => coeff,
        None => {
            return Scalar { bits: ZERO_BITS };
        },
    };
    let pos_world = ray.1.axpy(coeff, ray.0);
    match transform_homogeneous(world2ndc, pos_world) {
        Some(pos_ndc) => sf_mul(
            sf_add(pos_ndc.z, Scalar { bits: ONE_BITS }),
            Scalar { bits: HALF_BITS },
        ),
        None => Scalar { bits: ZERO_BITS },
    }
}

/// The state of the gradient buffer after pixel `i_pix`'s contribution:
/// unchanged for a sentinel entry, a degenerate ray or a rejected
/// re-intersection; else the three corner sensitivities for upstream
/// `(-dw, 0, 0)`, each scaled by the unnormalized ray direction's norm,
/// are added at the triangle's three vertex offsets, in corner order.
pub open spec fn spec_pixel_grad(
    tri2vtx: Seq<u32>,
    vtx2xyz: Seq<Scalar>,
    pix2tri: Seq<u32>,
    dw_pix2depth: Seq<Scalar>,
    w: usize,
    h: usize,
    ndc2world: Seq<Scalar>,
    i_pix: int,
    state: Seq<Scalar>,
) -> Seq<Scalar> {
    let i_tri = pix2tri[i_pix];
    if i_tri == NO_HIT {
        state
    } else {
        match spec_ray3_homogeneous(
            (((i_pix % (w as int)) as usize), ((i_pix / (w as int)) as usize)),
            (w, h),
            ndc2world,
        ) {
            None => state,
            Some((ray_org, ray_dir)) => {
                let c0 = spec_corner_u32(tri2vtx, vtx2xyz, i_tri as int, 0);
                let c1 = spec_corner_u32(tri2vtx, vtx2xyz, i_tri as int, 1);
                let c2 = spec_corner_u32(tri2vtx, vtx2xyz, i_tri as int, 2);
                match spec_intersection_against_line(c0, c1, c2, ray_org, ray_dir) {
                    None => state,
                    Some(_coeff) => {
                        let back = spec_intersection_bwd_wrt_tri(
                            c0,
                            c1,
                            c2,
                            ray_org,
                            ray_dir,
                            s_neg(dw_pix2depth[i_pix]),
                            sc(ZERO_BITS),
                            sc(ZERO_BITS),
                        );
                        let scale = ray_dir.spec_norm();
                        let dw_p0 = back.3.spec_scale(scale);
                        let dw_p1 = back.4.spec_scale(scale);
                        let dw_p2 = back.5.spec_scale(scale);
                        let iv0 = tri2vtx[i_tri * 3] as int;
                        let iv1 = tri2vtx[i_tri * 3 + 1] as int;
                        let iv2 = tri2vtx[i_tri * 3 + 2] as int;
                        add3_at(add3_at(add3_at(state, iv0 * 3, dw_p0), iv1 * 3, dw_p1), iv2 * 3,
                            dw_p2)
                    },
                }
            },
        }
    }
}

/// The buffer with the vector added componentwise at offset `base`.
pub open spec fn add3_at(s: Seq<Scalar>, base: int, v: V3) -> Seq<Scalar> {
    let s1 = s.update(base, s_add(s[base], v.x));
    let s2 = s1.update(base + 1, s_add(s1[base + 1], v.y));
    s2.update(base + 2, s_add(s2[base + 2], v.z))
}

/// An addition at offset `base` leaves every entry outside
/// `base .. base + 2` unchanged.
pub broadcast proof fn lemma_add3_at_other(s: Seq<Scalar>, base: int, v: V3, k: int)
    requires
        0 <= k < s.len(),
        0 <= base,
        base + 2 < s.len(),
        k < base || base + 2 < k,
    ensures
        #[trigger] add3_at(s, base, v)[k] == s[k],
        add3_at(s, base, v).len() == s.len(),
{
}

/// The gradient buffer after the contributions of pixels `i_pix` onward.
pub open spec fn spec_bwd_from(
    tri2vtx: Seq<u32>,
    vtx2xyz: Seq<Scalar>,
    pix2tri: Seq<u32>,
    dw_pix2depth: Seq<Scalar>,
    w: usize,
    h: usize,
    ndc2world: Seq<Scalar>,
    i_pix: int,
    state: Seq<Scalar>,
) -> Seq<Scalar>
    decreases (w * h) as int - i_pix,
{
    if i_pix < 0 || i_pix >= (w * h) as int {
        state
    } else {
        spec_bwd_from(
            tri2vtx,
            vtx2xyz,
            pix2tri,
            dw_pix2depth,
            w,
            h,
            ndc2world,
            i_pix + 1,
            spec_pixel_grad(tri2vtx, vtx2xyz, pix2tri, dw_pix2depth, w, h, ndc2world, i_pix, state),
        )
    }
}

/// A buffer of zeros.
pub open spec fn zero_buffer(len: nat) -> Seq<Scalar> {
    Seq::new(len, |k: int| sc(ZERO_BITS))
}

/// The per-vertex gradient of the depth image: all pixels' contributions
/// accumulated, in pixel order, into a zeroed buffer the size of the
/// position buffer.
pub open spec fn spec_backward(
    tri2vtx: Seq<u32>,
    vtx2xyz: Seq<Scalar>,
    pix2tri: Seq<u32>,
    dw_pix2depth: Seq<Scalar>,
    w: usize,
    h: usize,
    ndc2world: Seq<Scalar>,
) -> Seq<Scalar> {
    spec_bwd_from(
        tri2vtx,
        vtx2xyz,
        pix2tri,
        dw_pix2depth,
        w,
        h,
        ndc2world,
        0,
        zero_buffer(vtx2xyz.len()),
    )
}

/// The per-vertex gradient of the depth image with respect to the vertex
/// positions, for the per-pixel depth sensitivity `dw_pix2depth`.
pub fn hoge(
    tri2vtx: &Vec<u32>,
    vtx2xyz: &Vec<Scalar>,
    img_shape: (usize, usize),
    pix2tri: &Vec<u32>,
    dw_pix2depth: &Vec<Scalar>,
    transform_ndc2world: &Vec<Scalar>,
) -> (r: Vec<Scalar>)
    requires
        trimesh_wf_u32(tri2vtx@, vtx2xyz@),
        pix2tri_wf(pix2tri@, (tri2vtx@.len() as int) / 3),
        pix2tri@.len() == img_shape.0 * img_shape.1,
        dw_pix2depth@.len() == img_shape.0 * img_shape.1,
        img_shape.0 <= u32::MAX,
        img_shape.1 <= u32::MAX,
        mat4_wf(transform_ndc2world@),
    ensures
        r@.len() == vtx2xyz@.len(),
        r@ == spec_backward(tri2vtx@, vtx2xyz@, pix2tri@, dw_pix2depth@, img_shape.0, img_shape.1,
            transform_ndc2world@),
{
    let w = img_shape.0;
    let h = img_shape.1;
    let num_vtx3 = vtx2xyz.len();
    let mut dw_vtx2xyz: Vec<Scalar> = Vec::new();
    let mut k: usize = 0;
    while k < num_vtx3
        invariant
            k <= num_vtx3,
            dw_vtx2xyz@.len() == k,
            forall|j: int| 0 <= j < k ==> dw_vtx2xyz@[j] == sc(ZERO_BITS),
        decreases num_vtx3 - k,
    {
        dw_vtx2xyz.push(Scalar { bits: ZERO_BITS });
        k = k + 1;
    }
    proof {
        assert(dw_vtx2xyz@ =~= zero_buffer(vtx2xyz@.len()));
    }
    let total = pix2tri.len();
    let _num_idx = tri2vtx.len();
    let mut i_pix: usize = 0;
    while i_pix < total
        invariant
            trimesh_wf_u32(tri2vtx@, vtx2xyz@),
            pix2tri_wf(pix2tri@, (tri2vtx@.len() as int) / 3),
            pix2tri@.len() == w * h,
            dw_pix2depth@.len() == w * h,
            w <= u32::MAX,
            h <= u32::MAX,
            mat4_wf(transform_ndc2world@),
            total == pix2tri@.len(),
            tri2vtx@.len() <= usize::MAX,
            i_pix <= total,
            vtx2xyz@.len() <= usize::MAX,
            dw_vtx2xyz@.len() == vtx2xyz@.len(),
            spec_backward(tri2vtx@, vtx2xyz@, pix2tri@, dw_pix2depth@, w, h, transform_ndc2world@)
                == spec_bwd_from(tri2vtx@, vtx2xyz@, pix2tri@, dw_pix2depth@, w, h,
                transform_ndc2world@, i_pix as int, dw_vtx2xyz@),
        decreases total - i_pix,
    {
        let ghost state0 = dw_vtx2xyz@;
        proof {
            assert(w > 0) by (nonlinear_arith)
                requires
                    (i_pix as int) < (w as int) * (h as int),
                    i_pix >= 0,
            ;
        }
        let i_w = i_pix % w;
        let i_h = i_pix / w;
        proof {
            assert(i_h * w + i_w == i_pix && i_w < w && i_h < h) by (nonlinear_arith)
                requires
                    w > 0,
                    i_w == i_pix % w,
                    i_h == i_pix / w,
                    (i_pix as int) < (w as int) * (h as int),
            ;
        }
        let i_tri = pix2tri[i_h * w + i_w];
        if i_tri != NO_HIT {
            match ray3_homogeneous((i_w, i_h), (w, h), transform_ndc2world) {
                Some((ray_org, ray_dir)) => {
                    proof {
                        assert((i_tri as int) * 3 + 2 < tri2vtx@.len()) by (nonlinear_arith)
                            requires
                                (i_tri as int) < tri2vtx@.len() / 3,
                                tri2vtx@.len() % 3 == 0,
                        ;
                    }
                    let (p0, p1, p2) = to_corner_points(tri2vtx, vtx2xyz, i_tri as usize);
                    match intersection_against_line(p0, p1, p2, ray_org, ray_dir) {
                        Some(_coeff) => {
                            let dw_depth = dw_pix2depth[i_h * w + i_w];
                            let back = intersection_against_line_bwd_wrt_tri(
                                p0,
                                p1,
                                p2,
                                ray_org,
                                ray_dir,
                                sf_neg(dw_depth),
                                Scalar { bits: ZERO_BITS },
                                Scalar { bits: ZERO_BITS },
                            );
                            let scale = ray_dir.norm();
                            let dw_p0 = back.3.scale(scale);
                            let dw_p1 = back.4.scale(scale);
                            let dw_p2 = back.5.scale(scale);
                            let iv0 = tri2vtx[(i_tri as usize) * 3] as usize;
                            let iv1 = tri2vtx[(i_tri as usize) * 3 + 1] as usize;
                            let iv2 = tri2vtx[(i_tri as usize) * 3 + 2] as usize;
                            dw_vtx2xyz.set(iv0 * 3, sf_add(dw_vtx2xyz[iv0 * 3], dw_p0.x));
                            dw_vtx2xyz.set(iv0 * 3 + 1, sf_add(dw_vtx2xyz[iv0 * 3 + 1], dw_p0.y));
                            dw_vtx2xyz.set(iv0 * 3 + 2, sf_add(dw_vtx2xyz[iv0 * 3 + 2], dw_p0.z));
                            dw_vtx2xyz.set(iv1 * 3, sf_add(dw_vtx2xyz[iv1 * 3], dw_p1.x));
                            dw_vtx2xyz.set(iv1 * 3 + 1, sf_add(dw_vtx2xyz[iv1 * 3 + 1], dw_p1.y));
                            dw_vtx2xyz.set(iv1 * 3 + 2, sf_add(dw_vtx2xyz[iv1 * 3 + 2], dw_p1.z));
                            dw_vtx2xyz.set(iv2 * 3, sf_add(dw_vtx2xyz[iv2 * 3], dw_p2.x));
                            dw_vtx2xyz.set(iv2 * 3 + 1, sf_add(dw_vtx2xyz[iv2 * 3 + 1], dw_p2.y));
                            dw_vtx2xyz.set(iv2 * 3 + 2, sf_add(dw_vtx2xyz[iv2 * 3 + 2], dw_p2.z));
                            proof {
                                assert(dw_vtx2xyz@ == spec_pixel_grad(tri2vtx@, vtx2xyz@, pix2tri@,
                                    dw_pix2depth@, w, h, transform_ndc2world@, i_pix as int,
                                    state0));
                            }
                        },
                        None => {},
                    }
                },
                None => {},
            }
        }
        proof {
            assert(dw_vtx2xyz@ == spec_pixel_grad(tri2vtx@, vtx2xyz@, pix2tri@, dw_pix2depth@, w,
                h, transform_ndc2world@, i_pix as int, state0));
        }
        i_pix = i_pix + 1;
    }
    dw_vtx2xyz
}

/// The depth-rendering operator: the fixed, non-differentiable context of
/// one render — the triangle index buffer, the pixel-to-triangle map of
/// the current vertex positions, the NDC-to-world camera matrix and the
/// image size.  The vertex position buffer, the one differentiable
/// input, is handed to the forward and backward entry points.
pub struct Pix2Depth {
    pub tri2vtx: Vec<u32>,
    pub pix2tri: Vec<u32>,
    pub transform_ndc2world: Vec<Scalar>,
    pub img_width: usize,
    pub img_height: usize,
}

impl Pix2Depth {
    /// Validity of the fixed context: a full camera matrix, one map
    /// entry per pixel, and a grid that fits the integer conversions.
    pub open spec fn wf(self) -> bool {
        &&& mat4_wf(self.transform_ndc2world@)
        &&& self.pix2tri@.len() == self.img_width * self.img_height
        &&& self.img_width <= u32::MAX
        &&& self.img_height <= u32::MAX
    }

    /// The operator's name.
    pub fn name(&self) -> (r: &'static str)
        ensures
            r@ == "pix2depth"@,
    {
        "pix2depth"
    }

    /// The forward pass on the host: the depth image for the given
    /// vertex positions, or the singular-camera error when the
    /// NDC-to-world matrix has no inverse.
    pub fn cpu_fwd(&self, vtx2xyz: &Vec<Scalar>) -> (r: Result<Vec<Scalar>, RenderError>)
        requires
            self.wf(),
            trimesh_wf_u32(self.tri2vtx@, vtx2xyz@),
            pix2tri_wf(self.pix2tri@, (self.tri2vtx@.len() as int) / 3),
        ensures
            r is Err <==> spec_try_inverse(self.transform_ndc2world@) is None,
            r is Err ==> r == Err::<Vec<Scalar>, RenderError>(RenderError::SingularCamera),
            (match r {
                Ok(img) => forall|i: int|
                    0 <= i < img@.len() && self.pix2tri@[i] == NO_HIT ==> (#[trigger] img@[i])
                        == sc(ZERO_BITS),
                Err(_) => true,
            }),
            (match r {
                Ok(img) => img@ == spec_depth_image(
                    self.tri2vtx@,
                    vtx2xyz@,
                    self.pix2tri@,
                    self.img_width,
                    self.img_height,
                    self.transform_ndc2world@,
                    spec_try_inverse(self.transform_ndc2world@)->Some_0,
                ),
                Err(_) => true,
            }),
    {
        let world2ndc = match try_inverse(&self.transform_ndc2world) {
            Some(world2ndc) => world2ndc,
            None => {
                return Err(RenderError::SingularCamera);
            },
        };
        let w = self.img_width;
        let h = self.img_height;
        let total = self.pix2tri.len();
        let mut pix2depth: Vec<Scalar> = Vec::new();
        let mut i_pix: usize = 0;
        while i_pix < total
            invariant
                self.wf(),
                trimesh_wf_u32(self.tri2vtx@, vtx2xyz@),
                pix2tri_wf(self.pix2tri@, (self.tri2vtx@.len() as int) / 3),
                mat4_wf(world2ndc@),
                w == self.img_width,
                h == self.img_height,
                total == self.pix2tri@.len(),
                i_pix <= total,
                pix2depth@.len() == i_pix,
                forall|j: int|
                    0 <= j < i_pix ==> pix2depth@[j] == spec_pixel_depth(self.tri2vtx@, vtx2xyz@,
                        self.pix2tri@, w, h, self.transform_ndc2world@, world2ndc@, j),
            decreases total - i_pix,
        {
            let d = pixel_depth(
                &self.tri2vtx,
                vtx2xyz,
                &self.pix2tri,
                w,
                h,
                &self.transform_ndc2world,
                &world2ndc,
                i_pix,
            );
            pix2depth.push(d);
            i_pix = i_pix + 1;
        }
        proof {
            assert(pix2depth@ =~= spec_depth_image(self.tri2vtx@, vtx2xyz@, self.pix2tri@, w, h,
                self.transform_ndc2world@, world2ndc@));
        }
        Ok(pix2depth)
    }

    /// The backward pass: the per-vertex gradient for the upstream
    /// per-pixel depth sensitivity, or the shape-mismatch error when
    /// that buffer does not hold one value per pixel.
    pub fn bwd(&self, vtx2xyz: &Vec<Scalar>, dw_pix2depth: &Vec<Scalar>) -> (r: Result<
        Vec<Scalar>,
        RenderError,
    >)
        requires
            self.wf(),
            trimesh_wf_u32(self.tri2vtx@, vtx2xyz@),
            pix2tri_wf(self.pix2tri@, (self.tri2vtx@.len() as int) / 3),
        ensures
            r is Ok <==> dw_pix2depth@.len() == self.img_width * self.img_height,
            r is Err ==> r == Err::<Vec<Scalar>, RenderError>(RenderError::ShapeMismatch),
            (match r {
                Ok(grad) => grad@ == spec_backward(
                    self.tri2vtx@,
                    vtx2xyz@,
                    self.pix2tri@,
                    dw_pix2depth@,
                    self.img_width,
                    self.img_height,
                    self.transform_ndc2world@,
                ),
                Err(_) => true,
            }),
    {
        let total = self.pix2tri.len();
        if dw_pix2depth.len() != total {
            return Err(RenderError::ShapeMismatch);
        }
        Ok(
            hoge(
                &self.tri2vtx,
                vtx2xyz,
                (self.img_width, self.img_height),
                &self.pix2tri,
                dw_pix2depth,
                &self.transform_ndc2world,
            ),
        )
    }
}

/// Determinism: the depth image is a function of the mesh, the map, the
/// image size and the camera alone, so any two renders of the same
/// inputs — in whatever pixel order and degree of parallelism — are
/// equal.
pub proof fn lemma_render_deterministic(
    tri2vtx: Seq<u32>,
    vtx2xyz: Seq<Scalar>,
    pix2tri: Seq<u32>,
    w: usize,
    h: usize,
    ndc2world: Seq<Scalar>,
    world2ndc: Seq<Scalar>,
    img1: Seq<Scalar>,
    img2: Seq<Scalar>,
)
    requires
        img1 == spec_depth_image(tri2vtx, vtx2xyz, pix2tri, w, h, ndc2world, world2ndc),
        img2 == spec_depth_image(tri2vtx, vtx2xyz, pix2tri, w, h, ndc2world, world2ndc),
    ensures
        img1 == img2,
{
}

/// Determinism of the backward pass: the gradient buffer is a function
/// of the mesh, the map, the sensitivities, the image size and the
/// camera alone.
pub proof fn lemma_backward_deterministic(
    tri2vtx: Seq<u32>,
    vtx2xyz: Seq<Scalar>,
    pix2tri: Seq<u32>,
    dw_pix2depth: Seq<Scalar>,
    w: usize,
    h: usize,
    ndc2world: Seq<Scalar>,
    grad1: Seq<Scalar>,
    grad2: Seq<Scalar>,
)
    requires
        grad1 == spec_backward(tri2vtx, vtx2xyz, pix2tri, dw_pix2depth, w, h, ndc2world),
        grad2 == spec_backward(tri2vtx, vtx2xyz, pix2tri, dw_pix2depth, w, h, ndc2world),
    ensures
        grad1 == grad2,
{
}

/// Part of the miss invariant: a pixel whose map entry is the sentinel
/// has depth exactly zero.
pub proof fn lemma_miss_pixel_zero_depth(
    tri2vtx: Seq<u32>,
    vtx2xyz: Seq<Scalar>,
    pix2tri: Seq<u32>,
    w: usize,
    h: usize,
    ndc2world: Seq<Scalar>,
    world2ndc: Seq<Scalar>,
    i_pix: int,
)
    requires
        0 <= i_pix < (w * h) as int,
        pix2tri[i_pix] == NO_HIT,
    ensures
        spec_depth_image(tri2vtx, vtx2xyz, pix2tri, w, h, ndc2world, world2ndc)[i_pix] == sc(
            ZERO_BITS,
        ),
{
}

/// The other part of the miss invariant: the gradient ignores the
/// upstream sensitivity at every miss pixel — two sensitivity images
/// that agree on the hit pixels give the same gradient, whatever they
/// hold at the misses.
pub proof fn lemma_miss_pixels_zero_gradient(
    tri2vtx: Seq<u32>,
    vtx2xyz: Seq<Scalar>,
    pix2tri: Seq<u32>,
    dw1: Seq<Scalar>,
    dw2: Seq<Scalar>,
    w: usize,
    h: usize,
    ndc2world: Seq<Scalar>,
)
    requires
        pix2tri.len() == (w * h) as int,
        forall|j: int| 0 <= j < pix2tri.len() && pix2tri[j] != NO_HIT ==> dw1[j] == dw2[j],
    ensures
        spec_backward(tri2vtx, vtx2xyz, pix2tri, dw1, w, h, ndc2world) == spec_backward(
            tri2vtx,
            vtx2xyz,
            pix2tri,
            dw2,
            w,
            h,
            ndc2world,
        ),
{
    lemma_bwd_from_dw_agree(
        tri2vtx,
        vtx2xyz,
        pix2tri,
        dw1,
        dw2,
        w,
        h,
        ndc2world,
        0,
        zero_buffer(vtx2xyz.len()),
    );
}

/// A map with no hit at all yields the zero gradient buffer, whatever
/// the upstream sensitivities are.
pub proof fn lemma_all_miss_zero_gradient(
    tri2vtx: Seq<u32>,
    vtx2xyz: Seq<Scalar>,
    pix2tri: Seq<u32>,
    dw_pix2depth: Seq<Scalar>,
    w: usize,
    h: usize,
    ndc2world: Seq<Scalar>,
)
    requires
        pix2tri.len() == (w * h) as int,
        forall|j: int| 0 <= j < pix2tri.len() ==> pix2tri[j] == NO_HIT,
    ensures
        spec_backward(tri2vtx, vtx2xyz, pix2tri, dw_pix2depth, w, h, ndc2world) == zero_buffer(
            vtx2xyz.len(),
        ),
{
    lemma_bwd_from_all_miss(
        tri2vtx,
        vtx2xyz,
        pix2tri,
        dw_pix2depth,
        w,
        h,
        ndc2world,
        0,
        zero_buffer(vtx2xyz.len()),
    );
}

proof fn lemma_bwd_from_all_miss(
    tri2vtx: Seq<u32>,
    vtx2xyz: Seq<Scalar>,
    pix2tri: Seq<u32>,
    dw_pix2depth: Seq<Scalar>,
    w: usize,
    h: usize,
    ndc2world: Seq<Scalar>,
    i_pix: int,
    state: Seq<Scalar>,
)
    requires
        pix2tri.len() == (w * h) as int,
        forall|j: int| 0 <= j < pix2tri.len() ==> pix2tri[j] == NO_HIT,
        0 <= i_pix,
    ensures
        spec_bwd_from(tri2vtx, vtx2xyz, pix2tri, dw_pix2depth, w, h, ndc2world, i_pix, state)
            == state,
    decreases (w * h) as int - i_pix,
{
    if i_pix < (w * h) as int {
        lemma_bwd_from_all_miss(
            tri2vtx,
            vtx2xyz,
            pix2tri,
            dw_pix2depth,
            w,
            h,
            ndc2world,
            i_pix + 1,
            state,
        );
    }
}

proof fn lemma_bwd_from_dw_agree(
    tri2vtx: Seq<u32>,
    vtx2xyz: Seq<Scalar>,
    pix2tri: Seq<u32>,
    dw1: Seq<Scalar>,
    dw2: Seq<Scalar>,
    w: usize,
    h: usize,
    ndc2world: Seq<Scalar>,
    i_pix: int,
    state: Seq<Scalar>,
)
    requires
        pix2tri.len() == (w * h) as int,
        forall|j: int| 0 <= j < pix2tri.len() && pix2tri[j] != NO_HIT ==> dw1[j] == dw2[j],
        0 <= i_pix,
    ensures
        spec_bwd_from(tri2vtx, vtx2xyz, pix2tri, dw1, w, h, ndc2world, i_pix, state)
            == spec_bwd_from(tri2vtx, vtx2xyz, pix2tri, dw2, w, h, ndc2world, i_pix, state),
    decreases (w * h) as int - i_pix,
{
    if i_pix < (w * h) as int {
        assert(spec_pixel_grad(tri2vtx, vtx2xyz, pix2tri, dw1, w, h, ndc2world, i_pix, state)
            == spec_pixel_grad(tri2vtx, vtx2xyz, pix2tri, dw2, w, h, ndc2world, i_pix, state));
        lemma_bwd_from_dw_agree(
            tri2vtx,
            vtx2xyz,
            pix2tri,
            dw1,
            dw2,
            w,
            h,
            ndc2world,
            i_pix + 1,
            spec_pixel_grad(tri2vtx, vtx2xyz, pix2tri, dw1, w, h, ndc2world, i_pix, state),
        );
    }
}

/// Whether vertex `iv` is a corner of some triangle that some pixel's
/// map entry names.
pub open spec fn vertex_hit(tri2vtx: Seq<u32>, pix2tri: Seq<u32>, iv: int) -> bool {
    exists|j: int|
        0 <= j < pix2tri.len() && pix2tri[j] != NO_HIT && ((tri2vtx[(pix2tri[j] as int) * 3] as int)
            == iv || (tri2vtx[(pix2tri[j] as int) * 3 + 1] as int) == iv || (tri2vtx[(pix2tri[j]
            as int) * 3 + 2] as int) == iv)
}

/// Gradient locality: a vertex that is a corner of no triangle named by
/// any pixel's map entry receives the zero gradient vector.
pub proof fn lemma_gradient_locality(
    tri2vtx: Seq<u32>,
    vtx2xyz: Seq<Scalar>,
    pix2tri: Seq<u32>,
    dw_pix2depth: Seq<Scalar>,
    w: usize,
    h: usize,
    ndc2world: Seq<Scalar>,
    iv: int,
)
    requires
        trimesh_wf_u32(tri2vtx, vtx2xyz),
        pix2tri_wf(pix2tri, (tri2vtx.len() as int) / 3),
        pix2tri.len() == (w * h) as int,
        0 <= iv,
        iv * 3 + 2 < vtx2xyz.len(),
        !vertex_hit(tri2vtx, pix2tri, iv),
    ensures
        spec_backward(tri2vtx, vtx2xyz, pix2tri, dw_pix2depth, w, h, ndc2world)[iv * 3] == sc(
            ZERO_BITS,
        ),
        spec_backward(tri2vtx, vtx2xyz, pix2tri, dw_pix2depth, w, h, ndc2world)[iv * 3 + 1] == sc(
            ZERO_BITS,
        ),
        spec_backward(tri2vtx, vtx2xyz, pix2tri, dw_pix2depth, w, h, ndc2world)[iv * 3 + 2] == sc(
            ZERO_BITS,
        ),
{
    let zeros = zero_buffer(vtx2xyz.len());
    lemma_bwd_from_unused_vertex(tri2vtx, vtx2xyz, pix2tri, dw_pix2depth, w, h, ndc2world, iv, 0, 0, zeros);
    lemma_bwd_from_unused_vertex(tri2vtx, vtx2xyz, pix2tri, dw_pix2depth, w, h, ndc2world, iv, 1, 0, zeros);
    lemma_bwd_from_unused_vertex(tri2vtx, vtx2xyz, pix2tri, dw_pix2depth, w, h, ndc2world, iv, 2, 0, zeros);
}

proof fn lemma_bwd_from_unused_vertex(
    tri2vtx: Seq<u32>,
    vtx2xyz: Seq<Scalar>,
    pix2tri: Seq<u32>,
    dw_pix2depth: Seq<Scalar>,
    w: usize,
    h: usize,
    ndc2world: Seq<Scalar>,
    iv: int,
    c: int,
    i_pix: int,
    state: Seq<Scalar>,
)
    requires
        trimesh_wf_u32(tri2vtx, vtx2xyz),
        pix2tri_wf(pix2tri, (tri2vtx.len() as int) / 3),
        pix2tri.len() == (w * h) as int,
        0 <= iv,
        0 <= c < 3,
        iv * 3 + 2 < vtx2xyz.len(),
        !vertex_hit(tri2vtx, pix2tri, iv),
        0 <= i_pix,
        state.len() == vtx2xyz.len(),
        state[iv * 3 + c] == sc(ZERO_BITS),
    ensures
        spec_bwd_from(tri2vtx, vtx2xyz, pix2tri, dw_pix2depth, w, h, ndc2world, i_pix, state).len()
            == state.len(),
        spec_bwd_from(tri2vtx, vtx2xyz, pix2tri, dw_pix2depth, w, h, ndc2world, i_pix, state)[iv * 3
            + c] == sc(ZERO_BITS),
    decreases (w * h) as int - i_pix,
{
    if i_pix < (w * h) as int {
        let state1 = spec_pixel_grad(
            tri2vtx,
            vtx2xyz,
            pix2tri,
            dw_pix2depth,
            w,
            h,
            ndc2world,
            i_pix,
            state,
        );
        broadcast use lemma_add3_at_other;
        let i_tri = pix2tri[i_pix];
        if i_tri != NO_HIT {
            let b = (i_tri as int) * 3;
            assert(b + 2 < tri2vtx.len()) by (nonlinear_arith)
                requires
                    b == (i_tri as int) * 3,
                    (i_tri as int) < (tri2vtx.len() as int) / 3,
                    tri2vtx.len() % 3 == 0,
            ;
            assert((tri2vtx[b] as int) != iv) by {
                if (tri2vtx[b] as int) == iv {
                    assert(0 <= i_pix < pix2tri.len() && pix2tri[i_pix] != NO_HIT);
                    assert(vertex_hit(tri2vtx, pix2tri, iv));
                }
            }
            assert((tri2vtx[b + 1] as int) != iv) by {
                if (tri2vtx[b + 1] as int) == iv {
                    assert(0 <= i_pix < pix2tri.len() && pix2tri[i_pix] != NO_HIT);
                    assert(vertex_hit(tri2vtx, pix2tri, iv));
                }
            }
            assert((tri2vtx[b + 2] as int) != iv) by {
                if (tri2vtx[b + 2] as int) == iv {
                    assert(0 <= i_pix < pix2tri.len() && pix2tri[i_pix] != NO_HIT);
                    assert(vertex_hit(tri2vtx, pix2tri, iv));
                }
            }
        }
        assert(state1[iv * 3 + c] == sc(ZERO_BITS));
        lemma_bwd_from_unused_vertex(
            tri2vtx,
            vtx2xyz,
            pix2tri,
            dw_pix2depth,
            w,
            h,
            ndc2world,
            iv,
            c,
            i_pix + 1,
            state1,
        );
    }
}

} // verus!
