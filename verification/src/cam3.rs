//! Cameras: a simple pinhole camera and homogeneous-transform ray
//! generation for a normalized-device-coordinate camera.
//!
//! `ray3_homogeneous` maps a pixel center to normalized device coordinates
//! (with the vertical flip: pixel row zero is the top of the image), sends
//! the two homogeneous points on the front plane (z = 1) and the back
//! plane (z = -1) through the NDC-to-world matrix, and returns the
//! front-plane point together with the unnormalized front-to-back vector.

use vstd::prelude::*;

use crate::mat4::{mat4_wf, spec_transform_homogeneous, transform_homogeneous};
use crate::scalar::{
    from_u32_bits, s_add, s_div, s_mul, s_sub, sc, sf_add, sf_div, sf_from_u32, sf_mul, sf_sub,
    Scalar, HALF_BITS, NEG_ONE_BITS, ONE_BITS, TWO_BITS, ZERO_BITS,
};
use crate::vec3::V3;

verus! {

/// Bits of the half field-of-view factor 0.5135
pub const FOV_FACTOR_BITS: u32 = 0x3F03_74BC;
/// Bits of the eye-to-screen distance 140.0
pub const SCREEN_DIST_BITS: u32 = 0x430C_0000;

/// A pinhole camera over a `w` by `h` pixel grid: an eye position `o`,
/// a unit viewing direction `d`, and screen basis vectors `cx` and `cy`.
#[derive(Clone, Copy, PartialEq, Eq, Structural, Debug)]
pub struct Camera3 {
    pub w: usize,
    pub h: usize,
    pub o: V3,
    pub d: V3,
    pub cx: V3,
    pub cy: V3,
}

/// The scalar nearest to the integer, which must fit in 32 bits.
pub open spec fn spec_from_usize(a: usize) -> Scalar {
    sc(from_u32_bits(a as u32))
}

/// The vector divided componentwise by its norm.
pub open spec fn spec_normalize_div(v: V3) -> V3 {
    let l = v.spec_norm();
    V3 { x: s_div(v.x, l), y: s_div(v.y, l), z: s_div(v.z, l) }
}

/// The vector divided componentwise by its norm.
pub fn normalize_div(v: V3) -> (r: V3)
    ensures
        r == spec_normalize_div(v),
{
    let l = v.norm();
    V3 { x: sf_div(v.x, l), y: sf_div(v.y, l), z: sf_div(v.z, l) }
}

impl Camera3 {
    /// Whether the pixel grid fits the 32-bit integer conversions.
    pub open spec fn wf(self) -> bool {
        self.w <= u32::MAX && self.h <= u32::MAX
    }

    /// The camera built from the grid size, the eye position and the
    /// viewing direction.
    pub open spec fn spec_new(w: usize, h: usize, o: V3, d: V3) -> Camera3 {
        let dn = spec_normalize_div(d);
        let cx = V3 {
            x: s_div(s_mul(spec_from_usize(w), sc(FOV_FACTOR_BITS)), spec_from_usize(h)),
            y: sc(ZERO_BITS),
            z: sc(ZERO_BITS),
        };
        let cy = spec_normalize_div(cx.spec_cross(dn)).spec_scale(sc(FOV_FACTOR_BITS));
        Camera3 { w, h, o, d: dn, cx, cy }
    }

    /// The camera built from the grid size, the eye position and the
    /// viewing direction.
    pub fn new(w: usize, h: usize, o: V3, d: V3) -> (r: Camera3)
        requires
            w <= u32::MAX,
            h <= u32::MAX,
        ensures
            r == Camera3::spec_new(w, h, o, d),
            r.wf(),
    {
        let dn = normalize_div(d);
        let fw = sf_from_u32(w as u32);
        let fh = sf_from_u32(h as u32);
        let cx = V3 {
            x: sf_div(sf_mul(fw, Scalar { bits: FOV_FACTOR_BITS }), fh),
            y: Scalar { bits: ZERO_BITS },
            z: Scalar { bits: ZERO_BITS },
        };
        let cy = normalize_div(cx.cross(dn)).scale(Scalar { bits: FOV_FACTOR_BITS });
        Camera3 { w, h, o, d: dn, cx, cy }
    }

    /// The ray through screen coordinates `(x0, y0)`: an origin on the
    /// screen plane and a unit direction.
    pub open spec fn spec_ray(self, x0: Scalar, y0: Scalar) -> (V3, V3) {
        let a = s_sub(s_div(x0, spec_from_usize(self.w)), sc(HALF_BITS));
        let b = s_sub(s_div(y0, spec_from_usize(self.h)), sc(HALF_BITS));
        let d = self.cx.spec_scale(a).spec_add(self.cy.spec_scale(b)).spec_add(self.d);
        (self.o.spec_add(d.spec_scale(sc(SCREEN_DIST_BITS))), spec_normalize_div(d))
    }

    /// The ray through screen coordinates `(x0, y0)`.
    pub fn ray(&self, x0: Scalar, y0: Scalar) -> (r: (V3, V3))
        requires
            self.wf(),
        ensures
            r == self.spec_ray(x0, y0),
    {
        let a = sf_sub(sf_div(x0, sf_from_u32(self.w as u32)), Scalar { bits: HALF_BITS });
        let b = sf_sub(sf_div(y0, sf_from_u32(self.h as u32)), Scalar { bits: HALF_BITS });
        let d = self.cx.scale(a).add(self.cy.scale(b)).add(self.d);
        (self.o.add(d.scale(Scalar { bits: SCREEN_DIST_BITS })), normalize_div(d))
    }
}

/// The normalized-device x coordinate of the pixel-column center:
/// `2 * (i_w + 0.5) / w - 1`.
pub open spec fn spec_ndc_x(i_w: usize, w: usize) -> Scalar {
    s_sub(
        s_div(s_mul(sc(TWO_BITS), s_add(spec_from_usize(i_w), sc(HALF_BITS))), spec_from_usize(w)),
        sc(ONE_BITS),
    )
}

/// The normalized-device y coordinate of the pixel-row center:
/// `1 - 2 * (i_h + 0.5) / h` (row zero is the top of the image).
pub open spec fn spec_ndc_y(i_h: usize, h: usize) -> Scalar {
    s_sub(
        sc(ONE_BITS),
        s_div(s_mul(sc(TWO_BITS), s_add(spec_from_usize(i_h), sc(HALF_BITS))), spec_from_usize(h)),
    )
}

/// The pixel's ray for an NDC-to-world camera: the front-plane point and
/// the unnormalized vector from it to the back-plane point.  `None` when
/// either homogeneous transform lands at a zero fourth coordinate.
pub open spec fn spec_ray3_homogeneous(
    pix_coord: (usize, usize),
    image_size: (usize, usize),
    transform_ndc_to_world: Seq<Scalar>,
) -> Option<(V3, V3)> {
    let x0 = spec_ndc_x(pix_coord.0, image_size.0);
    let y0 = spec_ndc_y(pix_coord.1, image_size.1);
    let q0 = spec_transform_homogeneous(
        transform_ndc_to_world,
        V3 { x: x0, y: y0, z: sc(ONE_BITS) },
    );
    let q1 = spec_transform_homogeneous(
        transform_ndc_to_world,
        V3 { x: x0, y: y0, z: sc(NEG_ONE_BITS) },
    );
    match (q0, q1) {
        (Some(p0), Some(p1)) => Some((p0, p1.spec_sub(p0))),
        _ => None,
    }
}

/// The pixel's ray: it starts on the front plane and its unnormalized
/// direction reaches the back plane.
pub fn ray3_homogeneous(
    pix_coord: (usize, usize),
    image_size: (usize, usize),
    transform_ndc_to_world: &Vec<Scalar>,
) -> (r: Option<(V3, V3)>)
    requires
        pix_coord.0 <= u32::MAX,
        pix_coord.1 <= u32::MAX,
        image_size.0 <= u32::MAX,
        image_size.1 <= u32::MAX,
        mat4_wf(transform_ndc_to_world@),
    ensures
        r == spec_ray3_homogeneous(pix_coord, image_size, transform_ndc_to_world@),
{
    let two = Scalar { bits: TWO_BITS };
    let half = Scalar { bits: HALF_BITS };
    let one = Scalar { bits: ONE_BITS };
    let x0 = sf_sub(
        sf_div(
            sf_mul(two, sf_add(sf_from_u32(pix_coord.0 as u32), half)),
            sf_from_u32(image_size.0 as u32),
        ),
        one,
    );
    let y0 = sf_sub(
        one,
        sf_div(
            sf_mul(two, sf_add(sf_from_u32(pix_coord.1 as u32), half)),
            sf_from_u32(image_size.1 as u32),
        ),
    );
    let q0 = transform_homogeneous(transform_ndc_to_world, V3 { x: x0, y: y0, z: one });
    let q1 = transform_homogeneous(
        transform_ndc_to_world,
        V3 { x: x0, y: y0, z: Scalar { bits: NEG_ONE_BITS } },
    );
    match (q0, q1) {
        (Some(p0), Some(p1)) => Some((p0, p1.sub(p0))),
        _ => None,
    }
}

} // verus!
