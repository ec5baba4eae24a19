//! End-to-end renders: the depth image and the per-vertex gradient on
//! small synthetic scenes — determinism, the miss invariant, the depth
//! range, agreement with a hardware single-precision implementation,
//! finite differences, and a gradient-descent scenario.

use pix2depth::mat4::identity;
use pix2depth::pix2depth::{Pix2Depth, RenderError, NO_HIT};
use pix2depth::scalar::Scalar;
use pix2depth::trimesh3::first_intersection_ray;
use pix2depth::cam3::ray3_homogeneous;
use pix2depth::vec3::V3;
use del_geo_core::vec3::Vec3 as RefVec3;

fn rb(xs: &[f32]) -> Vec<Scalar> {
    xs.iter().map(|x| Scalar::new(x.to_bits())).collect()
}

fn rb_back(xs: &[Scalar]) -> Vec<f32> {
    xs.iter().map(|s| f32::from_bits(s.bits)).collect()
}

fn rv_back(v: V3) -> [f32; 3] {
    [
        f32::from_bits(v.x.bits),
        f32::from_bits(v.y.bits),
        f32::from_bits(v.z.bits),
    ]
}

/// Builds the pixel-to-triangle map by brute force, as the external
/// closest-hit collaborator would.
fn build_pix2tri(
    tri2vtx: &[u32],
    vtx2xyz: &[f32],
    (w, h): (usize, usize),
    ndc2world: &Vec<Scalar>,
) -> Vec<u32> {
    let tri_usize: Vec<usize> = tri2vtx.iter().map(|&i| i as usize).collect();
    let vtx = rb(vtx2xyz);
    let mut map = Vec::new();
    for i_h in 0..h {
        for i_w in 0..w {
            let (org, dir) = ray3_homogeneous((i_w, i_h), (w, h), ndc2world).unwrap();
            let entry = match first_intersection_ray(org, dir, &tri_usize, &vtx) {
                Some((_t, i_tri)) => i_tri as u32,
                None => NO_HIT,
            };
            map.push(entry);
        }
    }
    map
}

fn square_mesh(z: f32) -> (Vec<u32>, Vec<f32>) {
    (
        vec![0, 1, 2, 0, 2, 3],
        vec![
            -1.0, -1.0, z, 1.0, -1.0, z, 1.0, 1.0, z, -1.0, 1.0, z,
        ],
    )
}

fn render(op: &Pix2Depth, vtx2xyz: &[f32]) -> Vec<f32> {
    rb_back(&op.cpu_fwd(&rb(vtx2xyz)).unwrap())
}

fn make_op(tri2vtx: &[u32], vtx2xyz: &[f32], (w, h): (usize, usize)) -> Pix2Depth {
    let ndc2world = identity();
    let pix2tri = build_pix2tri(tri2vtx, vtx2xyz, (w, h), &ndc2world);
    Pix2Depth {
        tri2vtx: tri2vtx.to_vec(),
        pix2tri,
        transform_ndc2world: ndc2world,
        img_width: w,
        img_height: h,
    }
}

#[test]
fn depth_of_flat_square_is_uniform() {
    let (tri2vtx, vtx2xyz) = square_mesh(0.4);
    let op = make_op(&tri2vtx, &vtx2xyz, (4, 4));
    assert!(op.pix2tri.iter().all(|&e| e != NO_HIT));
    let depth = render(&op, &vtx2xyz);
    for d in depth {
        assert!((d - 0.7).abs() < 1.0e-6);
    }
}

#[test]
fn depth_is_zero_on_back_plane_and_one_on_front_plane() {
    let (tri2vtx, vtx2xyz) = square_mesh(-1.0);
    let op = make_op(&tri2vtx, &vtx2xyz, (4, 4));
    for d in render(&op, &vtx2xyz) {
        assert_eq!(d, 0.0);
    }
    let (tri2vtx, vtx2xyz) = square_mesh(1.0);
    let op = make_op(&tri2vtx, &vtx2xyz, (4, 4));
    for d in render(&op, &vtx2xyz) {
        assert_eq!(d, 1.0);
    }
}

fn tilted_triangle() -> (Vec<u32>, Vec<f32>) {
    (
        vec![0, 1, 2],
        vec![-0.9, -0.9, 0.3, 0.9, -0.5, 0.35, 0.0, 0.9, 0.25],
    )
}

#[test]
fn depth_in_unit_range_and_zero_on_miss() {
    let (tri2vtx, vtx2xyz) = tilted_triangle();
    let op = make_op(&tri2vtx, &vtx2xyz, (8, 8));
    let depth = render(&op, &vtx2xyz);
    let mut n_miss = 0;
    let mut n_hit = 0;
    for (i, d) in depth.iter().enumerate() {
        if op.pix2tri[i] == NO_HIT {
            n_miss += 1;
            assert_eq!(d.to_bits(), 0);
        } else {
            n_hit += 1;
            assert!(*d >= 0.0 && *d <= 1.0);
        }
    }
    assert!(n_miss > 0 && n_hit > 0);
}

#[test]
fn render_is_deterministic() {
    let (tri2vtx, vtx2xyz) = tilted_triangle();
    let op = make_op(&tri2vtx, &vtx2xyz, (8, 8));
    let d1 = op.cpu_fwd(&rb(&vtx2xyz)).unwrap();
    let d2 = op.cpu_fwd(&rb(&vtx2xyz)).unwrap();
    assert_eq!(d1, d2);
    let dw: Vec<f32> = (0..64).map(|i| 0.01 * i as f32).collect();
    let g1 = op.bwd(&rb(&vtx2xyz), &rb(&dw)).unwrap();
    let g2 = op.bwd(&rb(&vtx2xyz), &rb(&dw)).unwrap();
    assert_eq!(g1, g2);
}

#[test]
fn miss_pixels_contribute_no_gradient() {
    let (tri2vtx, vtx2xyz) = tilted_triangle();
    let op = make_op(&tri2vtx, &vtx2xyz, (8, 8));
    let dw1: Vec<f32> = (0..64).map(|i| 0.01 * i as f32).collect();
    let mut dw2 = dw1.clone();
    for (i, v) in dw2.iter_mut().enumerate() {
        if op.pix2tri[i] == NO_HIT {
            *v = 1.0e6;
        }
    }
    let g1 = op.bwd(&rb(&vtx2xyz), &rb(&dw1)).unwrap();
    let g2 = op.bwd(&rb(&vtx2xyz), &rb(&dw2)).unwrap();
    assert_eq!(g1, g2);
}

#[test]
fn gradient_matches_hardware_backend() {
    // The same forward and backward passes written directly in hardware
    // single-precision arithmetic over the reference geometry library.
    let (tri2vtx, vtx2xyz) = tilted_triangle();
    let (w, h) = (8usize, 8usize);
    let op = make_op(&tri2vtx, &vtx2xyz, (w, h));
    let ndc2world: [f32; 16] = del_geo_core::mat4_col_major::from_identity::<f32>();
    let world2ndc = del_geo_core::mat4_col_major::try_inverse(&ndc2world).unwrap();

    let depth_ours = render(&op, &vtx2xyz);
    let dw: Vec<f32> = depth_ours.iter().map(|d| 2.0 * (d - 0.5)).collect();
    let grad_ours = rb_back(&op.bwd(&rb(&vtx2xyz), &rb(&dw)).unwrap());

    let mut depth_hw = vec![0.0f32; w * h];
    let mut grad_hw = vec![0.0f32; vtx2xyz.len()];
    for i_h in 0..h {
        for i_w in 0..w {
            let i_pix = i_h * w + i_w;
            let i_tri = op.pix2tri[i_pix];
            if i_tri == NO_HIT {
                continue;
            }
            let x0 = 2.0 * (i_w as f32 + 0.5) / (w as f32) - 1.0;
            let y0 = 1.0 - 2.0 * (i_h as f32 + 0.5) / (h as f32);
            let p0 =
                del_geo_core::mat4_col_major::transform_homogeneous(&ndc2world, &[x0, y0, 1.0])
                    .unwrap();
            let p1 =
                del_geo_core::mat4_col_major::transform_homogeneous(&ndc2world, &[x0, y0, -1.0])
                    .unwrap();
                    let dir = p1.sub(&p0);
            let tri_usize: Vec<usize> = tri2vtx.iter().map(|&v| v as usize).collect();
            let (c0, c1, c2) =
                del_msh_core::trimesh3::to_corner_points(&tri_usize, &vtx2xyz, i_tri as usize);
            let t = del_geo_core::tri3::intersection_against_line(&c0, &c1, &c2, &p0, &dir)
                .unwrap();
            let pos_world = del_geo_core::vec3::axpy(t, &dir, &p0);
            let pos_ndc =
                del_geo_core::mat4_col_major::transform_homogeneous(&world2ndc, &pos_world)
                    .unwrap();
            depth_hw[i_pix] = (pos_ndc[2] + 1.0) * 0.5;
            let (_t, _u, _v, d_p0, d_p1, d_p2) =
                del_geo_core::tri3::intersection_against_line_bwd_wrt_tri(
                    &c0, &c1, &c2, &p0, &dir, -dw[i_pix], 0.0, 0.0,
                );
            let scale = dir.norm();
            let iv = [
                tri2vtx[i_tri as usize * 3] as usize,
                tri2vtx[i_tri as usize * 3 + 1] as usize,
                tri2vtx[i_tri as usize * 3 + 2] as usize,
            ];
            for (ivx, dp) in iv.iter().zip([d_p0, d_p1, d_p2].iter()) {
                for c in 0..3 {
                    grad_hw[ivx * 3 + c] += dp[c] * scale;
                }
            }
        }
    }
    for (a, b) in depth_ours.iter().zip(depth_hw.iter()) {
        assert!((a - b).abs() < 1.0e-6);
    }
    for (a, b) in grad_ours.iter().zip(grad_hw.iter()) {
        assert!((a - b).abs() < 1.0e-6);
    }
}

#[test]
fn analytic_gradient_matches_finite_differences() {
    let (tri2vtx, vtx2xyz) = tilted_triangle();
    let (w, h) = (8usize, 8usize);
    let op = make_op(&tri2vtx, &vtx2xyz, (w, h));

    let loss = |v: &[f32]| -> f64 {
        let depth = rb_back(&op.cpu_fwd(&rb(v)).unwrap());
        depth.iter().map(|&d| (d as f64) * (d as f64)).sum()
    };
    let depth = rb_back(&op.cpu_fwd(&rb(&vtx2xyz)).unwrap());
    let dw: Vec<f32> = depth.iter().map(|d| 2.0 * d).collect();
    let grad = rb_back(&op.bwd(&rb(&vtx2xyz), &rb(&dw)).unwrap());

    // The accumulated sensitivity is rescaled by the norm of the
    // unnormalized ray direction; with this camera that norm is 2 for
    // every pixel, and the depth falls by one as the raw ray parameter
    // runs from the front plane to the back plane, so the accumulated
    // value is exactly twice the derivative of the loss.
    let eps = 1.0e-3f32;
    for k in 0..vtx2xyz.len() {
        let mut vp = vtx2xyz.clone();
        vp[k] += eps;
        let mut vm = vtx2xyz.clone();
        vm[k] -= eps;
        let fd = (loss(&vp) - loss(&vm)) / (2.0 * eps as f64);
        let an = grad[k] as f64;
        assert!(
            (2.0 * fd - an).abs() <= 1.0e-3 + 1.0e-2 * an.abs(),
            "coordinate {}: finite difference {} vs accumulated {}",
            k,
            fd,
            an
        );
    }
}

#[test]
fn flat_square_descends_toward_target_depth() {
    // A flat two-triangle square seen by a 4x4 orthographic-like camera:
    // uniform depth 0.7 against a uniform target 0.5.  All four vertex
    // gradients must be equal and nonzero, and a plain gradient step
    // must decrease the loss monotonically.
    let (tri2vtx, mut vtx2xyz) = square_mesh(0.4);
    let (w, h) = (4usize, 4usize);
    let target = 0.5f32;

    let loss_of = |depth: &[f32]| -> f32 {
        depth.iter().map(|d| (d - target) * (d - target)).sum()
    };

    let op0 = make_op(&tri2vtx, &vtx2xyz, (w, h));
    let depth0 = render(&op0, &vtx2xyz);
    let dw0: Vec<f32> = depth0.iter().map(|d| 2.0 * (d - target)).collect();
    let grad0 = rb_back(&op0.bwd(&rb(&vtx2xyz), &rb(&dw0)).unwrap());
    // For a flat square only the z components are nonzero, every
    // vertex's gradient points the same way, and the square's symmetry
    // pairs the two diagonal corners (which sit in both triangles) and
    // the two off-diagonal corners.
    for iv in 0..4 {
        assert!(grad0[iv * 3].abs() < 1.0e-6);
        assert!(grad0[iv * 3 + 1].abs() < 1.0e-6);
        // The depth is too large, so the z gradient must be positive: a
        // descent step reduces the z offset.
        assert!(grad0[iv * 3 + 2] > 0.0);
    }
    assert!((grad0[0 * 3 + 2] - grad0[2 * 3 + 2]).abs() < 1.0e-6);
    assert!((grad0[1 * 3 + 2] - grad0[3 * 3 + 2]).abs() < 1.0e-6);

    let lr = 0.02f32;
    let mut prev_loss = loss_of(&depth0);
    for _iter in 0..5 {
        let op = make_op(&tri2vtx, &vtx2xyz, (w, h));
        let depth = render(&op, &vtx2xyz);
        let dw: Vec<f32> = depth.iter().map(|d| 2.0 * (d - target)).collect();
        let grad = rb_back(&op.bwd(&rb(&vtx2xyz), &rb(&dw)).unwrap());
        for (v, g) in vtx2xyz.iter_mut().zip(grad.iter()) {
            *v -= lr * g;
        }
        let op = make_op(&tri2vtx, &vtx2xyz, (w, h));
        let new_loss = loss_of(&render(&op, &vtx2xyz));
        assert!(new_loss < prev_loss);
        prev_loss = new_loss;
    }
}

#[test]
fn operator_reports_its_name() {
    let (tri2vtx, vtx2xyz) = square_mesh(0.4);
    let op = make_op(&tri2vtx, &vtx2xyz, (4, 4));
    assert_eq!(op.name(), "pix2depth");
}

#[test]
fn singular_camera_is_reported_once() {
    let (tri2vtx, vtx2xyz) = square_mesh(0.4);
    let op = Pix2Depth {
        tri2vtx: tri2vtx.clone(),
        pix2tri: vec![NO_HIT; 16],
        transform_ndc2world: vec![Scalar::new(0); 16],
        img_width: 4,
        img_height: 4,
    };
    assert_eq!(
        op.cpu_fwd(&rb(&vtx2xyz)).unwrap_err(),
        RenderError::SingularCamera
    );
}

#[test]
fn mismatched_gradient_image_is_rejected() {
    let (tri2vtx, vtx2xyz) = square_mesh(0.4);
    let op = make_op(&tri2vtx, &vtx2xyz, (4, 4));
    let err = op.bwd(&rb(&vtx2xyz), &rb(&vec![0.0f32; 7])).unwrap_err();
    assert_eq!(err, RenderError::ShapeMismatch);
}

#[test]
fn unused_vertex_gets_zero_gradient() {
    // A fifth vertex belongs to a triangle behind the square that no
    // pixel maps to; its gradient must be exactly zero.
    let tri2vtx: Vec<u32> = vec![0, 1, 2, 0, 2, 3];
    let vtx2xyz: Vec<f32> = vec![
        -1.0, -1.0, 0.4, 1.0, -1.0, 0.4, 1.0, 1.0, 0.4, -1.0, 1.0, 0.4, 5.0, 5.0, 5.0,
    ];
    let op = make_op(&tri2vtx, &vtx2xyz, (4, 4));
    let dw = vec![0.3f32; 16];
    let grad = op.bwd(&rb(&vtx2xyz), &rb(&dw)).unwrap();
    assert_eq!(grad[12].bits, 0);
    assert_eq!(grad[13].bits, 0);
    assert_eq!(grad[14].bits, 0);
    let touched = rb_back(&grad)[..12].iter().any(|g| *g != 0.0);
    assert!(touched);
}

#[test]
fn ray_generation_matches_hardware() {
    let ndc2world = identity();
    let (w, h) = (200usize, 200usize);
    let m: [f32; 16] = del_geo_core::mat4_col_major::from_identity::<f32>();
    for (i_w, i_h) in [(0usize, 0usize), (5, 7), (199, 199), (100, 3)] {
        let (org, dir) = ray3_homogeneous((i_w, i_h), (w, h), &ndc2world).unwrap();
        let x0 = 2.0 * (i_w as f32 + 0.5) / (w as f32) - 1.0;
        let y0 = 1.0 - 2.0 * (i_h as f32 + 0.5) / (h as f32);
        let p0 = del_geo_core::mat4_col_major::transform_homogeneous(&m, &[x0, y0, 1.0]).unwrap();
        let p1 = del_geo_core::mat4_col_major::transform_homogeneous(&m, &[x0, y0, -1.0]).unwrap();
            assert_eq!(rv_back(org), p0);
        assert_eq!(rv_back(dir), p1.sub(&p0));
    }
}
