//! The geometry kernels against the reference geometry library: the
//! intersection, its reverse pass, the matrix routines and the
//! brute-force closest-hit query must agree bit for bit with their
//! hardware single-precision counterparts.

use pix2depth::mat4::{identity, transform_direction, transform_homogeneous, try_inverse};
use pix2depth::scalar::Scalar;
use pix2depth::tri3::{
    intersection_against_line, intersection_against_line_bwd_wrt_tri, normal,
    to_barycentric_coords,
};
use pix2depth::trimesh3::{first_intersection_ray, merge, to_corner_points, transform_vtx2xyz};
use pix2depth::vec3::V3;
use del_geo_core::vec3::Vec3 as RefVec3;

fn gv(p: &[f32; 3]) -> V3 {
    V3::new(
        Scalar::new(p[0].to_bits()),
        Scalar::new(p[1].to_bits()),
        Scalar::new(p[2].to_bits()),
    )
}

fn gv_back(v: V3) -> [f32; 3] {
    [
        f32::from_bits(v.x.bits),
        f32::from_bits(v.y.bits),
        f32::from_bits(v.z.bits),
    ]
}

fn gbuf(xs: &[f32]) -> Vec<Scalar> {
    xs.iter().map(|x| Scalar::new(x.to_bits())).collect()
}

fn gbuf_back(xs: &[Scalar]) -> Vec<f32> {
    xs.iter().map(|s| f32::from_bits(s.bits)).collect()
}

#[test]
fn vector_ops_match_hardware() {
    let a = [1.25f32, -2.5, 3.75];
    let b = [0.5f32, 4.25, -1.125];
    assert_eq!(gv_back(gv(&a).add(gv(&b))), a.add(&b));
    assert_eq!(gv_back(gv(&a).sub(gv(&b))), a.sub(&b));
    assert_eq!(gv_back(gv(&a).cross(gv(&b))), a.cross(&b));
    assert_eq!(f32::from_bits(gv(&a).dot(gv(&b)).bits), a.dot(&b));
    assert_eq!(f32::from_bits(gv(&a).norm().bits), a.norm());
    assert_eq!(gv_back(gv(&a).normalize()), a.normalize());
    let s = 2.3f32;
    assert_eq!(gv_back(gv(&a).scale(Scalar::new(s.to_bits()))), a.scale(s));
    assert_eq!(
        gv_back(gv(&b).axpy(Scalar::new(s.to_bits()), gv(&a))),
        del_geo_core::vec3::axpy(s, &b, &a)
    );
}

#[test]
fn triangle_normal_and_barycentric_match_reference() {
    let p0 = [-13.0f32, -5.0, 8.0];
    let p1 = [14.0f32, -5.0, 8.0];
    let p2 = [1.0f32, 3.0, -3.0];
    let q = [0.5f32, -1.0, 4.0];
    let n_ref = del_geo_core::tri3::normal(&p0, &p1, &p2);
    assert_eq!(gv_back(normal(gv(&p0), gv(&p1), gv(&p2))), n_ref);
    let bc_ref = del_geo_core::tri3::to_barycentric_coords(&p0, &p1, &p2, &q);
    assert_eq!(
        gv_back(to_barycentric_coords(gv(&p0), gv(&p1), gv(&p2), gv(&q))),
        bc_ref
    );
}

#[test]
fn intersection_matches_reference() {
    let p0 = [-13.0f32, -5.0, 8.0];
    let p1 = [14.0f32, -5.0, 8.0];
    let p2 = [1.0f32, 3.0, -3.0];
    let org = [8.0f32, 11.0, 10.0];
    let dir = [1.0f32 - 8.0, -11.0, 2.0 - 10.0];
    let t_ref = del_geo_core::tri3::intersection_against_line(&p0, &p1, &p2, &org, &dir);
    let t_ours = intersection_against_line(gv(&p0), gv(&p1), gv(&p2), gv(&org), gv(&dir));
    match (t_ours, t_ref) {
        (Some(t), Some(tr)) => assert_eq!(f32::from_bits(t.bits), tr),
        (None, None) => {}
        _ => panic!("hit/miss disagreement"),
    }
    // A ray parallel to the triangle's plane misses.
    let miss = intersection_against_line(
        gv(&[0.0, 0.0, 0.0]),
        gv(&[1.0, 0.0, 0.0]),
        gv(&[0.0, 1.0, 0.0]),
        gv(&[0.0, 0.0, 5.0]),
        gv(&[1.0, 0.0, 0.0]),
    );
    assert!(miss.is_none());
}

#[test]
fn intersection_backward_matches_reference() {
    let p0 = [-13.0f32, -5.0, 8.0];
    let p1 = [14.0f32, -5.0, 8.0];
    let p2 = [1.0f32, 3.0, -3.0];
    let org = [8.0f32, 11.0, 10.0];
    let dir = [-7.0f32, -11.0, -8.0];
    let (d_t, d_u, d_v) = (0.7f32, 1.3, 1.1);
    let (t_r, u_r, v_r, dp0_r, dp1_r, dp2_r) =
        del_geo_core::tri3::intersection_against_line_bwd_wrt_tri(
            &p0, &p1, &p2, &org, &dir, d_t, d_u, d_v,
        );
    let ours = intersection_against_line_bwd_wrt_tri(
        gv(&p0),
        gv(&p1),
        gv(&p2),
        gv(&org),
        gv(&dir),
        Scalar::new(d_t.to_bits()),
        Scalar::new(d_u.to_bits()),
        Scalar::new(d_v.to_bits()),
    );
    assert_eq!(f32::from_bits(ours.0.bits), t_r);
    assert_eq!(f32::from_bits(ours.1.bits), u_r);
    assert_eq!(f32::from_bits(ours.2.bits), v_r);
    assert_eq!(gv_back(ours.3), dp0_r);
    assert_eq!(gv_back(ours.4), dp1_r);
    assert_eq!(gv_back(ours.5), dp2_r);
}

#[test]
fn matrix_inverse_matches_reference() {
    let m: [f32; 16] = [
        1.1, 2.3, 3.4, 1.4, 1.7, 3.2, -0.5, 0.2, 2.3, -1.3, 1.4, 0.3, 0.6, 2.3, 1.5, -2.3,
    ];
    let inv_ref = del_geo_core::mat4_col_major::try_inverse(&m).unwrap();
    let inv_ours = try_inverse(&gbuf(&m)).unwrap();
    assert_eq!(gbuf_back(&inv_ours), inv_ref.to_vec());
}

#[test]
fn singular_matrix_has_no_inverse() {
    let zeros = vec![Scalar::new(0); 16];
    assert!(try_inverse(&zeros).is_none());
    let id = identity();
    let inv = try_inverse(&id).unwrap();
    assert_eq!(gbuf_back(&inv), gbuf_back(&id));
}

#[test]
fn homogeneous_transform_matches_reference() {
    let m: [f32; 16] = [
        1.1, 2.3, 3.4, 1.4, 1.7, 3.2, -0.5, 0.2, 2.3, -1.3, 1.4, 0.3, 0.6, 2.3, 1.5, -2.3,
    ];
    let p = [0.5f32, 0.3, -0.25];
    let q_ref = del_geo_core::mat4_col_major::transform_homogeneous(&m, &p).unwrap();
    let q_ours = transform_homogeneous(&gbuf(&m), gv(&p)).unwrap();
    assert_eq!(gv_back(q_ours), q_ref);
    let d_ref = del_geo_core::mat4_col_major::transform_direction(&m, &p);
    assert_eq!(gv_back(transform_direction(&gbuf(&m), gv(&p))), d_ref);
}

#[test]
fn first_intersection_matches_reference() {
    // Two parallel square plates; the ray must pick the nearer triangle.
    let tri2vtx: Vec<usize> = vec![0, 1, 2, 0, 2, 3, 4, 5, 6, 4, 6, 7];
    let vtx2xyz: Vec<f32> = vec![
        -1.0, -1.0, 0.5, 1.0, -1.0, 0.5, 1.0, 1.0, 0.5, -1.0, 1.0, 0.5, // z = 0.5
        -1.0, -1.0, -0.25, 1.0, -1.0, -0.25, 1.0, 1.0, -0.25, -1.0, 1.0, -0.25, // z = -0.25
    ];
    let org = [0.1f32, 0.2, 2.0];
    let dir = [0.0f32, 0.0, -1.0];
    let ref_hit = del_msh_core::trimesh3_search_bruteforce::first_intersection_ray(
        &org, &dir, &tri2vtx, &vtx2xyz,
    );
    let ours = first_intersection_ray(gv(&org), gv(&dir), &tri2vtx, &gbuf(&vtx2xyz));
    let (t_r, i_r) = ref_hit.unwrap();
    let (t_o, i_o) = ours.unwrap();
    assert_eq!(f32::from_bits(t_o.bits), t_r);
    assert_eq!(i_o, i_r);
    // A ray pointing away misses everything.
    let away = first_intersection_ray(
        gv(&org),
        gv(&[0.0, 0.0, 1.0]),
        &tri2vtx,
        &gbuf(&vtx2xyz),
    );
    assert!(away.is_none());
}

#[test]
fn corner_points_match_reference() {
    let tri2vtx: Vec<u32> = vec![0, 1, 2, 2, 1, 0];
    let vtx2xyz: Vec<f32> = vec![0.0, 0.5, 1.0, 1.5, 2.0, 2.5, 3.0, 3.5, 4.0];
    let (q0, q1, q2) =
        del_msh_core::trimesh3::to_corner_points(&tri2vtx, &vtx2xyz, 1);
    let (r0, r1, r2) = to_corner_points(&tri2vtx, &gbuf(&vtx2xyz), 1);
    assert_eq!(gv_back(r0), q0);
    assert_eq!(gv_back(r1), q1);
    assert_eq!(gv_back(r2), q2);
}

#[test]
fn vertex_transform_and_merge_match_reference() {
    let m: [f32; 16] = [
        1.0, 0.0, 0.0, 0.0, 0.0, 1.0, 0.0, 0.0, 0.0, 0.0, 1.0, 0.0, 0.25, -0.5, 0.75, 1.0,
    ];
    let vtx2xyz: Vec<f32> = vec![0.0, 0.5, 1.0, 1.5, 2.0, 2.5];
    let w_ref = del_msh_core::vtx2xyz::transform_homogeneous(&vtx2xyz, &m);
    let w_ours = transform_vtx2xyz(&gbuf(&vtx2xyz), &gbuf(&m)).unwrap();
    assert_eq!(gbuf_back(&w_ours), w_ref);

    let mut out_tri_ref: Vec<usize> = vec![0, 1, 2];
    let mut out_xyz_ref: Vec<f32> = vec![9.0; 9];
    let add_tri: Vec<usize> = vec![0, 2, 1];
    let add_xyz: Vec<f32> = vec![1.0, 2.0, 3.0, 4.0, 5.0, 6.0, 7.0, 8.0, 9.0];
    del_msh_core::uniform_mesh::merge(&mut out_tri_ref, &mut out_xyz_ref, &add_tri, &add_xyz, 3);

    let mut out_tri: Vec<usize> = vec![0, 1, 2];
    let mut out_xyz: Vec<Scalar> = gbuf(&[9.0; 9]);
    merge(&mut out_tri, &mut out_xyz, &add_tri, &gbuf(&add_xyz), 3);
    assert_eq!(out_tri, out_tri_ref);
    assert_eq!(gbuf_back(&out_xyz), out_xyz_ref);
}
