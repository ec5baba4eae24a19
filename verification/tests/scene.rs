//! Scene entities: the closest-hit query over meshes and spheres, hit
//! normals, the camera-view mesh assembly and the pinhole camera, each
//! against a hardware single-precision computation.

use pix2depth::cam3::Camera3;
use pix2depth::mat4::identity;
use pix2depth::scalar::Scalar;
use pix2depth::shape::{
    append_entity_camera_view, intersection_ray_against_shape_entities,
    intersection_ray_against_shape_entities_checked, normal_at, sphere_intersection_ray,
    triangle_mesh_normal_at, ShapeEntity, ShapeType,
};
use pix2depth::vec3::V3;
use del_geo_core::vec3::Vec3 as RefVec3;

fn nb(xs: &[f32]) -> Vec<Scalar> {
    xs.iter().map(|x| Scalar::new(x.to_bits())).collect()
}

fn nb_back(xs: &[Scalar]) -> Vec<f32> {
    xs.iter().map(|s| f32::from_bits(s.bits)).collect()
}

fn nv(p: [f32; 3]) -> V3 {
    V3::new(
        Scalar::new(p[0].to_bits()),
        Scalar::new(p[1].to_bits()),
        Scalar::new(p[2].to_bits()),
    )
}

fn nv_back(v: V3) -> [f32; 3] {
    [
        f32::from_bits(v.x.bits),
        f32::from_bits(v.y.bits),
        f32::from_bits(v.z.bits),
    ]
}

fn square_entity(z: f32) -> (ShapeEntity, Vec<usize>, Vec<f32>) {
    let tri2vtx: Vec<usize> = vec![0, 1, 2, 0, 2, 3];
    let vtx2xyz: Vec<f32> = vec![
        -1.0, -1.0, z, 1.0, -1.0, z, 1.0, 1.0, z, -1.0, 1.0, z,
    ];
    let nrm: Vec<f32> = vec![
        0.0, 0.0, 1.0, 0.0, 0.0, 1.0, 0.0, 0.0, 1.0, 0.0, 0.0, 1.0,
    ];
    let se = ShapeEntity {
        transform_objlcl2world: identity(),
        transform_world2objlcl: identity(),
        shape: ShapeType::TriangleMesh {
            tri2vtx: tri2vtx.clone(),
            vtx2xyz: nb(&vtx2xyz),
            vtx2nrm: nb(&nrm),
        },
        material_index: None,
        area_light_index: Some(2),
    };
    (se, tri2vtx, vtx2xyz)
}

fn sphere_entity(radius: f32) -> ShapeEntity {
    ShapeEntity {
        transform_objlcl2world: identity(),
        transform_world2objlcl: identity(),
        shape: ShapeType::Sphere {
            radius: Scalar::new(radius.to_bits()),
        },
        material_index: Some(1),
        area_light_index: None,
    }
}

#[test]
fn sphere_hit_matches_reference() {
    let org = [0.1f32, 0.2, 2.0];
    let dir = [0.0f32, 0.0, -1.0];
    let t_ref =
        del_geo_core::sphere::intersection_ray::<f32>(0.5, &[0.0; 3], &org, &dir).unwrap();
    let t =
        sphere_intersection_ray(Scalar::new(0.5f32.to_bits()), nv([0.0; 3]), nv(org), nv(dir))
            .unwrap();
    assert_eq!(f32::from_bits(t.bits), t_ref);
    // From far along +x the ray misses.
    assert!(sphere_intersection_ray(
        Scalar::new(0.5f32.to_bits()),
        nv([0.0; 3]),
        nv([3.0, 0.0, 2.0]),
        nv(dir)
    )
    .is_none());
}

#[test]
fn closest_entity_wins() {
    let (mesh, tri2vtx, vtx2xyz) = square_entity(0.5);
    let sphere = sphere_entity(0.5);
    let entities = vec![mesh, sphere];
    let org = nv([0.1, 0.2, 2.0]);
    let dir = nv([0.0, 0.0, -1.0]);
    let (t, i_se, i_elem) =
        intersection_ray_against_shape_entities(org, dir, &entities).unwrap();

    // The same minimum in hardware arithmetic.
    let t_mesh = del_msh_core::trimesh3_search_bruteforce::first_intersection_ray(
        &[0.1, 0.2, 2.0],
        &[0.0, 0.0, -1.0],
        &tri2vtx,
        &vtx2xyz,
    )
    .unwrap();
    let t_sph =
        del_geo_core::sphere::intersection_ray::<f32>(0.5, &[0.0; 3], &[0.1, 0.2, 2.0], &[
            0.0, 0.0, -1.0,
        ])
        .unwrap();
    assert!(t_mesh.0 < t_sph);
    assert_eq!(f32::from_bits(t.bits), t_mesh.0);
    assert_eq!(i_se, 0);
    assert_eq!(i_elem, t_mesh.1);

    // With the mesh pushed behind the sphere, the sphere wins.
    let (mesh_far, _, _) = square_entity(-0.9);
    let entities = vec![mesh_far, sphere_entity(0.5)];
    let (t2, i_se2, i_elem2) =
        intersection_ray_against_shape_entities(org, dir, &entities).unwrap();
    assert_eq!(f32::from_bits(t2.bits), t_sph);
    assert_eq!(i_se2, 1);
    assert_eq!(i_elem2, 0);

    // A ray pointing away hits nothing.
    assert!(intersection_ray_against_shape_entities(org, nv([0.0, 0.0, 1.0]), &entities)
        .is_none());
}

#[test]
fn checked_query_agrees() {
    let (mesh, _, _) = square_entity(0.5);
    let entities = vec![mesh];
    let org = nv([0.1, 0.2, 2.0]);
    let dir = nv([0.0, 0.0, -1.0]);
    let outer = intersection_ray_against_shape_entities_checked(org, dir, &entities).unwrap();
    let direct = intersection_ray_against_shape_entities(org, dir, &entities);
    assert_eq!(outer, direct);
}

#[test]
fn sphere_normal_points_outward() {
    let sphere = sphere_entity(0.5);
    let pos = [0.1f32, 0.2, 0.44158804];
    let n = normal_at(&sphere, nv(pos), 0).unwrap();
    let n_ref = del_geo_core::vec3::normalize(&del_geo_core::mat4_col_major::transform_direction(
        &del_geo_core::mat4_col_major::from_identity::<f32>(),
        &pos,
    ));
    assert_eq!(nv_back(n), n_ref);
    assert!(n_ref.dot(&pos) > 0.0);
}

#[test]
fn mesh_face_normal_is_vertical() {
    let (mesh, _, _) = square_entity(0.5);
    let n = nv_back(normal_at(&mesh, nv([0.1, 0.2, 0.5]), 0).unwrap());
    assert!((n[0]).abs() < 1.0e-6);
    assert!((n[1]).abs() < 1.0e-6);
    assert!((n[2] - 1.0).abs() < 1.0e-6);
}

#[test]
fn interpolated_mesh_normal_matches_reference() {
    let tri2vtx: Vec<usize> = vec![0, 1, 2];
    let vtx2xyz: Vec<f32> = vec![-1.0, -1.0, 0.0, 1.0, -1.0, 0.2, 0.0, 1.0, -0.1];
    let vtx2nrm: Vec<f32> = vec![0.0, 0.0, 1.0, 0.3, 0.0, 0.9, -0.2, 0.1, 0.95];
    let pos = [0.1f32, -0.2, 0.05];
    let n = triangle_mesh_normal_at(&tri2vtx, &nb(&vtx2xyz), &nb(&vtx2nrm), nv(pos), 0);

    let p0 = [-1.0f32, -1.0, 0.0];
    let p1 = [1.0f32, -1.0, 0.2];
    let p2 = [0.0f32, 1.0, -0.1];
    let bc = del_geo_core::tri3::to_barycentric_coords(&p0, &p1, &p2, &pos);
    let n_ref = del_geo_core::vec3::normalize(&[
        bc[0] * 0.0 + bc[1] * 0.3 + bc[2] * (-0.2),
        bc[0] * 0.0 + bc[1] * 0.0 + bc[2] * 0.1,
        bc[0] * 1.0 + bc[1] * 0.9 + bc[2] * 0.95,
    ]);
    assert_eq!(nv_back(n), n_ref);
}

#[test]
fn camera_view_mesh_assembles_and_shifts_indices() {
    let tri2vtx: Vec<usize> = vec![0, 1, 2];
    let vtx2xyz: Vec<f32> = vec![0.0, 0.0, 0.0, 1.0, 0.0, 0.0, 0.0, 1.0, 0.0];
    let objlcl2world: [f32; 16] = [
        1.0, 0.0, 0.0, 0.0, 0.0, 1.0, 0.0, 0.0, 0.0, 0.0, 1.0, 0.0, 0.5, -0.25, 2.0, 1.0,
    ];
    let world2camlcl: [f32; 16] = [
        1.0, 0.0, 0.0, 0.0, 0.0, 1.0, 0.0, 0.0, 0.0, 0.0, 1.0, 0.0, -1.0, 0.0, 0.5, 1.0,
    ];
    let mut out_tri: Vec<usize> = Vec::new();
    let mut out_xyz: Vec<Scalar> = Vec::new();
    // Append the same mesh twice: the second copy's indices shift by 3.
    for _ in 0..2 {
        let ok = append_entity_camera_view(
            &mut out_tri,
            &mut out_xyz,
            &tri2vtx,
            &nb(&vtx2xyz),
            &nb(&objlcl2world),
            &nb(&world2camlcl),
        );
        assert!(ok);
    }
    assert_eq!(out_tri, vec![0, 1, 2, 3, 4, 5]);

    let world = del_msh_core::vtx2xyz::transform_homogeneous(&vtx2xyz, &objlcl2world);
    let cam = del_msh_core::vtx2xyz::transform_homogeneous(&world, &world2camlcl);
    let mut expect = cam.clone();
    expect.extend_from_slice(&cam);
    assert_eq!(nb_back(&out_xyz), expect);
}

#[test]
fn pinhole_camera_matches_hardware() {
    let (w, h) = (640usize, 480usize);
    let o = [50.0f32, 52.0, 295.6];
    let d = [0.0f32, -0.042612, -1.0];
    let cam = Camera3::new(w, h, nv(o), nv(d));
    assert_eq!(cam.w, w);
    assert_eq!(cam.h, h);

    // The same construction in hardware single precision.
    let norm = |v: [f32; 3]| -> [f32; 3] {
        let l = (v[0] * v[0] + v[1] * v[1] + v[2] * v[2]).sqrt();
        [v[0] / l, v[1] / l, v[2] / l]
    };
    let dn = norm(d);
    let cx = [(w as f32) * 0.5135 / (h as f32), 0.0, 0.0];
    let cross = [
        cx[1] * dn[2] - cx[2] * dn[1],
        cx[2] * dn[0] - cx[0] * dn[2],
        cx[0] * dn[1] - cx[1] * dn[0],
    ];
    let cyn = norm(cross);
    let cy = [cyn[0] * 0.5135, cyn[1] * 0.5135, cyn[2] * 0.5135];
    assert_eq!(nv_back(cam.d), dn);
    assert_eq!(nv_back(cam.cx), cx);
    assert_eq!(nv_back(cam.cy), cy);

    let (x0, y0) = (123.25f32, 456.75f32);
    let (org, dir) = cam.ray(Scalar::new(x0.to_bits()), Scalar::new(y0.to_bits()));
    let a = x0 / (w as f32) - 0.5;
    let b = y0 / (h as f32) - 0.5;
    let dd = [
        cx[0] * a + cy[0] * b + dn[0],
        cx[1] * a + cy[1] * b + dn[1],
        cx[2] * a + cy[2] * b + dn[2],
    ];
    let org_ref = [
        o[0] + dd[0] * 140.0,
        o[1] + dd[1] * 140.0,
        o[2] + dd[2] * 140.0,
    ];
    assert_eq!(nv_back(org), org_ref);
    assert_eq!(nv_back(dir), norm(dd));
}
