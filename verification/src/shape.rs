//! Scene shapes: entities with object-local/world transforms carrying a
//! triangle mesh or a sphere, the closest-hit query over a whole scene,
//! surface normals at hit points, and the assembly of a camera-local
//! merged mesh of every entity.

use vstd::prelude::*;

use crate::mat4::{
    mat4_wf, spec_transform_direction, spec_transform_homogeneous, transform_direction,
    transform_homogeneous,
};
use crate::scalar::{
    ge_bits, lt_bits, s_add, s_div, s_mul, s_neg, s_sqrt, s_sub, sc, sf_add, sf_div, sf_ge, sf_lt,
    sf_mul, sf_neg, sf_sqrt, sf_sub, Scalar, INFINITY_BITS, ZERO_BITS,
};
use crate::tri3::{spec_normal, spec_to_barycentric_coords, normal, to_barycentric_coords};
use crate::trimesh3::{
    first_intersection_ray, merge, spec_all_transform_ok, spec_corner_usize,
    spec_first_intersection_ray, spec_transformed_vtx2xyz, spec_vtx3, transform_vtx2xyz,
    trimesh_wf_usize,
};
use crate::vec3::V3;

verus! {

/// What an entity's surface is.
pub enum ShapeType {
    /// A triangle mesh with per-vertex normals.
    TriangleMesh { tri2vtx: Vec<usize>, vtx2xyz: Vec<Scalar>, vtx2nrm: Vec<Scalar> },
    /// A sphere of the given radius about the object-local origin.
    Sphere { radius: Scalar },
}

/// A scene entity: a shape with its object-local/world transforms and
/// optional material and area-light references.
pub struct ShapeEntity {
    pub transform_objlcl2world: Vec<Scalar>,
    pub transform_world2objlcl: Vec<Scalar>,
    pub shape: ShapeType,
    pub material_index: Option<usize>,
    pub area_light_index: Option<usize>,
}

impl ShapeEntity {
    /// Validity: full matrices both ways, and a valid mesh where the
    /// shape holds one.
    pub open spec fn wf(self) -> bool {
        &&& mat4_wf(self.transform_objlcl2world@)
        &&& mat4_wf(self.transform_world2objlcl@)
        &&& (match self.shape {
            ShapeType::TriangleMesh { tri2vtx, vtx2xyz, vtx2nrm } => trimesh_wf_usize(
                tri2vtx@,
                vtx2xyz@,
            ) && trimesh_wf_usize(tri2vtx@, vtx2nrm@),
            ShapeType::Sphere { .. } => true,
        })
    }
}

/// The smaller nonnegative root of `t^2 (d.d) + 2 t (o-c).d + (o-c).(o-c)
/// - r^2 = 0`: where the ray enters (or, from inside, leaves) the
/// sphere; `None` when the discriminant is negative or both roots lie
/// behind the origin.
pub open spec fn spec_sphere_intersection_ray(
    rad: Scalar,
    center: V3,
    ray_src: V3,
    ray_dir: V3,
) -> Option<Scalar> {
    let op = ray_src.spec_sub(center);
    let a = ray_dir.spec_dot(ray_dir);
    let b = op.spec_dot(ray_dir);
    let c = s_sub(op.spec_dot(op), s_mul(rad, rad));
    let det = s_sub(s_mul(b, b), s_mul(c, a));
    if lt_bits(det.bits, ZERO_BITS) {
        None
    } else {
        let det_root = s_sqrt(det);
        if ge_bits(s_sub(s_neg(b), det_root).bits, ZERO_BITS) {
            Some(s_div(s_sub(s_neg(b), det_root), a))
        } else if ge_bits(s_add(s_neg(b), det_root).bits, ZERO_BITS) {
            Some(s_div(s_add(s_neg(b), det_root), a))
        } else {
            None
        }
    }
}

/// The sphere/ray intersection parameter.
pub fn sphere_intersection_ray(rad: Scalar, center: V3, ray_src: V3, ray_dir: V3) -> (r: Option<
    Scalar,
>)
    ensures
        r == spec_sphere_intersection_ray(rad, center, ray_src, ray_dir),
{
    let op = ray_src.sub(center);
    let a = ray_dir.dot(ray_dir);
    let b = op.dot(ray_dir);
    let c = sf_sub(op.dot(op), sf_mul(rad, rad));
    let det = sf_sub(sf_mul(b, b), sf_mul(c, a));
    if sf_lt(det, Scalar { bits: ZERO_BITS }) {
        return None;
    }
    let det_root = sf_sqrt(det);
    if sf_ge(sf_sub(sf_neg(b), det_root), Scalar { bits: ZERO_BITS }) {
        Some(sf_div(sf_sub(sf_neg(b), det_root), a))
    } else if sf_ge(sf_add(sf_neg(b), det_root), Scalar { bits: ZERO_BITS }) {
        Some(sf_div(sf_add(sf_neg(b), det_root), a))
    } else {
        None
    }
}

/// The hit of the world-space ray against one entity, in that entity's
/// object-local frame: the parameter and the element index (the triangle
/// for a mesh, zero for a sphere).
pub open spec fn spec_entity_hit(ray_org: V3, ray_dir: V3, se: ShapeEntity) -> Option<
    (Scalar, usize),
> {
    let org_l = spec_transform_homogeneous(se.transform_world2objlcl@, ray_org)->Some_0;
    let dir_l = spec_transform_direction(se.transform_world2objlcl@, ray_dir);
    match se.shape {
        ShapeType::TriangleMesh { tri2vtx, vtx2xyz, .. } => spec_first_intersection_ray(
            org_l,
            dir_l,
            tri2vtx@,
            vtx2xyz@,
        ),
        ShapeType::Sphere { radius } => match spec_sphere_intersection_ray(
            radius,
            V3 { x: sc(ZERO_BITS), y: sc(ZERO_BITS), z: sc(ZERO_BITS) },
            org_l,
            dir_l,
        ) {
            Some(t) => Some((t, 0)),
            None => None,
        },
    }
}

/// The running minimum over entities `i` onward: an entity's hit
/// replaces the best candidate only when its parameter is strictly
/// below the running one and strictly above zero.
pub open spec fn spec_isect_entities_from(
    ray_org: V3,
    ray_dir: V3,
    shape_entities: Seq<ShapeEntity>,
    i: int,
    best: (Scalar, usize, usize),
) -> (Scalar, usize, usize)
    decreases shape_entities.len() - i,
{
    if i < 0 || i >= shape_entities.len() {
        best
    } else {
        let next = match spec_entity_hit(ray_org, ray_dir, shape_entities[i]) {
            Some((t, i_elem)) => if lt_bits(t.bits, best.0.bits) && lt_bits(ZERO_BITS, t.bits) {
                (t, i as usize, i_elem)
            } else {
                best
            },
            None => best,
        };
        spec_isect_entities_from(ray_org, ray_dir, shape_entities, i + 1, next)
    }
}

/// The closest hit of the ray over the scene: the parameter, the entity
/// index and the element index; `None` when the running minimum is
/// still at infinity.
pub open spec fn spec_intersection_ray_against_shape_entities(
    ray_org: V3,
    ray_dir: V3,
    shape_entities: Seq<ShapeEntity>,
) -> Option<(Scalar, usize, usize)> {
    let best = spec_isect_entities_from(
        ray_org,
        ray_dir,
        shape_entities,
        0,
        (sc(INFINITY_BITS), 0, 0),
    );
    if best.0.bits == INFINITY_BITS {
        None
    } else {
        Some(best)
    }
}

/// Whether the ray origin survives every entity's world-to-local
/// transform.
pub open spec fn spec_ray_ok_for_entities(ray_org: V3, shape_entities: Seq<ShapeEntity>) -> bool {
    forall|i: int|
        0 <= i < shape_entities.len() ==> spec_transform_homogeneous(
            #[trigger] shape_entities[i].transform_world2objlcl@,
            ray_org,
        ) is Some
}

/// Validity of every entity of a scene.
pub open spec fn spec_entities_wf(shape_entities: Seq<ShapeEntity>) -> bool {
    forall|i: int| 0 <= i < shape_entities.len() ==> (#[trigger] shape_entities[i]).wf()
}

/// The closest hit of the world-space ray over all entities.
pub fn intersection_ray_against_shape_entities(
    ray_org: V3,
    ray_dir: V3,
    shape_entities: &Vec<ShapeEntity>,
) -> (r: Option<(Scalar, usize, usize)>)
    requires
        spec_entities_wf(shape_entities@),
        spec_ray_ok_for_entities(ray_org, shape_entities@),
    ensures
        r == spec_intersection_ray_against_shape_entities(ray_org, ray_dir, shape_entities@),
{
    let mut t_min = Scalar { bits: INFINITY_BITS };
    let mut i_shape_entity_min: usize = 0;
    let mut i_elem_min: usize = 0;
    let mut i: usize = 0;
    while i < shape_entities.len()
        invariant
            spec_entities_wf(shape_entities@),
            spec_ray_ok_for_entities(ray_org, shape_entities@),
            i <= shape_entities@.len(),
            spec_isect_entities_from(
                ray_org,
                ray_dir,
                shape_entities@,
                0,
                (sc(INFINITY_BITS), 0, 0),
            ) == spec_isect_entities_from(
                ray_org,
                ray_dir,
                shape_entities@,
                i as int,
                (t_min, i_shape_entity_min, i_elem_min),
            ),
        decreases shape_entities@.len() - i,
    {
        let se = &shape_entities[i];
        let ray_org_objlcl = match transform_homogeneous(&se.transform_world2objlcl, ray_org) {
            Some(p) => p,
            None => {
                proof {
                    assert(false);
                }
                return None;
            },
        };
        let ray_dir_objlcl = transform_direction(&se.transform_world2objlcl, ray_dir);
        let hit: Option<(Scalar, usize)> = match &se.shape {
            ShapeType::TriangleMesh { tri2vtx, vtx2xyz, .. } => first_intersection_ray(
                ray_org_objlcl,
                ray_dir_objlcl,
                tri2vtx,
                vtx2xyz,
            ),
            ShapeType::Sphere { radius } => {
                match sphere_intersection_ray(
                    *radius,
                    V3 {
                        x: Scalar { bits: ZERO_BITS },
                        y: Scalar { bits: ZERO_BITS },
                        z: Scalar { bits: ZERO_BITS },
                    },
                    ray_org_objlcl,
                    ray_dir_objlcl,
                ) {
                    Some(t) => Some((t, 0usize)),
                    None => None,
                }
            },
        };
        match hit {
            Some((t, i_elem)) => {
                if sf_lt(t, t_min) && sf_lt(Scalar { bits: ZERO_BITS }, t) {
                    t_min = t;
                    i_shape_entity_min = i;
                    i_elem_min = i_elem;
                }
            },
            None => {},
        }
        i = i + 1;
    }
    if t_min.bits == INFINITY_BITS {
        None
    } else {
        Some((t_min, i_shape_entity_min, i_elem_min))
    }
}

/// The closest hit of the ray, after testing that the ray origin
/// survives every entity's world-to-local transform: the outer `None`
/// reports a ray degenerate for some entity.
pub fn intersection_ray_against_shape_entities_checked(
    ray_org: V3,
    ray_dir: V3,
    shape_entities: &Vec<ShapeEntity>,
) -> (r: Option<Option<(Scalar, usize, usize)>>)
    requires
        spec_entities_wf(shape_entities@),
    ensures
        (match r {
            Some(hit) => spec_ray_ok_for_entities(ray_org, shape_entities@) && hit
                == spec_intersection_ray_against_shape_entities(ray_org, ray_dir, shape_entities@),
            None => !spec_ray_ok_for_entities(ray_org, shape_entities@),
        }),
{
    let mut i: usize = 0;
    while i < shape_entities.len()
        invariant
            spec_entities_wf(shape_entities@),
            i <= shape_entities@.len(),
            forall|j: int|
                0 <= j < i ==> spec_transform_homogeneous(
                    #[trigger] shape_entities@[j].transform_world2objlcl@,
                    ray_org,
                ) is Some,
        decreases shape_entities@.len() - i,
    {
        if transform_homogeneous(&shape_entities[i].transform_world2objlcl, ray_org).is_none() {
            return None;
        }
        i = i + 1;
    }
    Some(intersection_ray_against_shape_entities(ray_org, ray_dir, shape_entities))
}

/// The surface normal of the entity at a world-space hit position: the
/// mesh triangle's face normal, or the local hit position itself on a
/// sphere, carried to world space and normalized.  `None` when the hit
/// position does not survive the world-to-local transform.
pub open spec fn spec_normal_at(se: ShapeEntity, hit_pos_world: V3, i_elem: int) -> Option<V3> {
    match spec_transform_homogeneous(se.transform_world2objlcl@, hit_pos_world) {
        None => None,
        Some(hit_pos_objlcl) => {
            let hit_nrm_objlcl = match se.shape {
                ShapeType::TriangleMesh { tri2vtx, vtx2xyz, .. } => spec_normal(
                    spec_corner_usize(tri2vtx@, vtx2xyz@, i_elem, 0),
                    spec_corner_usize(tri2vtx@, vtx2xyz@, i_elem, 1),
                    spec_corner_usize(tri2vtx@, vtx2xyz@, i_elem, 2),
                ),
                ShapeType::Sphere { .. } => hit_pos_objlcl,
            };
            let hit_nrm_world = spec_transform_direction(
                se.transform_objlcl2world@,
                hit_nrm_objlcl,
            );
            Some(hit_nrm_world.spec_normalize())
        },
    }
}

/// The surface normal of the entity at a world-space hit position.
pub fn normal_at(se: &ShapeEntity, hit_pos_world: V3, i_elem: usize) -> (r: Option<V3>)
    requires
        se.wf(),
        (match se.shape {
            ShapeType::TriangleMesh { tri2vtx, .. } => i_elem * 3 + 2 < tri2vtx@.len(),
            ShapeType::Sphere { .. } => true,
        }),
    ensures
        r == spec_normal_at(*se, hit_pos_world, i_elem as int),
{
    let hit_pos_objlcl = match transform_homogeneous(&se.transform_world2objlcl, hit_pos_world) {
        Some(p) => p,
        None => {
            return None;
        },
    };
    let hit_nrm_objlcl = match &se.shape {
        ShapeType::TriangleMesh { tri2vtx, vtx2xyz, .. } => {
            let _nt = tri2vtx.len();
            let _nv = vtx2xyz.len();
            let i0 = tri2vtx[i_elem * 3];
            let i1 = tri2vtx[i_elem * 3 + 1];
            let i2 = tri2vtx[i_elem * 3 + 2];
            normal(
                V3 { x: vtx2xyz[i0 * 3], y: vtx2xyz[i0 * 3 + 1], z: vtx2xyz[i0 * 3 + 2] },
                V3 { x: vtx2xyz[i1 * 3], y: vtx2xyz[i1 * 3 + 1], z: vtx2xyz[i1 * 3 + 2] },
                V3 { x: vtx2xyz[i2 * 3], y: vtx2xyz[i2 * 3 + 1], z: vtx2xyz[i2 * 3 + 2] },
            )
        },
        ShapeType::Sphere { .. } => hit_pos_objlcl,
    };
    let hit_nrm_world = transform_direction(&se.transform_objlcl2world, hit_nrm_objlcl);
    Some(hit_nrm_world.normalize())
}

/// The smoothly interpolated normal of a mesh at a position on triangle
/// `i_tri`: the per-vertex normals weighted by the position's
/// barycentric coordinates, normalized.
pub open spec fn spec_triangle_mesh_normal_at(
    tri2vtx: Seq<usize>,
    vtx2xyz: Seq<Scalar>,
    vtx2nrm: Seq<Scalar>,
    pos: V3,
    i_tri: int,
) -> V3 {
    let bc = spec_to_barycentric_coords(
        spec_corner_usize(tri2vtx, vtx2xyz, i_tri, 0),
        spec_corner_usize(tri2vtx, vtx2xyz, i_tri, 1),
        spec_corner_usize(tri2vtx, vtx2xyz, i_tri, 2),
        pos,
    );
    let n0 = spec_vtx3(vtx2nrm, tri2vtx[i_tri * 3] as int);
    let n1 = spec_vtx3(vtx2nrm, tri2vtx[i_tri * 3 + 1] as int);
    let n2 = spec_vtx3(vtx2nrm, tri2vtx[i_tri * 3 + 2] as int);
    let n = V3 {
        x: s_add(s_add(s_mul(bc.x, n0.x), s_mul(bc.y, n1.x)), s_mul(bc.z, n2.x)),
        y: s_add(s_add(s_mul(bc.x, n0.y), s_mul(bc.y, n1.y)), s_mul(bc.z, n2.y)),
        z: s_add(s_add(s_mul(bc.x, n0.z), s_mul(bc.y, n1.z)), s_mul(bc.z, n2.z)),
    };
    n.spec_normalize()
}

/// The smoothly interpolated normal of a mesh at a position on triangle
/// `i_tri`.
pub fn triangle_mesh_normal_at(
    tri2vtx: &Vec<usize>,
    vtx2xyz: &Vec<Scalar>,
    vtx2nrm: &Vec<Scalar>,
    pos: V3,
    i_tri: usize,
) -> (r: V3)
    requires
        trimesh_wf_usize(tri2vtx@, vtx2xyz@),
        trimesh_wf_usize(tri2vtx@, vtx2nrm@),
        i_tri * 3 + 2 < tri2vtx@.len(),
    ensures
        r == spec_triangle_mesh_normal_at(tri2vtx@, vtx2xyz@, vtx2nrm@, pos, i_tri as int),
{
    let _nt = tri2vtx.len();
    let _nv = vtx2xyz.len();
    let _nn = vtx2nrm.len();
    let iv0 = tri2vtx[i_tri * 3];
    let iv1 = tri2vtx[i_tri * 3 + 1];
    let iv2 = tri2vtx[i_tri * 3 + 2];
    let p0 = V3 { x: vtx2xyz[iv0 * 3], y: vtx2xyz[iv0 * 3 + 1], z: vtx2xyz[iv0 * 3 + 2] };
    let p1 = V3 { x: vtx2xyz[iv1 * 3], y: vtx2xyz[iv1 * 3 + 1], z: vtx2xyz[iv1 * 3 + 2] };
    let p2 = V3 { x: vtx2xyz[iv2 * 3], y: vtx2xyz[iv2 * 3 + 1], z: vtx2xyz[iv2 * 3 + 2] };
    let bc = to_barycentric_coords(p0, p1, p2, pos);
    let n0 = V3 { x: vtx2nrm[iv0 * 3], y: vtx2nrm[iv0 * 3 + 1], z: vtx2nrm[iv0 * 3 + 2] };
    let n1 = V3 { x: vtx2nrm[iv1 * 3], y: vtx2nrm[iv1 * 3 + 1], z: vtx2nrm[iv1 * 3 + 2] };
    let n2 = V3 { x: vtx2nrm[iv2 * 3], y: vtx2nrm[iv2 * 3 + 1], z: vtx2nrm[iv2 * 3 + 2] };
    let n = V3 {
        x: sf_add(sf_add(sf_mul(bc.x, n0.x), sf_mul(bc.y, n1.x)), sf_mul(bc.z, n2.x)),
        y: sf_add(sf_add(sf_mul(bc.x, n0.y), sf_mul(bc.y, n1.y)), sf_mul(bc.z, n2.y)),
        z: sf_add(sf_add(sf_mul(bc.x, n0.z), sf_mul(bc.y, n1.z)), sf_mul(bc.z, n2.z)),
    };
    n.normalize()
}

/// The camera-local image of one entity's local mesh: the positions sent
/// to world space and on to camera-local space.
pub open spec fn spec_camlcl_vtx2xyz(
    vtx2xyz: Seq<Scalar>,
    transform_objlcl2world: Seq<Scalar>,
    transform_world2camlcl: Seq<Scalar>,
) -> Seq<Scalar> {
    spec_transformed_vtx2xyz(
        transform_world2camlcl,
        spec_transformed_vtx2xyz(transform_objlcl2world, vtx2xyz),
    )
}

/// Whether both transform steps succeed on every vertex of the mesh.
pub open spec fn spec_camlcl_ok(
    vtx2xyz: Seq<Scalar>,
    transform_objlcl2world: Seq<Scalar>,
    transform_world2camlcl: Seq<Scalar>,
) -> bool {
    &&& spec_all_transform_ok(transform_objlcl2world, vtx2xyz)
    &&& spec_all_transform_ok(
        transform_world2camlcl,
        spec_transformed_vtx2xyz(transform_objlcl2world, vtx2xyz),
    )
}

/// Appends one entity's mesh, carried to camera-local space, to an
/// output mesh under assembly: the appended triangles' indices are
/// shifted past the vertices already present.  Returns whether both
/// transform steps succeeded on every vertex; on failure the output is
/// left as it was.
pub fn append_entity_camera_view(
    out_tri2vtx: &mut Vec<usize>,
    out_vtx2xyz: &mut Vec<Scalar>,
    tri2vtx: &Vec<usize>,
    vtx2xyz: &Vec<Scalar>,
    transform_objlcl2world: &Vec<Scalar>,
    transform_world2camlcl: &Vec<Scalar>,
) -> (r: bool)
    requires
        mat4_wf(transform_objlcl2world@),
        mat4_wf(transform_world2camlcl@),
        trimesh_wf_usize(tri2vtx@, vtx2xyz@),
        forall|k: int|
            0 <= k < tri2vtx@.len() ==> tri2vtx@[k] + (old(out_vtx2xyz)@.len() as int) / 3
                <= usize::MAX,
    ensures
        r == spec_camlcl_ok(vtx2xyz@, transform_objlcl2world@, transform_world2camlcl@),
        !r ==> final(out_tri2vtx)@ == old(out_tri2vtx)@ && final(out_vtx2xyz)@ == old(
            out_vtx2xyz,
        )@,
        r ==> final(out_vtx2xyz)@ == old(out_vtx2xyz)@ + spec_camlcl_vtx2xyz(
            vtx2xyz@,
            transform_objlcl2world@,
            transform_world2camlcl@,
        ),
        r ==> final(out_tri2vtx)@.len() == old(out_tri2vtx)@.len() + tri2vtx@.len(),
        r ==> forall|k: int|
            0 <= k < old(out_tri2vtx)@.len() ==> final(out_tri2vtx)@[k] == old(out_tri2vtx)@[k],
        r ==> forall|k: int|
            0 <= k < tri2vtx@.len() ==> final(out_tri2vtx)@[old(out_tri2vtx)@.len() + k]
                == tri2vtx@[k] + (old(out_vtx2xyz)@.len() as int) / 3,
{
    let vtx2xyz_world = match transform_vtx2xyz(vtx2xyz, transform_objlcl2world) {
        Some(v) => v,
        None => {
            return false;
        },
    };
    let vtx2xyz_camlcl = match transform_vtx2xyz(&vtx2xyz_world, transform_world2camlcl) {
        Some(v) => v,
        None => {
            return false;
        },
    };
    merge(out_tri2vtx, out_vtx2xyz, tri2vtx, &vtx2xyz_camlcl, 3);
    true
}

} // verus!
