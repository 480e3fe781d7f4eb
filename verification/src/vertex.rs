//! The vertex transform stage: object-space geometry through the
//! model/view/projection matrices, the perspective divide, the viewport map,
//! and the transposed-inverse normal transform with its identity fallback.

use vstd::prelude::*;
use crate::geom::Vec2;
use crate::geom::Vec3;
use crate::geom::Vec4;
use crate::geom::Mat3;
use crate::geom::Mat4;
use crate::geom::mat4_bounded;
use crate::geom::mat3_small;
use crate::geom::spec_mat4_apply;
use crate::geom::spec_mat3_apply;
use crate::geom::spec_mat3_inverse;
use crate::geom::mat3_inverse;
use crate::fixp::sat64;
use crate::fixp::tdiv_gen;
use crate::fixp::fxdiv_i128;
use crate::color::Color;

verus! {

/// A geometric sample: object-space position, normal, texture coordinates and
/// intrinsic color, plus the derived screen-space position and transformed
/// normal filled in by the vertex transformer.
#[derive(Clone, Copy, Debug, PartialEq, Eq, Structural)]
pub struct Vertex {
    pub position: Vec3,
    pub normal: Vec3,
    pub tex_coords: Vec2,
    pub color: Color,
    pub transformed_position: Vec3,
    pub transformed_normal: Vec3,
}

/// One interpolated sample produced by the rasterizer: the object-space
/// position used for shading and a scalar light intensity, nominally in
/// [0, 1000] (everything beyond is treated as saturated).
#[derive(Clone, Copy, Debug, PartialEq, Eq, Structural)]
pub struct Fragment {
    pub vertex_position: Vec3,
    pub intensity: i64,
}

/// The per-draw-call parameter bundle: the four transform matrices and the
/// animation time, immutable for the duration of a draw call. The noise
/// fields configured for a draw call are owned by the sampling adapter that
/// drives the pipeline; everything verified here reads only plain values.
#[derive(Clone, Copy, Debug, PartialEq, Eq, Structural)]
pub struct Uniforms {
    pub model_matrix: Mat4,
    pub view_matrix: Mat4,
    pub projection_matrix: Mat4,
    pub viewport_matrix: Mat4,
    pub time: i64,
}

impl Uniforms {
    /// Well-formedness: every matrix entry within the fixed-point transform
    /// bound, and the model rotation block within the inversion bound.
    pub open spec fn wf(self) -> bool {
        mat4_bounded(self.model_matrix) && mat4_bounded(self.view_matrix) && mat4_bounded(
            self.projection_matrix,
        ) && mat4_bounded(self.viewport_matrix) && mat3_small(self.model_matrix.spec_upper_left())
    }

    /// Bundle the four transform matrices and the animation time. Malformed
    /// (out-of-bound) matrices are the caller's responsibility and are
    /// excluded here.
    pub fn new(
        model_matrix: Mat4,
        view_matrix: Mat4,
        projection_matrix: Mat4,
        viewport_matrix: Mat4,
        time: i64,
    ) -> (u: Uniforms)
        requires
            mat4_bounded(model_matrix),
            mat4_bounded(view_matrix),
            mat4_bounded(projection_matrix),
            mat4_bounded(viewport_matrix),
            mat3_small(model_matrix.spec_upper_left()),
        ensures
            u == (Uniforms { model_matrix, view_matrix, projection_matrix, viewport_matrix, time }),
            u.wf(),
    {
        Uniforms { model_matrix, view_matrix, projection_matrix, viewport_matrix, time }
    }
}

/// The clip-space image of an object-space position: the homogeneous position
/// through model, then view, then projection.
pub open spec fn spec_clip_position(u: Uniforms, p: Vec3) -> Vec4 {
    spec_mat4_apply(
        u.projection_matrix,
        spec_mat4_apply(
            u.view_matrix,
            spec_mat4_apply(u.model_matrix, Vec4 { x: p.x, y: p.y, z: p.z, w: 1000 }),
        ),
    )
}

/// The normalized-device position after the perspective divide by the clip
/// `w` (meaningful only when that `w` is nonzero, which the vertex stage
/// requires of its callers).
pub open spec fn spec_ndc_position(u: Uniforms, p: Vec3) -> Vec4 {
    let c = spec_clip_position(u, p);
    Vec4 {
        x: sat64(tdiv_gen(c.x as int * 1000, c.w as int)) as i64,
        y: sat64(tdiv_gen(c.y as int * 1000, c.w as int)) as i64,
        z: sat64(tdiv_gen(c.z as int * 1000, c.w as int)) as i64,
        w: 1000,
    }
}

/// The screen-space position: the viewport matrix applied to the divided
/// position.
pub open spec fn spec_screen_position(u: Uniforms, p: Vec3) -> Vec3 {
    let s = spec_mat4_apply(u.viewport_matrix, spec_ndc_position(u, p));
    Vec3 { x: s.x, y: s.y, z: s.z }
}

/// The normal matrix: the fixed-point inverse of the transposed model
/// rotation block, with the identity fallback when that block is singular.
pub open spec fn spec_normal_matrix(u: Uniforms) -> Mat3 {
    spec_mat3_inverse(u.model_matrix.spec_upper_left().spec_transpose())
}

/// The transformed (not renormalized) normal.
pub open spec fn spec_transformed_normal(u: Uniforms, n: Vec3) -> Vec3 {
    spec_mat3_apply(spec_normal_matrix(u), n)
}

/// The clip-space position, executably: callers use it to rule out a zero
/// homogeneous `w` (a degenerate projection) before the vertex stage.
pub fn clip_position(uniforms: &Uniforms, p: Vec3) -> (c: Vec4)
    requires
        uniforms.wf(),
    ensures
        c == spec_clip_position(*uniforms, p),
{
    let h = Vec4 { x: p.x, y: p.y, z: p.z, w: 1000 };
    uniforms.projection_matrix.apply(uniforms.view_matrix.apply(uniforms.model_matrix.apply(h)))
}

/// One fixed-point perspective divide component: `a * 1000 / w`, truncated
/// and saturated.
fn divide_component(a: i64, w: i64) -> (r: i64)
    requires
        w != 0,
    ensures
        r as int == sat64(tdiv_gen(a as int * 1000, w as int)),
{
    fxdiv_i128((a as i128) * 1000, w as i128)
}

/// Transform one vertex through the uniforms: clip-space position, the
/// perspective divide, the viewport map, and the normal through the inverse
/// transposed model rotation (the identity when that block is singular). The
/// input vertex is never mutated; a degenerate projection (clip `w` of zero)
/// is the caller's precondition, and nothing here otherwise fails.
pub fn vertex_shader(vertex: &Vertex, uniforms: &Uniforms) -> (out: Vertex)
    requires
        uniforms.wf(),
        spec_clip_position(*uniforms, vertex.position).w != 0,
    ensures
        out.position == vertex.position,
        out.normal == vertex.normal,
        out.tex_coords == vertex.tex_coords,
        out.color == vertex.color,
        out.transformed_position == spec_screen_position(*uniforms, vertex.position),
        out.transformed_normal == spec_transformed_normal(*uniforms, vertex.normal),
{
    let clip = clip_position(uniforms, vertex.position);
    let ndc = Vec4 {
        x: divide_component(clip.x, clip.w),
        y: divide_component(clip.y, clip.w),
        z: divide_component(clip.z, clip.w),
        w: 1000,
    };
    let screen = uniforms.viewport_matrix.apply(ndc);
    let rotation = uniforms.model_matrix.upper_left();
    let normal_matrix = mat3_inverse(&rotation.transpose());
    let transformed_normal = normal_matrix.apply(vertex.normal);
    Vertex {
        position: vertex.position,
        normal: vertex.normal,
        tex_coords: vertex.tex_coords,
        color: vertex.color,
        transformed_position: Vec3 { x: screen.x, y: screen.y, z: screen.z },
        transformed_normal,
    }
}

/// Rescaling a representable value into the wide product and dividing it back
/// out by the unit returns the value: `(x * 1000) / 1000 == x`, truncated
/// either way around zero.
proof fn lemma_unit_roundtrip(x: int)
    ensures
        tdiv_gen(x * 1000, 1000) == x,
{
    if x >= 0 {
        assert((x * 1000) / 1000 == x) by (nonlinear_arith);
    } else {
        assert((-(x * 1000)) / 1000 == -x) by (nonlinear_arith);
    }
}

/// The fixed-point identity fixes every homogeneous vector.
pub proof fn lemma_mat4_identity_apply(v: Vec4)
    ensures
        spec_mat4_apply(Mat4::spec_identity(), v) == v,
{
    let m = Mat4::spec_identity();
    assert(m.m00 as int * (v.x as int) + m.m01 as int * (v.y as int) + m.m02 as int * (v.z as int)
        + m.m03 as int * (v.w as int) == (v.x as int) * 1000 && m.m10 as int * (v.x as int)
        + m.m11 as int * (v.y as int) + m.m12 as int * (v.z as int) + m.m13 as int * (v.w as int)
        == (v.y as int) * 1000 && m.m20 as int * (v.x as int) + m.m21 as int * (v.y as int)
        + m.m22 as int * (v.z as int) + m.m23 as int * (v.w as int) == (v.z as int) * 1000
        && m.m30 as int * (v.x as int) + m.m31 as int * (v.y as int) + m.m32 as int * (v.z as int)
        + m.m33 as int * (v.w as int) == (v.w as int) * 1000) by (nonlinear_arith)
        requires
            m.m00 as int == 1000 && m.m01 as int == 0 && m.m02 as int == 0 && m.m03 as int == 0
                && m.m10 as int == 0 && m.m11 as int == 1000 && m.m12 as int == 0 && m.m13 as int
                == 0 && m.m20 as int == 0 && m.m21 as int == 0 && m.m22 as int == 1000
                && m.m23 as int == 0 && m.m30 as int == 0 && m.m31 as int == 0 && m.m32 as int == 0
                && m.m33 as int == 1000,
    ;
    lemma_unit_roundtrip(v.x as int);
    lemma_unit_roundtrip(v.y as int);
    lemma_unit_roundtrip(v.z as int);
    lemma_unit_roundtrip(v.w as int);
    assert(spec_mat4_apply(Mat4::spec_identity(), v).x == v.x);
    assert(spec_mat4_apply(Mat4::spec_identity(), v).y == v.y);
    assert(spec_mat4_apply(Mat4::spec_identity(), v).z == v.z);
    assert(spec_mat4_apply(Mat4::spec_identity(), v).w == v.w);
}

/// The fixed-point identity fixes every 3D vector.
pub proof fn lemma_mat3_identity_apply(v: Vec3)
    ensures
        spec_mat3_apply(Mat3::spec_identity(), v) == v,
{
    let m = Mat3::spec_identity();
    assert(m.m00 as int * (v.x as int) + m.m01 as int * (v.y as int) + m.m02 as int * (v.z as int)
        == (v.x as int) * 1000 && m.m10 as int * (v.x as int) + m.m11 as int * (v.y as int)
        + m.m12 as int * (v.z as int) == (v.y as int) * 1000 && m.m20 as int * (v.x as int)
        + m.m21 as int * (v.y as int) + m.m22 as int * (v.z as int) == (v.z as int) * 1000)
        by (nonlinear_arith)
        requires
            m.m00 as int == 1000 && m.m01 as int == 0 && m.m02 as int == 0 && m.m10 as int == 0
                && m.m11 as int == 1000 && m.m12 as int == 0 && m.m20 as int == 0 && m.m21 as int
                == 0 && m.m22 as int == 1000,
    ;
    lemma_unit_roundtrip(v.x as int);
    lemma_unit_roundtrip(v.y as int);
    lemma_unit_roundtrip(v.z as int);
    assert(spec_mat3_apply(Mat3::spec_identity(), v).x == v.x);
    assert(spec_mat3_apply(Mat3::spec_identity(), v).y == v.y);
    assert(spec_mat3_apply(Mat3::spec_identity(), v).z == v.z);
}

/// With the identity model, view and projection matrices and a scale-by-one
/// (identity) viewport matrix, the perspective divide sees `w == 1000` and the
/// screen-space position reproduces the input position unchanged.
pub proof fn lemma_identity_transform_reproduces_position(u: Uniforms, p: Vec3)
    requires
        u.model_matrix == Mat4::spec_identity(),
        u.view_matrix == Mat4::spec_identity(),
        u.projection_matrix == Mat4::spec_identity(),
        u.viewport_matrix == Mat4::spec_identity(),
    ensures
        spec_clip_position(u, p).w == 1000,
        spec_screen_position(u, p) == p,
{
    let h = Vec4 { x: p.x, y: p.y, z: p.z, w: 1000 };
    lemma_mat4_identity_apply(h);
    assert(spec_clip_position(u, p) == h);
    lemma_unit_roundtrip(p.x as int);
    lemma_unit_roundtrip(p.y as int);
    lemma_unit_roundtrip(p.z as int);
    assert(spec_ndc_position(u, p) == h);
    lemma_mat4_identity_apply(spec_ndc_position(u, p));
    assert(spec_screen_position(u, p) == p);
}

/// A singular model rotation block falls back to the identity normal matrix,
/// so the transformed normal is the input normal, and nothing fails.
pub proof fn lemma_singular_model_keeps_normal(u: Uniforms, n: Vec3)
    requires
        u.model_matrix.spec_upper_left().spec_transpose().spec_det() == 0,
    ensures
        spec_normal_matrix(u) == Mat3::spec_identity(),
        spec_transformed_normal(u, n) == n,
{
    lemma_mat3_identity_apply(n);
}

} // verus!
