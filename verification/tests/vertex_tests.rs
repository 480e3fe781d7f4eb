use solar_shaders::color::Color;
use solar_shaders::geom::Mat4;
use solar_shaders::geom::Vec2;
use solar_shaders::geom::Vec3;
use solar_shaders::vertex::Uniforms;
use solar_shaders::vertex::Vertex;
use solar_shaders::vertex::clip_position;
use solar_shaders::vertex::vertex_shader;

fn plain_vertex(position: Vec3, normal: Vec3) -> Vertex {
    Vertex {
        position,
        normal,
        tex_coords: Vec2 { x: 250, y: 750 },
        color: Color::new(1, 2, 3),
        transformed_position: Vec3 { x: 0, y: 0, z: 0 },
        transformed_normal: Vec3 { x: 0, y: 0, z: 0 },
    }
}

fn identity_uniforms(time: i64) -> Uniforms {
    Uniforms::new(
        Mat4::identity(),
        Mat4::identity(),
        Mat4::identity(),
        Mat4::identity(),
        time,
    )
}

#[test]
fn identity_transform_reproduces_the_position() {
    let u = identity_uniforms(0);
    let position = Vec3 { x: 250, y: -750, z: 1250 };
    let normal = Vec3 { x: 0, y: 1000, z: 0 };
    let clip = clip_position(&u, position);
    assert_eq!(clip.w, 1000);
    let v = plain_vertex(position, normal);
    let out = vertex_shader(&v, &u);
    assert_eq!(out.transformed_position, position);
    assert_eq!(out.transformed_normal, normal);
    // the input vertex data rides along unchanged
    assert_eq!(out.position, v.position);
    assert_eq!(out.normal, v.normal);
    assert_eq!(out.tex_coords, v.tex_coords);
    assert_eq!(out.color, v.color);
}

#[test]
fn singular_rotation_block_falls_back_to_identity_normal() {
    // a model matrix whose rotation block collapses everything onto one axis
    // is singular; the normal transform must fall back to the identity and
    // the stage must not fail
    let mut model = Mat4::identity();
    model.m00 = 1000;
    model.m01 = 1000;
    model.m02 = 1000;
    model.m10 = 2000;
    model.m11 = 2000;
    model.m12 = 2000;
    model.m20 = 3000;
    model.m21 = 3000;
    model.m22 = 3000;
    let u = Uniforms::new(model, Mat4::identity(), Mat4::identity(), Mat4::identity(), 0);
    let normal = Vec3 { x: 123, y: -456, z: 789 };
    let v = plain_vertex(Vec3 { x: 100, y: 200, z: 300 }, normal);
    let out = vertex_shader(&v, &u);
    assert_eq!(out.transformed_normal, normal);
}

#[test]
fn scaling_model_matrix_scales_position_and_counterscales_normal() {
    // a uniform scale of 2 doubles positions; the inverse-transpose normal
    // matrix halves the normal
    let mut model = Mat4::identity();
    model.m00 = 2000;
    model.m11 = 2000;
    model.m22 = 2000;
    let u = Uniforms::new(model, Mat4::identity(), Mat4::identity(), Mat4::identity(), 0);
    let v = plain_vertex(Vec3 { x: 100, y: -200, z: 300 }, Vec3 { x: 1000, y: 0, z: 500 });
    let out = vertex_shader(&v, &u);
    assert_eq!(out.transformed_position, Vec3 { x: 200, y: -400, z: 600 });
    assert_eq!(out.transformed_normal, Vec3 { x: 500, y: 0, z: 250 });
}

#[test]
fn perspective_divide_normalizes_by_w() {
    // a projection that writes w = 2.0 halves every component in the divide
    let mut projection = Mat4::identity();
    projection.m30 = 0;
    projection.m31 = 0;
    projection.m32 = 0;
    projection.m33 = 2000;
    let u = Uniforms::new(Mat4::identity(), Mat4::identity(), projection, Mat4::identity(), 0);
    let position = Vec3 { x: 400, y: 800, z: -1600 };
    let clip = clip_position(&u, position);
    assert_eq!(clip.w, 2000);
    let v = plain_vertex(position, Vec3 { x: 0, y: 0, z: 1000 });
    let out = vertex_shader(&v, &u);
    assert_eq!(out.transformed_position, Vec3 { x: 200, y: 400, z: -800 });
}
