use browser_demos::command::{Attribute, Buffer, Shader};
use browser_demos::gl;
use browser_demos::quad::{COMPONENTS, VERTEX_COUNT};
use web_sys::WebGl2RenderingContext;

fn floats(buffer: Buffer) -> Vec<f32> {
    buffer.data().iter().map(|half| f32::from(*half) / 2.0).collect()
}

#[test]
fn enumerants_are_those_of_the_binding() {
    assert_eq!(gl::ARRAY_BUFFER, WebGl2RenderingContext::ARRAY_BUFFER);
    assert_eq!(gl::STATIC_DRAW, WebGl2RenderingContext::STATIC_DRAW);
    assert_eq!(gl::FLOAT, WebGl2RenderingContext::FLOAT);
    assert_eq!(gl::UNSIGNED_BYTE, WebGl2RenderingContext::UNSIGNED_BYTE);
    assert_eq!(gl::TRIANGLES, WebGl2RenderingContext::TRIANGLES);
    assert_eq!(gl::TEXTURE_2D, WebGl2RenderingContext::TEXTURE_2D);
    assert_eq!(gl::RGBA, WebGl2RenderingContext::RGBA);
    assert_eq!(gl::VERTEX_SHADER, WebGl2RenderingContext::VERTEX_SHADER);
    assert_eq!(gl::FRAGMENT_SHADER, WebGl2RenderingContext::FRAGMENT_SHADER);
}

#[test]
fn each_stage_has_its_own_kind_of_shader() {
    assert_eq!(Shader::Vertex.kind(), WebGl2RenderingContext::VERTEX_SHADER);
    assert_eq!(Shader::Fragment.kind(), WebGl2RenderingContext::FRAGMENT_SHADER);
}

#[test]
fn attributes_go_by_their_shader_names() {
    assert_eq!(Attribute::Position.name(), "a_position");
    assert_eq!(Attribute::TexCoord.name(), "a_texCoord");
    assert_eq!(Attribute::Position.buffer(), Buffer::Positions);
    assert_eq!(Attribute::TexCoord.buffer(), Buffer::TexCoords);
}

#[test]
fn the_quad_is_two_triangles_about_the_origin() {
    assert_eq!(
        floats(Buffer::Positions),
        vec![-0.5, 0.5, 0.5, 0.5, -0.5, -0.5, -0.5, -0.5, 0.5, 0.5, 0.5, -0.5]
    );
}

#[test]
fn the_texture_covers_the_quad() {
    assert_eq!(
        floats(Buffer::TexCoords),
        vec![0.0, 0.0, 1.0, 0.0, 0.0, 1.0, 0.0, 1.0, 1.0, 0.0, 1.0, 1.0]
    );
}

#[test]
fn each_buffer_holds_two_coordinates_for_each_of_six_vertices() {
    assert_eq!(COMPONENTS, 2);
    assert_eq!(VERTEX_COUNT, 6);
    for buffer in [Buffer::Positions, Buffer::TexCoords] {
        assert_eq!(buffer.data().len(), 12);
    }
}

#[test]
fn texture_coordinates_follow_positions() {
    let positions = floats(Buffer::Positions);
    let coords = floats(Buffer::TexCoords);
    for vertex in 0..6 {
        assert_eq!(coords[2 * vertex], positions[2 * vertex] + 0.5);
        assert_eq!(coords[2 * vertex + 1], 0.5 - positions[2 * vertex + 1]);
    }
}
