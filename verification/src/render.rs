//! The render step: what one frame asks of the graphics context.

use vstd::prelude::*;
use crate::command::{
    lemma_registrations_concat, lemma_registrations_none, registrations, Attribute, Buffer,
    Command, Shader, Timestamp,
};
use crate::gl;
use crate::quad::{COMPONENTS, VERTEX_COUNT};

verus! {

/// Whether a frame finds a texture to draw with.
#[derive(Clone, Copy, PartialEq, Eq, Structural, Debug)]
pub enum RenderState {
    /// There is no texture yet: a frame draws nothing.
    NoTexture,
    /// There is a texture: a frame draws the quad.
    TextureReady,
}

/// Create a buffer, make it current and fill it with its coordinates.
pub open spec fn upload_plan(buffer: Buffer) -> Seq<Command> {
    seq![
        Command::CreateBuffer(buffer),
        Command::BindBuffer { target: gl::ARRAY_BUFFER, buffer },
        Command::BufferData { target: gl::ARRAY_BUFFER, source: buffer, usage: gl::STATIC_DRAW },
    ]
}

/// Create one stage's shader object, give it its source and compile it.
pub open spec fn shader_plan(shader: Shader) -> Seq<Command> {
    seq![
        Command::CreateShader(shader),
        Command::ShaderSource(shader),
        Command::CompileShader(shader),
    ]
}

/// Compile both stages, link them into a fresh program and draw with it.
/// Nothing looks at whether compiling or linking went well.
pub open spec fn program_plan() -> Seq<Command> {
    shader_plan(Shader::Vertex) + shader_plan(Shader::Fragment) + seq![
        Command::CreateProgram,
        Command::AttachShader(Shader::Vertex),
        Command::AttachShader(Shader::Fragment),
        Command::LinkProgram,
        Command::UseProgram,
    ]
}

/// Find an attribute in the program and feed it from its own buffer, two
/// unnormalised, tightly packed floating-point coordinates for each vertex.
pub open spec fn attribute_plan(attribute: Attribute) -> Seq<Command> {
    seq![
        Command::GetAttribLocation(attribute),
        Command::BindBuffer { target: gl::ARRAY_BUFFER, buffer: attribute.spec_buffer() },
        Command::VertexAttribPointer {
            attribute,
            size: COMPONENTS,
            kind: gl::FLOAT,
            normalized: false,
            stride: 0,
            offset: 0,
        },
        Command::EnableVertexAttribArray(attribute),
    ]
}

/// Find the time uniform and set it to the frame's time.
pub open spec fn uniform_plan(time: Timestamp) -> Seq<Command> {
    seq![Command::GetUniformLocation("u_time"), Command::Uniform1f(time)]
}

/// Everything it takes to draw the quad once: fill both buffers, build the
/// program, bind both attributes, set the time, and draw the six vertices
/// as triangles.
pub open spec fn draw_plan(time: Timestamp) -> Seq<Command> {
    upload_plan(Buffer::Positions) + upload_plan(Buffer::TexCoords) + program_plan()
        + attribute_plan(Attribute::Position) + attribute_plan(Attribute::TexCoord)
        + uniform_plan(time) + seq![
        Command::DrawArrays { mode: gl::TRIANGLES, first: 0, count: VERTEX_COUNT },
    ]
}

/// One render step: draw if there is a texture, and in either case ask for
/// the next frame, last of all.
pub open spec fn frame_plan(state: RenderState, time: Timestamp) -> Seq<Command> {
    match state {
        RenderState::NoTexture => seq![Command::RequestFrame],
        RenderState::TextureReady => draw_plan(time) + seq![Command::RequestFrame],
    }
}

/// Drawing the quad asks for no frame.
pub proof fn lemma_draw_registers_nothing(time: Timestamp)
    ensures
        registrations(draw_plan(time)) == 0,
{
    let plan = draw_plan(time);
    assert forall|i: int| 0 <= i < plan.len() implies !(#[trigger] plan[i]).spec_is_registration() by {}
    lemma_registrations_none(plan);
}

/// A render step asks for the next frame exactly once, whatever the state,
/// and does so after everything else.
pub proof fn lemma_frame_registers_once(state: RenderState, time: Timestamp)
    ensures
        registrations(frame_plan(state, time)) == 1,
        frame_plan(state, time).len() > 0,
        frame_plan(state, time).last() == Command::RequestFrame,
        registrations(frame_plan(state, time).drop_last()) == 0,
{
    let last = seq![Command::RequestFrame];
    assert(registrations(last) == 1) by {
        assert(registrations(last.drop_last()) == 0);
    }
    if state == RenderState::TextureReady {
        lemma_draw_registers_nothing(time);
        lemma_registrations_concat(draw_plan(time), last);
    }
}

fn push_upload(plan: &mut Vec<Command>, buffer: Buffer)
    ensures
        final(plan)@ == old(plan)@ + upload_plan(buffer),
{
    plan.push(Command::CreateBuffer(buffer));
    plan.push(Command::BindBuffer { target: gl::ARRAY_BUFFER, buffer });
    plan.push(
        Command::BufferData { target: gl::ARRAY_BUFFER, source: buffer, usage: gl::STATIC_DRAW },
    );
}

fn push_shader(plan: &mut Vec<Command>, shader: Shader)
    ensures
        final(plan)@ == old(plan)@ + shader_plan(shader),
{
    plan.push(Command::CreateShader(shader));
    plan.push(Command::ShaderSource(shader));
    plan.push(Command::CompileShader(shader));
}

fn push_program(plan: &mut Vec<Command>)
    ensures
        final(plan)@ == old(plan)@ + program_plan(),
{
    push_shader(plan, Shader::Vertex);
    push_shader(plan, Shader::Fragment);
    plan.push(Command::CreateProgram);
    plan.push(Command::AttachShader(Shader::Vertex));
    plan.push(Command::AttachShader(Shader::Fragment));
    plan.push(Command::LinkProgram);
    plan.push(Command::UseProgram);
}

fn push_attribute(plan: &mut Vec<Command>, attribute: Attribute)
    ensures
        final(plan)@ == old(plan)@ + attribute_plan(attribute),
{
    plan.push(Command::GetAttribLocation(attribute));
    plan.push(Command::BindBuffer { target: gl::ARRAY_BUFFER, buffer: attribute.buffer() });
    plan.push(
        Command::VertexAttribPointer {
            attribute,
            size: COMPONENTS,
            kind: gl::FLOAT,
            normalized: false,
            stride: 0,
            offset: 0,
        },
    );
    plan.push(Command::EnableVertexAttribArray(attribute));
}

fn push_uniform(plan: &mut Vec<Command>, time: Timestamp)
    ensures
        final(plan)@ == old(plan)@ + uniform_plan(time),
{
    plan.push(Command::GetUniformLocation("u_time"));
    plan.push(Command::Uniform1f(time));
}

/// The commands of [`draw_plan`].
pub(crate) fn draw_commands(time: Timestamp) -> (plan: Vec<Command>)
    ensures
        plan@ == draw_plan(time),
{
    let mut plan: Vec<Command> = Vec::new();
    push_upload(&mut plan, Buffer::Positions);
    push_upload(&mut plan, Buffer::TexCoords);
    push_program(&mut plan);
    push_attribute(&mut plan, Attribute::Position);
    push_attribute(&mut plan, Attribute::TexCoord);
    push_uniform(&mut plan, time);
    plan.push(Command::DrawArrays { mode: gl::TRIANGLES, first: 0, count: VERTEX_COUNT });
    plan
}

/// The commands of [`frame_plan`].
pub(crate) fn frame_commands(state: RenderState, time: Timestamp) -> (plan: Vec<Command>)
    ensures
        plan@ == frame_plan(state, time),
{
    let mut plan = match state {
        RenderState::NoTexture => Vec::new(),
        RenderState::TextureReady => draw_commands(time),
    };
    plan.push(Command::RequestFrame);
    plan
}

} // verus!
