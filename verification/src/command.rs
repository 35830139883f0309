//! The vocabulary in which the models tell their host what to do.
//!
//! The models never touch the browser. Each of them answers an event with a
//! list of commands; the host performs the commands in order, one host call
//! per command, and reports back what the models need to know.

use vstd::prelude::*;
use crate::color::Rgba;

verus! {

/// The two vertex buffers of the quad.
#[derive(Clone, Copy, PartialEq, Eq, Structural, Debug)]
pub enum Buffer {
    /// Where each vertex lies on the canvas.
    Positions,
    /// Where each vertex lies on the texture.
    TexCoords,
}

/// The two stages of the shader program.
#[derive(Clone, Copy, PartialEq, Eq, Structural, Debug)]
pub enum Shader {
    Vertex,
    Fragment,
}

/// The two per-vertex inputs of the vertex shader.
#[derive(Clone, Copy, PartialEq, Eq, Structural, Debug)]
pub enum Attribute {
    Position,
    TexCoord,
}

/// A frame's time: milliseconds since an arbitrary origin, as a
/// double-precision number held by its bit pattern. The models carry it
/// through and never interpret it.
#[derive(Clone, Copy, PartialEq, Eq, Structural, Debug)]
pub struct Timestamp {
    pub bits: u64,
}

/// How a texture image is laid out, as the graphics context wants it told.
#[derive(Clone, Copy, PartialEq, Eq, Structural, Debug)]
pub struct ImageFormat {
    pub target: u32,
    pub level: i32,
    pub internal_format: u32,
    pub format: u32,
    pub kind: u32,
}

/// One call for the host to make.
///
/// The handles that the calls produce (buffers, shaders, the program, the
/// texture, the image element, attribute and uniform locations) stay with
/// the host; a command names them by the role they play.
#[derive(Clone, Copy, PartialEq, Eq, Debug)]
pub enum Command {
    /// Take the graphics context of the given kind from the canvas.
    AcquireContext(&'static str),
    /// Create the texture object.
    CreateTexture,
    /// Make the texture the current one of `target`.
    BindTexture { target: u32 },
    /// Fill the current texture with `width` by `height` texels, all given
    /// here.
    TexImagePixel { format: ImageFormat, width: i32, height: i32, border: i32, pixel: Rgba },
    /// Create the image element that will fetch and decode the picture.
    CreateImage,
    /// Set the image element's cross-origin mode.
    SetCrossOrigin(&'static str),
    /// Register the completion callback on the image element. The callback
    /// keeps the texture, the image element and the context alive until it
    /// has run.
    SetOnLoad,
    /// Start fetching the picture at this path.
    SetSource(&'static str),
    /// Fill the current texture from the decoded image element. The host
    /// reports whether this succeeded.
    TexImageElement { format: ImageFormat },
    /// Derive the smaller levels of the current texture.
    GenerateMipmap { target: u32 },
    /// Create a buffer object for this role.
    CreateBuffer(Buffer),
    /// Make the buffer the current one of `target`.
    BindBuffer { target: u32, buffer: Buffer },
    /// Fill the current buffer of `target` with the coordinates of `source`.
    BufferData { target: u32, source: Buffer, usage: u32 },
    /// Create the shader object for this stage, of the stage's kind.
    CreateShader(Shader),
    /// Hand the stage's source text to its shader object.
    ShaderSource(Shader),
    /// Compile the stage's shader object.
    CompileShader(Shader),
    /// Create the program object.
    CreateProgram,
    /// Attach the stage's shader object to the program.
    AttachShader(Shader),
    /// Link the program.
    LinkProgram,
    /// Draw with the program from now on.
    UseProgram,
    /// Look up the attribute's location in the program by its name.
    GetAttribLocation(Attribute),
    /// Feed the attribute from the current array buffer.
    VertexAttribPointer {
        attribute: Attribute,
        size: i32,
        kind: u32,
        normalized: bool,
        stride: i32,
        offset: i32,
    },
    /// Switch the attribute's array on.
    EnableVertexAttribArray(Attribute),
    /// Look up the location of the uniform of this name in the program.
    GetUniformLocation(&'static str),
    /// Set the uniform last looked up to this time, narrowed to single
    /// precision.
    Uniform1f(Timestamp),
    /// Draw `count` vertices, starting at `first`.
    DrawArrays { mode: u32, first: i32, count: i32 },
    /// Ask for one callback before the next repaint, and keep its handle in
    /// place of the previous one.
    RequestFrame,
}

impl Shader {
    /// The enumerant that tells the graphics context which kind of shader
    /// to create for this stage.
    pub open spec fn spec_kind(self) -> u32 {
        match self {
            Shader::Vertex => crate::gl::VERTEX_SHADER,
            Shader::Fragment => crate::gl::FRAGMENT_SHADER,
        }
    }

    /// The enumerant that tells the graphics context which kind of shader
    /// to create for this stage.
    #[verifier::when_used_as_spec(spec_kind)]
    pub fn kind(self) -> (kind: u32)
        ensures
            kind == self.spec_kind(),
    {
        match self {
            Shader::Vertex => crate::gl::VERTEX_SHADER,
            Shader::Fragment => crate::gl::FRAGMENT_SHADER,
        }
    }
}

impl Attribute {
    /// The name under which the vertex shader declares the attribute.
    pub open spec fn spec_name(self) -> &'static str {
        match self {
            Attribute::Position => "a_position",
            Attribute::TexCoord => "a_texCoord",
        }
    }

    /// The name under which the vertex shader declares the attribute.
    #[verifier::when_used_as_spec(spec_name)]
    pub fn name(self) -> (name: &'static str)
        ensures
            name == self.spec_name(),
    {
        match self {
            Attribute::Position => "a_position",
            Attribute::TexCoord => "a_texCoord",
        }
    }

    /// The buffer that holds the attribute's values.
    pub open spec fn spec_buffer(self) -> Buffer {
        match self {
            Attribute::Position => Buffer::Positions,
            Attribute::TexCoord => Buffer::TexCoords,
        }
    }

    /// The buffer that holds the attribute's values.
    #[verifier::when_used_as_spec(spec_buffer)]
    pub fn buffer(self) -> (buffer: Buffer)
        ensures
            buffer == self.spec_buffer(),
    {
        match self {
            Attribute::Position => Buffer::Positions,
            Attribute::TexCoord => Buffer::TexCoords,
        }
    }
}

impl Command {
    /// Whether a failure of the command's host call ends the program.
    ///
    /// Without the context, a texture, a buffer, a shader object, a program
    /// object, the image element or the first texel there is nothing to go
    /// on with. Every other failure passes unnoticed: the frame is drawn
    /// with whatever the context is left holding.
    pub open spec fn spec_is_fatal(self) -> bool {
        match self {
            Command::AcquireContext(_) => true,
            Command::CreateTexture => true,
            Command::TexImagePixel { .. } => true,
            Command::CreateImage => true,
            Command::CreateBuffer(_) => true,
            Command::CreateShader(_) => true,
            Command::CreateProgram => true,
            _ => false,
        }
    }

    /// Whether a failure of the command's host call ends the program.
    #[verifier::when_used_as_spec(spec_is_fatal)]
    pub fn is_fatal(self) -> (fatal: bool)
        ensures
            fatal == self.spec_is_fatal(),
    {
        match self {
            Command::AcquireContext(_) => true,
            Command::CreateTexture => true,
            Command::TexImagePixel { .. } => true,
            Command::CreateImage => true,
            Command::CreateBuffer(_) => true,
            Command::CreateShader(_) => true,
            Command::CreateProgram => true,
            _ => false,
        }
    }

    /// Whether the command asks for the next frame callback.
    pub open spec fn spec_is_registration(self) -> bool {
        self == Command::RequestFrame
    }

    /// Whether the command asks for the next frame callback.
    #[verifier::when_used_as_spec(spec_is_registration)]
    pub fn is_registration(self) -> (registers: bool)
        ensures
            registers == self.spec_is_registration(),
    {
        match self {
            Command::RequestFrame => true,
            _ => false,
        }
    }
}

/// How many of the commands ask for a frame callback.
pub open spec fn registrations(plan: Seq<Command>) -> nat
    decreases plan.len(),
{
    if plan.len() == 0 {
        0
    } else {
        registrations(plan.drop_last()) + if plan.last().spec_is_registration() {
            1nat
        } else {
            0nat
        }
    }
}

/// Registrations add up over commands performed one list after the other.
pub proof fn lemma_registrations_concat(first: Seq<Command>, second: Seq<Command>)
    ensures
        registrations(first + second) == registrations(first) + registrations(second),
    decreases second.len(),
{
    if second.len() == 0 {
    } else {
        lemma_registrations_concat(first, second.drop_last());
        assert((first + second).drop_last() =~= first + second.drop_last());
    }
}

/// A list without a registration counts none.
pub proof fn lemma_registrations_none(plan: Seq<Command>)
    requires
        forall|i: int| 0 <= i < plan.len() ==> !(#[trigger] plan[i]).spec_is_registration(),
    ensures
        registrations(plan) == 0,
    decreases plan.len(),
{
    if plan.len() > 0 {
        lemma_registrations_none(plan.drop_last());
    }
}

/// Counts the commands that ask for a frame callback.
pub fn count_registrations(plan: &Vec<Command>) -> (count: usize)
    ensures
        count == registrations(plan@),
{
    let mut count: usize = 0;
    let mut i: usize = 0;
    while i < plan.len()
        invariant
            i <= plan.len(),
            count <= i,
            count == registrations(plan@.take(i as int)),
        decreases plan.len() - i,
    {
        proof {
            assert(plan@.take(i + 1).drop_last() =~= plan@.take(i as int));
        }
        if plan[i].is_registration() {
            count = count + 1;
        }
        i = i + 1;
    }
    proof {
        assert(plan@.take(i as int) =~= plan@);
    }
    count
}

} // verus!
