//! Book-keeping for the host side: which handles exist, what is bound,
//! what has been filled.
//!
//! The model is just detailed enough to say of a list of commands that it
//! never names something that is not there: no buffer is filled or read
//! that is not bound, no program is used that was not linked, and no draw
//! starts without its attributes, its time and its texture in place.

use vstd::prelude::*;
use crate::command::{Attribute, Buffer, Command, Shader, Timestamp};
use crate::gl;
use crate::quad::{COMPONENTS, VERTEX_COUNT};

verus! {

/// What the host keeps for the component, by the role it plays.
pub enum Handle {
    Context,
    Texture,
    Image,
    Buffer(Buffer),
    Shader(Shader),
    Program,
    /// The location of an attribute in the program.
    Location(Attribute),
    /// The location of the time uniform in the program.
    TimeLocation,
}

/// The host as the commands leave it.
pub struct Host {
    /// The handles that exist.
    pub held: Set<Handle>,
    /// Whether the texture is the current one of its target.
    pub texture_bound: bool,
    /// Whether the texture has been given an image.
    pub texture_filled: bool,
    /// Whether the image element has its completion callback.
    pub callback_set: bool,
    /// The buffer that is the current array buffer.
    pub array_buffer: Option<Buffer>,
    /// The buffers that have been given their coordinates.
    pub filled: Set<Buffer>,
    /// The shader objects that have been given their source.
    pub sourced: Set<Shader>,
    /// The shader objects that have been compiled since.
    pub compiled: Set<Shader>,
    /// The shader objects that are attached to the program.
    pub attached: Set<Shader>,
    /// Whether the program has been linked.
    pub linked: bool,
    /// Whether the program is the one that draws.
    pub in_use: bool,
    /// The buffer that each attribute reads from.
    pub fed: Map<Attribute, Buffer>,
    /// The attributes whose arrays are switched on.
    pub enabled: Set<Attribute>,
    /// The time that the program's uniform holds.
    pub time: Option<Timestamp>,
}

impl Host {
    /// A host that has been asked nothing yet.
    pub open spec fn fresh() -> Host {
        Host {
            held: Set::empty(),
            texture_bound: false,
            texture_filled: false,
            callback_set: false,
            array_buffer: None,
            filled: Set::empty(),
            sourced: Set::empty(),
            compiled: Set::empty(),
            attached: Set::empty(),
            linked: false,
            in_use: false,
            fed: Map::empty(),
            enabled: Set::empty(),
            time: None,
        }
    }

    /// Whether the handle exists.
    pub open spec fn has(self, handle: Handle) -> bool {
        self.held.contains(handle)
    }

    /// Whether the attribute is switched on and reads from its own buffer,
    /// which has its coordinates.
    pub open spec fn feeds(self, attribute: Attribute) -> bool {
        &&& self.enabled.contains(attribute)
        &&& self.fed.dom().contains(attribute)
        &&& self.fed[attribute] == attribute.spec_buffer()
        &&& self.filled.contains(attribute.spec_buffer())
    }

    /// Whether a draw would find everything it reads: the program, both
    /// attributes, the time and the texture.
    pub open spec fn ready_to_draw(self) -> bool {
        &&& self.has(Handle::Context)
        &&& self.in_use
        &&& self.texture_bound
        &&& self.texture_filled
        &&& self.feeds(Attribute::Position)
        &&& self.feeds(Attribute::TexCoord)
        &&& self.time is Some
    }

    /// Whether the host has what the command names.
    pub open spec fn can(self, command: Command) -> bool {
        match command {
            Command::AcquireContext(_) => true,
            Command::CreateTexture => self.has(Handle::Context),
            Command::BindTexture { target } => {
                &&& self.has(Handle::Context)
                &&& self.has(Handle::Texture)
                &&& target == gl::TEXTURE_2D
            },
            Command::TexImagePixel { format, width, height, border, pixel } => {
                &&& self.has(Handle::Context)
                &&& self.texture_bound
                &&& format.target == gl::TEXTURE_2D
                &&& width == 1
                &&& height == 1
            },
            Command::CreateImage => true,
            Command::SetCrossOrigin(_) => self.has(Handle::Image),
            Command::SetOnLoad => {
                &&& self.has(Handle::Context)
                &&& self.has(Handle::Texture)
                &&& self.has(Handle::Image)
            },
            Command::SetSource(_) => self.has(Handle::Image) && self.callback_set,
            Command::TexImageElement { format } => {
                &&& self.has(Handle::Context)
                &&& self.has(Handle::Image)
                &&& self.texture_bound
                &&& format.target == gl::TEXTURE_2D
            },
            Command::GenerateMipmap { target } => {
                &&& self.has(Handle::Context)
                &&& self.texture_bound
                &&& self.texture_filled
                &&& target == gl::TEXTURE_2D
            },
            Command::CreateBuffer(_) => self.has(Handle::Context),
            Command::BindBuffer { target, buffer } => {
                &&& self.has(Handle::Context)
                &&& self.has(Handle::Buffer(buffer))
                &&& target == gl::ARRAY_BUFFER
            },
            Command::BufferData { target, source, usage } => {
                &&& self.has(Handle::Context)
                &&& self.array_buffer == Some(source)
                &&& target == gl::ARRAY_BUFFER
            },
            Command::CreateShader(_) => self.has(Handle::Context),
            Command::ShaderSource(shader) => {
                &&& self.has(Handle::Context)
                &&& self.has(Handle::Shader(shader))
            },
            Command::CompileShader(shader) => {
                &&& self.has(Handle::Context)
                &&& self.has(Handle::Shader(shader))
                &&& self.sourced.contains(shader)
            },
            Command::CreateProgram => self.has(Handle::Context),
            Command::AttachShader(shader) => {
                &&& self.has(Handle::Context)
                &&& self.has(Handle::Program)
                &&& self.has(Handle::Shader(shader))
            },
            Command::LinkProgram => {
                &&& self.has(Handle::Context)
                &&& self.has(Handle::Program)
                &&& self.attached.contains(Shader::Vertex)
                &&& self.attached.contains(Shader::Fragment)
                &&& self.compiled.contains(Shader::Vertex)
                &&& self.compiled.contains(Shader::Fragment)
            },
            Command::UseProgram => {
                &&& self.has(Handle::Context)
                &&& self.has(Handle::Program)
                &&& self.linked
            },
            Command::GetAttribLocation(_) => {
                &&& self.has(Handle::Context)
                &&& self.has(Handle::Program)
                &&& self.linked
            },
            Command::VertexAttribPointer { attribute, size, kind, normalized, stride, offset } => {
                &&& self.has(Handle::Context)
                &&& self.has(Handle::Location(attribute))
                &&& self.array_buffer is Some
                &&& size == COMPONENTS
                &&& kind == gl::FLOAT
                &&& stride == 0
                &&& offset == 0
            },
            Command::EnableVertexAttribArray(attribute) => {
                &&& self.has(Handle::Context)
                &&& self.has(Handle::Location(attribute))
            },
            Command::GetUniformLocation(_) => {
                &&& self.has(Handle::Context)
                &&& self.has(Handle::Program)
                &&& self.linked
            },
            Command::Uniform1f(_) => {
                &&& self.has(Handle::Context)
                &&& self.has(Handle::TimeLocation)
                &&& self.in_use
            },
            Command::DrawArrays { mode, first, count } => {
                &&& self.ready_to_draw()
                &&& mode == gl::TRIANGLES
                &&& first == 0
                &&& count == VERTEX_COUNT
            },
            Command::RequestFrame => true,
        }
    }

    /// The host after the command. Whatever is created anew starts out
    /// empty, and takes the place of what played its role before.
    pub open spec fn perform(self, command: Command) -> Host {
        match command {
            Command::AcquireContext(_) => Host { held: self.held.insert(Handle::Context), ..self },
            Command::CreateTexture => Host {
                held: self.held.insert(Handle::Texture),
                texture_bound: false,
                texture_filled: false,
                ..self
            },
            Command::BindTexture { .. } => Host { texture_bound: true, ..self },
            Command::TexImagePixel { .. } => Host { texture_filled: true, ..self },
            Command::CreateImage => Host {
                held: self.held.insert(Handle::Image),
                callback_set: false,
                ..self
            },
            Command::SetCrossOrigin(_) => self,
            Command::SetOnLoad => Host { callback_set: true, ..self },
            Command::SetSource(_) => self,
            Command::TexImageElement { .. } => Host { texture_filled: true, ..self },
            Command::GenerateMipmap { .. } => self,
            Command::CreateBuffer(buffer) => Host {
                held: self.held.insert(Handle::Buffer(buffer)),
                array_buffer: if self.array_buffer == Some(buffer) {
                    None
                } else {
                    self.array_buffer
                },
                filled: self.filled.remove(buffer),
                fed: Map::new(
                    |a: Attribute| self.fed.dom().contains(a) && self.fed[a] != buffer,
                    |a: Attribute| self.fed[a],
                ),
                ..self
            },
            Command::BindBuffer { buffer, .. } => Host { array_buffer: Some(buffer), ..self },
            Command::BufferData { source, .. } => Host {
                filled: self.filled.insert(source),
                ..self
            },
            Command::CreateShader(shader) => Host {
                held: self.held.insert(Handle::Shader(shader)),
                sourced: self.sourced.remove(shader),
                compiled: self.compiled.remove(shader),
                attached: self.attached.remove(shader),
                ..self
            },
            Command::ShaderSource(shader) => Host {
                sourced: self.sourced.insert(shader),
                compiled: self.compiled.remove(shader),
                ..self
            },
            Command::CompileShader(shader) => Host {
                compiled: self.compiled.insert(shader),
                ..self
            },
            Command::CreateProgram => Host {
                held: self.held.insert(Handle::Program).remove(
                    Handle::Location(Attribute::Position),
                ).remove(Handle::Location(Attribute::TexCoord)).remove(Handle::TimeLocation),
                attached: Set::empty(),
                linked: false,
                in_use: false,
                fed: Map::empty(),
                enabled: Set::empty(),
                time: None,
                ..self
            },
            Command::AttachShader(shader) => Host {
                attached: self.attached.insert(shader),
                ..self
            },
            Command::LinkProgram => Host { linked: true, ..self },
            Command::UseProgram => Host { in_use: true, ..self },
            Command::GetAttribLocation(attribute) => Host {
                held: self.held.insert(Handle::Location(attribute)),
                ..self
            },
            Command::VertexAttribPointer { attribute, .. } => Host {
                fed: match self.array_buffer {
                    Some(buffer) => self.fed.insert(attribute, buffer),
                    None => self.fed,
                },
                ..self
            },
            Command::EnableVertexAttribArray(attribute) => Host {
                enabled: self.enabled.insert(attribute),
                ..self
            },
            Command::GetUniformLocation(_) => Host {
                held: self.held.insert(Handle::TimeLocation),
                ..self
            },
            Command::Uniform1f(time) => Host { time: Some(time), ..self },
            Command::DrawArrays { .. } => self,
            Command::RequestFrame => self,
        }
    }

    /// The host after all the commands, in their order.
    pub open spec fn after(self, plan: Seq<Command>) -> Host
        decreases plan.len(),
    {
        if plan.len() == 0 {
            self
        } else {
            self.perform(plan[0]).after(plan.skip(1))
        }
    }

    /// Whether the host has what each command names when its turn comes.
    pub open spec fn accepts(self, plan: Seq<Command>) -> bool
        decreases plan.len(),
    {
        plan.len() == 0 || (self.can(plan[0]) && self.perform(plan[0]).accepts(plan.skip(1)))
    }
}

/// A list of commands made of two is accepted exactly if the first part
/// is, and the second part after it; and leaves the host as the second
/// part leaves what the first part left.
pub proof fn lemma_host_concat(host: Host, first: Seq<Command>, second: Seq<Command>)
    ensures
        host.accepts(first + second) <==> host.accepts(first) && host.after(first).accepts(second),
        host.after(first + second) == host.after(first).after(second),
    decreases first.len(),
{
    if first.len() == 0 {
        assert(first + second =~= second);
    } else {
        assert((first + second)[0] == first[0]);
        assert((first + second).skip(1) =~= first.skip(1) + second);
        lemma_host_concat(host.perform(first[0]), first.skip(1), second);
    }
}

} // verus!
