//! The component and its host agree: whatever happens, the component never
//! asks for something that its host cannot do.

use vstd::prelude::*;
use crate::app::{spec_image_path, AppView, Msg};
use crate::command::{Attribute, Buffer, Command, Shader, Timestamp};
use crate::gl;
use crate::host::{lemma_host_concat, Handle, Host};
use crate::quad::VERTEX_COUNT;
use crate::render::{
    attribute_plan, draw_plan, frame_plan, program_plan, shader_plan, uniform_plan, upload_plan,
    RenderState,
};
use crate::texture::{fetch_plan, image_plan, mipmap_plan, placeholder_plan, texture_plan};
use crate::trace::{lemma_step_keeps_wf, Event};

verus! {

/// Whether the host holds what the component counts on: the context if the
/// component has taken it; and if the component has a texture, that
/// texture, bound and filled, and the image element that fetches the
/// picture.
pub open spec fn serves(host: Host, state: AppView) -> bool {
    &&& state.has_context ==> host.has(Handle::Context)
    &&& state.texture is Some ==> {
        &&& host.has(Handle::Texture)
        &&& host.has(Handle::Image)
        &&& host.texture_bound
        &&& host.texture_filled
    }
}

impl AppView {
    /// Whether each of the events can reach the component when its turn
    /// comes.
    pub open spec fn accepts_all(self, events: Seq<Event>) -> bool
        decreases events.len(),
    {
        events.len() == 0 || (self.accepts_all(events.drop_last()) && self.run(
            events.drop_last(),
        ).accepts(events.last()))
    }
}

/// With the context in hand the texture can be made and given its
/// placeholder; it is then bound and filled, and nothing else has changed.
pub proof fn lemma_placeholder_is_accepted(host: Host)
    requires
        host.has(Handle::Context),
    ensures
        host.accepts(placeholder_plan()),
        host.after(placeholder_plan()) == (Host {
            held: host.held.insert(Handle::Texture),
            texture_bound: true,
            texture_filled: true,
            ..host
        }),
{
    reveal_with_fuel(Host::accepts, 4);
    reveal_with_fuel(Host::after, 4);
}

/// With the context and the texture in hand the picture can be set on its
/// way; the image element then exists and has its callback, and nothing
/// else has changed.
pub proof fn lemma_fetch_is_accepted(host: Host, source: &'static str)
    requires
        host.has(Handle::Context),
        host.has(Handle::Texture),
    ensures
        host.accepts(fetch_plan(source)),
        host.after(fetch_plan(source)) == (Host {
            held: host.held.insert(Handle::Image),
            callback_set: true,
            ..host
        }),
{
    reveal_with_fuel(Host::accepts, 5);
    reveal_with_fuel(Host::after, 5);
}

/// With the context in hand a buffer can be made and filled; it is then
/// the current array buffer and has its coordinates.
pub proof fn lemma_upload_is_accepted(host: Host, buffer: Buffer)
    requires
        host.has(Handle::Context),
    ensures
        host.accepts(upload_plan(buffer)),
        host.after(upload_plan(buffer)) == (Host {
            held: host.held.insert(Handle::Buffer(buffer)),
            array_buffer: Some(buffer),
            filled: host.filled.remove(buffer).insert(buffer),
            fed: host.perform(Command::CreateBuffer(buffer)).fed,
            ..host
        }),
{
    reveal_with_fuel(Host::accepts, 4);
    reveal_with_fuel(Host::after, 4);
}

/// With the context in hand a stage's shader can be made, given its source
/// and compiled.
pub proof fn lemma_shader_is_accepted(host: Host, shader: Shader)
    requires
        host.has(Handle::Context),
    ensures
        host.accepts(shader_plan(shader)),
        host.after(shader_plan(shader)) == (Host {
            held: host.held.insert(Handle::Shader(shader)),
            sourced: host.sourced.remove(shader).insert(shader),
            compiled: host.compiled.remove(shader).remove(shader).insert(shader),
            attached: host.attached.remove(shader),
            ..host
        }),
{
    reveal_with_fuel(Host::accepts, 4);
    reveal_with_fuel(Host::after, 4);
}

/// With the context in hand the program can be built. It is then linked
/// and in use; it has no attribute and no time yet. Buffers and texture
/// are as they were.
pub proof fn lemma_program_is_accepted(host: Host)
    requires
        host.has(Handle::Context),
    ensures
        host.accepts(program_plan()),
        ({
            let built = host.after(program_plan());
            &&& built.has(Handle::Program)
            &&& built.linked
            &&& built.in_use
            &&& built.enabled == Set::<Attribute>::empty()
            &&& built.fed == Map::<Attribute, Buffer>::empty()
            &&& built.array_buffer == host.array_buffer
            &&& built.filled == host.filled
            &&& built.texture_bound == host.texture_bound
            &&& built.texture_filled == host.texture_filled
            &&& built.callback_set == host.callback_set
            &&& forall|handle: Handle|
                host.has(handle) && handle !is Location && handle !is TimeLocation
                    ==> #[trigger] built.has(handle)
        }),
{
    let vertex = shader_plan(Shader::Vertex);
    let fragment = shader_plan(Shader::Fragment);
    let link = seq![
        Command::CreateProgram,
        Command::AttachShader(Shader::Vertex),
        Command::AttachShader(Shader::Fragment),
        Command::LinkProgram,
        Command::UseProgram,
    ];
    lemma_shader_is_accepted(host, Shader::Vertex);
    let one = host.after(vertex);
    lemma_shader_is_accepted(one, Shader::Fragment);
    let two = one.after(fragment);
    lemma_host_concat(host, vertex, fragment);
    lemma_host_concat(host, vertex + fragment, link);
    assert(two.accepts(link) && two.after(link) == (Host {
        held: two.perform(Command::CreateProgram).held,
        attached: Set::<Shader>::empty().insert(Shader::Vertex).insert(Shader::Fragment),
        linked: true,
        in_use: true,
        fed: Map::empty(),
        enabled: Set::empty(),
        time: None,
        ..two
    })) by {
        reveal_with_fuel(Host::accepts, 6);
        reveal_with_fuel(Host::after, 6);
    }
}

/// With a linked program and its buffer in hand an attribute can be bound.
/// It is then switched on and reads from its own buffer, which is the
/// current array buffer. Nothing else has changed.
pub proof fn lemma_attribute_is_accepted(host: Host, attribute: Attribute)
    requires
        host.has(Handle::Context),
        host.has(Handle::Program),
        host.linked,
        host.has(Handle::Buffer(attribute.spec_buffer())),
    ensures
        host.accepts(attribute_plan(attribute)),
        host.after(attribute_plan(attribute)) == (Host {
            held: host.held.insert(Handle::Location(attribute)),
            array_buffer: Some(attribute.spec_buffer()),
            fed: host.fed.insert(attribute, attribute.spec_buffer()),
            enabled: host.enabled.insert(attribute),
            ..host
        }),
{
    reveal_with_fuel(Host::accepts, 5);
    reveal_with_fuel(Host::after, 5);
}

/// With the program in use its time can be set. Nothing else changes.
pub proof fn lemma_uniform_is_accepted(host: Host, time: Timestamp)
    requires
        host.has(Handle::Context),
        host.has(Handle::Program),
        host.linked,
        host.in_use,
    ensures
        host.accepts(uniform_plan(time)),
        host.after(uniform_plan(time)) == (Host {
            held: host.held.insert(Handle::TimeLocation),
            time: Some(time),
            ..host
        }),
{
    reveal_with_fuel(Host::accepts, 3);
    reveal_with_fuel(Host::after, 3);
}

/// A host with the context and a bound, filled texture can draw the quad.
/// When the draw starts, the program is in use, both attributes read from
/// their own filled buffers, and the program's time is the frame's.
/// Context, texture and image element are as they were.
pub proof fn lemma_draw_is_accepted(host: Host, time: Timestamp)
    requires
        host.has(Handle::Context),
        host.texture_bound,
        host.texture_filled,
    ensures
        host.accepts(draw_plan(time)),
        host.after(draw_plan(time).drop_last()).ready_to_draw(),
        host.after(draw_plan(time).drop_last()).time == Some(time),
        host.after(draw_plan(time)) == host.after(draw_plan(time).drop_last()),
        host.after(draw_plan(time)).texture_bound,
        host.after(draw_plan(time)).texture_filled,
        host.after(draw_plan(time)).callback_set == host.callback_set,
        forall|handle: Handle|
            host.has(handle) && handle !is Location && handle !is TimeLocation
                ==> #[trigger] host.after(draw_plan(time)).has(handle),
{
    let positions = upload_plan(Buffer::Positions);
    let coords = upload_plan(Buffer::TexCoords);
    let program = program_plan();
    let position = attribute_plan(Attribute::Position);
    let coord = attribute_plan(Attribute::TexCoord);
    let uniform = uniform_plan(time);
    let draw = seq![Command::DrawArrays { mode: gl::TRIANGLES, first: 0, count: VERTEX_COUNT }];

    lemma_upload_is_accepted(host, Buffer::Positions);
    let h1 = host.after(positions);
    lemma_upload_is_accepted(h1, Buffer::TexCoords);
    let h2 = h1.after(coords);
    lemma_program_is_accepted(h2);
    let h3 = h2.after(program);
    assert(h3.has(Handle::Buffer(Buffer::TexCoords)));
    lemma_attribute_is_accepted(h3, Attribute::Position);
    let h4 = h3.after(position);
    lemma_attribute_is_accepted(h4, Attribute::TexCoord);
    let h5 = h4.after(coord);
    lemma_uniform_is_accepted(h5, time);
    let h6 = h5.after(uniform);

    assert(h6.accepts(draw) && h6.after(draw) == h6) by {
        reveal_with_fuel(Host::accepts, 2);
        reveal_with_fuel(Host::after, 2);
    }

    let p1 = positions;
    let p2 = p1 + coords;
    let p3 = p2 + program;
    let p4 = p3 + position;
    let p5 = p4 + coord;
    let p6 = p5 + uniform;
    lemma_host_concat(host, p1, coords);
    lemma_host_concat(host, p2, program);
    lemma_host_concat(host, p3, position);
    lemma_host_concat(host, p4, coord);
    lemma_host_concat(host, p5, uniform);
    lemma_host_concat(host, p6, draw);
    assert(draw_plan(time).drop_last() =~= p6);

    assert forall|handle: Handle|
        host.has(handle) && handle !is Location && handle !is TimeLocation
            implies #[trigger] h6.has(handle) by {
        assert(h3.has(handle));
    }
}

/// A host that serves the component accepts the component's render step,
/// and serves the component after it.
pub proof fn lemma_frame_is_accepted(host: Host, state: AppView, time: Timestamp)
    requires
        state.wf(),
        serves(host, state),
    ensures
        host.accepts(frame_plan(state.render_state(), time)),
        serves(host.after(frame_plan(state.render_state(), time)), state.frame()),
{
    let last = seq![Command::RequestFrame];
    assert forall|h: Host| h.accepts(last) && h.after(last) == h by {
        reveal_with_fuel(Host::accepts, 2);
        reveal_with_fuel(Host::after, 2);
    }
    match state.render_state() {
        RenderState::NoTexture => {},
        RenderState::TextureReady => {
            lemma_draw_is_accepted(host, time);
            lemma_host_concat(host, draw_plan(time), last);
        },
    }
}

/// A host with the context in hand accepts the making of the texture, and
/// then holds the texture, bound and filled, and the image element.
pub proof fn lemma_texture_is_accepted(host: Host, source: &'static str)
    requires
        host.has(Handle::Context),
    ensures
        host.accepts(texture_plan(source)),
        host.after(texture_plan(source)) == (Host {
            held: host.held.insert(Handle::Texture).insert(Handle::Image),
            texture_bound: true,
            texture_filled: true,
            callback_set: true,
            ..host
        }),
{
    lemma_placeholder_is_accepted(host);
    lemma_fetch_is_accepted(host.after(placeholder_plan()), source);
    lemma_host_concat(host, placeholder_plan(), fetch_plan(source));
}

/// The completion callback holds the context, the texture and the image
/// element; with them the picture can be put into the texture, and the
/// smaller levels derived if that went well.
pub proof fn lemma_callback_is_accepted(host: Host, uploaded: bool)
    requires
        host.has(Handle::Context),
        host.has(Handle::Texture),
        host.has(Handle::Image),
    ensures
        host.accepts(image_plan() + mipmap_plan(uploaded)),
        host.accepts(image_plan()),
        host.after(image_plan()).accepts(mipmap_plan(uploaded)),
        host.after(image_plan()) == (Host { texture_bound: true, texture_filled: true, ..host }),
        host.after(image_plan()).after(mipmap_plan(uploaded)) == host.after(image_plan()),
{
    reveal_with_fuel(Host::accepts, 3);
    reveal_with_fuel(Host::after, 3);
    lemma_host_concat(host, image_plan(), mipmap_plan(uploaded));
}

/// A host that serves the component accepts what any event makes the
/// component ask, and serves the component after the event.
pub proof fn lemma_event_is_accepted(host: Host, state: AppView, event: Event)
    requires
        state.wf(),
        serves(host, state),
        state.accepts(event),
    ensures
        host.accepts(state.commands(event)),
        serves(host.after(state.commands(event)), state.step(event)),
{
    match event {
        Event::Rendered { first_render } => {
            let context = seq![Command::AcquireContext("webgl2")];
            let frame = seq![Command::RequestFrame];
            assert forall|h: Host| h.accepts(frame) && h.after(frame) == h by {
                reveal_with_fuel(Host::accepts, 2);
                reveal_with_fuel(Host::after, 2);
            }
            assert(host.accepts(context) && host.after(context) == (Host {
                held: host.held.insert(Handle::Context),
                ..host
            })) by {
                reveal_with_fuel(Host::accepts, 2);
                reveal_with_fuel(Host::after, 2);
            }
            if first_render {
                let texture = texture_plan(spec_image_path());
                lemma_texture_is_accepted(host.after(context), spec_image_path());
                lemma_host_concat(host, context, texture);
                lemma_host_concat(host, context + texture, frame);
            }
        },
        Event::Message(Msg::Render(time)) => {
            lemma_frame_is_accepted(host, state, time);
        },
        Event::ImageLoaded => {
            lemma_callback_is_accepted(host, false);
        },
        Event::ImageUploaded { uploaded } => {
            reveal_with_fuel(Host::accepts, 2);
            reveal_with_fuel(Host::after, 2);
        },
    }
}

/// Whatever happens to a new component, in whatever order, a new host can
/// do everything that the component asks of it, and afterwards holds what
/// the component counts on.
pub proof fn lemma_host_keeps_up(events: Seq<Event>)
    requires
        AppView::created().accepts_all(events),
    ensures
        AppView::created().run(events).wf(),
        Host::fresh().accepts(AppView::created().emitted(events)),
        serves(
            Host::fresh().after(AppView::created().emitted(events)),
            AppView::created().run(events),
        ),
    decreases events.len(),
{
    let start = AppView::created();
    if events.len() > 0 {
        let earlier = events.drop_last();
        lemma_host_keeps_up(earlier);
        let state = start.run(earlier);
        let host = Host::fresh().after(start.emitted(earlier));
        lemma_step_keeps_wf(state, events.last());
        lemma_event_is_accepted(host, state, events.last());
        lemma_host_concat(Host::fresh(), start.emitted(earlier), state.commands(events.last()));
    }
}

} // verus!
