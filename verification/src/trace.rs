//! The component over time: what holds of every sequence of events.

use vstd::prelude::*;
use crate::app::{rendered_plan, spec_image_path, AppView, Msg};
use crate::command::{
    lemma_registrations_concat, lemma_registrations_none, registrations, Command, Timestamp,
};
use crate::render::{frame_plan, lemma_frame_registers_once, RenderState};
use crate::texture::{image_plan, mipmap_plan, texture_plan};

verus! {

/// Everything that can happen to the component.
pub enum Event {
    /// The canvas has been put on the page.
    Rendered { first_render: bool },
    /// A message has arrived.
    Message(Msg),
    /// The picture has been fetched and decoded.
    ImageLoaded,
    /// The host has tried to fill the texture from the picture.
    ImageUploaded { uploaded: bool },
}

impl Event {
    /// Whether the event makes the component ask for a frame: every render
    /// step does, and so does the first time the canvas is put on the page.
    pub open spec fn asks_for_frame(self) -> bool {
        match self {
            Event::Rendered { first_render } => first_render,
            Event::Message(_) => true,
            _ => false,
        }
    }
}

impl AppView {
    /// Whether the event can reach the component in this state. The picture
    /// can only arrive after the texture that waits for it was made.
    pub open spec fn accepts(self, event: Event) -> bool {
        match event {
            Event::ImageLoaded => self.texture is Some,
            Event::ImageUploaded { .. } => self.texture is Some,
            _ => true,
        }
    }

    /// The component after the event.
    pub open spec fn step(self, event: Event) -> AppView {
        match event {
            Event::Rendered { first_render } => self.rendered(first_render),
            Event::Message(Msg::Render(_)) => self.frame(),
            Event::ImageLoaded => self,
            Event::ImageUploaded { uploaded } => self.image_uploaded(uploaded),
        }
    }

    /// What the component asks of its host when the event reaches it.
    pub open spec fn commands(self, event: Event) -> Seq<Command> {
        match event {
            Event::Rendered { first_render } => rendered_plan(first_render),
            Event::Message(Msg::Render(time)) => frame_plan(self.render_state(), time),
            Event::ImageLoaded => image_plan(),
            Event::ImageUploaded { uploaded } => mipmap_plan(uploaded),
        }
    }

    /// The component after all the events, in their order.
    pub open spec fn run(self, events: Seq<Event>) -> AppView
        decreases events.len(),
    {
        if events.len() == 0 {
            self
        } else {
            self.run(events.drop_last()).step(events.last())
        }
    }

    /// Everything the component asks of its host over the events, in order.
    pub open spec fn emitted(self, events: Seq<Event>) -> Seq<Command>
        decreases events.len(),
    {
        if events.len() == 0 {
            Seq::empty()
        } else {
            self.emitted(events.drop_last()) + self.run(events.drop_last()).commands(
                events.last(),
            )
        }
    }

    /// How many of the events find the component without a texture and
    /// leave it with one.
    pub open spec fn activations(self, events: Seq<Event>) -> nat
        decreases events.len(),
    {
        if events.len() == 0 {
            0
        } else {
            let before = self.run(events.drop_last());
            let after = before.step(events.last());
            self.activations(events.drop_last()) + if before.render_state()
                == RenderState::NoTexture && after.render_state() == RenderState::TextureReady {
                1nat
            } else {
                0nat
            }
        }
    }
}

/// How many of the events make the component ask for a frame.
pub open spec fn frames_asked(events: Seq<Event>) -> nat
    decreases events.len(),
{
    if events.len() == 0 {
        0
    } else {
        frames_asked(events.drop_last()) + if events.last().asks_for_frame() {
            1nat
        } else {
            0nat
        }
    }
}

/// No event breaks the rule that a texture comes with a context.
pub proof fn lemma_step_keeps_wf(state: AppView, event: Event)
    requires
        state.wf(),
    ensures
        state.step(event).wf(),
{
}

/// No event takes the texture away.
pub proof fn lemma_step_keeps_texture(state: AppView, event: Event)
    requires
        state.render_state() == RenderState::TextureReady,
    ensures
        state.step(event).render_state() == RenderState::TextureReady,
{
}

/// Once there is a texture to draw with there always is one, whatever
/// happens.
pub proof fn lemma_texture_stays(state: AppView, events: Seq<Event>)
    requires
        state.render_state() == RenderState::TextureReady,
    ensures
        state.run(events).render_state() == RenderState::TextureReady,
    decreases events.len(),
{
    if events.len() > 0 {
        lemma_texture_stays(state, events.drop_last());
        lemma_step_keeps_texture(state.run(events.drop_last()), events.last());
    }
}

/// Only the first time that the canvas is put on the page gives a
/// component without a texture one.
pub proof fn lemma_only_first_render_activates(state: AppView, event: Event)
    requires
        state.render_state() == RenderState::NoTexture,
    ensures
        state.step(event).render_state() == RenderState::TextureReady <==> event
            == (Event::Rendered { first_render: true }),
{
}

/// The component goes from having no texture to having one at most once,
/// and never if it starts with one. When it has done so it has a texture.
pub proof fn lemma_activates_at_most_once(state: AppView, events: Seq<Event>)
    ensures
        state.activations(events) <= 1,
        state.render_state() == RenderState::TextureReady ==> state.activations(events) == 0,
        state.activations(events) == 1 ==> state.run(events).render_state()
            == RenderState::TextureReady,
        state.render_state() == RenderState::NoTexture && state.activations(events) == 0
            ==> state.run(events).render_state() == RenderState::NoTexture,
    decreases events.len(),
{
    if events.len() > 0 {
        let earlier = events.drop_last();
        lemma_activates_at_most_once(state, earlier);
        if state.render_state() == RenderState::TextureReady {
            lemma_texture_stays(state, earlier);
        }
        if state.run(earlier).render_state() == RenderState::TextureReady {
            lemma_step_keeps_texture(state.run(earlier), events.last());
        }
    }
}

/// A component that starts without a texture gets one exactly once if the
/// canvas is ever put on the page for the first time, and never otherwise.
pub proof fn lemma_activates_exactly_once(state: AppView, events: Seq<Event>)
    requires
        state.render_state() == RenderState::NoTexture,
    ensures
        state.activations(events) == if exists|i: int|
            0 <= i < events.len() && events[i] == (Event::Rendered { first_render: true }) {
            1nat
        } else {
            0nat
        },
    decreases events.len(),
{
    let first = Event::Rendered { first_render: true };
    if events.len() > 0 {
        let earlier = events.drop_last();
        lemma_activates_exactly_once(state, earlier);
        lemma_activates_at_most_once(state, earlier);
        lemma_activates_at_most_once(state, events);
        if !exists|i: int| 0 <= i < earlier.len() && earlier[i] == first {
            lemma_only_first_render_activates(state.run(earlier), events.last());
            if events.last() != first {
                assert forall|i: int| 0 <= i < events.len() implies events[i] != first by {
                    if i < earlier.len() {
                        assert(earlier[i] == events[i]);
                    }
                }
            }
        }
    }
}

/// What an event makes the component ask holds one request for a frame if
/// the event is a render step or the first time the canvas is put on the
/// page, and none otherwise.
pub proof fn lemma_event_registers(state: AppView, event: Event)
    ensures
        registrations(state.commands(event)) == if event.asks_for_frame() {
            1nat
        } else {
            0nat
        },
{
    match event {
        Event::Rendered { first_render } => {
            let context = seq![Command::AcquireContext("webgl2")];
            let texture = texture_plan(spec_image_path());
            let frame = seq![Command::RequestFrame];
            lemma_registrations_none(context);
            if first_render {
                lemma_registrations_none(texture);
                lemma_registrations_none(context + texture);
                lemma_registrations_concat(context + texture, frame);
                assert(registrations(frame.drop_last()) == 0);
            }
        },
        Event::Message(Msg::Render(time)) => {
            lemma_frame_registers_once(state.render_state(), time);
        },
        Event::ImageLoaded => {
            lemma_registrations_none(image_plan());
        },
        Event::ImageUploaded { uploaded } => {
            lemma_registrations_none(mipmap_plan(uploaded));
        },
    }
}

/// Over any sequence of events the component asks for exactly as many
/// frames as there are render steps and first mounts among the events.
pub proof fn lemma_one_registration_per_frame(state: AppView, events: Seq<Event>)
    ensures
        registrations(state.emitted(events)) == frames_asked(events),
    decreases events.len(),
{
    if events.len() > 0 {
        let earlier = events.drop_last();
        lemma_one_registration_per_frame(state, earlier);
        lemma_event_registers(state.run(earlier), events.last());
        lemma_registrations_concat(
            state.emitted(earlier),
            state.run(earlier).commands(events.last()),
        );
    }
}

/// Of two frames delivered one after the other, the render step of the
/// second was asked for exactly once during the render step of the first,
/// at its very end, and asks in turn for exactly one more: the loop goes
/// on.
pub proof fn lemma_consecutive_frames(state: AppView, first: Timestamp, second: Timestamp)
    ensures
        ({
            let one = Event::Message(Msg::Render(first));
            let two = Event::Message(Msg::Render(second));
            &&& registrations(state.commands(one)) == 1
            &&& state.commands(one).last() == Command::RequestFrame
            &&& state.step(one).frame_pending
            &&& registrations(state.step(one).commands(two)) == 1
            &&& state.step(one).step(two).frame_pending
        }),
{
    let one = Event::Message(Msg::Render(first));
    let two = Event::Message(Msg::Render(second));
    lemma_frame_registers_once(state.render_state(), first);
    lemma_frame_registers_once(state.step(one).render_state(), second);
}

} // verus!
