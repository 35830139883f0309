//! The component that owns the canvas: what it remembers, and what it asks
//! of its host when an event reaches it.

use vstd::prelude::*;
use crate::command::{registrations, Command, Timestamp};
use crate::render::{frame_commands, frame_plan, lemma_frame_registers_once, RenderState};
use crate::trace::{lemma_event_registers, Event};
use crate::texture::{
    image_commands, image_plan, mipmap_commands, mipmap_plan, texture_commands, texture_plan,
    TextureContent,
};

verus! {

/// What reaches the component from the frame callback.
#[derive(Clone, Copy, PartialEq, Eq, Structural, Debug)]
pub enum Msg {
    /// A frame is due; the time is the one that the callback was given.
    Render(Timestamp),
}

/// The component as contracts see it.
pub struct AppView {
    /// Whether the graphics context has been taken from the canvas.
    pub has_context: bool,
    /// What the texture holds, once there is one.
    pub texture: Option<TextureContent>,
    /// Whether a frame callback is registered and has not fired.
    pub frame_pending: bool,
}

/// The component that owns the canvas.
///
/// A texture is only ever made with the context in hand, so a component
/// that has a texture has the context too.
pub struct App {
    has_context: bool,
    texture: Option<TextureContent>,
    frame_pending: bool,
}

impl View for App {
    type V = AppView;

    closed spec fn view(&self) -> AppView {
        AppView {
            has_context: self.has_context,
            texture: self.texture,
            frame_pending: self.frame_pending,
        }
    }
}

/// The path of the picture that the texture is to show.
pub open spec fn spec_image_path() -> &'static str {
    "img/image.png"
}

/// The path of the picture that the texture is to show.
#[verifier::when_used_as_spec(spec_image_path)]
pub fn image_path() -> (path: &'static str)
    ensures
        path == spec_image_path(),
{
    "img/image.png"
}

/// What the host is asked after the canvas has been put on the page: the
/// context each time; the first time also the texture and the first frame.
pub open spec fn rendered_plan(first_render: bool) -> Seq<Command> {
    if first_render {
        seq![Command::AcquireContext("webgl2")] + texture_plan(spec_image_path())
            + seq![Command::RequestFrame]
    } else {
        seq![Command::AcquireContext("webgl2")]
    }
}

impl AppView {
    /// A texture is only ever made with the context in hand.
    pub open spec fn wf(self) -> bool {
        self.texture is Some ==> self.has_context
    }

    /// Whether a frame finds a texture to draw with.
    pub open spec fn render_state(self) -> RenderState {
        if self.texture is Some {
            RenderState::TextureReady
        } else {
            RenderState::NoTexture
        }
    }

    /// A component fresh from its constructor: no context, no texture, no
    /// frame asked for.
    pub open spec fn created() -> AppView {
        AppView { has_context: false, texture: None, frame_pending: false }
    }

    /// The component after it has made its texture: the texture holds the
    /// placeholder, whatever an earlier texture held.
    pub open spec fn texture_loaded(self) -> AppView {
        AppView { texture: Some(TextureContent::Placeholder), ..self }
    }

    /// The component after the canvas has been put on the page.
    pub open spec fn rendered(self, first_render: bool) -> AppView {
        if first_render {
            AppView {
                has_context: true,
                texture: Some(TextureContent::Placeholder),
                frame_pending: true,
            }
        } else {
            AppView { has_context: true, ..self }
        }
    }

    /// The component after a render step: the next frame is asked for.
    pub open spec fn frame(self) -> AppView {
        AppView { frame_pending: true, ..self }
    }

    /// The component after the host has tried to fill the texture from the
    /// decoded picture: a failure changes nothing.
    pub open spec fn image_uploaded(self, uploaded: bool) -> AppView {
        if uploaded && self.texture is Some {
            AppView { texture: Some(TextureContent::Image), ..self }
        } else {
            self
        }
    }
}

impl App {
    #[verifier::type_invariant]
    spec fn inv(&self) -> bool {
        self.texture is Some ==> self.has_context
    }

    /// A fresh component: no context, no texture, no frame asked for.
    pub fn create() -> (app: App)
        ensures
            app@ == AppView::created(),
            app@.wf(),
    {
        App { has_context: false, texture: None, frame_pending: false }
    }

    /// Whether the graphics context has been taken from the canvas.
    pub fn has_context(&self) -> (has: bool)
        ensures
            has == self@.has_context,
    {
        self.has_context
    }

    /// What the texture holds, once there is one.
    pub fn texture(&self) -> (content: Option<TextureContent>)
        ensures
            content == self@.texture,
            self@.wf(),
    {
        proof {
            use_type_invariant(self);
        }
        self.texture
    }

    /// Whether a frame callback is registered and has not fired.
    pub fn frame_pending(&self) -> (pending: bool)
        ensures
            pending == self@.frame_pending,
    {
        self.frame_pending
    }

    /// Whether a frame finds a texture to draw with.
    pub fn render_state(&self) -> (state: RenderState)
        ensures
            state == self@.render_state(),
    {
        match self.texture {
            Some(_) => RenderState::TextureReady,
            None => RenderState::NoTexture,
        }
    }

    /// The canvas has been put on the page. Each time the host is to take
    /// the graphics context; the first time it is also to make the texture
    /// and to ask for the first frame.
    pub fn rendered(&mut self, first_render: bool) -> (plan: Vec<Command>)
        ensures
            final(self)@ == old(self)@.rendered(first_render),
            final(self)@.wf(),
            plan@ == rendered_plan(first_render),
            registrations(plan@) == if first_render {
                1nat
            } else {
                0nat
            },
    {
        proof {
            use_type_invariant(&*self);
            lemma_event_registers(self@, Event::Rendered { first_render });
        }
        let mut plan: Vec<Command> = Vec::new();
        plan.push(Command::AcquireContext("webgl2"));
        self.has_context = true;
        if first_render {
            let mut texture = self.load_texture(image_path());
            plan.append(&mut texture);
            plan.push(Command::RequestFrame);
            self.frame_pending = true;
        }
        plan
    }

    /// A message has arrived. The one message there is asks for a render
    /// step. The flag that comes back tells the host whether the page has
    /// to be laid out again, which it never has.
    pub fn update(&mut self, msg: Msg) -> (r: (Vec<Command>, bool))
        ensures
            final(self)@ == old(self)@.frame(),
            final(self)@.wf(),
            msg matches Msg::Render(time) && r.0@ == frame_plan(old(self)@.render_state(), time),
            registrations(r.0@) == 1,
            !r.1,
    {
        match msg {
            Msg::Render(timestamp) => {
                let plan = self.render_gl(timestamp);
                (plan, false)
            },
        }
    }

    /// One render step. Without a texture nothing is drawn; with one, the
    /// quad is drawn with `timestamp` as its time. Either way the step ends
    /// by asking for the next frame, once.
    pub fn render_gl(&mut self, timestamp: Timestamp) -> (plan: Vec<Command>)
        ensures
            final(self)@ == old(self)@.frame(),
            final(self)@.wf(),
            plan@ == frame_plan(old(self)@.render_state(), timestamp),
            registrations(plan@) == 1,
            plan@.last() == Command::RequestFrame,
    {
        proof {
            use_type_invariant(&*self);
            lemma_frame_registers_once(self@.render_state(), timestamp);
        }
        let state = self.render_state();
        let plan = frame_commands(state, timestamp);
        self.frame_pending = true;
        plan
    }

    /// Makes the texture: from now on there is one to draw with, holding
    /// the placeholder, and the picture at `img_src` is on its way.
    pub fn load_texture(&mut self, img_src: &'static str) -> (plan: Vec<Command>)
        requires
            old(self)@.has_context,
        ensures
            final(self)@ == old(self)@.texture_loaded(),
            final(self)@.wf(),
            plan@ == texture_plan(img_src),
    {
        let plan = texture_commands(img_src);
        self.texture = Some(TextureContent::Placeholder);
        plan
    }

    /// The picture has been fetched and decoded: the host is to bind the
    /// texture again and to fill it from the picture, and then to say
    /// through [`App::image_uploaded`] how that went.
    pub fn image_loaded(&self) -> (plan: Vec<Command>)
        requires
            self@.texture is Some,
        ensures
            plan@ == image_plan(),
    {
        image_commands()
    }

    /// The host has tried to fill the texture from the picture. If that
    /// went well the texture now holds the picture, and its smaller levels
    /// are to be derived. If it did not, nothing changes and nothing is to
    /// be done: the placeholder stays.
    pub fn image_uploaded(&mut self, uploaded: bool) -> (plan: Vec<Command>)
        requires
            old(self)@.texture is Some,
        ensures
            final(self)@ == old(self)@.image_uploaded(uploaded),
            final(self)@.wf(),
            plan@ == mipmap_plan(uploaded),
    {
        proof {
            use_type_invariant(&*self);
        }
        if uploaded {
            self.texture = Some(TextureContent::Image);
        }
        mipmap_commands(uploaded)
    }
}

} // verus!
