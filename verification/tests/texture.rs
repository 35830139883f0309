use browser_demos::app::{image_path, App};
use browser_demos::color::Rgba;
use browser_demos::command::{Command, ImageFormat};
use browser_demos::gl;
use browser_demos::render::RenderState;
use browser_demos::texture::{image_format, placeholder_pixel, TextureContent};

fn rgba_bytes() -> ImageFormat {
    ImageFormat {
        target: gl::TEXTURE_2D,
        level: 0,
        internal_format: gl::RGBA,
        format: gl::RGBA,
        kind: gl::UNSIGNED_BYTE,
    }
}

fn texture_commands(source: &'static str) -> Vec<Command> {
    vec![
        Command::CreateTexture,
        Command::BindTexture { target: gl::TEXTURE_2D },
        Command::TexImagePixel {
            format: rgba_bytes(),
            width: 1,
            height: 1,
            border: 0,
            pixel: Rgba { r: 0, g: 0, b: 255, a: 255 },
        },
        Command::CreateImage,
        Command::SetCrossOrigin(""),
        Command::SetOnLoad,
        Command::SetSource(source),
    ]
}

#[test]
fn the_placeholder_is_one_opaque_blue_texel() {
    assert_eq!(placeholder_pixel(), Rgba { r: 0, g: 0, b: 255, a: 255 });
    assert_eq!(placeholder_pixel().to_bytes(), [0, 0, 255, 255]);
    assert_eq!(image_format(), rgba_bytes());
}

#[test]
fn the_first_layout_makes_the_texture_and_asks_for_a_frame() {
    let mut app = App::create();
    let plan = app.rendered(true);
    let mut expected = vec![Command::AcquireContext("webgl2")];
    expected.extend(texture_commands("img/image.png"));
    expected.push(Command::RequestFrame);
    assert_eq!(plan, expected);
    assert!(app.has_context());
    assert_eq!(app.texture(), Some(TextureContent::Placeholder));
    assert_eq!(app.render_state(), RenderState::TextureReady);
    assert!(app.frame_pending());
    assert_eq!(image_path(), "img/image.png");
}

#[test]
fn loading_a_texture_fetches_the_given_picture() {
    let mut app = App::create();
    app.rendered(false);
    let plan = app.load_texture("img/other.png");
    assert_eq!(plan, texture_commands("img/other.png"));
    assert_eq!(app.texture(), Some(TextureContent::Placeholder));
    assert!(!app.frame_pending());
}

#[test]
fn the_fetch_starts_after_the_callback_is_registered() {
    let mut app = App::create();
    app.rendered(false);
    let plan = app.load_texture("img/image.png");
    let callback = plan.iter().position(|c| *c == Command::SetOnLoad);
    let fetch = plan.iter().position(|c| matches!(c, Command::SetSource(_)));
    assert_eq!(callback, Some(5));
    assert_eq!(fetch, Some(6));
}

#[test]
fn the_decoded_picture_replaces_the_placeholder() {
    let mut app = App::create();
    app.rendered(true);
    let upload = app.image_loaded();
    assert_eq!(
        upload,
        vec![
            Command::BindTexture { target: gl::TEXTURE_2D },
            Command::TexImageElement { format: rgba_bytes() },
        ]
    );
    assert_eq!(app.texture(), Some(TextureContent::Placeholder));
    let rest = app.image_uploaded(true);
    assert_eq!(rest, vec![Command::GenerateMipmap { target: gl::TEXTURE_2D }]);
    assert_eq!(app.texture(), Some(TextureContent::Image));
}

#[test]
fn a_failed_upload_changes_nothing() {
    let mut app = App::create();
    app.rendered(true);
    app.image_loaded();
    let rest = app.image_uploaded(false);
    assert_eq!(rest, Vec::new());
    assert_eq!(app.texture(), Some(TextureContent::Placeholder));
    assert_eq!(app.render_state(), RenderState::TextureReady);
    assert!(app.has_context());
    assert!(app.frame_pending());
}

#[test]
fn a_failed_upload_after_a_good_one_keeps_the_picture() {
    let mut app = App::create();
    app.rendered(true);
    app.image_uploaded(true);
    app.image_uploaded(false);
    assert_eq!(app.texture(), Some(TextureContent::Image));
}

#[test]
fn a_new_texture_starts_from_the_placeholder_again() {
    let mut app = App::create();
    app.rendered(true);
    app.image_uploaded(true);
    app.rendered(true);
    assert_eq!(app.texture(), Some(TextureContent::Placeholder));
    assert_eq!(app.render_state(), RenderState::TextureReady);
}

#[test]
fn only_what_cannot_be_done_without_is_fatal() {
    let fatal = [
        Command::AcquireContext("webgl2"),
        Command::CreateTexture,
        Command::TexImagePixel {
            format: rgba_bytes(),
            width: 1,
            height: 1,
            border: 0,
            pixel: placeholder_pixel(),
        },
        Command::CreateImage,
        Command::CreateBuffer(browser_demos::command::Buffer::Positions),
        Command::CreateBuffer(browser_demos::command::Buffer::TexCoords),
        Command::CreateShader(browser_demos::command::Shader::Vertex),
        Command::CreateShader(browser_demos::command::Shader::Fragment),
        Command::CreateProgram,
    ];
    for command in fatal {
        assert!(command.is_fatal(), "{:?}", command);
    }
    let silent = [
        Command::CompileShader(browser_demos::command::Shader::Vertex),
        Command::CompileShader(browser_demos::command::Shader::Fragment),
        Command::LinkProgram,
        Command::TexImageElement { format: rgba_bytes() },
        Command::GenerateMipmap { target: gl::TEXTURE_2D },
        Command::BindTexture { target: gl::TEXTURE_2D },
        Command::UseProgram,
        Command::SetOnLoad,
        Command::SetSource("img/image.png"),
        Command::SetCrossOrigin(""),
        Command::GetUniformLocation("u_time"),
        Command::DrawArrays { mode: gl::TRIANGLES, first: 0, count: 6 },
        Command::RequestFrame,
    ];
    for command in silent {
        assert!(!command.is_fatal(), "{:?}", command);
    }
}
