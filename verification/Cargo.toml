[package]
name = "browser_demos"
version = "0.1.0"
edition = "2021"
publish = false

[dependencies]
gloo-render = "0.1"
js-sys = "0.3"
wasm-bindgen = "0.2"
yew = "0.19"

[dependencies.web-sys]
version = "0.3"
features = [
    "HtmlCanvasElement",
    "HtmlImageElement",
    "WebGl2RenderingContext",
    "WebGlBuffer",
    "WebGlProgram",
    "WebGlShader",
    "WebGlTexture",
    "WebGlUniformLocation",
]
