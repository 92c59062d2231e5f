[package]
name = "pathfinder_view"
version = "0.1.0"
edition = "2021"
publish = false

[dependencies]
winit = "0.28.7"
glutin = "0.30.10"
glutin-winit = "0.3.0"
raw-window-handle = "0.5.2"
gl = "0.14"
pathfinder_geometry = "0.5"
pathfinder_color = "0.5"
pathfinder_renderer = "0.5"
pathfinder_gl = "0.5"
pathfinder_resources = "0.5"
image = { version = "0.24", default-features = false }
log = "0.4"
js-sys = "0.3"
wasm-bindgen = "0.2"
web-sys = { version = "0.3", features = ["Window", "MouseEvent", "WheelEvent", "KeyboardEvent", "UiEvent", "InputEvent", "Event", "Element", "HtmlElement", "HtmlCanvasElement", "CssStyleDeclaration", "WebGl2RenderingContext"] }
