//! The settings of one session, fixed when it starts.

use vstd::prelude::*;

verus! {

/// A colour of four 8-bit channels.
#[derive(Clone, Copy, Debug, PartialEq, Eq, Structural)]
pub struct Color {
    pub r: u8,
    pub g: u8,
    pub b: u8,
    pub a: u8,
}

/// The quality level that the renderer starts at.
#[derive(Clone, Copy, Debug, PartialEq, Eq, Structural)]
pub enum RenderLevel {
    D3D9,
    D3D11,
}

/// What a session allows and how its window looks.
#[derive(Clone, Copy, Debug, PartialEq, Eq, Structural)]
pub struct Config {
    /// Whether the wheel may zoom.
    pub zoom: bool,
    /// Whether dragging and the wheel may pan.
    pub pan: bool,
    /// Whether the window has decorations.
    pub borders: bool,
    /// Whether the window is transparent.
    pub transparent: bool,
    /// The colour behind the scene.
    pub background: Color,
    pub render_level: RenderLevel,
    /// Whether scenes are built on several threads.
    pub threads: bool,
}

impl Color {
    /// Opaque white.
    pub fn white() -> (r: Color)
        ensures
            r == (Color { r: 255, g: 255, b: 255, a: 255 }),
    {
        Color { r: 255, g: 255, b: 255, a: 255 }
    }
}

impl Config {
    /// Zoom and pan allowed, a decorated opaque window on white, the lower
    /// render level, several threads.
    pub fn new() -> (r: Config)
        ensures
            r == (Config {
                zoom: true,
                pan: true,
                borders: true,
                transparent: false,
                background: Color { r: 255, g: 255, b: 255, a: 255 },
                render_level: RenderLevel::D3D9,
                threads: true,
            }),
    {
        Config {
            zoom: true,
            pan: true,
            borders: true,
            transparent: false,
            background: Color::white(),
            render_level: RenderLevel::D3D9,
            threads: true,
        }
    }
}

} // verus!
