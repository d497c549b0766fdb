use vstd::prelude::*;

verus! {

/// The title the window opens with.
pub const TITLE: &'static str = "fay";

/// The OpenGL version asked for first, major then minor.
pub const OPENGL_VERSION: (u8, u8) = (3, 2);

/// The OpenGL ES version asked for where OpenGL cannot be had, major then minor.
pub const OPENGLES_VERSION: (u8, u8) = (2, 0);

/// The size a window is asked to open with, in pixels.
#[derive(Clone, Copy, Debug, PartialEq, Eq, Structural)]
pub struct Window {
    width: u32,
    height: u32,
}

impl Window {
    pub closed spec fn spec_width(&self) -> u32 {
        self.width
    }

    pub closed spec fn spec_height(&self) -> u32 {
        self.height
    }

    pub fn new(width: u32, height: u32) -> (window: Window)
        ensures
            window.width() == width,
            window.height() == height,
    {
        Window { width: width, height: height }
    }

    #[verifier::when_used_as_spec(spec_width)]
    pub fn width(&self) -> (w: u32)
        ensures
            w == self.width(),
    {
        self.width
    }

    #[verifier::when_used_as_spec(spec_height)]
    pub fn height(&self) -> (h: u32)
        ensures
            h == self.height(),
    {
        self.height
    }
}

} // verus!
