//! Configuration for the display surface.
//!
//! The surface itself (window creation, presentation, input polling) is
//! a collaborator outside this library; what is verified here is the
//! builder that accumulates its settings and the error value its
//! operations report.

use vstd::prelude::*;

verus! {

/// An error reported by a display-surface operation.
pub struct ContextError {
    pub message: String,
}

impl ContextError {
    /// Wraps a message in an error value.
    pub fn new(message: &str) -> (e: ContextError)
        ensures
            e.message@ == message@,
    {
        ContextError { message: message.to_owned() }
    }
}

/// Accumulated settings for a display surface: title, size in pixels,
/// pixel scale, and position on screen.
pub struct Builder {
    pub title: String,
    pub width: usize,
    pub height: usize,
    pub pixel_size: usize,
    pub x: isize,
    pub y: isize,
}

impl Builder {
    /// The starting settings: an untitled 512 by 512 surface at unit
    /// pixel scale, positioned at (100, 100).
    pub fn default() -> (b: Builder)
        ensures
            b.title@ == Seq::<char>::empty(),
            b.width == 512,
            b.height == 512,
            b.pixel_size == 1,
            b.x == 100,
            b.y == 100,
    {
        Builder {
            title: String::new(),
            width: 512,
            height: 512,
            pixel_size: 1,
            x: 100,
            y: 100,
        }
    }

    /// The same settings with the given title.
    pub fn title(&self, title: &str) -> (b: Builder)
        ensures
            b.title@ == title@,
            b.width == self.width,
            b.height == self.height,
            b.pixel_size == self.pixel_size,
            b.x == self.x,
            b.y == self.y,
    {
        Builder {
            title: title.to_owned(),
            width: self.width,
            height: self.height,
            pixel_size: self.pixel_size,
            x: self.x,
            y: self.y,
        }
    }

    /// The same settings with the given size in pixels.
    pub fn size(&self, width: usize, height: usize) -> (b: Builder)
        ensures
            b.title@ == self.title@,
            b.width == width,
            b.height == height,
            b.pixel_size == self.pixel_size,
            b.x == self.x,
            b.y == self.y,
    {
        Builder {
            title: self.title.clone(),
            width,
            height,
            pixel_size: self.pixel_size,
            x: self.x,
            y: self.y,
        }
    }

    /// The same settings with the given pixel scale.
    pub fn pixel_size(&self, size: usize) -> (b: Builder)
        ensures
            b.title@ == self.title@,
            b.width == self.width,
            b.height == self.height,
            b.pixel_size == size,
            b.x == self.x,
            b.y == self.y,
    {
        Builder {
            title: self.title.clone(),
            width: self.width,
            height: self.height,
            pixel_size: size,
            x: self.x,
            y: self.y,
        }
    }

    /// The same settings positioned at `(x, y)` on screen.
    pub fn position(&self, x: isize, y: isize) -> (b: Builder)
        ensures
            b.title@ == self.title@,
            b.width == self.width,
            b.height == self.height,
            b.pixel_size == self.pixel_size,
            b.x == x,
            b.y == y,
    {
        Builder {
            title: self.title.clone(),
            width: self.width,
            height: self.height,
            pixel_size: self.pixel_size,
            x,
            y,
        }
    }
}

} // verus!
