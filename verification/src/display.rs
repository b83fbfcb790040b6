//! The presentation layer as the video controller sees it.
use vstd::prelude::*;
use crate::Color;

verus! {

/// What the host implements to show the picture. The core hands over each
/// visible line once it is composed and says when a frame is whole; it
/// relies on nothing that the implementation does.
pub trait Display {
    /// Takes the 160 resolved colours of line `pixel_y`.
    fn update_line_from_buffer(&mut self, buffer: [Color; 160], pixel_y: u8);

    /// Presents the lines received so far as one frame.
    fn render_frame(&mut self);
}

} // verus!
