//! What the selection contributes to a frame.
use crate::frame::{blur_passes, FrameCompositor, RenderPass};
use crate::geometry::{blur_region, blur_viewport, Rect};
use crate::window_texture::WindowTexture;
use vstd::prelude::*;

verus! {

/// The passes that blur what lies under the selection `rect` in the mirror
/// of the window: the blur of the region that the selection covers into the
/// back texture, then the copy of the back texture over the front texture.
/// A selection that covers no pixel of the window has no passes.
pub fn ui_main(window_texture: &WindowTexture, rect: Rect) -> (passes: Vec<RenderPass>)
    ensures
        passes@ == blur_passes(
            blur_region(rect, window_texture.pixels_per_point.single, window_texture.size),
            window_texture.size,
        ),
{
    let size = window_texture.physical_size();
    let mut passes: Vec<RenderPass> = Vec::new();
    match blur_viewport(rect, window_texture.pixels_per_point().single, size) {
        Some(region) => {
            passes.push(FrameCompositor::blur(region));
            passes.push(FrameCompositor::copy_back(size));
            assert(passes@ =~= blur_passes(Some(region), size));
        },
        None => {},
    }
    passes
}

} // verus!
