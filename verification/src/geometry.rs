//! Sizes and rectangles, and the part of the window that a selection covers.
use crate::narrow::f64_is_positive_normal;
use crate::quotient::{logical_length, logical_length_of};
use crate::scalar::{
    f32_is_finite, f32_is_zero, lemma_zero_has_pixel_zero, pixel_of, scale_to_pixel,
};
use vstd::prelude::*;

verus! {

/// A size in physical pixels.
#[derive(Clone, Copy, Debug, PartialEq, Eq, Structural)]
pub struct PhysicalSize {
    pub width: u32,
    pub height: u32,
}

/// A size in logical points; each field is a single-precision pattern.
#[derive(Clone, Copy, Debug, PartialEq, Eq, Structural)]
pub struct LogicalSize {
    pub width: u32,
    pub height: u32,
}

/// The scale factor of a window: physical pixels per logical point. A
/// factor that a window reports is made by `ScaleFactor::from_double`, which
/// narrows it.
#[derive(Clone, Copy, Debug, PartialEq, Eq, Structural)]
pub struct ScaleFactor {
    /// The factor as the window reports it, a double-precision pattern.
    pub double: u64,
    /// The factor narrowed to single precision, as coordinates are scaled
    /// with it: a single-precision pattern.
    pub single: u32,
}

/// A rectangle in logical points; each bound is a single-precision pattern.
#[derive(Clone, Copy, Debug, PartialEq, Eq, Structural)]
pub struct Rect {
    pub left: u32,
    pub top: u32,
    pub right: u32,
    pub bottom: u32,
}

/// A rectangle of physical pixels inside a render target.
#[derive(Clone, Copy, Debug, PartialEq, Eq, Structural)]
pub struct Viewport {
    pub x: u32,
    pub y: u32,
    pub width: u32,
    pub height: u32,
}

impl PhysicalSize {
    pub fn new(width: u32, height: u32) -> (s: Self)
        ensures
            s.width == width,
            s.height == height,
    {
        PhysicalSize { width, height }
    }

    /// A surface can only be configured with a size that has no zero side.
    pub open spec fn is_drawable(self) -> bool {
        self.width > 0 && self.height > 0
    }

    /// The size in logical points at a scale factor (a double-precision
    /// pattern): each side divided by the factor in double precision and
    /// narrowed to single precision. There is none where the factor is not
    /// a positive normal number.
    pub fn to_logical(self, scale: u64) -> (r: Option<LogicalSize>)
        ensures
            r is Some <==> f64_is_positive_normal(scale),
            r matches Some(logical) ==> logical == logical_size_of(self, scale),
    {
        match (logical_length(self.width, scale), logical_length(self.height, scale)) {
            (Some(width), Some(height)) => Some(LogicalSize { width, height }),
            _ => None,
        }
    }
}

/// The size in logical points of a window of the physical size `size` at a
/// scale factor: the logical length of each side.
pub open spec fn logical_size_of(size: PhysicalSize, scale: u64) -> LogicalSize {
    LogicalSize {
        width: logical_length_of(size.width, scale),
        height: logical_length_of(size.height, scale),
    }
}

/// The near end of the depth range of every viewport, a single-precision
/// pattern: 0.
pub const MIN_DEPTH: u32 = 0;

/// The far end of the depth range of every viewport, a single-precision
/// pattern: 1.
pub const MAX_DEPTH: u32 = 0x3f80_0000;

impl Viewport {
    /// The viewport covers only pixels of a target of the given size, and at
    /// least one.
    pub open spec fn fits(self, size: PhysicalSize) -> bool {
        &&& self.width > 0
        &&& self.height > 0
        &&& self.x + self.width <= size.width
        &&& self.y + self.height <= size.height
    }

    /// The viewport that covers a whole target.
    pub fn full(size: PhysicalSize) -> (v: Self)
        ensures
            v == (Viewport { x: 0, y: 0, width: size.width, height: size.height }),
    {
        Viewport { x: 0, y: 0, width: size.width, height: size.height }
    }
}

/// The pixels of a target of `size` that the selection `rect` covers at the
/// scale factor `factor` (a single-precision pattern): each bound is scaled
/// in single precision, rounded and moved into the target, and what is left
/// is the overlap of selection and target. `None` where the overlap holds no
/// pixel or a bound has no pixel.
pub open spec fn blur_region(rect: Rect, factor: u32, size: PhysicalSize) -> Option<Viewport> {
    match (
        pixel_of(rect.left, factor, size.width),
        pixel_of(rect.top, factor, size.height),
        pixel_of(rect.right, factor, size.width),
        pixel_of(rect.bottom, factor, size.height),
    ) {
        (Some(x0), Some(y0), Some(x1), Some(y1)) => if x0 < x1 && y0 < y1 {
            Some(
                Viewport {
                    x: x0 as u32,
                    y: y0 as u32,
                    width: (x1 - x0) as u32,
                    height: (y1 - y0) as u32,
                },
            )
        } else {
            None
        },
        _ => None,
    }
}

/// Computes [`blur_region`].
pub fn blur_viewport(rect: Rect, factor: u32, size: PhysicalSize) -> (r: Option<Viewport>)
    ensures
        r == blur_region(rect, factor, size),
{
    let x0 = scale_to_pixel(rect.left, factor, size.width);
    let y0 = scale_to_pixel(rect.top, factor, size.height);
    let x1 = scale_to_pixel(rect.right, factor, size.width);
    let y1 = scale_to_pixel(rect.bottom, factor, size.height);
    match (x0, y0, x1, y1) {
        (Some(x0), Some(y0), Some(x1), Some(y1)) => {
            if x0 < x1 && y0 < y1 {
                Some(Viewport { x: x0, y: y0, width: x1 - x0, height: y1 - y0 })
            } else {
                None
            }
        },
        _ => None,
    }
}

/// Whatever the selection, a blur region lies inside the target and has a
/// positive width and height: no empty or negative viewport is ever set. It
/// reaches from the pixel of the selection's left and top bounds to the
/// pixel of its right and bottom bounds.
pub proof fn lemma_region_within_target(rect: Rect, factor: u32, size: PhysicalSize)
    ensures
        blur_region(rect, factor, size) matches Some(v) ==> {
            &&& v.fits(size)
            &&& pixel_of(rect.left, factor, size.width) == Some(v.x as int)
            &&& pixel_of(rect.right, factor, size.width) == Some(v.x + v.width)
            &&& pixel_of(rect.top, factor, size.height) == Some(v.y as int)
            &&& pixel_of(rect.bottom, factor, size.height) == Some(v.y + v.height)
        },
{
}

/// A selection that lies wholly beyond one edge of the target has no blur
/// region: its right or bottom bound lies on pixel zero, or its left or top
/// bound on the last.
pub proof fn lemma_selection_outside_has_no_region(rect: Rect, factor: u32, size: PhysicalSize)
    requires
        pixel_of(rect.right, factor, size.width) == Some(0int) || pixel_of(
            rect.bottom,
            factor,
            size.height,
        ) == Some(0int) || pixel_of(rect.left, factor, size.width) == Some(size.width as int)
            || pixel_of(rect.top, factor, size.height) == Some(size.height as int),
    ensures
        blur_region(rect, factor, size) is None,
{
}

/// Two single-precision patterns of finite numbers denote the same number:
/// they are the same pattern, or both are zero, of whichever sign.
pub open spec fn same_number(a: u32, b: u32) -> bool {
    a == b || (f32_is_zero(a) && f32_is_zero(b))
}

/// A selection without area, one whose opposite bounds are the same number,
/// covers no pixel.
pub proof fn lemma_selection_without_area_has_no_region(
    rect: Rect,
    factor: u32,
    size: PhysicalSize,
)
    requires
        same_number(rect.left, rect.right) || same_number(rect.top, rect.bottom),
    ensures
        blur_region(rect, factor, size) is None,
{
    if f32_is_finite(factor) {
        if rect.left != rect.right && same_number(rect.left, rect.right) {
            lemma_zero_has_pixel_zero(rect.left, factor, size.width);
            lemma_zero_has_pixel_zero(rect.right, factor, size.width);
        }
        if rect.top != rect.bottom && same_number(rect.top, rect.bottom) {
            lemma_zero_has_pixel_zero(rect.top, factor, size.height);
            lemma_zero_has_pixel_zero(rect.bottom, factor, size.height);
        }
    }
}

/// A target with a zero side has no blur region.
pub proof fn lemma_empty_target_has_no_region(rect: Rect, factor: u32, size: PhysicalSize)
    requires
        !size.is_drawable(),
    ensures
        blur_region(rect, factor, size) is None,
{
}

} // verus!
