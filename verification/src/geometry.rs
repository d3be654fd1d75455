//! Rectangles of the reference frame and of an image.

use vstd::prelude::*;

verus! {

/// Width of the frame in which regions are laid out.
pub const REFERENCE_WIDTH: u32 = 1920;

/// Height of the frame in which regions are laid out.
pub const REFERENCE_HEIGHT: u32 = 1080;

/// A rectangle in units of the reference frame.
#[derive(Clone, Copy, Debug, PartialEq, Eq, Hash, Structural)]
pub struct Rectangle {
    pub x: u32,
    pub y: u32,
    pub width: u32,
    pub height: u32,
}

/// A rectangle in pixels of an image.
#[derive(Clone, Copy, Debug, PartialEq, Eq, Hash, Structural)]
pub struct PixelRect {
    pub x: u64,
    pub y: u64,
    pub width: u64,
    pub height: u64,
}

/// A length of the reference frame in pixels of an image, rounded down.
pub open spec fn scaled(length: int, image: int, reference: int) -> int {
    length * image / reference
}

/// `rect` in pixels of an image of the given size. The two axes are scaled
/// apart: `x` and `width` by the image's width, `y` and `height` by its
/// height.
pub open spec fn scaled_rect(rect: Rectangle, image_width: u32, image_height: u32) -> PixelRect {
    PixelRect {
        x: scaled(rect.x as int, image_width as int, REFERENCE_WIDTH as int) as u64,
        y: scaled(rect.y as int, image_height as int, REFERENCE_HEIGHT as int) as u64,
        width: scaled(rect.width as int, image_width as int, REFERENCE_WIDTH as int) as u64,
        height: scaled(rect.height as int, image_height as int, REFERENCE_HEIGHT as int) as u64,
    }
}

fn scale(length: u32, image: u32, reference: u32) -> (r: u64)
    requires
        reference > 0,
    ensures
        r == scaled(length as int, image as int, reference as int),
{
    assert(length * image <= 0xFFFF_FFFF * 0xFFFF_FFFF) by (nonlinear_arith)
        requires
            0 <= length <= 0xFFFF_FFFF,
            0 <= image <= 0xFFFF_FFFF,
    ;
    (length as u64) * (image as u64) / (reference as u64)
}

/// Maps a rectangle of the reference frame to the pixels of an image of the
/// given size.
pub fn scale_rect(rect: Rectangle, image_width: u32, image_height: u32) -> (r: PixelRect)
    ensures
        r == scaled_rect(rect, image_width, image_height),
        r.x == rect.x * image_width / 1920,
        r.y == rect.y * image_height / 1080,
        r.width == rect.width * image_width / 1920,
        r.height == rect.height * image_height / 1080,
{
    PixelRect {
        x: scale(rect.x, image_width, REFERENCE_WIDTH),
        y: scale(rect.y, image_height, REFERENCE_HEIGHT),
        width: scale(rect.width, image_width, REFERENCE_WIDTH),
        height: scale(rect.height, image_height, REFERENCE_HEIGHT),
    }
}

/// An image of the size of the reference frame maps every rectangle to
/// itself.
pub proof fn scaling_to_reference_size_changes_nothing(rect: Rectangle)
    ensures
        scaled_rect(rect, REFERENCE_WIDTH, REFERENCE_HEIGHT) == (PixelRect {
            x: rect.x as u64,
            y: rect.y as u64,
            width: rect.width as u64,
            height: rect.height as u64,
        }),
{
}

} // verus!
