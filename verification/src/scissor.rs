//! Clip rectangles of the UI toolkit and the scissor rectangles that the
//! graphics API takes.
//!
//! The toolkit measures from the top-left corner of the framebuffer and may
//! hand out rectangles that reach beyond it, or whose corners are in the wrong
//! order. A scissor rectangle lies inside the framebuffer and is measured
//! from its bottom-left corner.

use vstd::prelude::*;

verus! {

/// A clip rectangle in whole pixels, `y` growing downwards.
#[derive(Clone, Copy, Debug, PartialEq, Eq, Structural)]
pub struct ClipRect {
    pub min_x: i64,
    pub min_y: i64,
    pub max_x: i64,
    pub max_y: i64,
}

/// A scissor rectangle in whole pixels: its bottom-left corner, `y` growing
/// upwards, and its size.
#[derive(Clone, Copy, Debug, PartialEq, Eq, Structural)]
pub struct Scissor {
    pub x: u32,
    pub y: u32,
    pub w: u32,
    pub h: u32,
}

/// The number in `lo..=hi` that is nearest to `v`.
pub open spec fn clamp(v: int, lo: int, hi: int) -> int {
    if v < lo {
        lo
    } else if v > hi {
        hi
    } else {
        v
    }
}

impl ClipRect {
    /// Left edge of the part of the rectangle inside a framebuffer of the
    /// given width.
    pub open spec fn left(self, width: int) -> int {
        clamp(self.min_x as int, 0, width)
    }

    /// Right edge of that part; never left of the left edge.
    pub open spec fn right(self, width: int) -> int {
        clamp(self.max_x as int, self.left(width), width)
    }

    /// Top edge of the part of the rectangle inside a framebuffer of the
    /// given height.
    pub open spec fn top(self, height: int) -> int {
        clamp(self.min_y as int, 0, height)
    }

    /// Bottom edge of that part; never above the top edge.
    pub open spec fn bottom(self, height: int) -> int {
        clamp(self.max_y as int, self.top(height), height)
    }

    /// The scissor rectangle of this clip rectangle in a framebuffer of
    /// `width` by `height` pixels: the rectangle cut down to the framebuffer
    /// and turned upside down.
    pub open spec fn scissor(self, width: u32, height: u32) -> Scissor {
        Scissor {
            x: self.left(width as int) as u32,
            y: (height - self.bottom(height as int)) as u32,
            w: (self.right(width as int) - self.left(width as int)) as u32,
            h: (self.bottom(height as int) - self.top(height as int)) as u32,
        }
    }
}

/// A scissor rectangle has no negative coordinate and lies inside the
/// framebuffer, whatever the clip rectangle it comes from: one that lies
/// outside the framebuffer, one that overlaps its border, or one whose
/// corners are swapped.
pub proof fn lemma_scissor_inside_framebuffer(clip: ClipRect, width: u32, height: u32)
    ensures
        0 <= clip.scissor(width, height).x,
        0 <= clip.scissor(width, height).y,
        clip.scissor(width, height).x + clip.scissor(width, height).w <= width,
        clip.scissor(width, height).y + clip.scissor(width, height).h <= height,
        clip.scissor(width, height).x == clip.left(width as int),
        clip.scissor(width, height).y == height - clip.bottom(height as int),
        clip.scissor(width, height).w == clip.right(width as int) - clip.left(width as int),
        clip.scissor(width, height).h == clip.bottom(height as int) - clip.top(height as int),
{
}

/// The number in `lo..=hi` that is nearest to `v`.
fn clamp_to(v: i64, lo: u32, hi: u32) -> (r: u32)
    requires
        lo <= hi,
    ensures
        r == clamp(v as int, lo as int, hi as int),
{
    if v < lo as i64 {
        lo
    } else if v > hi as i64 {
        hi
    } else {
        v as u32
    }
}

/// Computes the scissor rectangle of `clip` in a framebuffer of `width` by
/// `height` pixels.
pub fn clip_to_scissor(clip: ClipRect, width: u32, height: u32) -> (s: Scissor)
    ensures
        s == clip.scissor(width, height),
        s.x + s.w <= width,
        s.y + s.h <= height,
{
    let min_x = clamp_to(clip.min_x, 0, width);
    let min_y = clamp_to(clip.min_y, 0, height);
    let max_x = clamp_to(clip.max_x, min_x, width);
    let max_y = clamp_to(clip.max_y, min_y, height);
    Scissor { x: min_x, y: height - max_y, w: max_x - min_x, h: max_y - min_y }
}

} // verus!
