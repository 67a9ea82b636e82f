//! Where a window goes on its monitor.

use crate::utils::to_i32;
use vstd::prelude::*;

verus! {

/// How large a window is to be.
#[derive(Clone, Copy, Debug, PartialEq, Eq, Structural)]
pub enum Resolution {
    /// A window of the given width and height.
    Windowed(u32, u32),
}

/// The position of the top-left corner of a window of `w` by `h` on a
/// monitor of `mw` by `mh` that puts the middle of the window on the middle
/// of the monitor, each half rounded down. There is none for a window that
/// is as wide or as high as the monitor, or more.
pub open spec fn centered_position(w: u32, h: u32, mw: u32, mh: u32) -> Option<(i32, i32)> {
    if w >= mw || h >= mh {
        None
    } else {
        Some(((mw / 2 - w / 2) as i32, (mh / 2 - h / 2) as i32))
    }
}

/// Computes the position hints for a window of `w` by `h` on a monitor of
/// `mw` by `mh`; without them the window system places the window.
pub fn windowed_hints(w: u32, h: u32, mw: u32, mh: u32) -> (hints: Option<(i32, i32)>)
    ensures
        hints == centered_position(w, h, mw, mh),
        hints matches Some(pos) ==> 0 <= pos.0 && 0 <= pos.1 && pos.0 + w / 2 == mw / 2 && pos.1
            + h / 2 == mh / 2,
{
    if w >= mw || h >= mh {
        return None;
    }
    let pos_x: u32 = mw / 2 - w / 2;
    let pos_y: u32 = mh / 2 - h / 2;
    let pos_x_int = to_i32(pos_x as u64);
    let pos_y_int = to_i32(pos_y as u64);
    Some((pos_x_int, pos_y_int))
}

impl Resolution {
    /// The position hints for a window of this size on a monitor of `mw` by
    /// `mh`.
    pub fn position_on(&self, mw: u32, mh: u32) -> (hints: Option<(i32, i32)>)
        ensures
            hints == centered_position(self->0, self->1, mw, mh),
    {
        let Resolution::Windowed(w, h) = *self;
        windowed_hints(w, h, mw, mh)
    }
}

} // verus!
