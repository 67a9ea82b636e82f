//! Hooks for a frame profiler. Without a profiler they do nothing.

use vstd::prelude::*;

verus! {

/// Called once before the first frame.
pub fn setup_profiler() {
}

/// Called at the end of every frame.
pub fn mark_frame_end() {
}

} // verus!
