//! What to do after trying to draw a frame.

use vstd::prelude::*;

verus! {

/// Why the surface could not hand out a texture to draw into.
#[derive(Clone, Copy, Debug, PartialEq, Eq, Structural)]
pub enum SurfaceFault {
    /// Getting the texture took too long.
    Timeout,
    /// The surface changed and has to be configured again.
    Outdated,
    /// The surface is gone and has to be configured again.
    Lost,
    /// There is no memory left for a new frame.
    OutOfMemory,
}

/// The step that follows a frame.
#[derive(Clone, Copy, Debug, PartialEq, Eq, Structural)]
pub enum FrameAction {
    /// The frame was drawn; go on.
    Continue,
    /// Configure the surface again at its current size; the next frame
    /// tries anew.
    Reconfigure,
    /// Stop the program.
    Exit,
    /// Report the fault and skip this frame; the next one tries anew.
    Skip,
}

/// The step that follows a frame that ended with `outcome`.
pub open spec fn action_after(outcome: Result<(), SurfaceFault>) -> FrameAction {
    match outcome {
        Ok(()) => FrameAction::Continue,
        Err(SurfaceFault::Lost) => FrameAction::Reconfigure,
        Err(SurfaceFault::OutOfMemory) => FrameAction::Exit,
        Err(_) => FrameAction::Skip,
    }
}

/// A lost surface is configured again, running out of memory ends the
/// program, and any other fault only costs the current frame.
pub fn after_frame(outcome: Result<(), SurfaceFault>) -> (r: FrameAction)
    ensures
        r == action_after(outcome),
{
    match outcome {
        Ok(()) => FrameAction::Continue,
        Err(SurfaceFault::Lost) => FrameAction::Reconfigure,
        Err(SurfaceFault::OutOfMemory) => FrameAction::Exit,
        Err(_) => FrameAction::Skip,
    }
}

/// The time between frames, in nanoseconds, for a target of `rate` frames
/// per second (one second divided by the rate, rounded down).
pub fn frame_interval_nanos(rate: u32) -> (r: u64)
    requires
        rate > 0,
    ensures
        r == 1_000_000_000int / (rate as int),
{
    1_000_000_000u64 / rate as u64
}

/// A new frame is asked for once at least one frame interval has passed
/// since the last one was drawn.
pub fn redraw_due(elapsed_nanos: u64, interval_nanos: u64) -> (r: bool)
    ensures
        r == (elapsed_nanos >= interval_nanos),
{
    elapsed_nanos >= interval_nanos
}

/// The index of the surface format to configure, given for each format the
/// surface offers whether it is sRGB: the first sRGB format, or else the
/// first format.
pub fn preferred_format_index(is_srgb: &Vec<bool>) -> (r: usize)
    requires
        is_srgb@.len() > 0,
    ensures
        r < is_srgb@.len(),
        forall|k: int| 0 <= k < r ==> !is_srgb@[k],
        is_srgb@[r as int] || (r == 0 && forall|k: int| 0 <= k < is_srgb@.len() ==> !is_srgb@[k]),
{
    let mut i: usize = 0;
    while i < is_srgb.len()
        invariant
            i <= is_srgb@.len(),
            forall|k: int| 0 <= k < i ==> !is_srgb@[k],
        decreases is_srgb@.len() - i,
    {
        if is_srgb[i] {
            return i;
        }
        i += 1;
    }
    0
}

} // verus!
