use crate::error::GfxErrorKind;
use vstd::prelude::*;

verus! {

/// What came of asking the surface for the next image to draw into.
#[derive(Clone, Copy, PartialEq, Eq, Structural, Debug)]
pub enum SurfaceStatus {
    Ready,
    /// The surface no longer matches the window, for instance after a resize.
    Outdated,
    /// The surface was lost and must be configured again.
    Lost,
    /// No image became available in time.
    Timeout,
    OutOfMemory,
}

/// What to do next in a frame, given the status of the surface.
#[derive(Clone, Copy, PartialEq, Eq, Structural, Debug)]
pub enum FrameStep {
    /// Record the frame's draws, submit them and present.
    Render,
    /// Configure the surface again and ask for an image once more.
    Reconfigure,
    /// Drop this frame and go on with the next one.
    Skip,
    /// Stop: the context cannot render any more.
    Abort(GfxErrorKind),
}

/// Decides the next step of a frame. An outdated or lost surface is transient:
/// it is configured again and the frame retried while `retries_left` allows,
/// after which the frame is dropped; a timeout drops the frame; running out of
/// memory ends rendering with a surface error.
pub fn frame_step(status: SurfaceStatus, retries_left: u32) -> (r: FrameStep)
    ensures
        status == SurfaceStatus::Ready ==> r == FrameStep::Render,
        (status == SurfaceStatus::Outdated || status == SurfaceStatus::Lost) ==> r == (if retries_left
            > 0 {
            FrameStep::Reconfigure
        } else {
            FrameStep::Skip
        }),
        status == SurfaceStatus::Timeout ==> r == FrameStep::Skip,
        status == SurfaceStatus::OutOfMemory ==> r == FrameStep::Abort(GfxErrorKind::SurfaceError),
{
    match status {
        SurfaceStatus::Ready => FrameStep::Render,
        SurfaceStatus::Outdated | SurfaceStatus::Lost => {
            if retries_left > 0 {
                FrameStep::Reconfigure
            } else {
                FrameStep::Skip
            }
        },
        SurfaceStatus::Timeout => FrameStep::Skip,
        SurfaceStatus::OutOfMemory => FrameStep::Abort(GfxErrorKind::SurfaceError),
    }
}

/// Picks the format of the surface among those it supports, given whether each
/// is sRGB: the first sRGB format, else the first format; `None` when there is
/// none.
pub fn preferred_format(is_srgb: &[bool]) -> (r: Option<usize>)
    ensures
        is_srgb@.len() == 0 <==> r is None,
        r matches Some(i) ==> i < is_srgb@.len(),
        r matches Some(i) ==> (is_srgb@[i as int] && forall|k: int| 0 <= k < i ==> !is_srgb@[k])
            || (i == 0 && forall|k: int| 0 <= k < is_srgb@.len() ==> !is_srgb@[k]),
{
    let mut i: usize = 0;
    while i < is_srgb.len()
        invariant
            i <= is_srgb@.len(),
            forall|k: int| 0 <= k < i ==> !is_srgb@[k],
        decreases is_srgb@.len() - i,
    {
        if is_srgb[i] {
            return Some(i);
        }
        i = i + 1;
    }
    if is_srgb.len() == 0 {
        None
    } else {
        Some(0)
    }
}

/// The logical size of the area drawn into, from which the camera is built.
#[derive(Clone, Copy, PartialEq, Eq, Structural, Debug)]
pub struct Viewport {
    pub width: u32,
    pub height: u32,
}

impl Viewport {
    pub fn new(width: u32, height: u32) -> (v: Viewport)
        ensures
            v == (Viewport { width, height }),
    {
        Viewport { width, height }
    }

    /// Takes the new size; returns whether it differs from the old one, that is,
    /// whether the camera has to be built and uploaded again.
    pub fn resize(&mut self, width: u32, height: u32) -> (changed: bool)
        ensures
            *final(self) == (Viewport { width, height }),
            changed == (old(self).width != width || old(self).height != height),
    {
        let changed = self.width != width || self.height != height;
        self.width = width;
        self.height = height;
        changed
    }
}

} // verus!
