//! The screenshot schedule: one frame counter, and a capture for each of the
//! first `CAPTURE_LIMIT` frames.
use vstd::prelude::*;

verus! {

/// Frames with a counter value below this limit are captured.
pub const CAPTURE_LIMIT: u64 = 1000;

/// Which frame, if any, is captured when the counter reads `count`.
pub open spec fn capture_of(count: int) -> Option<int> {
    if count < CAPTURE_LIMIT {
        Some(count)
    } else {
        None
    }
}

/// How many of the frames `0 .. frames` are captured.
pub open spec fn captures_in(frames: nat) -> nat
    decreases frames,
{
    if frames == 0 {
        0
    } else {
        captures_in((frames - 1) as nat) + if capture_of(frames - 1) is Some {
            1nat
        } else {
            0nat
        }
    }
}

/// The frame counter of the screenshot capturer.
#[derive(Clone, Copy, Debug, PartialEq, Eq, Structural)]
pub struct ScreenshotCounter {
    pub count: u64,
}

impl ScreenshotCounter {
    /// A counter at zero.
    pub fn new() -> (r: ScreenshotCounter)
        ensures
            r.count == 0,
    {
        ScreenshotCounter { count: 0 }
    }

    /// Advances the counter by one frame. Returns the number of the frame to
    /// capture, which is the counter's value before the call, while that value
    /// is below `CAPTURE_LIMIT`; afterwards `None`, while the counter goes on.
    pub fn tick(&mut self) -> (r: Option<u64>)
        requires
            old(self).count < u64::MAX,
        ensures
            final(self).count == old(self).count + 1,
            r == (if old(self).count < CAPTURE_LIMIT {
                Some(old(self).count)
            } else {
                None::<u64>
            }),
            capture_of(old(self).count as int) == match r {
                Some(n) => Some(n as int),
                None => None::<int>,
            },
    {
        let frame = self.count;
        self.count = self.count + 1;
        if frame < CAPTURE_LIMIT {
            Some(frame)
        } else {
            None
        }
    }
}

/// Over any run of frames counted from zero, exactly the first
/// `CAPTURE_LIMIT` frames are captured, and no frame from then on.
pub proof fn lemma_capture_schedule(frames: nat, later: int)
    requires
        later >= CAPTURE_LIMIT,
    ensures
        captures_in(frames) == if frames < CAPTURE_LIMIT {
            frames
        } else {
            CAPTURE_LIMIT as nat
        },
        capture_of(later) is None,
    decreases frames,
{
    if frames > 0 {
        lemma_capture_schedule((frames - 1) as nat, later);
    }
}

} // verus!
