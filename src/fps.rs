use vstd::prelude::*;

verus! {

/// How long frames are counted before a rate is taken, in milliseconds.
pub const FPS_CALCULATE_INTERVAL: u64 = 500;

/// Frames counted over a span of time; the rate is `frames * 1000 / elapsed_ms`.
#[derive(Clone, Copy, Debug, PartialEq, Eq)]
pub struct FpsSample {
    pub frames: u32,
    pub elapsed_ms: u64,
}

/// Counts frames and takes a sample once more than the interval has passed.
#[derive(Debug)]
pub struct Fps {
    pub prev_calculate_ms: u64,
    pub accumulated: u32,
}

impl Fps {
    /// Starts counting at `now_ms`.
    pub fn new(now_ms: u64) -> (r: Self)
        ensures
            r.prev_calculate_ms == now_ms,
            r.accumulated == 0,
    {
        Fps { prev_calculate_ms: now_ms, accumulated: 0 }
    }

    /// Counts one frame at `now_ms`. Once more than the interval has passed since the
    /// last sample, returns the frames counted and the time they took, and starts over.
    pub fn update(&mut self, now_ms: u64) -> (r: Option<FpsSample>)
        ensures
            ({
                let elapsed = if now_ms >= old(self).prev_calculate_ms { now_ms - old(self).prev_calculate_ms } else { 0 };
                let frames = if old(self).accumulated == u32::MAX { u32::MAX as int } else { old(self).accumulated + 1 };
                if elapsed > FPS_CALCULATE_INTERVAL {
                    &&& r == Some(FpsSample { frames: frames as u32, elapsed_ms: elapsed as u64 })
                    &&& final(self).accumulated == 0
                    &&& final(self).prev_calculate_ms == now_ms
                } else {
                    &&& r is None
                    &&& final(self).accumulated == frames
                    &&& final(self).prev_calculate_ms == old(self).prev_calculate_ms
                }
            }),
    {
        let elapsed = now_ms.saturating_sub(self.prev_calculate_ms);
        self.accumulated = self.accumulated.saturating_add(1);
        if elapsed > FPS_CALCULATE_INTERVAL {
            let sample = FpsSample { frames: self.accumulated, elapsed_ms: elapsed };
            self.accumulated = 0;
            self.prev_calculate_ms = now_ms;
            Some(sample)
        } else {
            None
        }
    }
}

} // verus!
