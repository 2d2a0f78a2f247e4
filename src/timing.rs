use vstd::prelude::*;

verus! {

/// Wall time between two frame-rate samples, in nanoseconds.
pub const FPS_LOG_INTERVAL_NANOS: u64 = 1_000_000_000;

/// Frames counted over a stretch of wall time.
#[derive(Clone, Copy, Debug, PartialEq, Eq, Structural)]
pub struct FpsSample {
    pub frames: u32,
    pub elapsed_nanos: u64,
}

/// What one frame's tick reports.
#[derive(Clone, Copy, Debug, PartialEq, Eq, Structural)]
pub struct FrameTick {
    /// Wall time since the previous frame.
    pub delta_nanos: u64,
    /// A frame-rate sample, once at least the sampling interval has passed.
    pub fps_sample: Option<FpsSample>,
}

/// Frame timing on a monotonic clock read in nanoseconds since some origin.
#[derive(Clone, Copy, Debug)]
pub struct FrameClock {
    last_frame: u64,
    last_fps_log: u64,
    frames_since_last_fps_log: u32,
}

impl FrameClock {
    #[verifier::type_invariant]
    spec fn inv(&self) -> bool {
        self.last_fps_log <= self.last_frame
    }

    /// Instant of the latest frame.
    pub closed spec fn last_frame_spec(&self) -> u64 {
        self.last_frame
    }

    /// Instant of the latest frame-rate sample, or of the start.
    pub closed spec fn last_fps_log_spec(&self) -> u64 {
        self.last_fps_log
    }

    /// Frames since that sample.
    pub closed spec fn frames_spec(&self) -> u32 {
        self.frames_since_last_fps_log
    }

    /// A clock started at `now`.
    pub fn init(now: u64) -> (r: Self)
        ensures
            r.last_frame_spec() == now,
            r.last_fps_log_spec() == now,
            r.frames_spec() == 0,
    {
        FrameClock { last_frame: now, last_fps_log: now, frames_since_last_fps_log: 0 }
    }

    pub fn last_frame(&self) -> (r: u64)
        ensures
            r == self.last_frame_spec(),
            r >= self.last_fps_log_spec(),
    {
        proof {
            use_type_invariant(self);
        }
        self.last_frame
    }

    /// Starts a frame at `now`: reports the time since the previous frame, counts
    /// the frame, and hands out a frame-rate sample when the interval has passed,
    /// restarting the count.
    pub fn update(&mut self, now: u64) -> (r: FrameTick)
        requires
            now >= old(self).last_frame_spec(),
        ensures
            r.delta_nanos == now - old(self).last_frame_spec(),
            final(self).last_frame_spec() == now,
            ({
                let frames = if old(self).frames_spec() == u32::MAX {
                    u32::MAX
                } else {
                    (old(self).frames_spec() + 1) as u32
                };
                let elapsed = now - old(self).last_fps_log_spec();
                if elapsed >= FPS_LOG_INTERVAL_NANOS {
                    &&& r.fps_sample == Some(FpsSample { frames, elapsed_nanos: elapsed as u64 })
                    &&& final(self).last_fps_log_spec() == now
                    &&& final(self).frames_spec() == 0
                } else {
                    &&& r.fps_sample.is_none()
                    &&& final(self).last_fps_log_spec() == old(self).last_fps_log_spec()
                    &&& final(self).frames_spec() == frames
                }
            }),
    {
        proof {
            use_type_invariant(&*self);
        }
        let delta_nanos = now - self.last_frame;
        self.last_frame = now;
        let fps_sample = self.update_fps(now);
        FrameTick { delta_nanos, fps_sample }
    }

    fn update_fps(&mut self, now: u64) -> (r: Option<FpsSample>)
        requires
            now == old(self).last_frame_spec(),
        ensures
            final(self).last_frame_spec() == now,
            ({
                let frames = if old(self).frames_spec() == u32::MAX {
                    u32::MAX
                } else {
                    (old(self).frames_spec() + 1) as u32
                };
                let elapsed = now - old(self).last_fps_log_spec();
                if elapsed >= FPS_LOG_INTERVAL_NANOS {
                    &&& r == Some(FpsSample { frames, elapsed_nanos: elapsed as u64 })
                    &&& final(self).last_fps_log_spec() == now
                    &&& final(self).frames_spec() == 0
                } else {
                    &&& r.is_none()
                    &&& final(self).last_fps_log_spec() == old(self).last_fps_log_spec()
                    &&& final(self).frames_spec() == frames
                }
            }),
    {
        proof {
            use_type_invariant(&*self);
        }
        self.frames_since_last_fps_log = self.frames_since_last_fps_log.saturating_add(1);
        let elapsed = now - self.last_fps_log;
        if elapsed >= FPS_LOG_INTERVAL_NANOS {
            let sample = FpsSample { frames: self.frames_since_last_fps_log, elapsed_nanos: elapsed };
            self.last_fps_log = now;
            self.frames_since_last_fps_log = 0;
            Some(sample)
        } else {
            None
        }
    }
}

} // verus!
