use vstd::prelude::*;

verus! {

/// A frame-based animation clip. Frames are opaque handles chosen by the
/// caller; the clip never interprets them. Time is supplied by the caller as
/// monotonic milliseconds, so advancing is a pure function of the clip and
/// the clock reading.
pub struct AnimationClip {
    /// Opaque frame handles, in display order; never empty.
    pub frames: Vec<u32>,
    /// Index of the frame currently shown; always below `frames.len()`.
    pub current_index: usize,
    /// How long each frame stays on screen, in milliseconds.
    pub frame_duration_ms: u64,
    /// Clock reading at the last frame switch (or at creation).
    pub last_advance_ms: u64,
    /// How many times the index has wrapped from the last frame back to 0.
    pub cycles_completed: u32,
}

impl AnimationClip {
    /// The clip's invariant: at least one frame, and the index stays in range.
    pub open spec fn wf(self) -> bool {
        &&& self.frames@.len() >= 1
        &&& self.current_index < self.frames@.len()
    }

    /// What one call of `advance` at clock reading `now_ms` does: nothing
    /// before `frame_duration_ms` has elapsed; otherwise the index steps
    /// (wrapping to 0 after the last frame, which counts one more cycle)
    /// and the switch time is reset to `now_ms`.
    pub open spec fn spec_advanced(self, now_ms: u64) -> AnimationClip {
        if now_ms - self.last_advance_ms >= self.frame_duration_ms {
            AnimationClip {
                frames: self.frames,
                current_index: if self.current_index + 1 == self.frames@.len() {
                    0usize
                } else {
                    (self.current_index + 1) as usize
                },
                frame_duration_ms: self.frame_duration_ms,
                last_advance_ms: now_ms,
                cycles_completed: if self.current_index + 1 == self.frames@.len() {
                    (self.cycles_completed + 1) as u32
                } else {
                    self.cycles_completed
                },
            }
        } else {
            self
        }
    }

    /// Creates a clip showing `frames[0]`, with no cycles completed yet.
    pub fn new(frames: Vec<u32>, frame_duration_ms: u64, now_ms: u64) -> (clip: AnimationClip)
        requires
            frames@.len() >= 1,
        ensures
            clip.wf(),
            clip.frames@ == frames@,
            clip.current_index == 0,
            clip.frame_duration_ms == frame_duration_ms,
            clip.last_advance_ms == now_ms,
            clip.cycles_completed == 0,
    {
        AnimationClip {
            frames,
            current_index: 0,
            frame_duration_ms,
            last_advance_ms: now_ms,
            cycles_completed: 0,
        }
    }

    /// Advances the clip by one step if the per-frame duration has elapsed;
    /// a call before that is a no-op.
    pub fn advance(&mut self, now_ms: u64)
        requires
            old(self).wf(),
            now_ms >= old(self).last_advance_ms,
            old(self).cycles_completed < u32::MAX,
        ensures
            final(self).wf(),
            *final(self) == old(self).spec_advanced(now_ms),
    {
        if now_ms - self.last_advance_ms >= self.frame_duration_ms {
            let len = self.frames.len();
            if self.current_index == len - 1 {
                self.current_index = 0;
                self.cycles_completed = self.cycles_completed + 1;
            } else {
                self.current_index = self.current_index + 1;
            }
            self.last_advance_ms = now_ms;
        }
    }

    /// The frame handle to draw right now.
    pub fn current_frame(&self) -> (frame: u32)
        requires
            self.wf(),
        ensures
            frame == self.frames@[self.current_index as int],
    {
        self.frames[self.current_index]
    }

    /// How many full passes through the frame sequence have played.
    pub fn cycles_completed(&self) -> (n: u32)
        ensures
            n == self.cycles_completed,
    {
        self.cycles_completed
    }
}

/// One advance adds at most one completed cycle, so a caller polling the
/// count after each advance sees every completion exactly once.
pub proof fn lemma_advance_counts_single_cycle(clip: AnimationClip, now_ms: u64)
    requires
        clip.wf(),
        clip.cycles_completed < u32::MAX,
    ensures
        clip.spec_advanced(now_ms).cycles_completed == clip.cycles_completed
            || clip.spec_advanced(now_ms).cycles_completed == clip.cycles_completed + 1,
{
}

} // verus!
