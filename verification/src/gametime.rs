use vstd::prelude::*;

verus! {

/// Longest believable forward jump between two polls, in frames
/// (ten seconds at sixty frames per second).
pub const MAX_FRAME_JUMP: u64 = 600;

/// Largest frame count a candidate can reach: the sum of two
/// non-negative 32-bit counters.
pub const MAX_FRAMES: u64 = 0xFFFF_FFFE;

/// A candidate elapsed-frame count is believed only if it is a reset to
/// zero, fills in a zero, or is a plausible step forward. Everything else
/// is garbage from a loading screen and is discarded.
pub open spec fn accepts(stored: int, candidate: int) -> bool {
    ||| candidate == 0
    ||| stored == 0
    ||| (candidate > stored && candidate < stored + MAX_FRAME_JUMP)
}

/// The elapsed-frame count after filtering one candidate. The stored value
/// is a duration and never drops below zero, so a garbage negative
/// candidate can at most leave it cleared.
pub open spec fn filtered(stored: int, candidate: int) -> int {
    if accepts(stored, candidate) {
        if candidate > 0 {
            candidate
        } else {
            0
        }
    } else {
        stored
    }
}

/// The anti-glitch policy, over every stored value and candidate: the
/// published time never goes negative, and from a running (non-zero) value
/// it either stands still, is reset to zero, or moves forward by less than
/// the believable window — it never glitches backwards and never jumps
/// implausibly far ahead.
pub proof fn lemma_time_moves_by_policy(stored: int, candidate: int)
    requires
        0 <= stored,
    ensures
        filtered(stored, candidate) >= 0,
        stored != 0 && filtered(stored, candidate) != 0 ==> filtered(stored, candidate) == stored
            || (filtered(stored, candidate) > stored && filtered(stored, candidate) < stored
            + MAX_FRAME_JUMP),
{
}

/// The smoothed in-game time, held as a frame count at sixty frames per
/// second. Garbage reads during loading screens must never make it glitch
/// backwards or jump forward implausibly.
pub struct GameTime {
    pub frames: u64,
}

impl GameTime {
    /// The stored frame count stays in the range a candidate can reach.
    pub open spec fn wf(self) -> bool {
        self.frames <= MAX_FRAMES
    }

    pub fn new() -> (r: Self)
        ensures
            r.frames == 0,
            r.wf(),
    {
        GameTime { frames: 0 }
    }

    pub fn clear(&mut self)
        ensures
            final(self).frames == 0,
            final(self).wf(),
    {
        self.frames = 0;
    }

    /// Feed one poll's frame counters through the anti-glitch filter:
    /// the candidate is the section counter plus the accumulated counter
    /// of the active mode, and it replaces the stored value only when the
    /// filter believes it.
    pub fn calculate_game_time(&mut self, current_section_frames: i32, accum_frames: i32)
        requires
            old(self).wf(),
        ensures
            final(self).wf(),
            final(self).frames == filtered(
                old(self).frames as int,
                current_section_frames + accum_frames,
            ),
    {
        let candidate: i64 = current_section_frames as i64 + accum_frames as i64;
        let stored: i64 = self.frames as i64;
        if candidate == 0 || stored == 0 || (candidate > stored && candidate < stored + 600) {
            if candidate > 0 {
                self.frames = candidate as u64;
            } else {
                self.frames = 0;
            }
        }
    }
}

} // verus!
