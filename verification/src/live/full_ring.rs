//! Ring sizes for a playout ring that is held full.
//!
//! The top-up loop of such a ring stops only where the ring does, so the
//! capacity is the depth: every sample of it is latency, and it is cut to the
//! cushion and no deeper.

use vstd::prelude::*;

use crate::live::ring;
use crate::live::ring::{countable, cushion, larger, samples_of, CAPTURE_RING};

verus! {

/// Playout ring capacity in samples, which doubles as the playout depth
/// target.
pub fn playout_capacity(buffer_frames: u32) -> (samples: usize)
    requires
        countable(buffer_frames),
    ensures
        samples == cushion(buffer_frames),
{
    ring::playout_target(buffer_frames)
}

/// Capture ring capacity in samples: the playout cushion, or [`CAPTURE_RING`]
/// of audio, whichever is larger.
pub fn capture_capacity(buffer_frames: u32) -> (samples: usize)
    requires
        countable(buffer_frames),
    ensures
        samples == larger(cushion(buffer_frames), samples_of(CAPTURE_RING)),
{
    ring::capture_capacity(buffer_frames)
}

} // verus!
