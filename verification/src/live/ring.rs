//! How deep the audio rings are cut, how much of that is held, and how long
//! one may stand still.

use vstd::prelude::*;

use crate::live::{
    Nanos, CHANNELS, CHUNK_STEREO, FRAME_FRAMES, MICROSECOND, MILLISECOND, SAMPLE_RATE, TICK,
};

verus! {

/// Audio the capture ring holds, which is how long the worker may be held up
/// before captured audio is dropped rather than delayed. Forty milliseconds
/// covers the session's own bring-up and a stalled tick.
pub const CAPTURE_RING: u64 = 40 * MILLISECOND;
/// Most frames a jitter buffer aims to hold, and most it holds before it gives
/// its playout position up.
pub const MAX_TARGET_FRAMES: u64 = 24;
pub const MAX_DEPTH_FRAMES: u64 = 64;
/// Ticks a jitter buffer may take to heal a playout position.
pub const HEAL_TICKS: u64 = 84;
/// Deepest cushion the playout ring is cut to hold: the jitter buffer's own
/// ceiling. Playout holding more audio than the network path ever asks for is
/// latency spent where a bigger device callback is the answer instead.
pub const PLAYOUT_CUSHION_MAX: u64 = TICK * MAX_TARGET_FRAMES;
/// Floor under [`playout_stall_after`], so a ring only a frame or two deep does
/// not read a scheduling hiccup as a device that has stopped rendering.
pub const PLAYOUT_STALL_FLOOR: u64 = 40 * MILLISECOND;
/// Ceiling over [`playout_stall_after`]: half the arrivals a jitter buffer
/// holds before it gives its playout position up, so the drain always starts
/// while the audio a reopened stream would continue from is still there.
pub const PLAYOUT_STALL_CEILING: u64 = TICK * MAX_DEPTH_FRAMES / 2;
/// Audio a stalled drain catches up on in one pass. A worker held up longer
/// than this cannot pay the debt back at the frame clock, so it abandons the
/// gap.
pub const PLAYOUT_DRAIN_MAX: u64 = 160 * MILLISECOND;
/// Longest offline-pump stall replayed sample for sample, in seconds of device
/// time.
pub const PUMP_REPLAY_MAX_SECS: u64 = 2;

pub open spec fn larger(a: int, b: int) -> int {
    if a >= b {
        a
    } else {
        b
    }
}

pub open spec fn smaller(a: int, b: int) -> int {
    if a <= b {
        a
    } else {
        b
    }
}

/// Interleaved samples that a stretch of audio takes at the session rate.
pub open spec fn samples_of(time: u64) -> int {
    (time as int / MILLISECOND as int) * SAMPLE_RATE as int / 1000 * CHANNELS as int
}

/// The playout cushion: two device callbacks, or two frames where the device
/// calls back in less than one.
pub open spec fn cushion(buffer_frames: u32) -> int {
    2 * larger(buffer_frames * CHANNELS, CHUNK_STEREO as int)
}

/// Whether the machine can count the samples of such a callback.
pub open spec fn countable(buffer_frames: u32) -> bool {
    cushion(buffer_frames) <= usize::MAX
}

/// Playout depth in samples the top-up loop fills to, which is the cushion the
/// device plays out of.
pub fn playout_target(buffer_frames: u32) -> (samples: usize)
    requires
        countable(buffer_frames),
    ensures
        samples == cushion(buffer_frames),
{
    let callback: usize = buffer_frames as usize * CHANNELS as usize;
    let deeper: usize = if callback >= CHUNK_STEREO {
        callback
    } else {
        CHUNK_STEREO
    };
    2 * deeper
}

fn samples_in(time: u64) -> (samples: usize)
    requires
        time <= 1000 * MILLISECOND,
    ensures
        samples == samples_of(time),
{
    let millis: u64 = time / MILLISECOND;
    assert(millis <= 1000);
    assert(millis * (SAMPLE_RATE as u64) == millis * 48_000);
    let frames: u64 = millis * (SAMPLE_RATE as u64) / 1000;
    assert(frames * (CHANNELS as u64) == frames * 2);
    (frames * (CHANNELS as u64)) as usize
}

/// Playout ring capacity in samples: the deepest cushion the ring can ever be
/// asked to hold, or the depth target itself where a device period is deeper
/// than that. Capacity costs memory and depth costs latency, so the ring is cut
/// once for the whole range and the cushion moves inside it with the stream
/// open.
pub fn playout_capacity(buffer_frames: u32) -> (samples: usize)
    requires
        countable(buffer_frames),
    ensures
        samples == larger(cushion(buffer_frames), samples_of(PLAYOUT_CUSHION_MAX)),
{
    let target: usize = playout_target(buffer_frames);
    let deepest: usize = samples_in(PLAYOUT_CUSHION_MAX);
    if target >= deepest {
        target
    } else {
        deepest
    }
}

/// Capture ring capacity in samples: the playout cushion, or [`CAPTURE_RING`]
/// of audio, whichever is larger.
///
/// Deeper than the playout cushion because capture depth is not latency: the
/// worker drains this ring to empty every tick, so a sample waits for the next
/// drain and never for the capacity.
pub fn capture_capacity(buffer_frames: u32) -> (samples: usize)
    requires
        countable(buffer_frames),
    ensures
        samples == larger(cushion(buffer_frames), samples_of(CAPTURE_RING)),
{
    let target: usize = playout_target(buffer_frames);
    let slack: usize = samples_in(CAPTURE_RING);
    if target >= slack {
        target
    } else {
        slack
    }
}

/// A depth target as time, to the microsecond: the audio the device drains
/// while the worker filling it is asleep.
pub fn cushion_time(target: usize) -> (time: Nanos)
    requires
        (target / 2) * 1_000_000 <= u64::MAX,
    ensures
        time == (target as int / CHANNELS as int) * 1_000_000 / SAMPLE_RATE as int
            * MICROSECOND as int,
{
    let frames: u64 = (target / CHANNELS as usize) as u64;
    frames * 1_000_000 / (SAMPLE_RATE as u64) * MICROSECOND
}

/// One device callback as time, to the microsecond, and at least one frame.
pub open spec fn period(buffer_frames: u32) -> int {
    larger(buffer_frames as int, FRAME_FRAMES as int) * 1_000_000 / SAMPLE_RATE as int
        * MICROSECOND as int
}

/// How long the playout ring may accept nothing before the device counts as
/// having stopped rendering: four device callbacks, since a rendering device
/// makes room for one callback on every callback. Clamped between
/// [`PLAYOUT_STALL_FLOOR`] and [`PLAYOUT_STALL_CEILING`].
pub fn playout_stall_after(buffer_frames: u32) -> (time: Nanos)
    ensures
        time == smaller(
            larger(4 * period(buffer_frames), PLAYOUT_STALL_FLOOR as int),
            PLAYOUT_STALL_CEILING as int,
        ),
{
    let frames: u64 = if buffer_frames as usize >= FRAME_FRAMES {
        buffer_frames as u64
    } else {
        FRAME_FRAMES as u64
    };
    let four: u64 = frames * 1_000_000 / (SAMPLE_RATE as u64) * MICROSECOND * 4;
    if four < PLAYOUT_STALL_FLOOR {
        PLAYOUT_STALL_FLOOR
    } else if four > PLAYOUT_STALL_CEILING {
        PLAYOUT_STALL_CEILING
    } else {
        four
    }
}

/// Frames the ring is sized from: the request, or the callback size the device
/// negotiated when that is bigger. A device is free to ignore the request, and
/// a ring sized from the request alone then underruns on every render callback.
pub fn ring_frames(requested: u32, negotiated: Option<u32>) -> (frames: u32)
    ensures
        frames == larger(
            requested as int,
            match negotiated {
                Some(n) => n as int,
                None => 0,
            },
        ),
{
    match negotiated {
        Some(n) => if n >= requested {
            n
        } else {
            requested
        },
        None => requested,
    }
}

/// How many of `len` samples go into a ring that holds `banked` of the `depth`
/// it is held at, and no further. The ring is cut for the deepest cushion the
/// app can hold, so what the device plays out of, and pays for in latency, is
/// this depth rather than the capacity.
pub fn fill_playout_to(banked: usize, len: usize, depth: usize) -> (take: usize)
    ensures
        take == smaller(larger(depth - banked, 0), len as int),
{
    let room: usize = if depth >= banked {
        depth - banked
    } else {
        0
    };
    if room <= len {
        room
    } else {
        len
    }
}

// ------------------------------------------------------------------------ laws

/// Both rings hold the playout cushion, and the playout ring holds the deepest
/// one the app can ask for, so growing the cushion never needs the device shut
/// and reopened.
pub proof fn the_rings_hold_the_cushion(buffer_frames: u32)
    ensures
        larger(cushion(buffer_frames), samples_of(PLAYOUT_CUSHION_MAX)) >= cushion(buffer_frames),
        larger(cushion(buffer_frames), samples_of(PLAYOUT_CUSHION_MAX)) >= samples_of(
            PLAYOUT_CUSHION_MAX,
        ),
        larger(cushion(buffer_frames), samples_of(CAPTURE_RING)) >= cushion(buffer_frames),
        larger(cushion(buffer_frames), samples_of(CAPTURE_RING)) >= samples_of(CAPTURE_RING),
        samples_of(PLAYOUT_CUSHION_MAX) == 5760,
        samples_of(CAPTURE_RING) == 3840,
{
}

/// The stall threshold sits between two things it must not collide with: it
/// outlasts two device periods, for every device that calls back within 40 ms,
/// and it is shorter than what the jitter buffer holds before it gives its
/// playout position up.
pub proof fn the_stall_threshold_outlasts_a_callback_and_beats_the_buffer_cap(buffer_frames: u32)
    requires
        buffer_frames <= 1920,
    ensures
        smaller(
            larger(4 * period(buffer_frames), PLAYOUT_STALL_FLOOR as int),
            PLAYOUT_STALL_CEILING as int,
        ) >= 2 * period(buffer_frames),
        smaller(
            larger(4 * period(buffer_frames), PLAYOUT_STALL_FLOOR as int),
            PLAYOUT_STALL_CEILING as int,
        ) < TICK * MAX_DEPTH_FRAMES,
{
}

/// The cushion is two device periods of audio, to the microsecond of a period,
/// for every callback of whole microseconds.
pub proof fn the_cushion_is_two_callbacks(buffer_frames: u32)
    requires
        (larger(buffer_frames as int, FRAME_FRAMES as int) * 1_000_000) % (SAMPLE_RATE as int) == 0,
    ensures
        (cushion(buffer_frames) / CHANNELS as int) * 1_000_000 / SAMPLE_RATE as int
            * MICROSECOND as int == 2 * period(buffer_frames),
{
    let n = larger(buffer_frames as int, FRAME_FRAMES as int);
    assert(cushion(buffer_frames) == 4 * n);
    assert(cushion(buffer_frames) / CHANNELS as int == 2 * n);
    let q = n * 1_000_000 / 48_000;
    assert(n * 1_000_000 == 48_000 * q);
    assert(2 * n * 1_000_000 / 48_000 == 2 * q);
}

/// The larger of two is one of them and neither is past it; the smaller is one
/// of them and past neither.
pub proof fn the_larger_and_the_smaller(a: int, b: int)
    ensures
        larger(a, b) >= a && larger(a, b) >= b,
        smaller(a, b) <= a && smaller(a, b) <= b,
        larger(a, b) + smaller(a, b) == a + b,
        larger(a, b) == a || larger(a, b) == b,
{
}

/// The cushion holds two callbacks of the device in stereo, and two frames of
/// the session, and is exactly the deeper of those.
pub proof fn the_cushion_holds_two_callbacks_and_two_frames(buffer_frames: u32)
    ensures
        cushion(buffer_frames) >= 4 * buffer_frames,
        cushion(buffer_frames) >= 480,
        cushion(buffer_frames) == 4 * buffer_frames || cushion(buffer_frames) == 480,
{
}

/// A period is the time its frames play for at the session rate, cut to whole
/// microseconds, and never less than one frame of the session.
pub proof fn a_period_is_its_frames_at_the_session_rate(buffer_frames: u32)
    ensures
        period(buffer_frames) % 1_000 == 0,
        period(buffer_frames) >= 2_500_000,
        buffer_frames <= 120 ==> period(buffer_frames) == 2_500_000,
        buffer_frames >= 120 ==> 48_000 * period(buffer_frames) <= 1_000_000_000 * buffer_frames
            < 48_000 * (period(buffer_frames) + 1_000),
{
    let n = larger(buffer_frames as int, FRAME_FRAMES as int);
    let micros = n * 1_000_000 / 48_000;
    assert(48_000 * micros <= n * 1_000_000 < 48_000 * (micros + 1));
    assert(period(buffer_frames) == micros * 1_000);
}

/// A stretch of whole milliseconds takes ninety-six samples for each, and what
/// is left of one takes none.
pub proof fn a_millisecond_is_ninety_six_samples(time: u64)
    ensures
        samples_of(time) == 96 * (time as int / 1_000_000),
{
    let millis = time as int / 1_000_000;
    assert(millis * 48_000 / 1000 == millis * 48);
}

} // verus!
