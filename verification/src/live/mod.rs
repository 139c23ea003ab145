//! The live session: how audio rings are cut, what the worker decides between
//! two ticks, and what everybody else reads of it.

use vstd::prelude::*;

pub mod conn;
pub mod costed;
pub mod full_ring;
pub mod notices;
pub mod offer;
pub mod ops;
pub mod ring;
pub mod shown;
pub mod state;
pub mod tick;
pub mod wake;
pub mod watch;
pub mod worker;

verus! {

/// Points and lengths of time, in nanoseconds on one monotonic clock.
pub type Nanos = u64;

pub const MICROSECOND: u64 = 1_000;
pub const MILLISECOND: u64 = 1_000_000;
pub const SECOND: u64 = 1_000_000_000;

/// The session rate, which the device is opened at.
pub const SAMPLE_RATE: u32 = 48_000;
pub const CHANNELS: u16 = 2;
/// The pace the worker loops at: one media frame, 2.5 ms.
pub const TICK: u64 = 2_500_000;
/// One frame: 120 mono capture samples, 240 interleaved playout.
pub const FRAME_FRAMES: usize = 120;
pub const CHUNK_STEREO: usize = 240;

/// How long ago `earlier` was at `now`; nothing, when it is still to come.
pub open spec fn elapsed(now: u64, earlier: u64) -> int {
    if now >= earlier {
        now - earlier
    } else {
        0
    }
}

/// How long ago `earlier` was at `now`.
pub fn since(now: Nanos, earlier: Nanos) -> (d: u64)
    ensures
        d == elapsed(now, earlier),
{
    if now >= earlier {
        now - earlier
    } else {
        0
    }
}

/// Of two moments the time since the earlier, seen from the later, is what
/// lies between them, and the other way round there is none.
pub proof fn time_passes_one_way(one: u64, other: u64)
    ensures
        elapsed(one, other) >= 0,
        elapsed(one, other) - elapsed(other, one) == one - other,
        elapsed(one, other) == 0 || elapsed(other, one) == 0,
{
}

// ------------------------------------------------------------------- settings

/// Device selection plus buffer size, as picked on the settings screen.
/// `None` device ids select the system default for that direction.
#[derive(Debug, PartialEq, Eq)]
pub struct AudioSettings {
    pub capture_id: Option<String>,
    pub playback_id: Option<String>,
    pub buffer_frames: u32,
    /// Whether the open may take the device exclusively.
    pub allow_exclusive: bool,
    /// Whether the playout cushion may move itself past what `buffer_frames`
    /// asks for. Off pins it there, which makes the pick the latency.
    pub auto_cushion: bool,
}

#[verifier::ext_equal]
pub struct SettingsModel {
    pub capture_id: Option<Seq<char>>,
    pub playback_id: Option<Seq<char>>,
    pub buffer_frames: u32,
    pub allow_exclusive: bool,
    pub auto_cushion: bool,
}

impl DeepView for AudioSettings {
    type V = SettingsModel;

    open spec fn deep_view(&self) -> SettingsModel {
        SettingsModel {
            capture_id: self.capture_id.deep_view(),
            playback_id: self.playback_id.deep_view(),
            buffer_frames: self.buffer_frames,
            allow_exclusive: self.allow_exclusive,
            auto_cushion: self.auto_cushion,
        }
    }
}

/// The flags default on: exclusive is the latency the product exists for, and
/// a cushion nothing adjusts is a dropout on every machine that needs the help.
impl Default for AudioSettings {
    fn default() -> (s: AudioSettings)
        ensures
            s.deep_view() == (SettingsModel {
                capture_id: None,
                playback_id: None,
                buffer_frames: 0,
                allow_exclusive: true,
                auto_cushion: true,
            }),
    {
        AudioSettings {
            capture_id: None,
            playback_id: None,
            buffer_frames: 0,
            allow_exclusive: true,
            auto_cushion: true,
        }
    }
}

impl Clone for AudioSettings {
    fn clone(&self) -> (s: AudioSettings)
        ensures
            s == *self,
    {
        AudioSettings {
            capture_id: self.capture_id.clone(),
            playback_id: self.playback_id.clone(),
            buffer_frames: self.buffer_frames,
            allow_exclusive: self.allow_exclusive,
            auto_cushion: self.auto_cushion,
        }
    }
}

/// Whether two optional texts are the same.
pub fn same_option(a: &Option<String>, b: &Option<String>) -> (same: bool)
    ensures
        same == (a.deep_view() == b.deep_view()),
{
    match (a, b) {
        (Some(a), Some(b)) => *a == *b,
        (None, None) => true,
        _ => false,
    }
}

impl AudioSettings {
    /// Whether moving from these settings to `next` needs the device shut and
    /// reopened, which costs the band a few hundred milliseconds of capture.
    /// Every field but the cushion answer is part of the device request; that
    /// one is read by the depth controller on the worker's own thread.
    pub fn reopens_for(&self, next: &AudioSettings) -> (b: bool)
        ensures
            b == (self.deep_view() != (SettingsModel {
                auto_cushion: self.auto_cushion,
                ..next.deep_view()
            })),
            b <==> self.capture_id.deep_view() != next.capture_id.deep_view()
                || self.playback_id.deep_view() != next.playback_id.deep_view()
                || self.buffer_frames != next.buffer_frames || self.allow_exclusive
                != next.allow_exclusive,
    {
        !(same_option(&self.capture_id, &next.capture_id) && same_option(
            &self.playback_id,
            &next.playback_id,
        ) && self.buffer_frames == next.buffer_frames && self.allow_exclusive
            == next.allow_exclusive)
    }
}

/// What a device is asked for.
#[derive(Debug, Clone, Copy, PartialEq, Eq, Structural)]
pub struct StreamConfig {
    pub sample_rate: u32,
    pub buffer_frames: u32,
    pub channels: u16,
    pub allow_exclusive: bool,
}

/// Fewest frames a device is asked to call back with.
pub const BUFFER_FLOOR: u32 = 32;

/// The device request as [`AudioSettings`] spells it: the session rate and
/// channel layout are the protocol's, the buffer and the exclusive answer are
/// the user's.
pub fn stream_config(settings: &AudioSettings) -> (config: StreamConfig)
    ensures
        config == (StreamConfig {
            sample_rate: SAMPLE_RATE,
            buffer_frames: if settings.buffer_frames >= BUFFER_FLOOR {
                settings.buffer_frames
            } else {
                BUFFER_FLOOR
            },
            channels: CHANNELS,
            allow_exclusive: settings.allow_exclusive,
        }),
{
    StreamConfig {
        sample_rate: SAMPLE_RATE,
        buffer_frames: if settings.buffer_frames >= BUFFER_FLOOR {
            settings.buffer_frames
        } else {
            BUFFER_FLOOR
        },
        channels: CHANNELS,
        allow_exclusive: settings.allow_exclusive,
    }
}

/// The cushion answer alone never reopens the device, and no cushion answer
/// keeps a device pick from doing so.
pub proof fn only_the_device_half_reopens_the_stream(
    base: SettingsModel,
    next: SettingsModel,
    pinned: bool,
)
    ensures
        base == (SettingsModel {
            auto_cushion: base.auto_cushion,
            ..(SettingsModel { auto_cushion: pinned, ..base })
        }),
        base != (SettingsModel { auto_cushion: base.auto_cushion, ..next }) <==> base != (
        SettingsModel {
            auto_cushion: base.auto_cushion,
            ..(SettingsModel { auto_cushion: pinned, ..next })
        }),
{
}

// --------------------------------------------------------------------- errors

/// Why a session did not start, in the words of whatever refused.
#[derive(Debug, PartialEq, Eq)]
pub enum LiveError {
    Audio(String),
    Session(String),
    Io(String),
    /// The invite carries no server address at all.
    NoAddress,
}

impl LiveError {
    /// What the refusal reads as.
    pub open spec fn text(self) -> Seq<char> {
        match self {
            LiveError::Audio(e) => "audio: "@ + e@,
            LiveError::Session(e) => "session: "@ + e@,
            LiveError::Io(e) => "network: "@ + e@,
            LiveError::NoAddress => "invite has no server address"@,
        }
    }

    pub fn message(&self) -> (s: String)
        ensures
            s@ == self.text(),
            match self {
                LiveError::Audio(e) => s@ == "audio: "@ + e@,
                LiveError::Session(e) => s@ == "session: "@ + e@,
                LiveError::Io(e) => s@ == "network: "@ + e@,
                LiveError::NoAddress => s@ == "invite has no server address"@,
            },
    {
        let mut s = String::new();
        match self {
            LiveError::Audio(e) => {
                s.append("audio: ");
                s.append(e.as_str());
            },
            LiveError::Session(e) => {
                s.append("session: ");
                s.append(e.as_str());
            },
            LiveError::Io(e) => {
                s.append("network: ");
                s.append(e.as_str());
            },
            LiveError::NoAddress => s.append("invite has no server address"),
        }
        assert(s@ =~= self.text());
        s
    }
}

} // verus!
