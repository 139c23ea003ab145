//! What the types of [`crate::runtime`] say, with text as sequences of
//! characters. Contracts speak of these.

use vstd::prelude::*;

use crate::runtime::{
    AudioFaultView, CostView, DestinationId, DeviceModeView, FaderView, LevelsView, MemberId,
    MetronomeView, RateOutcomesView, Role, StreamPlatform, WakeView,
};
use crate::single::Single;

verus! {

#[verifier::ext_equal]
pub struct AvatarModel {
    pub hash: Seq<char>,
    pub width: u32,
    pub height: u32,
    pub rgba: Seq<u8>,
}

#[verifier::ext_equal]
pub enum CommandModel {
    SetFader { member: MemberId, fader: FaderView },
    SetClick(bool),
    SetMetronome { bpm: u16, beats_per_bar: u8, enabled: bool },
    SendChat(Seq<char>),
    Leave,
    Revoke(Seq<u8>),
    SetBroadcastFader { member: MemberId, fader: FaderView },
    SetBroadcastAudition(bool),
    SetHearSelf(bool),
    SetOwnAvatar(Option<Seq<u8>>),
    SetOwnName(Seq<char>),
    AddDestination { id: DestinationId, platform: StreamPlatform, key: Seq<char> },
    RemoveDestination(DestinationId),
    StartStream,
    StopStream,
    StartRecord,
    StopRecord,
}

#[verifier::ext_equal]
pub struct MemberModel {
    pub id: MemberId,
    pub name: Seq<char>,
    pub role: Role,
    pub connected: bool,
    pub quiet: bool,
    pub is_you: bool,
    pub fader: FaderView,
    pub token: Option<Seq<u8>>,
    pub avatar: Option<AvatarModel>,
}

#[verifier::ext_equal]
pub struct ChatModel {
    pub from_name: Seq<char>,
    pub from_id: MemberId,
    pub text: Seq<char>,
    pub at_ms: u64,
}

#[verifier::ext_equal]
pub enum ConnModel {
    Connecting,
    Joined,
    Ejected(Seq<char>),
    TimedOut,
    SessionFull,
    Idle,
}

#[verifier::ext_equal]
pub enum DestinationStateModel {
    Idle,
    Connecting,
    Live,
    Failed { reason: Seq<char> },
}

#[verifier::ext_equal]
pub struct DestinationModel {
    pub id: DestinationId,
    pub platform: StreamPlatform,
    pub state: DestinationStateModel,
    pub bitrate_kbps: u32,
    pub dropped_frames: u64,
    pub repeated_frames: u64,
}

#[verifier::ext_equal]
pub enum ReadinessModel {
    Ready,
    Unavailable { reason: Seq<char> },
}

#[verifier::ext_equal]
pub enum RecordStateModel {
    Idle,
    Recording,
    Uploading,
    Failed { reason: Seq<char> },
}

#[verifier::ext_equal]
pub struct RecordModel {
    pub state: RecordStateModel,
    pub stems: bool,
}

#[verifier::ext_equal]
pub struct StreamModel {
    pub destinations: Seq<DestinationModel>,
    pub readiness: Option<ReadinessModel>,
}

#[verifier::ext_equal]
pub struct BroadcastModel {
    pub faders: Seq<(MemberId, FaderView)>,
    pub audition: bool,
}

#[verifier::ext_equal]
pub struct StatsModel {
    pub state: ConnModel,
    pub rtt_ms: Option<Single>,
    pub jitter_depth: usize,
    pub jitter_target: usize,
    pub uplink_loss_pct: Option<Single>,
    pub downlink_loss_pct: Option<Single>,
    pub mouth_to_ear_ms: Option<Single>,
    pub device_mode: Option<DeviceModeView>,
    pub rate: Option<RateOutcomesView>,
    pub crackling: bool,
    pub playout_low_frames: Option<usize>,
    pub wake: Option<WakeView>,
    pub cutting_out: Option<u64>,
}

#[verifier::ext_equal]
pub struct SnapshotModel {
    pub stats: StatsModel,
    pub members: Seq<MemberModel>,
    pub chat: Seq<ChatModel>,
    pub levels: LevelsView,
    pub metronome: MetronomeView,
    pub broadcast: Option<BroadcastModel>,
    pub stream: StreamModel,
    pub record: RecordModel,
    pub cost: Option<CostView>,
    pub hear_self: bool,
    pub offer_hear_self: bool,
    pub session_short: Seq<char>,
    pub server_addr: Seq<char>,
    pub is_host: bool,
    pub device_error: Option<Seq<char>>,
    pub audio_fault: Option<AudioFaultView>,
}

} // verus!
