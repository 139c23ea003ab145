//! The contract between the interface and whatever runs the session. The
//! interface pulls one [`Snapshot`] per frame and pushes [`Command`]s; it never
//! sees sockets, devices, or threads.
//!
//! Levels are your input and the room output only, which is why
//! [`LevelsView`] has exactly those four values.

use std::sync::Arc;

use vstd::prelude::*;

use crate::live::SAMPLE_RATE;
use crate::model::{
    AvatarModel, BroadcastModel, ChatModel, CommandModel, ConnModel, DestinationModel,
    DestinationStateModel, MemberModel, ReadinessModel, RecordModel, RecordStateModel,
    SnapshotModel, StatsModel, StreamModel,
};
use crate::single::Single;
use crate::text::{decimal, decimal_fixed, push_decimal, push_decimal_fixed};

verus! {

// ------------------------------------------------------------------ identities

/// A member of the session, by the number the server gave.
#[derive(Debug, Clone, Copy, PartialEq, Eq, Structural)]
pub struct MemberId(pub u16);

/// The member that hosts the session.
pub const HOST_MEMBER_ID: u16 = 0;

/// The invite token that admits a member.
#[derive(Debug, Clone, Copy, PartialEq, Eq)]
pub struct TokenId(pub [u8; 16]);

impl DeepView for TokenId {
    type V = Seq<u8>;

    open spec fn deep_view(&self) -> Seq<u8> {
        self.0@
    }
}

/// A broadcast destination, by the number this side minted for it.
#[derive(Debug, Clone, Copy, PartialEq, Eq, Structural)]
pub struct DestinationId(pub u16);

#[derive(Debug, Clone, Copy, PartialEq, Eq, Structural)]
pub enum Role {
    Musician,
    Listener,
}

#[derive(Debug, Clone, Copy, PartialEq, Eq, Structural)]
pub enum StreamPlatform {
    Twitch,
    YouTube,
}

impl DeepView for StreamPlatform {
    type V = StreamPlatform;

    open spec fn deep_view(&self) -> StreamPlatform {
        *self
    }
}

impl StreamPlatform {
    /// The platform's name wherever it is written down.
    pub open spec fn name(self) -> Seq<char> {
        match self {
            StreamPlatform::Twitch => "twitch"@,
            StreamPlatform::YouTube => "youtube"@,
        }
    }

    pub fn as_str(&self) -> (s: &'static str)
        ensures
            s@ == self.name(),
            self is Twitch ==> s@ == "twitch"@,
            self is YouTube ==> s@ == "youtube"@,
    {
        match self {
            StreamPlatform::Twitch => "twitch",
            StreamPlatform::YouTube => "youtube",
        }
    }
}

/// What lets somebody broadcast as you. It is never shown and never kept.
#[derive(PartialEq)]
pub struct StreamKey(pub String);

// --------------------------------------------------------------------- avatars

/// One member's avatar, decoded. The interface needs pixels, not a file: each
/// content hash is decoded exactly once, and this handle is what is handed
/// round.
///
/// `rgba` is straight (non-premultiplied) RGBA, `width * height * 4` bytes.
#[derive(Debug)]
pub struct AvatarHandle {
    /// Lowercase hex of the avatar's content hash, its identity everywhere.
    pub hash: String,
    pub width: u32,
    pub height: u32,
    pub rgba: Arc<Vec<u8>>,
}

impl DeepView for AvatarHandle {
    type V = AvatarModel;

    open spec fn deep_view(&self) -> AvatarModel {
        AvatarModel {
            hash: self.hash@,
            width: self.width,
            height: self.height,
            rgba: (*self.rgba)@,
        }
    }
}

/// Cloning an `Arc` hands out another handle to the very same value.
#[verifier::external_body]
fn share(pixels: &Arc<Vec<u8>>) -> (r: Arc<Vec<u8>>)
    ensures
        r == *pixels,
{
    Arc::clone(pixels)
}

impl Clone for AvatarHandle {
    fn clone(&self) -> (r: AvatarHandle)
        ensures
            r == *self,
    {
        AvatarHandle {
            hash: self.hash.clone(),
            width: self.width,
            height: self.height,
            rgba: share(&self.rgba),
        }
    }
}

/// Content-addressed: equal hashes are the same pixels, so comparing two
/// snapshots never walks the buffers.
impl PartialEq for AvatarHandle {
    fn eq(&self, other: &AvatarHandle) -> (b: bool) {
        self.hash == other.hash && self.width == other.width && self.height == other.height
    }
}

impl vstd::std_specs::cmp::PartialEqSpecImpl for AvatarHandle {
    open spec fn obeys_eq_spec() -> bool {
        true
    }

    open spec fn eq_spec(&self, other: &AvatarHandle) -> bool {
        self.hash@ == other.hash@ && self.width == other.width && self.height == other.height
    }
}

// -------------------------------------------------------------------- commands

/// Everything the interface can ask the runtime to do.
#[derive(PartialEq)]
pub enum Command {
    /// Shapes your personal monitor mix of one member.
    SetFader { member: MemberId, gain_db: Single, pan: Single, muted: bool },
    /// Whether you hear the metronome click.
    SetClick(bool),
    /// Host only: the session-wide metronome.
    SetMetronome { bpm: u16, beats_per_bar: u8, enabled: bool },
    SendChat(String),
    Leave,
    /// Host only: invalidates one invite and ejects its member.
    Revoke(TokenId),
    /// Host only: shapes one member's fader in the broadcast mix, the one
    /// listeners and the stream hear. Monitor mixes are unaffected.
    SetBroadcastFader { member: MemberId, gain_db: Single, pan: Single, muted: bool },
    /// Host only: while on, the host's monitor carries the exact
    /// post-limiter listener signal, own voice included.
    SetBroadcastAudition(bool),
    /// Any member: while on, your personal mix carries your own signal
    /// instead of the usual removal.
    SetHearSelf(bool),
    /// Your own avatar: raw file bytes as read from disk, or `None` to drop
    /// it.
    SetOwnAvatar(Option<Vec<u8>>),
    /// Your own display name, replacing the invite's hint or the member-N
    /// fallback on everyone's roster.
    SetOwnName(String),
    /// Host only: configure one broadcast destination. The id is minted on
    /// this side so add and remove name the same destination with no round
    /// trip. The only command that carries a secret.
    AddDestination { id: DestinationId, platform: StreamPlatform, key: StreamKey },
    /// Host only: drop one destination. Live or not, the others carry on.
    RemoveDestination(DestinationId),
    /// Host only: bring the encoder up. Destinations configured before or
    /// after both apply.
    StartStream,
    /// Host only: tear the encoder and every pusher down.
    StopStream,
    /// Host only: begin a take on the session server.
    StartRecord,
    /// Host only: end the take. The upload may drain afterwards; the state
    /// in [`Snapshot::record`] says when it is done.
    StopRecord,
}

/// The bytes of a file, where there is one.
pub open spec fn bytes_model(bytes: Option<Vec<u8>>) -> Option<Seq<u8>> {
    match bytes {
        Some(bytes) => Some(bytes@),
        None => None,
    }
}

impl DeepView for Command {
    type V = CommandModel;

    open spec fn deep_view(&self) -> CommandModel {
        match self {
            Command::SetFader { member, gain_db, pan, muted } => CommandModel::SetFader {
                member: *member,
                fader: FaderView { gain_db: *gain_db, pan: *pan, muted: *muted },
            },
            Command::SetClick(on) => CommandModel::SetClick(*on),
            Command::SetMetronome { bpm, beats_per_bar, enabled } => CommandModel::SetMetronome {
                bpm: *bpm,
                beats_per_bar: *beats_per_bar,
                enabled: *enabled,
            },
            Command::SendChat(text) => CommandModel::SendChat(text@),
            Command::Leave => CommandModel::Leave,
            Command::Revoke(jti) => CommandModel::Revoke(jti.0@),
            Command::SetBroadcastFader { member, gain_db, pan, muted } =>
                CommandModel::SetBroadcastFader {
                member: *member,
                fader: FaderView { gain_db: *gain_db, pan: *pan, muted: *muted },
            },
            Command::SetBroadcastAudition(on) => CommandModel::SetBroadcastAudition(*on),
            Command::SetHearSelf(on) => CommandModel::SetHearSelf(*on),
            Command::SetOwnAvatar(bytes) => CommandModel::SetOwnAvatar(bytes_model(*bytes)),
            Command::SetOwnName(name) => CommandModel::SetOwnName(name@),
            Command::AddDestination { id, platform, key } => CommandModel::AddDestination {
                id: *id,
                platform: *platform,
                key: key.0@,
            },
            Command::RemoveDestination(id) => CommandModel::RemoveDestination(*id),
            Command::StartStream => CommandModel::StartStream,
            Command::StopStream => CommandModel::StopStream,
            Command::StartRecord => CommandModel::StartRecord,
            Command::StopRecord => CommandModel::StopRecord,
        }
    }
}

impl Clone for Command {
    fn clone(&self) -> (r: Command)
        ensures
            r.deep_view() == self.deep_view(),
    {
        match self {
            Command::SetFader { member, gain_db, pan, muted } => Command::SetFader {
                member: *member,
                gain_db: *gain_db,
                pan: *pan,
                muted: *muted,
            },
            Command::SetClick(on) => Command::SetClick(*on),
            Command::SetMetronome { bpm, beats_per_bar, enabled } => Command::SetMetronome {
                bpm: *bpm,
                beats_per_bar: *beats_per_bar,
                enabled: *enabled,
            },
            Command::SendChat(text) => Command::SendChat(text.clone()),
            Command::Leave => Command::Leave,
            Command::Revoke(jti) => Command::Revoke(*jti),
            Command::SetBroadcastFader { member, gain_db, pan, muted } =>
                Command::SetBroadcastFader {
                member: *member,
                gain_db: *gain_db,
                pan: *pan,
                muted: *muted,
            },
            Command::SetBroadcastAudition(on) => Command::SetBroadcastAudition(*on),
            Command::SetHearSelf(on) => Command::SetHearSelf(*on),
            Command::SetOwnAvatar(bytes) => Command::SetOwnAvatar(
                match bytes {
                    Some(bytes) => Some(copy_bytes(bytes)),
                    None => None,
                },
            ),
            Command::SetOwnName(name) => Command::SetOwnName(name.clone()),
            Command::AddDestination { id, platform, key } => Command::AddDestination {
                id: *id,
                platform: *platform,
                key: StreamKey(key.0.clone()),
            },
            Command::RemoveDestination(id) => Command::RemoveDestination(*id),
            Command::StartStream => Command::StartStream,
            Command::StopStream => Command::StopStream,
            Command::StartRecord => Command::StartRecord,
            Command::StopRecord => Command::StopRecord,
        }
    }
}

/// The same bytes in a vector of their own.
pub fn copy_bytes(bytes: &Vec<u8>) -> (r: Vec<u8>)
    ensures
        r@ == bytes@,
{
    let r = bytes.clone();
    assert(r@ =~= bytes@);
    r
}

// ----------------------------------------------------------------------- views

/// Your monitor-mix settings for one member. The pan runs from -1, full left,
/// to 1, full right.
#[derive(Debug, Clone, Copy, PartialEq, Eq, Structural)]
pub struct FaderView {
    pub gain_db: Single,
    pub pan: Single,
    pub muted: bool,
}

impl FaderView {
    /// Unity gain, centered, unmuted: the state every fader starts from.
    pub open spec fn flat_fader() -> FaderView {
        FaderView { gain_db: Single { bits: 0 }, pan: Single { bits: 0 }, muted: false }
    }

    pub fn flat() -> (f: FaderView)
        ensures
            f == FaderView::flat_fader(),
            f.gain_db.bits == 0 && f.pan.bits == 0 && !f.muted,
    {
        FaderView { gain_db: Single::zero(), pan: Single::zero(), muted: false }
    }
}

#[derive(Debug, PartialEq)]
pub struct MemberView {
    pub id: MemberId,
    pub name: String,
    pub role: Role,
    pub connected: bool,
    /// The server has heard nothing from this member lately and has not yet
    /// given up on them. Only ever true alongside `connected`: the roster
    /// clears it on disconnect, so gone is never also quiet.
    pub quiet: bool,
    pub is_you: bool,
    pub fader: FaderView,
    /// The invite token admitting this member; what [`Command::Revoke`]
    /// takes. Present only in host snapshots.
    pub token: Option<TokenId>,
    /// Decoded avatar, once its bytes have arrived and decoded. `None` covers
    /// both "no avatar set" and "the bytes are still in flight".
    pub avatar: Option<AvatarHandle>,
}

impl DeepView for MemberView {
    type V = MemberModel;

    open spec fn deep_view(&self) -> MemberModel {
        MemberModel {
            id: self.id,
            name: self.name@,
            role: self.role,
            connected: self.connected,
            quiet: self.quiet,
            is_you: self.is_you,
            fader: self.fader,
            token: self.token.deep_view(),
            avatar: self.avatar.deep_view(),
        }
    }
}

impl Clone for MemberView {
    fn clone(&self) -> (r: MemberView)
        ensures
            r == *self,
    {
        MemberView {
            id: self.id,
            name: self.name.clone(),
            role: self.role,
            connected: self.connected,
            quiet: self.quiet,
            is_you: self.is_you,
            fader: self.fader,
            token: self.token,
            avatar: self.avatar.clone(),
        }
    }
}

#[derive(Debug, PartialEq)]
pub struct ChatLine {
    pub from_name: String,
    pub from_id: MemberId,
    pub text: String,
    /// Milliseconds since session start.
    pub at_ms: u64,
}

impl DeepView for ChatLine {
    type V = ChatModel;

    open spec fn deep_view(&self) -> ChatModel {
        ChatModel {
            from_name: self.from_name@,
            from_id: self.from_id,
            text: self.text@,
            at_ms: self.at_ms,
        }
    }
}

impl Clone for ChatLine {
    fn clone(&self) -> (r: ChatLine)
        ensures
            r == *self,
    {
        ChatLine {
            from_name: self.from_name.clone(),
            from_id: self.from_id,
            text: self.text.clone(),
            at_ms: self.at_ms,
        }
    }
}

#[derive(Debug, PartialEq)]
pub enum ConnState {
    Connecting,
    Joined,
    Ejected(String),
    TimedOut,
    /// Every seat for this invite's role is taken. Not a dead end: the client
    /// keeps trying, because a seat frees when somebody leaves.
    SessionFull,
    /// No session; also the state after a clean leave.
    Idle,
}

impl DeepView for ConnState {
    type V = ConnModel;

    open spec fn deep_view(&self) -> ConnModel {
        match self {
            ConnState::Connecting => ConnModel::Connecting,
            ConnState::Joined => ConnModel::Joined,
            ConnState::Ejected(reason) => ConnModel::Ejected(reason@),
            ConnState::TimedOut => ConnModel::TimedOut,
            ConnState::SessionFull => ConnModel::SessionFull,
            ConnState::Idle => ConnModel::Idle,
        }
    }
}

impl Clone for ConnState {
    fn clone(&self) -> (r: ConnState)
        ensures
            r == *self,
    {
        match self {
            ConnState::Connecting => ConnState::Connecting,
            ConnState::Joined => ConnState::Joined,
            ConnState::Ejected(reason) => ConnState::Ejected(reason.clone()),
            ConnState::TimedOut => ConnState::TimedOut,
            ConnState::SessionFull => ConnState::SessionFull,
            ConnState::Idle => ConnState::Idle,
        }
    }
}

/// How the device stream is talking to the endpoint, for the latency
/// readout's hover.
#[derive(Debug, Clone, Copy, PartialEq, Eq, Structural)]
pub enum DeviceModeView {
    /// The device is this session's alone, about 10 ms.
    Exclusive,
    /// Shared with the system mixer, 20 to 30 ms.
    Shared,
}

/// What is wrong with this computer's audio stream. A stream that is open is
/// no fault and neither is a reopen for a pick somebody just made: only a
/// stream that stopped on its own earns one.
#[derive(Debug, Clone, Copy, PartialEq, Eq, Structural)]
pub enum AudioFaultView {
    /// The stream stopped and the reopen cadence is still working on it.
    Retrying,
    /// The cadence spent its budget, so nothing reopens without a pick.
    /// `tries` is how many attempts it really made.
    GaveUp { tries: u32 },
}

/// How one direction of the device stream reached the session rate.
#[derive(Debug, Clone, Copy, PartialEq, Eq, Structural)]
pub enum RateOutcomeView {
    /// The device runs at the session rate on its own; not news.
    Native,
    /// This app moved the device clock there, away from `from`.
    ClockSet { from: u32 },
    /// The OS converts between the stream and the device's own rate.
    OsConverted { device: u32 },
    /// The boundary converter carries the difference, at `added_ms`.
    Resampled { device: u32, added_ms: Single },
}

/// A sample rate in kHz: 44100 reads "44.1", 48000 reads "48". Whole
/// thousands, then the rest of it as a decimal fraction without trailing
/// zeros.
pub open spec fn khz_text(rate: u32) -> Seq<char> {
    let rest = rate as nat % 1000;
    let whole = decimal(rate as nat / 1000);
    if rest == 0 {
        whole
    } else if rest % 100 == 0 {
        whole + seq!['.'] + decimal_fixed(rest / 100, 1)
    } else if rest % 10 == 0 {
        whole + seq!['.'] + decimal_fixed(rest / 10, 2)
    } else {
        whole + seq!['.'] + decimal_fixed(rest, 3)
    }
}

/// A sample rate in kHz for text the user reads.
pub fn khz(rate: u32) -> (s: String)
    ensures
        s@ == khz_text(rate),
{
    let mut s = String::new();
    push_decimal(&mut s, rate as u64 / 1000);
    assert(s@ =~= decimal(rate as nat / 1000));
    let rest: u64 = rate as u64 % 1000;
    if rest == 0 {
        return s;
    }
    s.push('.');
    assert(s@ =~= decimal(rate as nat / 1000) + seq!['.']);
    if rest % 100 == 0 {
        push_decimal_fixed(&mut s, rest / 100, 1);
    } else if rest % 10 == 0 {
        push_decimal_fixed(&mut s, rest / 10, 2);
    } else {
        push_decimal_fixed(&mut s, rest, 3);
    }
    s
}

impl RateOutcomeView {
    /// Whether two outcomes are the same one, comparing what a converter adds
    /// as a number.
    pub open spec fn is_same(self, other: RateOutcomeView) -> bool {
        match (self, other) {
            (RateOutcomeView::Native, RateOutcomeView::Native) => true,
            (RateOutcomeView::ClockSet { from: a }, RateOutcomeView::ClockSet { from: b }) => a
                == b,
            (
                RateOutcomeView::OsConverted { device: a },
                RateOutcomeView::OsConverted { device: b },
            ) => a == b,
            (
                RateOutcomeView::Resampled { device: a, added_ms: x },
                RateOutcomeView::Resampled { device: b, added_ms: y },
            ) => a == b && x.equals(y),
            _ => false,
        }
    }

    pub fn same(self, other: RateOutcomeView) -> (b: bool)
        ensures
            b == self.is_same(other),
    {
        match (self, other) {
            (RateOutcomeView::Native, RateOutcomeView::Native) => true,
            (RateOutcomeView::ClockSet { from: a }, RateOutcomeView::ClockSet { from: b }) => a
                == b,
            (
                RateOutcomeView::OsConverted { device: a },
                RateOutcomeView::OsConverted { device: b },
            ) => a == b,
            (
                RateOutcomeView::Resampled { device: a, added_ms: x },
                RateOutcomeView::Resampled { device: b, added_ms: y },
            ) => a == b && x.same(y),
            _ => false,
        }
    }

    /// The sentence this outcome earns.
    pub open spec fn sentence(self, side: Seq<char>, added: Seq<char>) -> Option<Seq<char>> {
        match self {
            RateOutcomeView::Native => None,
            RateOutcomeView::ClockSet { from } => Some(
                "moved the "@ + side + " device to "@ + khz_text(SAMPLE_RATE) + " kHz (was "@
                    + khz_text(from) + ")"@,
            ),
            RateOutcomeView::OsConverted { device } => Some(
                "the OS is converting "@ + side + " to this device's "@ + khz_text(device)
                    + " kHz"@,
            ),
            RateOutcomeView::Resampled { device, added_ms } => Some(
                "converting "@ + side + " "@ + khz_text(device) + " kHz to "@ + khz_text(
                    SAMPLE_RATE,
                ) + " kHz (+"@ + added + " ms)"@,
            ),
        }
    }

    /// The sentence this outcome earns on the latency hover and the devices
    /// sheet, or `None` for the device's own rate, which is not news. `side`
    /// is "capture" or "playback", and `added` is what a converter adds, in
    /// milliseconds to one decimal.
    pub fn line(&self, side: &str, added: &str) -> (line: Option<String>)
        ensures
            line.deep_view() == self.sentence(side@, added@),
    {
        let mut s = String::new();
        match *self {
            RateOutcomeView::Native => None,
            RateOutcomeView::ClockSet { from } => {
                s.append("moved the ");
                s.append(side);
                s.append(" device to ");
                s.append(khz(SAMPLE_RATE).as_str());
                s.append(" kHz (was ");
                s.append(khz(from).as_str());
                s.append(")");
                assert(s@ =~= self.sentence(side@, added@)->0);
                Some(s)
            },
            RateOutcomeView::OsConverted { device } => {
                s.append("the OS is converting ");
                s.append(side);
                s.append(" to this device's ");
                s.append(khz(device).as_str());
                s.append(" kHz");
                assert(s@ =~= self.sentence(side@, added@)->0);
                Some(s)
            },
            RateOutcomeView::Resampled { device, added_ms } => {
                s.append("converting ");
                s.append(side);
                s.append(" ");
                s.append(khz(device).as_str());
                s.append(" kHz to ");
                s.append(khz(SAMPLE_RATE).as_str());
                s.append(" kHz (+");
                s.append(added);
                s.append(" ms)");
                assert(s@ =~= self.sentence(side@, added@)->0);
                Some(s)
            },
        }
    }
}

/// Both directions' rate outcomes, as the stream that is running got them.
#[derive(Debug, Clone, Copy, PartialEq, Eq, Structural)]
pub struct RateOutcomesView {
    pub capture: RateOutcomeView,
    pub playback: RateOutcomeView,
}

impl RateOutcomesView {
    /// The device rate behind the status bar's converting tag: the rate of a
    /// direction on the boundary converter, capture's before playback's, and
    /// `None` while nothing resamples.
    pub fn resampled_rate(&self) -> (rate: Option<u32>)
        ensures
            rate == (match (self.capture, self.playback) {
                (RateOutcomeView::Resampled { device, .. }, _) => Some(device),
                (_, RateOutcomeView::Resampled { device, .. }) => Some(device),
                _ => None,
            }),
    {
        match (self.capture, self.playback) {
            (RateOutcomeView::Resampled { device, .. }, _) => Some(device),
            (_, RateOutcomeView::Resampled { device, .. }) => Some(device),
            _ => None,
        }
    }

    /// Each direction's disclosure line, capture first; empty when both
    /// directions are native. `added` is what the converter of each direction
    /// adds, in milliseconds to one decimal.
    pub fn lines(&self, capture_added: &str, playback_added: &str) -> (lines: Vec<String>)
        ensures
            lines.deep_view() == one_or_none(
                self.capture.sentence("capture"@, capture_added@),
            ) + one_or_none(self.playback.sentence("playback"@, playback_added@)),
            ({
                let capture = self.capture.sentence("capture"@, capture_added@);
                let playback = self.playback.sentence("playback"@, playback_added@);
                match (capture, playback) {
                    (None, None) => lines@.len() == 0,
                    (Some(line), None) => lines@.len() == 1 && lines@[0]@ == line,
                    (None, Some(line)) => lines@.len() == 1 && lines@[0]@ == line,
                    (Some(first), Some(second)) => lines@.len() == 2 && lines@[0]@ == first
                        && lines@[1]@ == second,
                }
            }),
    {
        let mut lines: Vec<String> = Vec::new();
        if let Some(line) = self.capture.line("capture", capture_added) {
            lines.push(line);
        }
        if let Some(line) = self.playback.line("playback", playback_added) {
            lines.push(line);
        }
        assert(lines.deep_view() =~= one_or_none(
            self.capture.sentence("capture"@, capture_added@),
        ) + one_or_none(self.playback.sentence("playback"@, playback_added@)));
        lines
    }
}

/// A sequence of what is there.
pub open spec fn one_or_none<A>(o: Option<A>) -> Seq<A> {
    match o {
        Some(a) => seq![a],
        None => Seq::empty(),
    }
}

/// Wakeup-to-wakeup pacing of the thread that fills the playout ring, in
/// microseconds.
#[derive(Debug, Clone, Copy, PartialEq, Eq, Structural)]
pub struct WakeView {
    /// The 99th percentile interval: the top of the tick-wide bucket the 99th
    /// of a hundred fell in, so it reads high by up to one tick.
    pub p99_us: u64,
    /// The window's longest interval, which is exact.
    pub max_us: u64,
}

#[derive(Debug, PartialEq)]
pub struct StatsView {
    pub state: ConnState,
    pub rtt_ms: Option<Single>,
    /// Jitter buffer depth and target, in 2.5 ms frames.
    pub jitter_depth: usize,
    pub jitter_target: usize,
    /// This client's uplink loss over the last second, as the server measures
    /// it: the audio the band is not hearing. `None` until the first report
    /// arrives.
    pub uplink_loss_pct: Option<Single>,
    /// The local jitter buffer's loss over a window of the same length: the
    /// audio this machine is not playing. `None` until the first window
    /// closes.
    pub downlink_loss_pct: Option<Single>,
    /// The headline number: capture to playout, end to end.
    pub mouth_to_ear_ms: Option<Single>,
    /// Which sharing mode the device stream got. `None` before a stream opens
    /// and on platforms with no such split.
    pub device_mode: Option<DeviceModeView>,
    /// How each direction reached the session rate. `None` while there is no
    /// stream.
    pub rate: Option<RateOutcomesView>,
    /// Whether the playout ring is in a stretch dense enough with underruns to
    /// have been heard, for as long as that stretch holds.
    pub crackling: bool,
    /// Closest the playout ring came to empty over the last second, in frames.
    /// `None` while no stream is rendering.
    pub playout_low_frames: Option<usize>,
    /// How the thread that fills the playout ring is being scheduled, over the
    /// last window. `None` until the first window closes.
    pub wake: Option<WakeView>,
    /// How many times the audio stream has stopped on its own, while those
    /// stops are close enough together to call the device unreliable; `None`
    /// while it is holding.
    pub cutting_out: Option<u64>,
}

impl DeepView for StatsView {
    type V = StatsModel;

    open spec fn deep_view(&self) -> StatsModel {
        StatsModel {
            state: self.state.deep_view(),
            rtt_ms: self.rtt_ms,
            jitter_depth: self.jitter_depth,
            jitter_target: self.jitter_target,
            uplink_loss_pct: self.uplink_loss_pct,
            downlink_loss_pct: self.downlink_loss_pct,
            mouth_to_ear_ms: self.mouth_to_ear_ms,
            device_mode: self.device_mode,
            rate: self.rate,
            crackling: self.crackling,
            playout_low_frames: self.playout_low_frames,
            wake: self.wake,
            cutting_out: self.cutting_out,
        }
    }
}

/// The sentence for one direction's loss.
pub open spec fn loss_sentence(
    pct: Option<Single>,
    figure: Seq<char>,
    direction: Seq<char>,
    whose: Seq<char>,
) -> Seq<char> {
    direction + " loss "@ + (if pct is Some {
        figure
    } else {
        "--"@
    }) + "%, "@ + whose
}

fn loss_line(pct: Option<Single>, figure: &str, direction: &str, whose: &str) -> (s: String)
    ensures
        s@ == loss_sentence(pct, figure@, direction@, whose@),
{
    let mut s = String::new();
    s.append(direction);
    s.append(" loss ");
    if pct.is_some() {
        s.append(figure);
    } else {
        s.append("--");
    }
    s.append("%, ");
    s.append(whose);
    assert(s@ =~= loss_sentence(pct, figure@, direction@, whose@));
    s
}

impl StatsView {
    /// The worse of the two directions, for anything showing a level rather
    /// than a direction. Both are rates over the same window, so the larger of
    /// them is a quantity; `None` while neither direction has a figure yet.
    pub fn worst_loss_pct(&self) -> (pct: Option<Single>)
        ensures
            pct == (match (self.uplink_loss_pct, self.downlink_loss_pct) {
                (Some(up), Some(down)) => Some(up.larger(down)),
                (Some(up), None) => Some(up),
                (None, down) => down,
            }),
    {
        match (self.uplink_loss_pct, self.downlink_loss_pct) {
            (Some(up), Some(down)) => Some(up.max(down)),
            (Some(up), None) => Some(up),
            (None, down) => down,
        }
    }

    /// Each direction's loss, uplink first, in the words that say whose sound
    /// it is. The figures are the two rates to one decimal; a direction with
    /// no rate yet shows dashes.
    pub fn loss_lines(&self, uplink: &str, downlink: &str) -> (lines: [String; 2])
        ensures
            lines@[0]@ == loss_sentence(
                self.uplink_loss_pct,
                uplink@,
                "uplink"@,
                "what the band misses of you"@,
            ),
            lines@[1]@ == loss_sentence(
                self.downlink_loss_pct,
                downlink@,
                "downlink"@,
                "what you miss of them"@,
            ),
            lines@[0]@ == "uplink"@ + " loss "@ + (if self.uplink_loss_pct is Some {
                uplink@
            } else {
                "--"@
            }) + "%, "@ + "what the band misses of you"@,
            lines@[1]@ == "downlink"@ + " loss "@ + (if self.downlink_loss_pct is Some {
                downlink@
            } else {
                "--"@
            }) + "%, "@ + "what you miss of them"@,
    {
        [
            loss_line(self.uplink_loss_pct, uplink, "uplink", "what the band misses of you"),
            loss_line(self.downlink_loss_pct, downlink, "downlink", "what you miss of them"),
        ]
    }
}

impl Clone for StatsView {
    fn clone(&self) -> (r: StatsView)
        ensures
            r == *self,
    {
        StatsView {
            state: self.state.clone(),
            rtt_ms: self.rtt_ms,
            jitter_depth: self.jitter_depth,
            jitter_target: self.jitter_target,
            uplink_loss_pct: self.uplink_loss_pct,
            downlink_loss_pct: self.downlink_loss_pct,
            mouth_to_ear_ms: self.mouth_to_ear_ms,
            device_mode: self.device_mode,
            rate: self.rate,
            crackling: self.crackling,
            playout_low_frames: self.playout_low_frames,
            wake: self.wake,
            cutting_out: self.cutting_out,
        }
    }
}

/// Linear levels in 0..1.
#[derive(Debug, Clone, Copy, PartialEq, Eq, Structural)]
pub struct LevelsView {
    pub input_peak: Single,
    pub input_rms: Single,
    pub output_peak: Single,
    pub output_rms: Single,
}

impl Default for LevelsView {
    fn default() -> (l: LevelsView)
        ensures
            l == (LevelsView {
                input_peak: Single { bits: 0 },
                input_rms: Single { bits: 0 },
                output_peak: Single { bits: 0 },
                output_rms: Single { bits: 0 },
            }),
    {
        LevelsView {
            input_peak: Single::zero(),
            input_rms: Single::zero(),
            output_peak: Single::zero(),
            output_rms: Single::zero(),
        }
    }
}

#[derive(Debug, Clone, Copy, PartialEq, Eq, Structural)]
pub struct MetronomeView {
    pub bpm: u16,
    pub beats_per_bar: u8,
    pub enabled: bool,
    pub you_hear_click: bool,
}

/// Host only: the broadcast mix, as the server applies it before the limiter.
/// Fader entries follow roster order.
#[derive(Debug, PartialEq)]
pub struct BroadcastView {
    pub faders: Vec<(MemberId, FaderView)>,
    /// Whether the host is auditioning the stream mix in their monitor.
    pub audition: bool,
}

impl DeepView for BroadcastView {
    type V = BroadcastModel;

    open spec fn deep_view(&self) -> BroadcastModel {
        BroadcastModel { faders: self.faders@, audition: self.audition }
    }
}

/// Nobody's fader, and no audition.
impl Default for BroadcastView {
    fn default() -> (b: BroadcastView)
        ensures
            b.deep_view() == (BroadcastModel { faders: Seq::empty(), audition: false }),
    {
        BroadcastView { faders: Vec::new(), audition: false }
    }
}

impl Clone for BroadcastView {
    fn clone(&self) -> (r: BroadcastView)
        ensures
            r.deep_view() == self.deep_view(),
    {
        let mut faders: Vec<(MemberId, FaderView)> = Vec::new();
        let mut i: usize = 0;
        while i < self.faders.len()
            invariant
                i <= self.faders@.len(),
                faders@ == self.faders@.take(i as int),
            decreases self.faders.len() - i,
        {
            faders.push(self.faders[i]);
            assert(self.faders@.take(i + 1) =~= self.faders@.take(i as int).push(
                self.faders@[i as int],
            ));
            i += 1;
        }
        assert(self.faders@.take(i as int) =~= self.faders@);
        BroadcastView { faders, audition: self.audition }
    }
}

#[derive(Debug, PartialEq)]
pub enum DestinationState {
    Idle,
    Connecting,
    Live,
    Failed { reason: String },
}

impl DeepView for DestinationState {
    type V = DestinationStateModel;

    open spec fn deep_view(&self) -> DestinationStateModel {
        match self {
            DestinationState::Idle => DestinationStateModel::Idle,
            DestinationState::Connecting => DestinationStateModel::Connecting,
            DestinationState::Live => DestinationStateModel::Live,
            DestinationState::Failed { reason } => DestinationStateModel::Failed {
                reason: reason@,
            },
        }
    }
}

impl Clone for DestinationState {
    fn clone(&self) -> (r: DestinationState)
        ensures
            r == *self,
    {
        match self {
            DestinationState::Idle => DestinationState::Idle,
            DestinationState::Connecting => DestinationState::Connecting,
            DestinationState::Live => DestinationState::Live,
            DestinationState::Failed { reason } => DestinationState::Failed {
                reason: reason.clone(),
            },
        }
    }
}

/// One broadcast destination as the server reports it. Key-free by
/// construction.
#[derive(Debug, PartialEq)]
pub struct DestinationView {
    pub id: DestinationId,
    pub platform: StreamPlatform,
    pub state: DestinationState,
    /// Video plus audio bitrate the encoder is configured for. One encode
    /// feeds every destination, so it is the same number on each.
    pub bitrate_kbps: u32,
    /// Frames the encoder's queue refused, cumulative and pipeline-wide.
    pub dropped_frames: u64,
    /// Catch-up frames the renderer had no time to draw, cumulative and
    /// pipeline-wide.
    pub repeated_frames: u64,
}

impl DeepView for DestinationView {
    type V = DestinationModel;

    open spec fn deep_view(&self) -> DestinationModel {
        DestinationModel {
            id: self.id,
            platform: self.platform,
            state: self.state.deep_view(),
            bitrate_kbps: self.bitrate_kbps,
            dropped_frames: self.dropped_frames,
            repeated_frames: self.repeated_frames,
        }
    }
}

impl Clone for DestinationView {
    fn clone(&self) -> (r: DestinationView)
        ensures
            r == *self,
    {
        DestinationView {
            id: self.id,
            platform: self.platform,
            state: self.state.clone(),
            bitrate_kbps: self.bitrate_kbps,
            dropped_frames: self.dropped_frames,
            repeated_frames: self.repeated_frames,
        }
    }
}

/// The recorder as the server last reported it. Default is idle with stems
/// unknown-off, which is also what a session that never records shows.
#[derive(Debug, PartialEq)]
pub struct RecordView {
    pub state: RecordState,
    pub stems: bool,
}

#[derive(Debug, PartialEq)]
pub enum RecordState {
    Idle,
    Recording,
    Uploading,
    Failed { reason: String },
}

impl DeepView for RecordState {
    type V = RecordStateModel;

    open spec fn deep_view(&self) -> RecordStateModel {
        match self {
            RecordState::Idle => RecordStateModel::Idle,
            RecordState::Recording => RecordStateModel::Recording,
            RecordState::Uploading => RecordStateModel::Uploading,
            RecordState::Failed { reason } => RecordStateModel::Failed { reason: reason@ },
        }
    }
}

impl DeepView for RecordView {
    type V = RecordModel;

    open spec fn deep_view(&self) -> RecordModel {
        RecordModel { state: self.state.deep_view(), stems: self.stems }
    }
}

impl Default for RecordView {
    fn default() -> (r: RecordView)
        ensures
            r == (RecordView { state: RecordState::Idle, stems: false }),
    {
        RecordView { state: RecordState::Idle, stems: false }
    }
}

/// Nothing is being recorded.
impl Default for RecordState {
    fn default() -> (r: RecordState)
        ensures
            r == RecordState::Idle,
    {
        RecordState::Idle
    }
}

impl Clone for RecordState {
    fn clone(&self) -> (r: RecordState)
        ensures
            r == *self,
    {
        match self {
            RecordState::Idle => RecordState::Idle,
            RecordState::Recording => RecordState::Recording,
            RecordState::Uploading => RecordState::Uploading,
            RecordState::Failed { reason } => RecordState::Failed { reason: reason.clone() },
        }
    }
}

impl Clone for RecordView {
    fn clone(&self) -> (r: RecordView)
        ensures
            r == *self,
    {
        RecordView { state: self.state.clone(), stems: self.stems }
    }
}

/// Whether the session can broadcast at all, as the server's relay probe
/// answers it.
#[derive(Debug, PartialEq)]
pub enum BroadcastReadiness {
    Ready,
    Unavailable { reason: String },
}

impl DeepView for BroadcastReadiness {
    type V = ReadinessModel;

    open spec fn deep_view(&self) -> ReadinessModel {
        match self {
            BroadcastReadiness::Ready => ReadinessModel::Ready,
            BroadcastReadiness::Unavailable { reason } => ReadinessModel::Unavailable {
                reason: reason@,
            },
        }
    }
}

impl Clone for BroadcastReadiness {
    fn clone(&self) -> (r: BroadcastReadiness)
        ensures
            r == *self,
    {
        match self {
            BroadcastReadiness::Ready => BroadcastReadiness::Ready,
            BroadcastReadiness::Unavailable { reason } => BroadcastReadiness::Unavailable {
                reason: reason.clone(),
            },
        }
    }
}

/// Where the broadcast is going, as everyone in the room sees it. Empty until
/// the server reports a destination, which is also how "nothing configured"
/// reads.
#[derive(Debug, PartialEq)]
pub struct StreamView {
    pub destinations: Vec<DestinationView>,
    /// Whether this session can broadcast at all. `None` means the server has
    /// not answered, which reads as "assume it works".
    pub readiness: Option<BroadcastReadiness>,
}

impl DeepView for StreamView {
    type V = StreamModel;

    open spec fn deep_view(&self) -> StreamModel {
        StreamModel {
            destinations: self.destinations.deep_view(),
            readiness: self.readiness.deep_view(),
        }
    }
}

/// Nowhere, and no word on whether it could go anywhere.
impl Default for StreamView {
    fn default() -> (s: StreamView)
        ensures
            s.deep_view() == (StreamModel { destinations: Seq::empty(), readiness: None }),
    {
        let s = StreamView { destinations: Vec::new(), readiness: None };
        assert(s.deep_view() =~= StreamModel { destinations: Seq::empty(), readiness: None });
        s
    }
}

impl Clone for StreamView {
    fn clone(&self) -> (r: StreamView)
        ensures
            r.deep_view() == self.deep_view(),
    {
        let destinations = self.destinations.clone();
        assert(destinations@ =~= self.destinations@);
        assert(destinations.deep_view() =~= self.destinations.deep_view());
        StreamView { destinations, readiness: self.readiness.clone() }
    }
}

/// How many of the destinations are being watched.
pub open spec fn live_among(destinations: Seq<DestinationView>) -> nat
    decreases destinations.len(),
{
    if destinations.len() == 0 {
        0
    } else {
        live_among(destinations.drop_last()) + if destinations.last().state is Live {
            1nat
        } else {
            0
        }
    }
}

/// How many of the destinations have failed.
pub open spec fn failed_among(destinations: Seq<DestinationView>) -> nat
    decreases destinations.len(),
{
    if destinations.len() == 0 {
        0
    } else {
        failed_among(destinations.drop_last()) + if destinations.last().state is Failed {
            1nat
        } else {
            0
        }
    }
}

proof fn lemma_live_among(destinations: Seq<DestinationView>)
    ensures
        live_among(destinations) <= destinations.len(),
        live_among(destinations) > 0 <==> exists|i: int|
            0 <= i < destinations.len() && (#[trigger] destinations[i]).state is Live,
    decreases destinations.len(),
{
    if destinations.len() > 0 {
        let head = destinations.drop_last();
        lemma_live_among(head);
        if live_among(head) > 0 {
            let i = choose|i: int| 0 <= i < head.len() && (#[trigger] head[i]).state is Live;
            assert(destinations[i].state is Live);
        }
        if destinations.last().state is Live {
            assert(destinations[destinations.len() - 1].state is Live);
        }
        if exists|i: int| 0 <= i < destinations.len() && (#[trigger] destinations[i]).state is Live {
            let i = choose|i: int|
                0 <= i < destinations.len() && (#[trigger] destinations[i]).state is Live;
            if i < head.len() {
                assert(head[i].state is Live);
            }
        }
    }
}

/// The first of the destinations that `wanted` picks out, if any.
pub open spec fn first_of(
    destinations: Seq<DestinationView>,
    wanted: spec_fn(DestinationView) -> bool,
) -> Option<DestinationView>
    decreases destinations.len(),
{
    if destinations.len() == 0 {
        None
    } else if wanted(destinations[0]) {
        Some(destinations[0])
    } else {
        first_of(destinations.drop_first(), wanted)
    }
}

impl StreamView {
    /// Why this session cannot stream, when it cannot. `None` covers both a
    /// working relay and no answer yet, because the tab treats them the same.
    pub fn unavailable_reason(&self) -> (reason: Option<&str>)
        ensures
            reason.deep_view() == (match self.readiness.deep_view() {
                Some(ReadinessModel::Unavailable { reason }) => Some(reason),
                _ => None,
            }),
            match self.readiness {
                Some(BroadcastReadiness::Unavailable { reason: why }) => reason is Some
                    && reason->0@ == why@,
                _ => reason is None,
            },
    {
        match &self.readiness {
            Some(BroadcastReadiness::Unavailable { reason }) => Some(reason.as_str()),
            _ => None,
        }
    }

    /// On air: at least one destination is actually being watched. Idle and
    /// connecting destinations are not on air, and a failed one is the
    /// opposite of on air.
    pub fn on_air(&self) -> (b: bool)
        ensures
            b == exists|i: int|
                0 <= i < self.destinations@.len() && (#[trigger] self.destinations@[i]).state is Live,
    {
        proof {
            lemma_live_among(self.destinations@);
        }
        self.live_count() > 0
    }

    pub fn live_count(&self) -> (n: usize)
        ensures
            n == live_among(self.destinations@),
    {
        let mut n: usize = 0;
        let mut i: usize = 0;
        while i < self.destinations.len()
            invariant
                i <= self.destinations@.len(),
                n <= i,
                n == live_among(self.destinations@.take(i as int)),
            decreases self.destinations.len() - i,
        {
            assert(self.destinations@.take(i + 1).drop_last() =~= self.destinations@.take(
                i as int,
            ));
            if let DestinationState::Live = self.destinations[i].state {
                n += 1;
            }
            i += 1;
        }
        assert(self.destinations@.take(i as int) =~= self.destinations@);
        n
    }

    pub fn failed_count(&self) -> (n: usize)
        ensures
            n == failed_among(self.destinations@),
    {
        let mut n: usize = 0;
        let mut i: usize = 0;
        while i < self.destinations.len()
            invariant
                i <= self.destinations@.len(),
                n <= i,
                n == failed_among(self.destinations@.take(i as int)),
            decreases self.destinations.len() - i,
        {
            assert(self.destinations@.take(i + 1).drop_last() =~= self.destinations@.take(
                i as int,
            ));
            if let DestinationState::Failed { reason } = &self.destinations[i].state {
                n += 1;
            }
            i += 1;
        }
        assert(self.destinations@.take(i as int) =~= self.destinations@);
        n
    }

    /// The destination of that number.
    pub fn get(&self, id: DestinationId) -> (found: Option<&DestinationView>)
        ensures
            found == (match first_of(self.destinations@, |d: DestinationView| d.id == id) {
                Some(d) => Some(&d),
                None => None,
            }),
            match found {
                Some(d) => exists|i: int|
                    0 <= i < self.destinations@.len() && (#[trigger] self.destinations@[i]) == *d
                        && d.id == id && forall|j: int|
                        0 <= j < i ==> (#[trigger] self.destinations@[j]).id != id,
                None => forall|j: int|
                    0 <= j < self.destinations@.len() ==> (#[trigger] self.destinations@[j]).id
                        != id,
            },
    {
        let ghost wanted = |d: DestinationView| d.id == id;
        let mut i: usize = 0;
        assert(self.destinations@.skip(0) =~= self.destinations@);
        while i < self.destinations.len()
            invariant
                i <= self.destinations@.len(),
                forall|j: int| 0 <= j < i ==> (#[trigger] self.destinations@[j]).id != id,
                wanted == (|d: DestinationView| d.id == id),
                first_of(self.destinations@, wanted) == first_of(
                    self.destinations@.skip(i as int),
                    wanted,
                ),
            decreases self.destinations.len() - i,
        {
            if self.destinations[i].id == id {
                return Some(&self.destinations[i]);
            }
            assert(self.destinations@.skip(i as int).drop_first() =~= self.destinations@.skip(
                i + 1,
            ));
            i += 1;
        }
        None
    }

    /// The first destination on that platform.
    pub fn of_platform(&self, platform: StreamPlatform) -> (found: Option<&DestinationView>)
        ensures
            found == (match first_of(
                self.destinations@,
                |d: DestinationView| d.platform == platform,
            ) {
                Some(d) => Some(&d),
                None => None,
            }),
            match found {
                Some(d) => exists|i: int|
                    0 <= i < self.destinations@.len() && (#[trigger] self.destinations@[i]) == *d
                        && d.platform == platform && forall|j: int|
                        0 <= j < i ==> (#[trigger] self.destinations@[j]).platform != platform,
                None => forall|j: int|
                    0 <= j < self.destinations@.len() ==> (
                    #[trigger] self.destinations@[j]).platform != platform,
            },
    {
        let ghost wanted = |d: DestinationView| d.platform == platform;
        let mut i: usize = 0;
        assert(self.destinations@.skip(0) =~= self.destinations@);
        while i < self.destinations.len()
            invariant
                i <= self.destinations@.len(),
                forall|j: int|
                    0 <= j < i ==> (#[trigger] self.destinations@[j]).platform != platform,
                wanted == (|d: DestinationView| d.platform == platform),
                first_of(self.destinations@, wanted) == first_of(
                    self.destinations@.skip(i as int),
                    wanted,
                ),
            decreases self.destinations.len() - i,
        {
            if self.destinations[i].platform == platform {
                return Some(&self.destinations[i]);
            }
            assert(self.destinations@.skip(i as int).drop_first() =~= self.destinations@.skip(
                i + 1,
            ));
            i += 1;
        }
        None
    }
}

/// Host only: the running cost of the session machine.
#[derive(Debug, Clone, Copy, PartialEq, Eq, Structural)]
pub struct CostView {
    pub hourly_microusd: u64,
    pub accrued_microusd: u64,
    pub elapsed_secs: u64,
}

#[derive(Debug, PartialEq)]
pub struct Snapshot {
    pub stats: StatsView,
    pub members: Vec<MemberView>,
    pub chat: Vec<ChatLine>,
    pub levels: LevelsView,
    pub metronome: MetronomeView,
    /// The broadcast mix; `None` for everyone but the host.
    pub broadcast: Option<BroadcastView>,
    /// Where the broadcast is going. Not host-only: the on-air lamp is for
    /// everyone in the room, because everyone in it is being broadcast.
    pub stream: StreamView,
    /// Whether the session is being recorded. Not host-only for the same
    /// reason as the on-air lamp: everyone in the room is on the take.
    pub record: RecordView,
    pub cost: Option<CostView>,
    /// Whether your personal mix carries your own signal.
    pub hear_self: bool,
    /// Whether the latency has sat far enough above the band an ensemble holds
    /// together in, for long enough, that the other arrangement is worth
    /// offering.
    pub offer_hear_self: bool,
    /// First 8 hex characters of the session id.
    pub session_short: String,
    pub server_addr: String,
    pub is_host: bool,
    /// Why this computer has no audio stream, in the device's own words, for
    /// as long as it has none.
    pub device_error: Option<String>,
    /// What the audio stream is doing wrong, for as long as it is.
    pub audio_fault: Option<AudioFaultView>,
}

impl DeepView for Snapshot {
    type V = SnapshotModel;

    open spec fn deep_view(&self) -> SnapshotModel {
        SnapshotModel {
            stats: self.stats.deep_view(),
            members: self.members.deep_view(),
            chat: self.chat.deep_view(),
            levels: self.levels,
            metronome: self.metronome,
            broadcast: self.broadcast.deep_view(),
            stream: self.stream.deep_view(),
            record: self.record.deep_view(),
            cost: self.cost,
            hear_self: self.hear_self,
            offer_hear_self: self.offer_hear_self,
            session_short: self.session_short@,
            server_addr: self.server_addr@,
            is_host: self.is_host,
            device_error: self.device_error.deep_view(),
            audio_fault: self.audio_fault,
        }
    }
}

impl Clone for Snapshot {
    fn clone(&self) -> (r: Snapshot)
        ensures
            r.deep_view() == self.deep_view(),
    {
        let members = self.members.clone();
        assert(members@ =~= self.members@);
        assert(members.deep_view() =~= self.members.deep_view());
        let chat = self.chat.clone();
        assert(chat@ =~= self.chat@);
        assert(chat.deep_view() =~= self.chat.deep_view());
        Snapshot {
            stats: self.stats.clone(),
            members,
            chat,
            levels: self.levels,
            metronome: self.metronome,
            broadcast: match &self.broadcast {
                Some(broadcast) => Some(broadcast.clone()),
                None => None,
            },
            stream: self.stream.clone(),
            record: self.record.clone(),
            cost: self.cost,
            hear_self: self.hear_self,
            offer_hear_self: self.offer_hear_self,
            session_short: self.session_short.clone(),
            server_addr: self.server_addr.clone(),
            is_host: self.is_host,
            device_error: self.device_error.clone(),
            audio_fault: self.audio_fault,
        }
    }
}

/// One snapshot pull per frame, commands fire and forget.
pub trait Runtime: Sized {
    /// Whether the counters it keeps are inside what the machine counts.
    spec fn wf(&self) -> bool;

    /// What the session shows as it stands.
    spec fn shown(&self) -> SnapshotModel;

    /// Whether `next` is what this runtime becomes by taking `cmd`.
    spec fn takes(&self, cmd: CommandModel, next: &Self) -> bool;

    fn snapshot(&self) -> (s: Snapshot)
        requires
            self.wf(),
        ensures
            s.deep_view() == self.shown(),
    ;

    fn send(&mut self, cmd: Command)
        requires
            old(self).wf(),
        ensures
            final(self).wf(),
            old(self).takes(cmd.deep_view(), final(self)),
    ;

    /// The connection state alone, for the frame loop's "has this session
    /// ended" check. The default answer is the snapshot's.
    fn conn_state(&self) -> (state: ConnState)
        requires
            self.wf(),
        ensures
            state.deep_view() == self.shown().stats.state,
    {
        self.snapshot().stats.state
    }
}

/// Whether the session is under a running take or a destination somebody is
/// watching. An upload is a take that already stopped, and a destination still
/// coming up has nobody to hear a dropout.
pub fn recording_or_on_air(record: &RecordView, stream: &Vec<DestinationView>) -> (b: bool)
    ensures
        b == (record.state is Recording || exists|i: int|
            0 <= i < stream@.len() && (#[trigger] stream@[i]).state is Live),
{
    if let RecordState::Recording = record.state {
        return true;
    }
    let mut i: usize = 0;
    while i < stream.len()
        invariant
            i <= stream@.len(),
            forall|j: int| 0 <= j < i ==> !((#[trigger] stream@[j]).state is Live),
        decreases stream.len() - i,
    {
        if let DestinationState::Live = stream[i].state {
            return true;
        }
        i += 1;
    }
    false
}

// ----------------------------------------------------------------------- laws

/// One more destination counts once: among the live where it is live, among
/// the failed where it has failed, and nowhere while it waits or connects.
pub proof fn each_destination_counts_once(
    destinations: Seq<DestinationView>,
    another: DestinationView,
)
    ensures
        live_among(Seq::empty()) == 0,
        failed_among(Seq::empty()) == 0,
        live_among(destinations.push(another)) == live_among(destinations) + (if another.state
            == DestinationState::Live {
            1int
        } else {
            0
        }),
        failed_among(destinations.push(another)) == failed_among(destinations) + (
        if another.state matches DestinationState::Failed { .. } {
            1int
        } else {
            0
        }),
{
    assert(destinations.push(another).drop_last() =~= destinations);
}

/// A rate in kHz reads back as itself: the thousands stand before the point,
/// what is left stands behind it to as many places as it takes, and no zero
/// trails.
pub proof fn a_rate_in_khz_reads_back(rate: u32)
    ensures
        rate % 1000 == 0 ==> khz_text(rate) == decimal(rate as nat / 1000),
        rate % 1000 != 0 ==> exists|digits: nat, places: nat|
            1 <= places <= 3 && digits % 10 != 0 && 1000 * (rate as nat / 1000) + digits * (
            if places == 1 {
                100nat
            } else if places == 2 {
                10nat
            } else {
                1nat
            }) == rate && khz_text(rate) == decimal(rate as nat / 1000) + seq!['.']
                + #[trigger] decimal_fixed(digits, places),
{
    let rest = rate as nat % 1000;
    if rest == 0 {
    } else if rest % 100 == 0 {
        assert(khz_text(rate) == decimal(rate as nat / 1000) + seq!['.'] + decimal_fixed(
            rest / 100,
            1,
        ));
    } else if rest % 10 == 0 {
        assert(khz_text(rate) == decimal(rate as nat / 1000) + seq!['.'] + decimal_fixed(
            rest / 10,
            2,
        ));
    } else {
        assert(khz_text(rate) == decimal(rate as nat / 1000) + seq!['.'] + decimal_fixed(rest, 3));
    }
}

/// Two rate paths are the same one only where they are of one kind at one
/// rate, and then in both directions; a path is the same as itself unless what
/// it adds is no number.
pub proof fn a_path_is_one_kind_at_one_rate(a: RateOutcomeView, b: RateOutcomeView)
    ensures
        a.is_same(b) == b.is_same(a),
        !(a is Resampled) ==> (a.is_same(b) <==> a == b),
        a matches RateOutcomeView::Resampled { device, added_ms } ==> (a.is_same(b)
            <==> (b matches RateOutcomeView::Resampled { device: d, added_ms: x } && d == device
            && added_ms.equals(x))),
        a matches RateOutcomeView::Resampled { added_ms, .. } ==> (a.is_same(a)
            <==> !added_ms.nan()),
{
}

/// The device's own rate is no news, and every other path is told with the
/// side it is on: what is told of the two sides of one path differs in nothing
/// but the side.
pub proof fn only_the_native_rate_is_no_news(
    path: RateOutcomeView,
    side: Seq<char>,
    added: Seq<char>,
)
    ensures
        path.sentence(side, added) is None <==> path is Native,
        path matches RateOutcomeView::ClockSet { from } ==> path.sentence(side, added)->0
            == "moved the "@ + side + " device to "@ + khz_text(48_000) + " kHz (was "@ + khz_text(
            from,
        ) + ")"@,
        path matches RateOutcomeView::OsConverted { device } ==> path.sentence(side, added)->0
            == "the OS is converting "@ + side + " to this device's "@ + khz_text(device)
            + " kHz"@,
        path matches RateOutcomeView::Resampled { device, .. } ==> path.sentence(side, added)->0
            == "converting "@ + side + " "@ + khz_text(device) + " kHz to "@ + khz_text(48_000)
            + " kHz (+"@ + added + " ms)"@,
{
}

/// A command is what contracts take it for, part for part.
pub proof fn a_command_is_read_part_for_part(cmd: Command)
    ensures
        match cmd {
            Command::SetFader { member, gain_db, pan, muted } => cmd.deep_view() matches
                CommandModel::SetFader { member: m, fader } && m == member && fader.gain_db
                == gain_db && fader.pan == pan && fader.muted == muted,
            Command::SetBroadcastFader { member, gain_db, pan, muted } => cmd.deep_view() matches
                CommandModel::SetBroadcastFader { member: m, fader } && m == member
                && fader.gain_db == gain_db && fader.pan == pan && fader.muted == muted,
            Command::SetClick(on) => cmd.deep_view() == CommandModel::SetClick(on),
            Command::SetMetronome { bpm, beats_per_bar, enabled } => cmd.deep_view() matches
                CommandModel::SetMetronome { bpm: b, beats_per_bar: n, enabled: e } && b == bpm && n
                == beats_per_bar && e == enabled,
            Command::SendChat(text) => cmd.deep_view() == CommandModel::SendChat(text@),
            Command::Leave => cmd.deep_view() is Leave,
            Command::Revoke(token) => cmd.deep_view() == CommandModel::Revoke(token.0@),
            Command::SetBroadcastAudition(on) => cmd.deep_view()
                == CommandModel::SetBroadcastAudition(on),
            Command::SetHearSelf(on) => cmd.deep_view() == CommandModel::SetHearSelf(on),
            Command::SetOwnAvatar(Some(bytes)) => cmd.deep_view() == CommandModel::SetOwnAvatar(
                Some(bytes@),
            ),
            Command::SetOwnAvatar(None) => cmd.deep_view() == CommandModel::SetOwnAvatar(None),
            Command::SetOwnName(name) => cmd.deep_view() == CommandModel::SetOwnName(name@),
            Command::AddDestination { id, platform, key } => cmd.deep_view() matches
                CommandModel::AddDestination { id: i, platform: p, key: k } && i == id && p
                == platform && k == key.0@,
            Command::RemoveDestination(id) => cmd.deep_view() == CommandModel::RemoveDestination(
                id,
            ),
            Command::StartStream => cmd.deep_view() is StartStream,
            Command::StopStream => cmd.deep_view() is StopStream,
            Command::StartRecord => cmd.deep_view() is StartRecord,
            Command::StopRecord => cmd.deep_view() is StopRecord,
        },
{
}

/// A snapshot is what contracts take it for, part for part.
pub proof fn a_snapshot_is_read_part_for_part(s: Snapshot)
    ensures
        ({
            let m = s.deep_view();
            &&& m.stats.rtt_ms == s.stats.rtt_ms
            &&& m.stats.jitter_depth == s.stats.jitter_depth
            &&& m.stats.jitter_target == s.stats.jitter_target
            &&& m.stats.uplink_loss_pct == s.stats.uplink_loss_pct
            &&& m.stats.downlink_loss_pct == s.stats.downlink_loss_pct
            &&& m.stats.mouth_to_ear_ms == s.stats.mouth_to_ear_ms
            &&& m.stats.device_mode == s.stats.device_mode
            &&& m.stats.rate == s.stats.rate
            &&& m.stats.crackling == s.stats.crackling
            &&& m.stats.playout_low_frames == s.stats.playout_low_frames
            &&& m.stats.wake == s.stats.wake
            &&& m.stats.cutting_out == s.stats.cutting_out
            &&& m.stats.state is Connecting <==> s.stats.state is Connecting
            &&& m.stats.state is Joined <==> s.stats.state is Joined
            &&& m.stats.state is TimedOut <==> s.stats.state is TimedOut
            &&& m.stats.state is SessionFull <==> s.stats.state is SessionFull
            &&& m.stats.state is Idle <==> s.stats.state is Idle
            &&& s.stats.state matches ConnState::Ejected(why) ==> m.stats.state
                == ConnModel::Ejected(why@)
            &&& m.members.len() == s.members@.len()
            &&& forall|i: int|
                0 <= i < s.members@.len() ==> {
                    let strip = #[trigger] m.members[i];
                    let view = s.members@[i];
                    &&& strip.id == view.id
                    &&& strip.name == view.name@
                    &&& strip.role == view.role
                    &&& strip.connected == view.connected
                    &&& strip.quiet == view.quiet
                    &&& strip.is_you == view.is_you
                    &&& strip.fader == view.fader
                    &&& strip.token is Some <==> view.token is Some
                    &&& view.token matches Some(token) ==> strip.token->0 == token.0@
                    &&& strip.avatar is Some <==> view.avatar is Some
                    &&& view.avatar matches Some(picture) ==> strip.avatar->0.hash == picture.hash@
                        && strip.avatar->0.width == picture.width && strip.avatar->0.height
                        == picture.height && strip.avatar->0.rgba == picture.rgba@
                }
            &&& m.chat.len() == s.chat@.len()
            &&& forall|i: int|
                0 <= i < s.chat@.len() ==> {
                    let line = #[trigger] m.chat[i];
                    let view = s.chat@[i];
                    &&& line.from_name == view.from_name@
                    &&& line.from_id == view.from_id
                    &&& line.text == view.text@
                    &&& line.at_ms == view.at_ms
                }
            &&& m.levels == s.levels
            &&& m.metronome == s.metronome
            &&& m.broadcast is Some <==> s.broadcast is Some
            &&& s.broadcast matches Some(mix) ==> m.broadcast->0.faders == mix.faders@
                && m.broadcast->0.audition == mix.audition
            &&& m.stream.destinations.len() == s.stream.destinations@.len()
            &&& forall|i: int|
                0 <= i < s.stream.destinations@.len() ==> {
                    let d = #[trigger] m.stream.destinations[i];
                    let view = s.stream.destinations@[i];
                    &&& d.id == view.id
                    &&& d.platform == view.platform
                    &&& d.bitrate_kbps == view.bitrate_kbps
                    &&& d.dropped_frames == view.dropped_frames
                    &&& d.repeated_frames == view.repeated_frames
                    &&& d.state is Idle <==> view.state is Idle
                    &&& d.state is Connecting <==> view.state is Connecting
                    &&& d.state is Live <==> view.state is Live
                    &&& view.state matches DestinationState::Failed { reason } ==> d.state
                        == DestinationStateModel::Failed { reason: reason@ }
                }
            &&& m.record.stems == s.record.stems
            &&& m.record.state is Idle <==> s.record.state is Idle
            &&& m.record.state is Recording <==> s.record.state is Recording
            &&& m.record.state is Uploading <==> s.record.state is Uploading
            &&& s.record.state matches RecordState::Failed { reason } ==> m.record.state
                == RecordStateModel::Failed { reason: reason@ }
            &&& s.stream.readiness is None <==> m.stream.readiness is None
            &&& s.stream.readiness matches Some(BroadcastReadiness::Ready) ==> m.stream.readiness
                == Some(ReadinessModel::Ready)
            &&& s.stream.readiness matches Some(BroadcastReadiness::Unavailable { reason })
                ==> m.stream.readiness == Some(ReadinessModel::Unavailable { reason: reason@ })
            &&& m.cost == s.cost
            &&& m.hear_self == s.hear_self
            &&& m.offer_hear_self == s.offer_hear_self
            &&& m.session_short == s.session_short@
            &&& m.server_addr == s.server_addr@
            &&& m.is_host == s.is_host
            &&& m.device_error is Some <==> s.device_error is Some
            &&& s.device_error matches Some(why) ==> m.device_error->0 == why@
            &&& m.audio_fault == s.audio_fault
        }),
{
}

/// Two handles are the same picture where their hashes and sizes are, whatever
/// their pixels.
pub proof fn a_picture_is_known_by_its_hash(a: AvatarHandle, b: AvatarHandle)
    ensures
        vstd::std_specs::cmp::PartialEqSpec::eq_spec(&a, &b) <==> a.hash@ == b.hash@ && a.width
            == b.width && a.height == b.height,
{
}

} // verus!
