//! What the worker publishes and everybody else reads: the roster, the mix you
//! set, the chat, the figures, and the pictures that have arrived.

use std::collections::{HashMap, VecDeque};

use vstd::prelude::*;

use crate::avatar::{
    decode, decode_may_be, hash_hex, hex_lower, hex_of, outcome, AvatarError, AvatarErrorModel,
};
use crate::live::conn::{conn_state_with, ClientState};
use crate::model::{
    AvatarModel, BroadcastModel, ChatModel, CommandModel, ConnModel, DestinationModel, MemberModel,
    ReadinessModel, RecordModel, RecordStateModel, SnapshotModel, StatsModel, StreamModel,
};
use crate::runtime::{
    AudioFaultView, AvatarHandle, BroadcastReadiness, BroadcastView, ChatLine, Command, ConnState,
    DestinationView, FaderView, LevelsView, MemberId, MemberView, MetronomeView, RateOutcomesView,
    RecordState, RecordView, Role, Runtime, Snapshot, StatsView, StreamView, WakeView,
    HOST_MEMBER_ID,
};
use crate::single::Single;
use crate::text::{decimal, push_decimal};

verus! {

broadcast use vstd::std_specs::hash::group_hash_axioms;

/// Chat lines that are kept.
pub const CHAT_LIMIT: usize = 500;

// ----------------------------------------------------------------------- data

/// One member as the server's roster has it.
#[derive(Debug, PartialEq)]
pub struct MemberInfo {
    pub id: MemberId,
    pub name: String,
    pub role: Role,
    pub connected: bool,
    pub quiet: bool,
    /// The content hash of the member's avatar, once they have announced one.
    pub avatar_hash: Option<[u8; 32]>,
}

#[verifier::ext_equal]
pub struct InfoModel {
    pub id: MemberId,
    pub name: Seq<char>,
    pub role: Role,
    pub connected: bool,
    pub quiet: bool,
    pub avatar_hash: Option<Seq<u8>>,
}

/// The bytes of a hash, where there is one.
pub open spec fn hash_model(hash: Option<[u8; 32]>) -> Option<Seq<u8>> {
    match hash {
        Some(hash) => Some(hash@),
        None => None,
    }
}

impl DeepView for MemberInfo {
    type V = InfoModel;

    open spec fn deep_view(&self) -> InfoModel {
        InfoModel {
            id: self.id,
            name: self.name@,
            role: self.role,
            connected: self.connected,
            quiet: self.quiet,
            avatar_hash: hash_model(self.avatar_hash),
        }
    }
}

/// What the session core has to tell between two ticks.
pub enum ClientEvent {
    /// The bytes behind a member's hash have arrived.
    AvatarReady { member: MemberId, hash: [u8; 32] },
    Joined,
    Roster(Vec<MemberInfo>),
    Chat { from: MemberId, text: String },
    MetronomeChanged { bpm: u16, beats_per_bar: u8, enabled: bool },
    BroadcastMixChanged { target: MemberId, fader: FaderView },
    StreamStatus(Vec<DestinationView>),
    BroadcastReadiness(BroadcastReadiness),
    RecordStatus { state: RecordState, stems: bool },
    /// Anything that reaches the snapshot another way.
    Other,
}

#[verifier::ext_equal]
pub enum EventModel {
    AvatarReady { member: MemberId, hash: Seq<u8> },
    Joined,
    Roster(Seq<InfoModel>),
    Chat { from: MemberId, text: Seq<char> },
    MetronomeChanged { bpm: u16, beats_per_bar: u8, enabled: bool },
    BroadcastMixChanged { target: MemberId, fader: FaderView },
    StreamStatus(Seq<DestinationModel>),
    BroadcastReadiness(ReadinessModel),
    RecordStatus { state: RecordStateModel, stems: bool },
    Other,
}

impl DeepView for ClientEvent {
    type V = EventModel;

    open spec fn deep_view(&self) -> EventModel {
        match self {
            ClientEvent::AvatarReady { member, hash } => EventModel::AvatarReady {
                member: *member,
                hash: hash@,
            },
            ClientEvent::Joined => EventModel::Joined,
            ClientEvent::Roster(members) => EventModel::Roster(members.deep_view()),
            ClientEvent::Chat { from, text } => EventModel::Chat { from: *from, text: text@ },
            ClientEvent::MetronomeChanged { bpm, beats_per_bar, enabled } =>
                EventModel::MetronomeChanged {
                bpm: *bpm,
                beats_per_bar: *beats_per_bar,
                enabled: *enabled,
            },
            ClientEvent::BroadcastMixChanged { target, fader } => EventModel::BroadcastMixChanged {
                target: *target,
                fader: *fader,
            },
            ClientEvent::StreamStatus(destinations) => EventModel::StreamStatus(
                destinations.deep_view(),
            ),
            ClientEvent::BroadcastReadiness(readiness) => EventModel::BroadcastReadiness(
                readiness.deep_view(),
            ),
            ClientEvent::RecordStatus { state, stems } => EventModel::RecordStatus {
                state: state.deep_view(),
                stems: *stems,
            },
            ClientEvent::Other => EventModel::Other,
        }
    }
}

/// The figures of one tick.
pub struct ClientFigures {
    pub state: ClientState,
    pub session_full: bool,
    pub member_id: Option<MemberId>,
    pub rtt_ms: Option<Single>,
    pub jitter_depth: usize,
    pub jitter_target: usize,
    pub uplink_loss_pct: Option<Single>,
    pub downlink_loss_pct: Option<Single>,
    pub mouth_to_ear_ms: Option<Single>,
    pub levels: LevelsView,
    pub playout_low_frames: Option<usize>,
    pub wake: Option<WakeView>,
}

/// Everything the worker publishes for the interface.
pub struct LiveState {
    /// Every figure a snapshot carries, in the shape it is read.
    pub stats: StatsView,
    pub roster: Vec<MemberInfo>,
    /// Monitor-mix values that were set here, merged over the roster; the
    /// server does not echo them back.
    pub faders: HashMap<u16, FaderView>,
    /// Broadcast-mix values, from this side's own sets and from the server's
    /// relays; merged over the roster for the host.
    pub broadcast_faders: HashMap<u16, FaderView>,
    pub audition: bool,
    pub hear_self: bool,
    pub offer_hear_self: bool,
    /// The last stream status the server sent, verbatim. There is no
    /// optimistic copy: a destination that failed to come up must not read as
    /// live for even one frame.
    pub stream: Vec<DestinationView>,
    /// Whether the session can broadcast at all, as the server last said.
    pub readiness: Option<BroadcastReadiness>,
    /// The last record status the server sent, verbatim, for the same reason.
    pub record: RecordView,
    pub chat: VecDeque<ChatLine>,
    pub levels: LevelsView,
    pub metronome: MetronomeView,
    /// Decoded avatars, one per content hash. A roster hash with no entry yet
    /// means the bytes are still in flight.
    pub avatars: Vec<AvatarHandle>,
    /// Hashes whose bytes did not decode; never retried, so one bad avatar
    /// costs one attempt per session.
    pub avatar_failed: Vec<String>,
    /// You dropped your own avatar. The wire has no way to unset one, so this
    /// hides it locally.
    pub own_dropped: bool,
    pub me: Option<MemberId>,
    pub session_short: String,
    pub server_addr: String,
    /// Attempts to reopen the stream after a device was lost.
    pub reopen_attempts: u64,
    /// Why the audio stream will not open, verbatim, while it will not.
    pub device_error: Option<String>,
    /// What the reopen cadence has to say about the audio stream.
    pub audio_fault: Option<AudioFaultView>,
}

#[verifier::ext_equal]
pub struct LiveModel {
    pub stats: StatsModel,
    pub roster: Seq<InfoModel>,
    pub faders: Map<u16, FaderView>,
    pub broadcast_faders: Map<u16, FaderView>,
    pub audition: bool,
    pub hear_self: bool,
    pub offer_hear_self: bool,
    pub stream: Seq<DestinationModel>,
    pub readiness: Option<ReadinessModel>,
    pub record: RecordModel,
    pub chat: Seq<ChatModel>,
    pub levels: LevelsView,
    pub metronome: MetronomeView,
    pub avatars: Seq<AvatarModel>,
    pub avatar_failed: Seq<Seq<char>>,
    pub own_dropped: bool,
    pub me: Option<MemberId>,
    pub session_short: Seq<char>,
    pub server_addr: Seq<char>,
    pub reopen_attempts: u64,
    pub device_error: Option<Seq<char>>,
    pub audio_fault: Option<AudioFaultView>,
}

/// Lines in the order they came.
pub open spec fn lines_of(chat: Seq<ChatLine>) -> Seq<ChatModel> {
    Seq::new(chat.len(), |i: int| chat[i].deep_view())
}

impl DeepView for LiveState {
    type V = LiveModel;

    open spec fn deep_view(&self) -> LiveModel {
        LiveModel {
            stats: self.stats.deep_view(),
            roster: self.roster.deep_view(),
            faders: self.faders@,
            broadcast_faders: self.broadcast_faders@,
            audition: self.audition,
            hear_self: self.hear_self,
            offer_hear_self: self.offer_hear_self,
            stream: self.stream.deep_view(),
            readiness: self.readiness.deep_view(),
            record: self.record.deep_view(),
            chat: lines_of(self.chat@),
            levels: self.levels,
            metronome: self.metronome,
            avatars: self.avatars.deep_view(),
            avatar_failed: self.avatar_failed.deep_view(),
            own_dropped: self.own_dropped,
            me: self.me,
            session_short: self.session_short@,
            server_addr: self.server_addr@,
            reopen_attempts: self.reopen_attempts,
            device_error: self.device_error.deep_view(),
            audio_fault: self.audio_fault,
        }
    }
}

// -------------------------------------------------------------------- showing

/// The fader set for a member, flat until one is.
pub open spec fn fader_for(faders: Map<u16, FaderView>, id: u16) -> FaderView {
    if faders.contains_key(id) {
        faders[id]
    } else {
        FaderView::flat_fader()
    }
}

/// Where a hash stands among the decoded avatars, or past the end.
pub open spec fn place_of(avatars: Seq<AvatarModel>, hash: Seq<char>) -> int
    decreases avatars.len(),
{
    if avatars.len() == 0 {
        0
    } else if avatars[0].hash == hash {
        0
    } else {
        1 + place_of(avatars.drop_first(), hash)
    }
}

/// The decoded avatar of a hash, once there is one.
pub open spec fn picture_of(avatars: Seq<AvatarModel>, hash: Seq<char>) -> Option<AvatarModel> {
    if place_of(avatars, hash) < avatars.len() {
        Some(avatars[place_of(avatars, hash)])
    } else {
        None
    }
}

/// One member's strip. The wire roster carries no token, and your own avatar
/// is hidden once you have dropped it.
pub open spec fn strip_of(m: LiveModel, info: InfoModel) -> MemberModel {
    let is_you = m.me == Some(info.id);
    MemberModel {
        id: info.id,
        name: info.name,
        role: info.role,
        connected: info.connected,
        quiet: info.quiet,
        is_you,
        fader: fader_for(m.faders, info.id.0),
        token: None,
        avatar: match info.avatar_hash {
            Some(hash) => if is_you && m.own_dropped {
                None
            } else {
                picture_of(m.avatars, hex_of(hash))
            },
            None => None,
        },
    }
}

/// The broadcast mix of the musicians, in roster order.
pub open spec fn mix_of(roster: Seq<InfoModel>, faders: Map<u16, FaderView>) -> Seq<
    (MemberId, FaderView),
>
    decreases roster.len(),
{
    if roster.len() == 0 {
        Seq::empty()
    } else if roster.last().role is Musician {
        mix_of(roster.drop_last(), faders).push(
            (roster.last().id, fader_for(faders, roster.last().id.0)),
        )
    } else {
        mix_of(roster.drop_last(), faders)
    }
}

/// What the session shows.
pub open spec fn shown_live(m: LiveModel) -> SnapshotModel {
    let is_host = m.me == Some(MemberId(HOST_MEMBER_ID));
    SnapshotModel {
        stats: m.stats,
        members: Seq::new(m.roster.len(), |i: int| strip_of(m, m.roster[i])),
        chat: m.chat,
        levels: m.levels,
        metronome: m.metronome,
        broadcast: if is_host {
            Some(
                BroadcastModel {
                    faders: mix_of(m.roster, m.broadcast_faders),
                    audition: m.audition,
                },
            )
        } else {
            None
        },
        stream: StreamModel { destinations: m.stream, readiness: m.readiness },
        record: m.record,
        cost: None,
        hear_self: m.hear_self,
        offer_hear_self: m.offer_hear_self,
        session_short: m.session_short,
        server_addr: m.server_addr,
        is_host,
        device_error: m.device_error,
        audio_fault: m.audio_fault,
    }
}

/// What a command leaves behind here, before anything is sent. Faders and
/// toggles reflect at once: the server does not echo them. Everything the
/// server answers for itself waits for its answer.
pub open spec fn told(m: LiveModel, cmd: CommandModel) -> LiveModel {
    match cmd {
        CommandModel::SetFader { member, fader } => LiveModel {
            faders: m.faders.insert(member.0, fader),
            ..m
        },
        CommandModel::SetClick(on) => LiveModel {
            metronome: MetronomeView { you_hear_click: on, ..m.metronome },
            ..m
        },
        CommandModel::SetMetronome { bpm, beats_per_bar, enabled } => LiveModel {
            metronome: MetronomeView { bpm, beats_per_bar, enabled, ..m.metronome },
            ..m
        },
        CommandModel::SetBroadcastFader { member, fader } => LiveModel {
            broadcast_faders: m.broadcast_faders.insert(member.0, fader),
            ..m
        },
        CommandModel::SetBroadcastAudition(on) => LiveModel { audition: on, ..m },
        CommandModel::SetHearSelf(on) => LiveModel { hear_self: on, ..m },
        CommandModel::SetOwnAvatar(bytes) => LiveModel { own_dropped: bytes is None, ..m },
        _ => m,
    }
}

// --------------------------------------------------------------------- events

/// The chat with a line at the end, the oldest dropped past the limit.
pub open spec fn with_line(chat: Seq<ChatModel>, line: ChatModel) -> Seq<ChatModel> {
    let longer = chat.push(line);
    if longer.len() > CHAT_LIMIT {
        longer.skip(longer.len() - CHAT_LIMIT)
    } else {
        longer
    }
}

/// Where a member stands on the roster, or past the end.
pub open spec fn seat_of(roster: Seq<InfoModel>, id: MemberId) -> int
    decreases roster.len(),
{
    if roster.len() == 0 {
        0
    } else if roster[0].id == id {
        0
    } else {
        1 + seat_of(roster.drop_first(), id)
    }
}

/// The name a line is shown under.
pub open spec fn sender_name(roster: Seq<InfoModel>, from: MemberId) -> Seq<char> {
    if seat_of(roster, from) < roster.len() {
        roster[seat_of(roster, from)].name
    } else {
        "member "@ + decimal(from.0 as nat)
    }
}

/// The state after an event. `now_ms` is the session clock, and `member_id`
/// the seat the core holds.
pub open spec fn after_event(
    m: LiveModel,
    event: EventModel,
    now_ms: u64,
    member_id: Option<MemberId>,
) -> LiveModel {
    match event {
        EventModel::AvatarReady { .. } => m,
        EventModel::Joined => LiveModel { me: member_id, ..m },
        EventModel::Roster(members) => LiveModel { roster: members, ..m },
        EventModel::Chat { from, text } => LiveModel {
            chat: with_line(
                m.chat,
                ChatModel {
                    from_name: sender_name(m.roster, from),
                    from_id: from,
                    text,
                    at_ms: now_ms,
                },
            ),
            ..m
        },
        EventModel::MetronomeChanged { bpm, beats_per_bar, enabled } => LiveModel {
            metronome: MetronomeView { bpm, beats_per_bar, enabled, ..m.metronome },
            ..m
        },
        EventModel::BroadcastMixChanged { target, fader } => LiveModel {
            broadcast_faders: m.broadcast_faders.insert(target.0, fader),
            ..m
        },
        EventModel::StreamStatus(destinations) => LiveModel { stream: destinations, ..m },
        EventModel::BroadcastReadiness(readiness) => LiveModel { readiness: Some(readiness), ..m },
        EventModel::RecordStatus { state, stems } => LiveModel {
            record: RecordModel { state, stems },
            ..m
        },
        EventModel::Other => m,
    }
}

/// The state after a run of events.
pub open spec fn after_events(
    m: LiveModel,
    events: Seq<EventModel>,
    now_ms: u64,
    member_id: Option<MemberId>,
) -> LiveModel
    decreases events.len(),
{
    if events.len() == 0 {
        m
    } else {
        after_event(
            after_events(m, events.drop_last(), now_ms, member_id),
            events.last(),
            now_ms,
            member_id,
        )
    }
}

/// The pictures a run of events says have arrived, in order.
pub open spec fn arrived(events: Seq<EventModel>) -> Seq<(MemberId, Seq<u8>)>
    decreases events.len(),
{
    if events.len() == 0 {
        Seq::empty()
    } else {
        match events.last() {
            EventModel::AvatarReady { member, hash } => arrived(events.drop_last()).push(
                (member, hash),
            ),
            _ => arrived(events.drop_last()),
        }
    }
}

/// Whether a member's avatar is the one of this hash.
pub open spec fn points_at(info: InfoModel, hash: Seq<char>) -> bool {
    info.avatar_hash matches Some(bytes) && hex_of(bytes) == hash
}

/// Whether the roster points at a hash.
pub open spec fn wanted(roster: Seq<InfoModel>, hash: Seq<char>) -> bool {
    exists|i: int| 0 <= i < roster.len() && points_at(#[trigger] roster[i], hash)
}

/// The avatars the roster still points at.
pub open spec fn kept_avatars(avatars: Seq<AvatarModel>, roster: Seq<InfoModel>) -> Seq<AvatarModel>
    decreases avatars.len(),
{
    if avatars.len() == 0 {
        Seq::empty()
    } else if wanted(roster, avatars.last().hash) {
        kept_avatars(avatars.drop_last(), roster).push(avatars.last())
    } else {
        kept_avatars(avatars.drop_last(), roster)
    }
}

/// The state once a tick's events have been taken in. A member who left takes
/// their picture with them.
pub open spec fn drained(
    m: LiveModel,
    events: Seq<EventModel>,
    now_ms: u64,
    member_id: Option<MemberId>,
) -> LiveModel {
    if events.len() == 0 {
        m
    } else {
        let after = after_events(m, events, now_ms, member_id);
        LiveModel { avatars: kept_avatars(after.avatars, after.roster), ..after }
    }
}

/// What became of a picture that arrived.
#[derive(Debug, PartialEq)]
pub enum Arrival {
    /// It is decoded already, or its bytes did not decode before.
    Settled,
    /// The bytes were gone again; a later roster asks for them anew.
    Gone,
    Decoded { width: u32, height: u32 },
    Refused(AvatarError),
}

/// Whether a hash still has to be decoded.
pub open spec fn undecoded(m: LiveModel, hash: Seq<char>) -> bool {
    !m.avatar_failed.contains(hash) && picture_of(m.avatars, hash) is None
}

/// The state once a picture's decoding has come to `decoded`.
pub open spec fn after_decode(
    m: LiveModel,
    hash: Seq<char>,
    decoded: Result<AvatarModel, AvatarErrorModel>,
) -> LiveModel {
    match decoded {
        Ok(handle) => LiveModel { avatars: m.avatars.push(handle), ..m },
        Err(_) => LiveModel { avatar_failed: m.avatar_failed.push(hash), ..m },
    }
}

/// Whether anybody else is there to play with.
pub open spec fn company(roster: Seq<InfoModel>, me: Option<MemberId>) -> bool {
    exists|i: int| 0 <= i < roster.len() && plays_along(#[trigger] roster[i], me)
}

/// Whether a member is a connected musician other than you.
pub open spec fn plays_along(info: InfoModel, me: Option<MemberId>) -> bool {
    info.connected && info.role is Musician && me != Some(info.id)
}

/// The state once a tick's figures are published. Idle is terminal.
pub open spec fn published(m: LiveModel, f: ClientFigures) -> LiveModel {
    LiveModel {
        stats: StatsModel {
            state: if m.stats.state is Idle {
                m.stats.state
            } else {
                f.state.shown_with(f.session_full)
            },
            rtt_ms: f.rtt_ms,
            jitter_depth: f.jitter_depth,
            jitter_target: f.jitter_target,
            uplink_loss_pct: f.uplink_loss_pct,
            downlink_loss_pct: f.downlink_loss_pct,
            mouth_to_ear_ms: f.mouth_to_ear_ms,
            playout_low_frames: f.playout_low_frames,
            wake: f.wake,
            ..m.stats
        },
        me: f.member_id,
        levels: f.levels,
        ..m
    }
}

/// A session that has only just been asked for.
pub open spec fn fresh_session(session_short: Seq<char>, server_addr: Seq<char>) -> LiveModel {
    LiveModel {
        stats: StatsModel {
            state: ConnModel::Connecting,
            rtt_ms: None,
            jitter_depth: 0,
            jitter_target: 0,
            uplink_loss_pct: None,
            downlink_loss_pct: None,
            mouth_to_ear_ms: None,
            device_mode: None,
            rate: None,
            crackling: false,
            playout_low_frames: None,
            wake: None,
            cutting_out: None,
        },
        roster: Seq::empty(),
        faders: Map::empty(),
        broadcast_faders: Map::empty(),
        audition: false,
        hear_self: false,
        offer_hear_self: false,
        stream: Seq::empty(),
        readiness: None,
        record: RecordModel { state: RecordStateModel::Idle, stems: false },
        chat: Seq::empty(),
        levels: LevelsView {
            input_peak: Single { bits: 0 },
            input_rms: Single { bits: 0 },
            output_peak: Single { bits: 0 },
            output_rms: Single { bits: 0 },
        },
        metronome: MetronomeView {
            bpm: 120,
            beats_per_bar: 4,
            enabled: false,
            you_hear_click: true,
        },
        avatars: Seq::empty(),
        avatar_failed: Seq::empty(),
        own_dropped: false,
        me: None,
        session_short,
        server_addr,
        reopen_attempts: 0,
        device_error: None,
        audio_fault: None,
    }
}

// ------------------------------------------------------------------ executing

/// Whether two texts in a list are the same one.
fn holds_text(list: &Vec<String>, text: &String) -> (b: bool)
    ensures
        b == list.deep_view().contains(text@),
{
    let mut i: usize = 0;
    while i < list.len()
        invariant
            i <= list@.len(),
            forall|j: int| 0 <= j < i ==> (#[trigger] list@[j])@ != text@,
        decreases list.len() - i,
    {
        if list[i] == *text {
            assert(list.deep_view()[i as int] == text@);
            return true;
        }
        i += 1;
    }
    assert forall|j: int| 0 <= j < list.deep_view().len() implies list.deep_view()[j] != text@ by {
        assert(list.deep_view()[j] == list@[j]@);
    }
    false
}

proof fn lemma_place(avatars: Seq<AvatarModel>, hash: Seq<char>)
    ensures
        0 <= place_of(avatars, hash) <= avatars.len(),
        place_of(avatars, hash) < avatars.len() ==> avatars[place_of(avatars, hash)].hash == hash,
        forall|i: int|
            0 <= i < place_of(avatars, hash) ==> (#[trigger] avatars[i]).hash != hash,
    decreases avatars.len(),
{
    if avatars.len() > 0 && avatars[0].hash != hash {
        lemma_place(avatars.drop_first(), hash);
        assert forall|i: int| 0 <= i < place_of(avatars, hash) implies (
        #[trigger] avatars[i]).hash != hash by {
            if i > 0 {
                assert(avatars.drop_first()[i - 1] == avatars[i]);
            }
        }
    }
}

proof fn lemma_place_is(avatars: Seq<AvatarModel>, hash: Seq<char>, at: int)
    requires
        0 <= at <= avatars.len(),
        at < avatars.len() ==> avatars[at].hash == hash,
        forall|i: int| 0 <= i < at ==> (#[trigger] avatars[i]).hash != hash,
    ensures
        place_of(avatars, hash) == at,
{
    lemma_place(avatars, hash);
    let found = place_of(avatars, hash);
    if found < at {
        assert(avatars[found].hash != hash);
    }
    if at < found {
        assert(avatars[at].hash != hash);
    }
}

/// Where a hash stands among decoded avatars.
fn find_picture(avatars: &Vec<AvatarHandle>, hash: &String) -> (at: usize)
    ensures
        at == place_of(avatars.deep_view(), hash@),
        at <= avatars@.len(),
{
    let ghost all = avatars.deep_view();
    let mut i: usize = 0;
    while i < avatars.len()
        invariant
            i <= avatars@.len(),
            all == avatars.deep_view(),
            forall|j: int| 0 <= j < i ==> (#[trigger] all[j]).hash != hash@,
        decreases avatars.len() - i,
    {
        assert(all[i as int] == avatars@[i as int].deep_view());
        if avatars[i].hash == *hash {
            proof {
                lemma_place_is(all, hash@, i as int);
            }
            return i;
        }
        i += 1;
    }
    proof {
        lemma_place_is(all, hash@, i as int);
    }
    i
}

proof fn lemma_seat(roster: Seq<InfoModel>, id: MemberId)
    ensures
        0 <= seat_of(roster, id) <= roster.len(),
        seat_of(roster, id) < roster.len() ==> roster[seat_of(roster, id)].id == id,
        forall|i: int| 0 <= i < seat_of(roster, id) ==> (#[trigger] roster[i]).id != id,
    decreases roster.len(),
{
    if roster.len() > 0 && roster[0].id != id {
        lemma_seat(roster.drop_first(), id);
        assert forall|i: int| 0 <= i < seat_of(roster, id) implies (#[trigger] roster[i]).id
            != id by {
            if i > 0 {
                assert(roster.drop_first()[i - 1] == roster[i]);
            }
        }
    }
}

proof fn lemma_seat_is(roster: Seq<InfoModel>, id: MemberId, at: int)
    requires
        0 <= at <= roster.len(),
        at < roster.len() ==> roster[at].id == id,
        forall|i: int| 0 <= i < at ==> (#[trigger] roster[i]).id != id,
    ensures
        seat_of(roster, id) == at,
{
    lemma_seat(roster, id);
    let found = seat_of(roster, id);
    if found < at {
        assert(roster[found].id != id);
    }
    if at < found {
        assert(roster[at].id != id);
    }
}

/// The fader set for a member, flat until one is.
fn fader_in(faders: &HashMap<u16, FaderView>, id: u16) -> (f: FaderView)
    ensures
        f == fader_for(faders@, id),
{
    match faders.get(&id) {
        Some(fader) => *fader,
        None => FaderView::flat(),
    }
}

impl LiveState {
    /// The chat is never longer than what is kept of it.
    pub open spec fn chat_fits(self) -> bool {
        self.chat@.len() <= CHAT_LIMIT
    }

    /// A session that has only just been asked for.
    pub fn new(session_id: &[u8; 16], server_addr: String) -> (s: LiveState)
        ensures
            s.wf(),
            s.deep_view() == fresh_session(hex_of(session_id@.take(4)), server_addr@),
    {
        let head = [session_id[0], session_id[1], session_id[2], session_id[3]];
        let session_short = hex_lower(head.as_slice());
        assert(head@ =~= session_id@.take(4));
        let s = LiveState {
            stats: StatsView {
                state: ConnState::Connecting,
                rtt_ms: None,
                jitter_depth: 0,
                jitter_target: 0,
                uplink_loss_pct: None,
                downlink_loss_pct: None,
                mouth_to_ear_ms: None,
                device_mode: None,
                rate: None,
                crackling: false,
                playout_low_frames: None,
                wake: None,
                cutting_out: None,
            },
            roster: Vec::new(),
            faders: HashMap::new(),
            broadcast_faders: HashMap::new(),
            audition: false,
            hear_self: false,
            offer_hear_self: false,
            stream: Vec::new(),
            readiness: None,
            record: RecordView::default(),
            chat: VecDeque::new(),
            levels: LevelsView::default(),
            metronome: MetronomeView {
                bpm: 120,
                beats_per_bar: 4,
                enabled: false,
                you_hear_click: true,
            },
            avatars: Vec::new(),
            avatar_failed: Vec::new(),
            own_dropped: false,
            me: None,
            session_short,
            server_addr,
            reopen_attempts: 0,
            device_error: None,
            audio_fault: None,
        };
        assert(s.deep_view() =~= fresh_session(hex_of(session_id@.take(4)), server_addr@));
        s
    }

    /// Adds a line to the chat, dropping the oldest past the limit.
    pub fn push_chat(&mut self, line: ChatLine)
        requires
            old(self).wf(),
        ensures
            final(self).wf(),
            final(self).deep_view() == (LiveModel {
                chat: with_line(old(self).deep_view().chat, line.deep_view()),
                ..old(self).deep_view()
            }),
    {
        let ghost before = lines_of(self.chat@);
        self.chat.push_back(line);
        if self.chat.len() > CHAT_LIMIT {
            let oldest = self.chat.pop_front();
        }
        assert(lines_of(self.chat@) =~= with_line(before, line.deep_view()));
        assert(self.deep_view() =~= LiveModel {
            chat: with_line(before, line.deep_view()),
            ..old(self).deep_view()
        });
    }

    /// The name a line from `from` is shown under.
    fn name_of(&self, from: MemberId) -> (name: String)
        ensures
            name@ == sender_name(self.deep_view().roster, from),
    {
        let ghost all = self.roster.deep_view();
        let mut i: usize = 0;
        while i < self.roster.len()
            invariant
                i <= self.roster@.len(),
                all == self.roster.deep_view(),
                forall|j: int| 0 <= j < i ==> (#[trigger] all[j]).id != from,
            decreases self.roster.len() - i,
        {
            assert(all[i as int] == self.roster@[i as int].deep_view());
            if self.roster[i].id == from {
                proof {
                    lemma_seat_is(all, from, i as int);
                }
                return self.roster[i].name.clone();
            }
            i += 1;
        }
        proof {
            lemma_seat_is(all, from, i as int);
        }
        let mut name = "member ".to_owned();
        push_decimal(&mut name, from.0 as u64);
        name
    }

    fn member_views(&self) -> (views: Vec<MemberView>)
        ensures
            views.deep_view() == shown_live(self.deep_view()).members,
    {
        let ghost m = self.deep_view();
        let mut views: Vec<MemberView> = Vec::new();
        let mut i: usize = 0;
        while i < self.roster.len()
            invariant
                i <= self.roster@.len(),
                m == self.deep_view(),
                views@.len() == i,
                forall|j: int|
                    0 <= j < i ==> (#[trigger] views@[j]).deep_view() == strip_of(m, m.roster[j]),
            decreases self.roster.len() - i,
        {
            let info = &self.roster[i];
            assert(m.roster[i as int] == info.deep_view());
            let is_you = match self.me {
                Some(me) => me == info.id,
                None => false,
            };
            let avatar = match info.avatar_hash {
                Some(hash) => if is_you && self.own_dropped {
                    None
                } else {
                    let at: usize = find_picture(&self.avatars, &hash_hex(&hash));
                    if at < self.avatars.len() {
                        assert(m.avatars[at as int] == self.avatars@[at as int].deep_view());
                        Some(self.avatars[at].clone())
                    } else {
                        None
                    }
                },
                None => None,
            };
            let view = MemberView {
                id: info.id,
                name: info.name.clone(),
                role: info.role,
                connected: info.connected,
                quiet: info.quiet,
                is_you,
                fader: fader_in(&self.faders, info.id.0),
                token: None,
                avatar,
            };
            assert(view.deep_view() =~= strip_of(m, m.roster[i as int]));
            views.push(view);
            i += 1;
        }
        assert(views.deep_view() =~= shown_live(m).members);
        views
    }

    fn broadcast_mix(&self) -> (faders: Vec<(MemberId, FaderView)>)
        ensures
            faders@ == mix_of(self.deep_view().roster, self.broadcast_faders@),
    {
        let ghost all = self.deep_view().roster;
        let mut faders: Vec<(MemberId, FaderView)> = Vec::new();
        let mut i: usize = 0;
        while i < self.roster.len()
            invariant
                i <= self.roster@.len(),
                all == self.deep_view().roster,
                faders@ == mix_of(all.take(i as int), self.broadcast_faders@),
            decreases self.roster.len() - i,
        {
            let info = &self.roster[i];
            assert(all[i as int] == info.deep_view());
            assert(all.take(i + 1).drop_last() =~= all.take(i as int));
            assert(all.take(i + 1).last() == all[i as int]);
            if let Role::Musician = info.role {
                faders.push((info.id, fader_in(&self.broadcast_faders, info.id.0)));
            }
            i += 1;
        }
        assert(all.take(i as int) =~= all);
        faders
    }

    fn chat_lines(&self) -> (lines: Vec<ChatLine>)
        ensures
            lines.deep_view() == self.deep_view().chat,
    {
        let mut lines: Vec<ChatLine> = Vec::new();
        let mut i: usize = 0;
        while i < self.chat.len()
            invariant
                i <= self.chat@.len(),
                lines@.len() == i,
                forall|j: int| 0 <= j < i ==> #[trigger] lines@[j] == self.chat@[j],
            decreases self.chat@.len() - i,
        {
            lines.push(self.chat[i].clone());
            i += 1;
        }
        assert(lines.deep_view() =~= self.deep_view().chat);
        lines
    }

    fn destination_views(&self) -> (views: Vec<DestinationView>)
        ensures
            views.deep_view() == self.deep_view().stream,
    {
        let mut views: Vec<DestinationView> = Vec::new();
        let mut i: usize = 0;
        while i < self.stream.len()
            invariant
                i <= self.stream@.len(),
                views@.len() == i,
                forall|j: int| 0 <= j < i ==> #[trigger] views@[j] == self.stream@[j],
            decreases self.stream.len() - i,
        {
            views.push(self.stream[i].clone());
            i += 1;
        }
        assert(views.deep_view() =~= self.deep_view().stream);
        views
    }

    /// Takes in what one event says.
    fn take_event(&mut self, event: ClientEvent, now_ms: u64, member_id: Option<MemberId>)
        requires
            old(self).wf(),
        ensures
            final(self).wf(),
            final(self).deep_view() == after_event(
                old(self).deep_view(),
                event.deep_view(),
                now_ms,
                member_id,
            ),
    {
        let ghost m = self.deep_view();
        let ghost e = event.deep_view();
        match event {
            ClientEvent::AvatarReady { member, hash } => {},
            ClientEvent::Joined => self.me = member_id,
            ClientEvent::Roster(members) => self.roster = members,
            ClientEvent::Chat { from, text } => {
                let from_name = self.name_of(from);
                self.push_chat(ChatLine { from_name, from_id: from, text, at_ms: now_ms });
            },
            ClientEvent::MetronomeChanged { bpm, beats_per_bar, enabled } => {
                self.metronome.bpm = bpm;
                self.metronome.beats_per_bar = beats_per_bar;
                self.metronome.enabled = enabled;
            },
            ClientEvent::BroadcastMixChanged { target, fader } => {
                self.broadcast_faders.insert(target.0, fader);
            },
            ClientEvent::StreamStatus(destinations) => self.stream = destinations,
            ClientEvent::BroadcastReadiness(readiness) => self.readiness = Some(readiness),
            ClientEvent::RecordStatus { state, stems } => {
                self.record = RecordView { state, stems };
            },
            ClientEvent::Other => {},
        }
        assert(self.deep_view() =~= after_event(m, e, now_ms, member_id));
    }

    /// Whether the roster points at a hash.
    fn wants(&self, hash: &String) -> (b: bool)
        ensures
            b == wanted(self.deep_view().roster, hash@),
    {
        let ghost all = self.deep_view().roster;
        let mut i: usize = 0;
        while i < self.roster.len()
            invariant
                i <= self.roster@.len(),
                all == self.deep_view().roster,
                forall|j: int| 0 <= j < i ==> !points_at(#[trigger] all[j], hash@),
            decreases self.roster.len() - i,
        {
            assert(all[i as int] == self.roster@[i as int].deep_view());
            if let Some(bytes) = self.roster[i].avatar_hash {
                if hash_hex(&bytes) == *hash {
                    assert(points_at(all[i as int], hash@));
                    return true;
                }
            }
            i += 1;
        }
        false
    }

    /// Drops every avatar the roster no longer points at.
    fn keep_wanted(&mut self)
        requires
            old(self).wf(),
        ensures
            final(self).wf(),
            final(self).deep_view() == (LiveModel {
                avatars: kept_avatars(old(self).deep_view().avatars, old(self).deep_view().roster),
                ..old(self).deep_view()
            }),
    {
        let ghost m = self.deep_view();
        let ghost all = m.avatars;
        let mut kept: Vec<AvatarHandle> = Vec::new();
        let mut i: usize = 0;
        assert(kept.deep_view() =~= Seq::empty());
        while i < self.avatars.len()
            invariant
                i <= self.avatars@.len(),
                m == self.deep_view(),
                all == m.avatars,
                kept.deep_view() == kept_avatars(all.take(i as int), m.roster),
            decreases self.avatars.len() - i,
        {
            let ghost sofar = kept.deep_view();
            assert(all[i as int] == self.avatars@[i as int].deep_view());
            assert(all.take(i + 1).drop_last() =~= all.take(i as int));
            assert(all.take(i + 1).last() == all[i as int]);
            if self.wants(&self.avatars[i].hash) {
                kept.push(self.avatars[i].clone());
                assert(kept.deep_view() =~= sofar.push(all[i as int]));
            }
            i += 1;
        }
        assert(all.take(i as int) =~= all);
        self.avatars = kept;
        assert(self.deep_view() =~= LiveModel { avatars: kept_avatars(all, m.roster), ..m });
    }

    /// Takes in a tick's events, and hands back the pictures that arrived.
    /// Decoding is milliseconds of work, so it is done afterwards.
    pub fn drain_events(
        &mut self,
        events: Vec<ClientEvent>,
        now_ms: u64,
        member_id: Option<MemberId>,
    ) -> (ready: Vec<(MemberId, [u8; 32])>)
        requires
            old(self).wf(),
        ensures
            final(self).wf(),
            final(self).deep_view() == drained(
                old(self).deep_view(),
                events.deep_view(),
                now_ms,
                member_id,
            ),
            ready@.map_values(|r: (MemberId, [u8; 32])| (r.0, r.1@)) == arrived(
                events.deep_view(),
            ),
    {
        let ghost m = self.deep_view();
        let ghost all = events.deep_view();
        let ghost as_bytes = |r: (MemberId, [u8; 32])| (r.0, r.1@);
        let mut ready: Vec<(MemberId, [u8; 32])> = Vec::new();
        assert(ready@.map_values(as_bytes) =~= Seq::empty());
        if events.len() == 0 {
            return ready;
        }
        let mut events = events;
        let mut left: Vec<ClientEvent> = Vec::new();
        while events.len() > 0
            invariant
                events@.len() <= all.len(),
                left@.len() == all.len() - events@.len(),
                forall|j: int|
                    0 <= j < events@.len() ==> (#[trigger] events@[j]).deep_view() == all[j],
                forall|j: int|
                    0 <= j < left@.len() ==> (#[trigger] left@[j]).deep_view() == all[all.len() - 1
                        - j],
            decreases events@.len(),
        {
            match events.pop() {
                Some(event) => left.push(event),
                None => {},
            }
        }
        let ghost mut done: int = 0;
        assert(all.take(0) =~= Seq::empty());
        while left.len() > 0
            invariant
                self.wf(),
                0 <= done <= all.len(),
                left@.len() == all.len() - done,
                forall|j: int|
                    0 <= j < left@.len() ==> (#[trigger] left@[j]).deep_view() == all[all.len() - 1
                        - j],
                self.deep_view() == after_events(m, all.take(done), now_ms, member_id),
                as_bytes == (|r: (MemberId, [u8; 32])| (r.0, r.1@)),
                ready@.map_values(as_bytes) == arrived(all.take(done)),
            decreases left@.len(),
        {
            if let Some(event) = left.pop() {
                let ghost e = event.deep_view();
                assert(e == all[done]);
                assert(all.take(done + 1).drop_last() =~= all.take(done));
                assert(all.take(done + 1).last() == e);
                if let ClientEvent::AvatarReady { member, hash } = &event {
                    let ghost sofar = ready@;
                    ready.push((*member, *hash));
                    assert(ready@.map_values(as_bytes) =~= sofar.map_values(as_bytes).push(
                        (*member, hash@),
                    ));
                }
                self.take_event(event, now_ms, member_id);
                proof {
                    done = done + 1;
                }
            }
        }
        assert(all.take(done) =~= all);
        self.keep_wanted();
        ready
    }

    /// Whether a picture that arrived still has to be decoded.
    pub fn wants_decode(&self, hash: &[u8; 32]) -> (b: bool)
        ensures
            b == undecoded(self.deep_view(), hex_of(hash@)),
    {
        let hex = hash_hex(hash);
        proof {
            lemma_place(self.deep_view().avatars, hex@);
        }
        !holds_text(&self.avatar_failed, &hex) && find_picture(&self.avatars, &hex)
            >= self.avatars.len()
    }

    /// Takes in what decoding a picture came to.
    fn settle(&mut self, hex: String, decoded: Result<AvatarHandle, AvatarError>) -> (arrival:
        Arrival)
        requires
            old(self).wf(),
        ensures
            final(self).wf(),
            final(self).deep_view() == after_decode(
                old(self).deep_view(),
                hex@,
                outcome(decoded),
            ),
            arrival == (match decoded {
                Ok(handle) => Arrival::Decoded { width: handle.width, height: handle.height },
                Err(err) => Arrival::Refused(err),
            }),
    {
        let ghost m = self.deep_view();
        let ghost r = outcome(decoded);
        let ghost h = hex@;
        match decoded {
            Ok(handle) => {
                let arrival = Arrival::Decoded { width: handle.width, height: handle.height };
                self.avatars.push(handle);
                assert(self.avatars.deep_view() =~= m.avatars.push(handle.deep_view()));
                assert(self.deep_view() =~= after_decode(m, h, r));
                arrival
            },
            Err(err) => {
                self.avatar_failed.push(hex);
                assert(self.avatar_failed.deep_view() =~= m.avatar_failed.push(h));
                assert(self.deep_view() =~= after_decode(m, h, r));
                Arrival::Refused(err)
            },
        }
    }

    /// Decodes one picture that arrived, exactly once per content hash. Bytes
    /// that do not decode are dropped: the member keeps the initials disc
    /// rather than a broken image, and the hash is not tried again. `bytes` is
    /// what the core's cache still holds of it.
    pub fn decode_avatar(&mut self, hash: &[u8; 32], bytes: Option<&[u8]>) -> (arrival: Arrival)
        requires
            old(self).wf(),
        ensures
            final(self).wf(),
            ({
                let m = old(self).deep_view();
                let hex = hex_of(hash@);
                match bytes {
                    Some(bytes) if undecoded(m, hex) => decodes_to(
                        m,
                        hex,
                        bytes@,
                        final(self).deep_view(),
                        arrival,
                    ),
                    _ => final(self).deep_view() == m && arrival == (if undecoded(m, hex) {
                        Arrival::Gone
                    } else {
                        Arrival::Settled
                    }),
                }
            }),
    {
        if !self.wants_decode(hash) {
            return Arrival::Settled;
        }
        let bytes = match bytes {
            Some(bytes) => bytes,
            None => {
                return Arrival::Gone;
            },
        };
        let hex = hash_hex(hash);
        let decoded = decode(hex.clone(), bytes);
        let ghost came = outcome(decoded);
        let arrival = self.settle(hex, decoded);
        assert(decode_may_be(hex_of(hash@), bytes@, came));
        arrival
    }

    /// Publishes a tick's figures.
    pub fn publish_stats(&mut self, figures: ClientFigures)
        requires
            old(self).wf(),
        ensures
            final(self).wf(),
            final(self).deep_view() == published(old(self).deep_view(), figures),
    {
        let ghost m = self.deep_view();
        let idle = match self.stats.state {
            ConnState::Idle => true,
            _ => false,
        };
        if !idle {
            self.stats.state = conn_state_with(&figures.state, figures.session_full);
        }
        self.me = figures.member_id;
        self.stats.rtt_ms = figures.rtt_ms;
        self.stats.jitter_depth = figures.jitter_depth;
        self.stats.jitter_target = figures.jitter_target;
        self.stats.uplink_loss_pct = figures.uplink_loss_pct;
        self.stats.downlink_loss_pct = figures.downlink_loss_pct;
        self.stats.mouth_to_ear_ms = figures.mouth_to_ear_ms;
        self.levels = figures.levels;
        self.stats.playout_low_frames = figures.playout_low_frames;
        self.stats.wake = figures.wake;
        assert(self.deep_view() =~= published(m, figures));
    }

    /// Whether anybody else is there to play with: a connected musician who is
    /// not you.
    pub fn playing_with_others(&self) -> (b: bool)
        ensures
            b == company(self.deep_view().roster, self.me),
    {
        let ghost all = self.deep_view().roster;
        let mut i: usize = 0;
        while i < self.roster.len()
            invariant
                i <= self.roster@.len(),
                all == self.deep_view().roster,
                forall|j: int| 0 <= j < i ==> !plays_along(#[trigger] all[j], self.me),
            decreases self.roster.len() - i,
        {
            let info = &self.roster[i];
            assert(all[i as int] == info.deep_view());
            let is_you = match self.me {
                Some(me) => me == info.id,
                None => false,
            };
            let plays = match info.role {
                Role::Musician => true,
                Role::Listener => false,
            };
            if info.connected && plays && !is_you {
                assert(plays_along(all[i as int], self.me));
                return true;
            }
            i += 1;
        }
        false
    }

    /// The session is over; nothing that comes later changes that.
    pub fn shut(&mut self)
        requires
            old(self).wf(),
        ensures
            final(self).wf(),
            final(self).deep_view() == (LiveModel {
                stats: StatsModel { state: ConnModel::Idle, ..old(self).deep_view().stats },
                ..old(self).deep_view()
            }),
    {
        let ghost m = self.deep_view();
        self.stats.state = ConnState::Idle;
        assert(self.deep_view() =~= LiveModel {
            stats: StatsModel { state: ConnModel::Idle, ..m.stats },
            ..m
        });
    }

    /// A stream opened: the refusal it replaces is gone, and its own rate path
    /// is what is shown.
    pub fn stream_opened(&mut self, reopen_attempts: u64, rate: Option<RateOutcomesView>)
        requires
            old(self).wf(),
        ensures
            final(self).wf(),
            final(self).deep_view() == (LiveModel {
                stats: StatsModel { rate, ..old(self).deep_view().stats },
                reopen_attempts,
                device_error: None,
                ..old(self).deep_view()
            }),
    {
        let ghost m = self.deep_view();
        self.reopen_attempts = reopen_attempts;
        self.device_error = None;
        self.stats.rate = rate;
        assert(self.deep_view() =~= LiveModel {
            stats: StatsModel { rate, ..m.stats },
            reopen_attempts,
            device_error: None,
            ..m
        });
    }

    /// A stream would not open, for the reason the device gave.
    pub fn stream_refused(&mut self, reason: String)
        requires
            old(self).wf(),
        ensures
            final(self).wf(),
            final(self).deep_view() == (LiveModel {
                stats: StatsModel { rate: None, ..old(self).deep_view().stats },
                device_error: Some(reason@),
                ..old(self).deep_view()
            }),
    {
        let ghost m = self.deep_view();
        self.device_error = Some(reason);
        self.stats.rate = None;
        assert(self.deep_view() =~= LiveModel {
            stats: StatsModel { rate: None, ..m.stats },
            device_error: Some(reason@),
            ..m
        });
    }
}

/// Whether decoding `bytes` leads from `m` to `next`, with `arrival` to say of
/// it.
pub open spec fn decodes_to(
    m: LiveModel,
    hex: Seq<char>,
    bytes: Seq<u8>,
    next: LiveModel,
    arrival: Arrival,
) -> bool {
    exists|decoded: Result<AvatarModel, AvatarErrorModel>| #[trigger]
        decode_may_be(hex, bytes, decoded) && next == after_decode(m, hex, decoded) && told_of(
            decoded,
            arrival,
        )
}

/// Whether an arrival says what decoding came to.
pub open spec fn told_of(decoded: Result<AvatarModel, AvatarErrorModel>, arrival: Arrival) -> bool {
    match decoded {
        Ok(handle) => arrival == (Arrival::Decoded { width: handle.width, height: handle.height }),
        Err(err) => arrival matches Arrival::Refused(said) && said.deep_view() == err,
    }
}

impl Runtime for LiveState {
    open spec fn wf(&self) -> bool {
        self.chat_fits()
    }

    open spec fn shown(&self) -> SnapshotModel {
        shown_live(self.deep_view())
    }

    open spec fn takes(&self, cmd: CommandModel, next: &LiveState) -> bool {
        next.deep_view() == told(self.deep_view(), cmd)
    }

    fn snapshot(&self) -> (s: Snapshot) {
        let is_host = match self.me {
            Some(me) => me.0 == HOST_MEMBER_ID,
            None => false,
        };
        let broadcast = if is_host {
            Some(BroadcastView { faders: self.broadcast_mix(), audition: self.audition })
        } else {
            None
        };
        let s = Snapshot {
            stats: self.stats.clone(),
            members: self.member_views(),
            chat: self.chat_lines(),
            levels: self.levels,
            metronome: self.metronome,
            broadcast,
            stream: StreamView {
                destinations: self.destination_views(),
                readiness: self.readiness.clone(),
            },
            record: self.record.clone(),
            cost: None,
            hear_self: self.hear_self,
            offer_hear_self: self.offer_hear_self,
            session_short: self.session_short.clone(),
            server_addr: self.server_addr.clone(),
            is_host,
            device_error: self.device_error.clone(),
            audio_fault: self.audio_fault,
        };
        assert(s.deep_view() =~= shown_live(self.deep_view()));
        s
    }

    fn send(&mut self, cmd: Command) {
        let ghost m = self.deep_view();
        match cmd {
            Command::SetFader { member, gain_db, pan, muted } => {
                self.faders.insert(member.0, FaderView { gain_db, pan, muted });
            },
            Command::SetClick(on) => self.metronome.you_hear_click = on,
            Command::SetMetronome { bpm, beats_per_bar, enabled } => {
                self.metronome.bpm = bpm;
                self.metronome.beats_per_bar = beats_per_bar;
                self.metronome.enabled = enabled;
            },
            Command::SetBroadcastFader { member, gain_db, pan, muted } => {
                self.broadcast_faders.insert(member.0, FaderView { gain_db, pan, muted });
            },
            Command::SetBroadcastAudition(on) => self.audition = on,
            Command::SetHearSelf(on) => self.hear_self = on,
            // Your own picture comes back through the roster like anyone
            // else's; dropping it can only be local.
            Command::SetOwnAvatar(bytes) => self.own_dropped = bytes.is_none(),
            // The server answers for the rest itself: whether a destination is
            // live, what a name reads as, who has gone.
            _ => {},
        }
        assert(self.deep_view() =~= told(m, cmd.deep_view()));
    }

    /// The state on its own, without the roster and the chat behind it.
    fn conn_state(&self) -> (state: ConnState) {
        self.stats.state.clone()
    }
}

// ----------------------------------------------------------------------- laws

/// A line that comes in is the last one, and the chat never outgrows what is
/// kept of it.
pub proof fn a_new_line_is_last_and_the_chat_keeps_its_length(
    chat: Seq<ChatModel>,
    line: ChatModel,
)
    requires
        chat.len() <= CHAT_LIMIT,
    ensures
        0 < with_line(chat, line).len() <= CHAT_LIMIT,
        with_line(chat, line).last() == line,
{
}

/// The fader you set on somebody is the one you are shown on their strip, and
/// nobody else's moves.
pub proof fn a_fader_you_set_is_shown(
    m: LiveModel,
    member: MemberId,
    fader: FaderView,
    i: int,
)
    requires
        0 <= i < m.roster.len(),
    ensures
        ({
            let before = shown_live(m).members[i];
            let after = shown_live(told(m, CommandModel::SetFader { member, fader })).members[i];
            after == (if m.roster[i].id == member {
                MemberModel { fader, ..before }
            } else {
                before
            })
        }),
{
}

/// Everybody but the host is shown no broadcast mix, and nobody is shown a
/// token.
pub proof fn only_the_host_sees_the_broadcast_mix(m: LiveModel)
    ensures
        shown_live(m).broadcast is Some <==> m.me == Some(MemberId(HOST_MEMBER_ID)),
        forall|i: int|
            0 <= i < shown_live(m).members.len() ==> (#[trigger] shown_live(
                m,
            ).members[i]).token is None,
{
}

/// The host's broadcast mix has a fader for every musician on the roster and
/// for nobody else.
pub proof fn the_broadcast_mix_is_the_musicians(
    roster: Seq<InfoModel>,
    faders: Map<u16, FaderView>,
    id: MemberId,
)
    ensures
        (exists|k: int|
            0 <= k < mix_of(roster, faders).len() && (#[trigger] mix_of(roster, faders)[k]).0
                == id) <==> (exists|i: int|
            0 <= i < roster.len() && (#[trigger] roster[i]).role is Musician && roster[i].id == id),
    decreases roster.len(),
{
    if roster.len() > 0 {
        let front = roster.drop_last();
        let mix = mix_of(roster, faders);
        let before = mix_of(front, faders);
        the_broadcast_mix_is_the_musicians(front, faders, id);
        if exists|k: int| 0 <= k < mix.len() && (#[trigger] mix[k]).0 == id {
            let k = choose|k: int| 0 <= k < mix.len() && (#[trigger] mix[k]).0 == id;
            if k < before.len() {
                assert(before[k].0 == id);
                let i = choose|i: int|
                    0 <= i < front.len() && (#[trigger] front[i]).role is Musician && front[i].id
                        == id;
                assert(roster[i] == front[i]);
            } else {
                assert(roster[roster.len() - 1].id == id);
            }
        }
        if exists|i: int|
            0 <= i < roster.len() && (#[trigger] roster[i]).role is Musician && roster[i].id
                == id {
            let i = choose|i: int|
                0 <= i < roster.len() && (#[trigger] roster[i]).role is Musician && roster[i].id
                    == id;
            if i < front.len() {
                assert(front[i] == roster[i]);
                let k = choose|k: int| 0 <= k < before.len() && (#[trigger] before[k]).0 == id;
                assert(mix[k].0 == id);
            } else {
                assert(mix[mix.len() - 1].0 == id);
            }
        }
    }
}

/// Nothing is claimed of the stream, the take, the roster or the chat before
/// the server has said it: no command shows in any of them by itself.
pub proof fn nothing_is_claimed_before_the_server_says(m: LiveModel, cmd: CommandModel)
    ensures
        shown_live(told(m, cmd)).stream == shown_live(m).stream,
        shown_live(told(m, cmd)).record == shown_live(m).record,
        shown_live(told(m, cmd)).chat == shown_live(m).chat,
        shown_live(told(m, cmd)).stats == shown_live(m).stats,
        told(m, cmd).roster == m.roster,
{
}

/// A session that has ended stays ended, whatever the core still reports.
pub proof fn idle_is_terminal(m: LiveModel, figures: ClientFigures)
    requires
        m.stats.state is Idle,
    ensures
        published(m, figures).stats.state is Idle,
{
}

/// Dropping your avatar hides it on your own strip and nowhere else, and
/// setting one brings back what the roster shows.
pub proof fn dropping_your_avatar_is_local(m: LiveModel, bytes: Seq<u8>, i: int)
    requires
        0 <= i < m.roster.len(),
    ensures
        ({
            let dropped = told(m, CommandModel::SetOwnAvatar(None));
            let set = told(dropped, CommandModel::SetOwnAvatar(Some(bytes)));
            &&& m.me == Some(m.roster[i].id) ==> shown_live(dropped).members[i].avatar is None
            &&& m.me != Some(m.roster[i].id) ==> shown_live(dropped).members[i]
                == shown_live(m).members[i]
            &&& !m.own_dropped ==> shown_live(set) == shown_live(m)
        }),
{
    let dropped = told(m, CommandModel::SetOwnAvatar(None));
    let set = told(dropped, CommandModel::SetOwnAvatar(Some(bytes)));
    if !m.own_dropped {
        assert(set =~= m);
    }
}

/// A member who left takes their picture with them: after a tick's events, no
/// avatar is kept that the roster does not point at.
pub proof fn a_member_who_left_takes_their_picture(
    m: LiveModel,
    events: Seq<EventModel>,
    now_ms: u64,
    member_id: Option<MemberId>,
)
    requires
        events.len() > 0,
    ensures
        forall|i: int|
            0 <= i < drained(m, events, now_ms, member_id).avatars.len() ==> wanted(
                drained(m, events, now_ms, member_id).roster,
                (#[trigger] drained(m, events, now_ms, member_id).avatars[i]).hash,
            ),
{
    let after = after_events(m, events, now_ms, member_id);
    lemma_kept_is_wanted(after.avatars, after.roster);
}

proof fn lemma_kept_is_wanted(avatars: Seq<AvatarModel>, roster: Seq<InfoModel>)
    ensures
        forall|i: int|
            0 <= i < kept_avatars(avatars, roster).len() ==> wanted(
                roster,
                (#[trigger] kept_avatars(avatars, roster)[i]).hash,
            ),
    decreases avatars.len(),
{
    if avatars.len() > 0 {
        lemma_kept_is_wanted(avatars.drop_last(), roster);
        let before = kept_avatars(avatars.drop_last(), roster);
        let kept = kept_avatars(avatars, roster);
        assert forall|i: int| 0 <= i < kept.len() implies wanted(
            roster,
            (#[trigger] kept[i]).hash,
        ) by {
            if i < before.len() {
                assert(kept[i] == before[i]);
            }
        }
    }
}

/// A picture is decoded once per content hash: whatever it came to, the hash
/// does not have to be decoded again, and a picture that did decode is the one
/// that is shown.
pub proof fn a_picture_is_decoded_once(
    m: LiveModel,
    hash: Seq<char>,
    bytes: Seq<u8>,
    decoded: Result<AvatarModel, AvatarErrorModel>,
)
    requires
        undecoded(m, hash),
        decode_may_be(hash, bytes, decoded),
    ensures
        !undecoded(after_decode(m, hash, decoded), hash),
        decoded matches Ok(handle) ==> picture_of(after_decode(m, hash, decoded).avatars, hash)
            == Some(handle),
{
    let next = after_decode(m, hash, decoded);
    match decoded {
        Ok(handle) => {
            lemma_place(m.avatars, hash);
            let all = next.avatars;
            assert forall|i: int| 0 <= i < m.avatars.len() implies (#[trigger] all[i]).hash
                != hash by {
                assert(all[i] == m.avatars[i]);
            }
            lemma_place_is(all, hash, m.avatars.len() as int);
        },
        Err(_) => {
            assert(next.avatar_failed[m.avatar_failed.len() as int] == hash);
        },
    }
}

} // verus!
