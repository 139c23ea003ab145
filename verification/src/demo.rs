//! A lively deterministic fake session. Everything animated is a function of a
//! frame counter, so a fixture freezes the counter and a demo run lets it go.
//! No randomness, no wall clock.
//!
//! The waveforms behind the meters and the portraits of the two members who
//! have one are drawn elsewhere and handed in.

use vstd::prelude::*;

use crate::avatar::{decode, decode_may_be, AvatarErrorModel};
use crate::model::{
    AvatarModel, BroadcastModel, ChatModel, CommandModel, ConnModel, DestinationModel,
    DestinationStateModel, MemberModel, ReadinessModel, RecordModel, RecordStateModel,
    SnapshotModel, StatsModel, StreamModel,
};
use crate::runtime::{
    bytes_model, AudioFaultView, AvatarHandle, BroadcastReadiness, BroadcastView, ChatLine, Command, ConnState,
    CostView, DestinationId, DestinationState, DestinationView, DeviceModeView, FaderView,
    LevelsView, MemberId, MemberView, MetronomeView, RateOutcomesView, RecordState, RecordView,
    Role, Runtime, Snapshot, StatsView, StreamPlatform, StreamView, TokenId,
};
use crate::single::Single;
use crate::text::{decimal, push_decimal, trim, trimmed};

verus! {

/// The frame fixtures freeze at; chosen so meters sit mid-scale.
pub const FROZEN_FRAME: u64 = 1234;
pub const HOURLY_MICROUSD: u64 = 16_800;
/// Elapsed time the demo session pretends to have before frame zero.
pub const BASE_ELAPSED_SECS: u64 = 47 * 60 + 12;

/// The figures that move with the frame counter.
#[derive(Debug, Clone, Copy, PartialEq, Eq, Structural)]
pub struct DemoFigures {
    pub levels: LevelsView,
    pub rtt_ms: Single,
    pub mouth_to_ear_ms: Single,
}

/// What the demo shows that is drawn or configured elsewhere.
pub struct DemoArt {
    /// What the encoder is configured for.
    pub bitrate_kbps: u32,
    /// The portrait of the member called Ana, wide, and of Ben, square.
    pub ana: AvatarHandle,
    pub ben: AvatarHandle,
    /// The figures to begin with.
    pub figures: DemoFigures,
}

pub struct DemoMember {
    pub id: u16,
    pub name: String,
    pub role: Role,
    pub fader: FaderView,
    /// The member's fader in the broadcast mix; host snapshots only.
    pub bcast: FaderView,
    /// Decoded pixels, as the live runtime would hand them over.
    pub avatar: Option<AvatarHandle>,
}

/// A configured destination, as the demo's stand-in server tracks it. There is
/// deliberately no key: the demo takes the key it is sent and drops it on the
/// spot.
pub struct DemoDestination {
    pub id: DestinationId,
    pub platform: StreamPlatform,
    pub state: DestinationState,
    pub dropped_frames: u64,
    pub repeated_frames: u64,
}

pub struct DemoRuntime {
    pub frame: u64,
    pub members: Vec<DemoMember>,
    pub extra_chat: Vec<ChatLine>,
    pub metronome: MetronomeView,
    pub revoked: Vec<u16>,
    /// Members the roster no longer counts as present.
    pub away: Vec<u16>,
    /// Members the roster reports as quiet: connected, seat held, nothing
    /// heard from them lately.
    pub quiet: Vec<u16>,
    pub left: bool,
    pub audition: bool,
    pub hear_self: bool,
    pub destinations: Vec<DemoDestination>,
    pub readiness: Option<BroadcastReadiness>,
    pub record: RecordView,
    pub device_error: Option<String>,
    pub device_mode: Option<DeviceModeView>,
    pub rate: Option<RateOutcomesView>,
    pub crackling: bool,
    pub uplink_loss_pct: Single,
    pub downlink_loss_pct: Single,
    pub audio_fault: Option<AudioFaultView>,
    /// Your own display name, as [`Command::SetOwnName`] set it.
    pub own_name: Option<String>,
    pub bitrate_kbps: u32,
    pub figures: DemoFigures,
    pub is_host: bool,
    pub frozen: bool,
}

// ---------------------------------------------------------------------- models

#[verifier::ext_equal]
pub struct DemoMemberModel {
    pub id: u16,
    pub name: Seq<char>,
    pub role: Role,
    pub fader: FaderView,
    pub bcast: FaderView,
    pub avatar: Option<AvatarModel>,
}

impl DeepView for DemoMember {
    type V = DemoMemberModel;

    open spec fn deep_view(&self) -> DemoMemberModel {
        DemoMemberModel {
            id: self.id,
            name: self.name@,
            role: self.role,
            fader: self.fader,
            bcast: self.bcast,
            avatar: self.avatar.deep_view(),
        }
    }
}

#[verifier::ext_equal]
pub struct DemoDestinationModel {
    pub id: DestinationId,
    pub platform: StreamPlatform,
    pub state: DestinationStateModel,
    pub dropped_frames: u64,
    pub repeated_frames: u64,
}

impl DeepView for DemoDestination {
    type V = DemoDestinationModel;

    open spec fn deep_view(&self) -> DemoDestinationModel {
        DemoDestinationModel {
            id: self.id,
            platform: self.platform,
            state: self.state.deep_view(),
            dropped_frames: self.dropped_frames,
            repeated_frames: self.repeated_frames,
        }
    }
}

#[verifier::ext_equal]
pub struct DemoModel {
    pub frame: u64,
    pub members: Seq<DemoMemberModel>,
    pub extra_chat: Seq<ChatModel>,
    pub metronome: MetronomeView,
    pub revoked: Seq<u16>,
    pub away: Seq<u16>,
    pub quiet: Seq<u16>,
    pub left: bool,
    pub audition: bool,
    pub hear_self: bool,
    pub destinations: Seq<DemoDestinationModel>,
    pub readiness: Option<ReadinessModel>,
    pub record: RecordModel,
    pub device_error: Option<Seq<char>>,
    pub device_mode: Option<DeviceModeView>,
    pub rate: Option<RateOutcomesView>,
    pub crackling: bool,
    pub uplink_loss_pct: Single,
    pub downlink_loss_pct: Single,
    pub audio_fault: Option<AudioFaultView>,
    pub own_name: Option<Seq<char>>,
    pub bitrate_kbps: u32,
    pub figures: DemoFigures,
    pub is_host: bool,
    pub frozen: bool,
}

impl DeepView for DemoRuntime {
    type V = DemoModel;

    open spec fn deep_view(&self) -> DemoModel {
        DemoModel {
            frame: self.frame,
            members: self.members.deep_view(),
            extra_chat: self.extra_chat.deep_view(),
            metronome: self.metronome,
            revoked: self.revoked@,
            away: self.away@,
            quiet: self.quiet@,
            left: self.left,
            audition: self.audition,
            hear_self: self.hear_self,
            destinations: self.destinations.deep_view(),
            readiness: self.readiness.deep_view(),
            record: self.record.deep_view(),
            device_error: self.device_error.deep_view(),
            device_mode: self.device_mode,
            rate: self.rate,
            crackling: self.crackling,
            uplink_loss_pct: self.uplink_loss_pct,
            downlink_loss_pct: self.downlink_loss_pct,
            audio_fault: self.audio_fault,
            own_name: self.own_name.deep_view(),
            bitrate_kbps: self.bitrate_kbps,
            figures: self.figures,
            is_host: self.is_host,
            frozen: self.frozen,
        }
    }
}

// ------------------------------------------------------------------- the clock

/// How long the session pretends to have run.
pub open spec fn elapsed_secs(frame: u64) -> int {
    BASE_ELAPSED_SECS + frame as int / 60
}

/// Whether the meter of that moment is inside what the machine counts.
pub open spec fn counts(frame: u64) -> bool {
    HOURLY_MICROUSD * elapsed_secs(frame) <= u64::MAX
}

// ------------------------------------------------------------ what it shows

/// Your strip carries the name you set; everybody else's the one they have.
pub open spec fn name_shown(m: DemoModel, member: DemoMemberModel) -> Seq<char> {
    if m.own_name is Some && member.id == 0 {
        m.own_name->0
    } else {
        member.name
    }
}

/// The demo token is the member id repeated.
pub open spec fn token_of(id: u16) -> Seq<u8> {
    Seq::new(16, |i: int| id as u8)
}

/// One member's strip. Never quiet while away: the server clears the one when
/// it gives up on a member.
pub open spec fn strip(m: DemoModel, member: DemoMemberModel) -> MemberModel {
    MemberModel {
        id: MemberId(member.id),
        name: name_shown(m, member),
        role: member.role,
        connected: !m.away.contains(member.id),
        quiet: !m.away.contains(member.id) && m.quiet.contains(member.id),
        is_you: member.id == 0,
        fader: member.fader,
        token: if m.is_host {
            Some(token_of(member.id))
        } else {
            None
        },
        avatar: member.avatar,
    }
}

/// The strips of the members who have not been revoked, in order.
pub open spec fn strips(m: DemoModel, members: Seq<DemoMemberModel>) -> Seq<MemberModel>
    decreases members.len(),
{
    if members.len() == 0 {
        Seq::empty()
    } else if m.revoked.contains(members.last().id) {
        strips(m, members.drop_last())
    } else {
        strips(m, members.drop_last()).push(strip(m, members.last()))
    }
}

/// The broadcast faders: one for each musician, in order.
pub open spec fn bcast_faders(members: Seq<DemoMemberModel>) -> Seq<(MemberId, FaderView)>
    decreases members.len(),
{
    if members.len() == 0 {
        Seq::empty()
    } else if members.last().role is Musician {
        bcast_faders(members.drop_last()).push((MemberId(members.last().id), members.last().bcast))
    } else {
        bcast_faders(members.drop_last())
    }
}

/// A destination as the server would report it.
pub open spec fn destination_shown(m: DemoModel, d: DemoDestinationModel) -> DestinationModel {
    DestinationModel {
        id: d.id,
        platform: d.platform,
        state: d.state,
        bitrate_kbps: m.bitrate_kbps,
        dropped_frames: d.dropped_frames,
        repeated_frames: d.repeated_frames,
    }
}

pub open spec fn line(id: u16, name: Seq<char>, text: Seq<char>, at_ms: u64) -> ChatModel {
    ChatModel { from_name: name, from_id: MemberId(id), text, at_ms }
}

/// What was said before the demo began.
pub open spec fn script() -> Seq<ChatModel> {
    seq![
        line(1, "Ana"@, "tuning up, one minute"@, 12_000),
        line(2, "Ben"@, "click at 112 works for me"@, 41_000),
        line(0, "Sam"@, "same, keeping it at 112"@, 55_000),
        line(3, "Mira"@, "my monitor mix is a bit bass heavy, fixing"@, 93_000),
        line(4, "Lea"@, "sounds great from the listener side"@, 140_000),
        line(1, "Ana"@, "take it from the bridge?"@, 171_000),
    ]
}

/// The connection, from the one flag that decides it.
pub open spec fn conn_shown(m: DemoModel) -> ConnModel {
    if m.left {
        ConnModel::Idle
    } else {
        ConnModel::Joined
    }
}

/// What the demo shows as it stands.
pub open spec fn shown_by(m: DemoModel) -> SnapshotModel {
    SnapshotModel {
        stats: StatsModel {
            state: conn_shown(m),
            rtt_ms: Some(m.figures.rtt_ms),
            jitter_depth: (3 + (m.frame / 240) % 2) as usize,
            jitter_target: 4,
            uplink_loss_pct: Some(m.uplink_loss_pct),
            downlink_loss_pct: Some(m.downlink_loss_pct),
            mouth_to_ear_ms: Some(m.figures.mouth_to_ear_ms),
            device_mode: m.device_mode,
            rate: m.rate,
            crackling: m.crackling,
            playout_low_frames: None,
            wake: None,
            cutting_out: None,
        },
        members: strips(m, m.members),
        chat: script() + m.extra_chat,
        levels: m.figures.levels,
        metronome: m.metronome,
        broadcast: if m.is_host {
            Some(BroadcastModel { faders: bcast_faders(m.members), audition: m.audition })
        } else {
            None
        },
        stream: StreamModel {
            destinations: Seq::new(
                m.destinations.len(),
                |i: int| destination_shown(m, m.destinations[i]),
            ),
            readiness: m.readiness,
        },
        record: m.record,
        cost: if m.is_host {
            Some(
                CostView {
                    hourly_microusd: HOURLY_MICROUSD,
                    accrued_microusd: (HOURLY_MICROUSD * elapsed_secs(m.frame) / 3600) as u64,
                    elapsed_secs: elapsed_secs(m.frame) as u64,
                },
            )
        } else {
            None
        },
        hear_self: m.hear_self,
        offer_hear_self: false,
        session_short: "a3f29c41"@,
        server_addr: "203.0.113.10:43210"@,
        is_host: m.is_host,
        device_error: m.device_error,
        audio_fault: m.audio_fault,
    }
}

// ------------------------------------------------------- what a command changes

/// Where the member of that number sits; past the end where there is none.
pub open spec fn seat_of(members: Seq<DemoMemberModel>, id: u16) -> int
    decreases members.len(),
{
    if members.len() == 0 {
        0
    } else if members[0].id == id {
        0
    } else {
        1 + seat_of(members.drop_first(), id)
    }
}

pub open spec fn with_fader(members: Seq<DemoMemberModel>, id: u16, fader: FaderView) -> Seq<
    DemoMemberModel,
> {
    let i = seat_of(members, id);
    if i < members.len() {
        members.update(i, DemoMemberModel { fader, ..members[i] })
    } else {
        members
    }
}

pub open spec fn with_bcast(members: Seq<DemoMemberModel>, id: u16, bcast: FaderView) -> Seq<
    DemoMemberModel,
> {
    let i = seat_of(members, id);
    if i < members.len() {
        members.update(i, DemoMemberModel { bcast, ..members[i] })
    } else {
        members
    }
}

pub open spec fn with_avatar(
    members: Seq<DemoMemberModel>,
    id: u16,
    avatar: Option<AvatarModel>,
) -> Seq<DemoMemberModel> {
    let i = seat_of(members, id);
    if i < members.len() {
        members.update(i, DemoMemberModel { avatar, ..members[i] })
    } else {
        members
    }
}

/// The destinations but those of that number, in order.
pub open spec fn without(destinations: Seq<DemoDestinationModel>, id: DestinationId) -> Seq<
    DemoDestinationModel,
>
    decreases destinations.len(),
{
    if destinations.len() == 0 {
        Seq::empty()
    } else if destinations.last().id == id {
        without(destinations.drop_last(), id)
    } else {
        without(destinations.drop_last(), id).push(destinations.last())
    }
}

/// Whether a broadcast is running: something is past idle.
pub open spec fn streaming(destinations: Seq<DemoDestinationModel>) -> bool {
    exists|i: int|
        0 <= i < destinations.len() && (#[trigger] destinations[i]).state !is Idle
}

/// A destination as it is added. Added mid-broadcast, it joins the running
/// encode; added before one, it waits.
pub open spec fn added(
    destinations: Seq<DemoDestinationModel>,
    id: DestinationId,
    platform: StreamPlatform,
) -> Seq<DemoDestinationModel> {
    let others = without(destinations, id);
    others.push(
        DemoDestinationModel {
            id,
            platform,
            state: if streaming(others) {
                DestinationStateModel::Live
            } else {
                DestinationStateModel::Idle
            },
            dropped_frames: 0,
            repeated_frames: 0,
        },
    )
}

pub open spec fn all_live(destinations: Seq<DemoDestinationModel>) -> Seq<DemoDestinationModel> {
    Seq::new(
        destinations.len(),
        |i: int| DemoDestinationModel { state: DestinationStateModel::Live, ..destinations[i] },
    )
}

pub open spec fn all_idle(destinations: Seq<DemoDestinationModel>) -> Seq<DemoDestinationModel> {
    Seq::new(
        destinations.len(),
        |i: int|
            DemoDestinationModel {
                state: DestinationStateModel::Idle,
                dropped_frames: 0,
                repeated_frames: 0,
                ..destinations[i]
            },
    )
}

/// The demo after a command that it answers by itself.
pub open spec fn step(m: DemoModel, cmd: CommandModel) -> DemoModel {
    match cmd {
        CommandModel::SetFader { member, fader } => DemoModel {
            members: with_fader(m.members, member.0, fader),
            ..m
        },
        CommandModel::SetClick(on) => DemoModel {
            metronome: MetronomeView { you_hear_click: on, ..m.metronome },
            ..m
        },
        CommandModel::SetMetronome { bpm, beats_per_bar, enabled } => DemoModel {
            metronome: MetronomeView { bpm, beats_per_bar, enabled, ..m.metronome },
            ..m
        },
        CommandModel::SendChat(text) => DemoModel {
            extra_chat: m.extra_chat.push(
                line(0, "Sam"@, text, (elapsed_secs(m.frame) * 1000) as u64),
            ),
            ..m
        },
        CommandModel::Leave => DemoModel { left: true, ..m },
        CommandModel::Revoke(jti) => DemoModel {
            revoked: if m.revoked.contains(jti[0] as u16) {
                m.revoked
            } else {
                m.revoked.push(jti[0] as u16)
            },
            ..m
        },
        CommandModel::SetBroadcastFader { member, fader } => DemoModel {
            members: with_bcast(m.members, member.0, fader),
            ..m
        },
        CommandModel::SetBroadcastAudition(on) => DemoModel { audition: on, ..m },
        CommandModel::SetHearSelf(on) => DemoModel { hear_self: on, ..m },
        CommandModel::SetOwnAvatar(bytes) => m,
        CommandModel::SetOwnName(name) => DemoModel {
            own_name: if trimmed(name).len() > 0 {
                Some(trimmed(name))
            } else {
                m.own_name
            },
            ..m
        },
        CommandModel::AddDestination { id, platform, key } => DemoModel {
            destinations: added(m.destinations, id, platform),
            ..m
        },
        CommandModel::RemoveDestination(id) => DemoModel {
            destinations: without(m.destinations, id),
            ..m
        },
        CommandModel::StartStream => DemoModel { destinations: all_live(m.destinations), ..m },
        CommandModel::StopStream => DemoModel { destinations: all_idle(m.destinations), ..m },
        CommandModel::StartRecord => DemoModel {
            record: RecordModel { state: RecordStateModel::Recording, ..m.record },
            ..m
        },
        CommandModel::StopRecord => DemoModel {
            record: RecordModel { state: RecordStateModel::Idle, ..m.record },
            ..m
        },
    }
}

/// The key of a picture of your own.
pub open spec fn own_key(bytes: Seq<u8>) -> Seq<char> {
    "own-"@ + decimal(bytes.len())
}

/// What decoding leaves to show: the picture, or none.
pub open spec fn picture_from(decoded: Result<AvatarModel, AvatarErrorModel>) -> Option<
    AvatarModel,
> {
    match decoded {
        Ok(picture) => Some(picture),
        Err(_) => None,
    }
}

/// The picture raw bytes become on your own strip: whatever they decode to,
/// and none where they do not or there are none.
pub open spec fn own_picture(bytes: Option<Seq<u8>>, avatar: Option<AvatarModel>) -> bool {
    if bytes is None {
        avatar is None
    } else {
        exists|decoded: Result<AvatarModel, AvatarErrorModel>|
            avatar == picture_from(decoded) && #[trigger] decode_may_be(
                own_key(bytes->0),
                bytes->0,
                decoded,
            )
    }
}

/// Whether `next` is what the demo becomes by taking a command.
pub open spec fn takes_to(m: DemoModel, cmd: CommandModel, next: DemoModel) -> bool {
    match cmd {
        CommandModel::SetOwnAvatar(bytes) => exists|avatar: Option<AvatarModel>| #[trigger]
            own_picture(bytes, avatar) && next == (DemoModel {
                members: with_avatar(m.members, 0, avatar),
                ..m
            }),
        _ => next == step(m, cmd),
    }
}

// ------------------------------------------------------------------ helpers

proof fn lemma_seat_of(members: Seq<DemoMemberModel>, id: u16)
    ensures
        0 <= seat_of(members, id) <= members.len(),
        seat_of(members, id) < members.len() ==> members[seat_of(members, id)].id == id,
        forall|i: int| 0 <= i < seat_of(members, id) ==> (#[trigger] members[i]).id != id,
    decreases members.len(),
{
    if members.len() > 0 && members[0].id != id {
        let tail = members.drop_first();
        lemma_seat_of(tail, id);
        assert forall|i: int| 0 <= i < seat_of(members, id) implies (#[trigger] members[i]).id
            != id by {
            if i > 0 {
                assert(tail[i - 1] == members[i]);
            }
        }
    }
}

proof fn lemma_seat_is(members: Seq<DemoMemberModel>, id: u16, at: int)
    requires
        0 <= at <= members.len(),
        at < members.len() ==> members[at].id == id,
        forall|i: int| 0 <= i < at ==> (#[trigger] members[i]).id != id,
    ensures
        seat_of(members, id) == at,
{
    lemma_seat_of(members, id);
    let s = seat_of(members, id);
    if s < at {
        assert(members[s].id != id);
    }
    if at < s {
        assert(members[at].id != id);
    }
}

fn seat(members: &Vec<DemoMember>, id: u16) -> (at: usize)
    ensures
        at == seat_of(members.deep_view(), id),
        at <= members@.len(),
{
    let mut at: usize = 0;
    while at < members.len() && members[at].id != id
        invariant
            at <= members@.len(),
            forall|i: int| 0 <= i < at ==> (#[trigger] members.deep_view()[i]).id != id,
        decreases members.len() - at,
    {
        at += 1;
    }
    proof {
        lemma_seat_is(members.deep_view(), id, at as int);
    }
    at
}

fn holds(ids: &Vec<u16>, id: u16) -> (b: bool)
    ensures
        b == ids@.contains(id),
{
    let mut i: usize = 0;
    while i < ids.len()
        invariant
            i <= ids@.len(),
            forall|j: int| 0 <= j < i ==> ids@[j] != id,
        decreases ids.len() - i,
    {
        if ids[i] == id {
            return true;
        }
        i += 1;
    }
    false
}

/// The numbers but that one, in order.
pub open spec fn dropping(ids: Seq<u16>, id: u16) -> Seq<u16>
    decreases ids.len(),
{
    if ids.len() == 0 {
        Seq::empty()
    } else if ids.last() == id {
        dropping(ids.drop_last(), id)
    } else {
        dropping(ids.drop_last(), id).push(ids.last())
    }
}

/// The numbers once one has been set or cleared.
pub open spec fn set_in(ids: Seq<u16>, id: u16, on: bool) -> Seq<u16> {
    if on {
        dropping(ids, id).push(id)
    } else {
        dropping(ids, id)
    }
}

fn set_member(ids: &Vec<u16>, id: u16, on: bool) -> (r: Vec<u16>)
    ensures
        r@ == set_in(ids@, id, on),
{
    let mut r: Vec<u16> = Vec::new();
    let mut i: usize = 0;
    while i < ids.len()
        invariant
            i <= ids@.len(),
            r@ == dropping(ids@.take(i as int), id),
        decreases ids.len() - i,
    {
        assert(ids@.take(i + 1).drop_last() =~= ids@.take(i as int));
        if ids[i] != id {
            r.push(ids[i]);
        }
        i += 1;
    }
    assert(ids@.take(i as int) =~= ids@);
    if on {
        r.push(id);
    }
    r
}

fn remove_destination(destinations: &mut Vec<DemoDestination>, id: DestinationId)
    ensures
        final(destinations).deep_view() == without(old(destinations).deep_view(), id),
{
    let ghost before = destinations.deep_view();
    let mut i: usize = 0;
    let ghost mut seen: int = 0;
    assert(before.take(0) =~= Seq::empty());
    assert(destinations.deep_view().take(0) =~= Seq::empty());
    assert(destinations.deep_view().skip(0) =~= before.skip(0));
    while i < destinations.len()
        invariant
            i <= destinations@.len(),
            0 <= seen <= before.len(),
            destinations.deep_view().take(i as int) == without(before.take(seen), id),
            destinations.deep_view().skip(i as int) == before.skip(seen),
        decreases destinations.len() - i,
    {
        let ghost now = destinations.deep_view();
        assert(now.skip(i as int).len() == before.skip(seen).len());
        assert(now.skip(i as int)[0] == before.skip(seen)[0]);
        assert(before.take(seen + 1).drop_last() =~= before.take(seen));
        if destinations[i].id == id {
            destinations.remove(i);
            assert(destinations.deep_view().take(i as int) =~= now.take(i as int));
            assert(destinations.deep_view().skip(i as int) =~= now.skip(i as int).skip(1));
            assert(before.skip(seen).skip(1) =~= before.skip(seen + 1));
        } else {
            assert(now.take(i + 1) =~= now.take(i as int).push(now[i as int]));
            assert(now.skip(i + 1) =~= now.skip(i as int).skip(1));
            assert(before.skip(seen).skip(1) =~= before.skip(seen + 1));
            i += 1;
        }
        proof {
            seen = seen + 1;
        }
    }
    assert(destinations.deep_view().skip(i as int).len() == 0);
    assert(before.take(seen) =~= before);
    assert(destinations.deep_view().take(i as int) =~= destinations.deep_view());
}

proof fn lemma_own_picture(bytes: Seq<u8>, decoded: Result<AvatarModel, AvatarErrorModel>)
    requires
        decode_may_be(own_key(bytes), bytes, decoded),
    ensures
        own_picture(Some(bytes), picture_from(decoded)),
{
    let given = Some(bytes);
    assert(decode_may_be(own_key(given->0), given->0, decoded));
}

fn is_streaming(destinations: &Vec<DemoDestination>) -> (b: bool)
    ensures
        b == streaming(destinations.deep_view()),
{
    let mut i: usize = 0;
    while i < destinations.len()
        invariant
            i <= destinations@.len(),
            forall|j: int|
                0 <= j < i ==> (#[trigger] destinations.deep_view()[j]).state is Idle,
        decreases destinations.len() - i,
    {
        let idle = match destinations[i].state {
            DestinationState::Idle => true,
            _ => false,
        };
        if !idle {
            assert(destinations.deep_view()[i as int].state !is Idle);
            return true;
        }
        i += 1;
    }
    false
}

// ------------------------------------------------------------------ the runtime

pub open spec fn fader_of(gain: u32, pan: u32, muted: bool) -> FaderView {
    FaderView { gain_db: Single { bits: gain }, pan: Single { bits: pan }, muted }
}

fn fv(gain: u32, pan: u32, muted: bool) -> (f: FaderView)
    ensures
        f == fader_of(gain, pan, muted),
{
    FaderView { gain_db: Single { bits: gain }, pan: Single { bits: pan }, muted }
}

pub open spec fn seated(
    id: u16,
    name: Seq<char>,
    role: Role,
    fader: FaderView,
    bcast: FaderView,
    avatar: Option<AvatarModel>,
) -> DemoMemberModel {
    DemoMemberModel { id, name, role, fader, bcast, avatar }
}

fn sit(
    id: u16,
    name: &str,
    role: Role,
    fader: FaderView,
    bcast: FaderView,
    avatar: Option<AvatarHandle>,
) -> (m: DemoMember)
    ensures
        m.deep_view() == seated(id, name@, role, fader, bcast, avatar.deep_view()),
{
    DemoMember { id, name: name.to_owned(), role, fader, bcast, avatar }
}

/// The five who are always there: four musicians, one of them muted, and a
/// listener. The gains and pans are, in order, unity and centered with -1 in
/// the broadcast; -3 and -0.4 with -2 and -0.3; -1.5 and 0.3 with -4.5 and
/// 0.35; -6 with -12, both muted.
pub open spec fn band(ana: AvatarModel, ben: AvatarModel) -> Seq<DemoMemberModel> {
    let flat = FaderView::flat_fader();
    seq![
        seated(0, "Sam"@, Role::Musician, flat, fader_of(0xbf80_0000, 0, false), None),
        seated(
            1,
            "Ana"@,
            Role::Musician,
            fader_of(0xc040_0000, 0xbecc_cccd, false),
            fader_of(0xc000_0000, 0xbe99_999a, false),
            Some(ana),
        ),
        seated(
            2,
            "Ben"@,
            Role::Musician,
            fader_of(0xbfc0_0000, 0x3e99_999a, false),
            fader_of(0xc090_0000, 0x3eb3_3333, false),
            Some(ben),
        ),
        seated(
            3,
            "Mira"@,
            Role::Musician,
            fader_of(0xc0c0_0000, 0, true),
            fader_of(0xc140_0000, 0, true),
            None,
        ),
        seated(4, "Lea"@, Role::Listener, flat, flat, None),
    ]
}

/// The six musicians who fill the stage, with their gains and pans: -2 and
/// 0.2, -4.5 and -0.6, 1.5 and 0, -9 and 0.5 muted, -0.5 and -0.2, -12 and 0.
pub open spec fn more_musicians() -> Seq<DemoMemberModel> {
    let flat = FaderView::flat_fader();
    seq![
        seated(5, "Theo"@, Role::Musician, fader_of(0xc000_0000, 0x3e4c_cccd, false), flat, None),
        seated(6, "Ivy"@, Role::Musician, fader_of(0xc090_0000, 0xbf19_999a, false), flat, None),
        seated(7, "Noor"@, Role::Musician, fader_of(0x3fc0_0000, 0, false), flat, None),
        seated(8, "Kai"@, Role::Musician, fader_of(0xc110_0000, 0x3f00_0000, true), flat, None),
        seated(9, "Zoe"@, Role::Musician, fader_of(0xbf00_0000, 0xbe4c_cccd, false), flat, None),
        seated(10, "Raul"@, Role::Musician, fader_of(0xc140_0000, 0, false), flat, None),
    ]
}

/// The nine listeners who fill the room.
pub open spec fn more_listeners() -> Seq<DemoMemberModel> {
    let flat = FaderView::flat_fader();
    seq![
        seated(11, "Omar"@, Role::Listener, flat, flat, None),
        seated(12, "Pia"@, Role::Listener, flat, flat, None),
        seated(13, "Finn"@, Role::Listener, flat, flat, None),
        seated(14, "Nia"@, Role::Listener, flat, flat, None),
        seated(15, "Eli"@, Role::Listener, flat, flat, None),
        seated(16, "Rosa"@, Role::Listener, flat, flat, None),
        seated(17, "Jun"@, Role::Listener, flat, flat, None),
        seated(18, "Ada"@, Role::Listener, flat, flat, None),
        seated(19, "Max"@, Role::Listener, flat, flat, None),
    ]
}

/// The full house: the musicians in front of the listener who was there, and
/// the other listeners behind.
pub open spec fn full_house(ana: AvatarModel, ben: AvatarModel) -> Seq<DemoMemberModel> {
    band(ana, ben).take(4) + more_musicians() + band(ana, ben).skip(4) + more_listeners()
}

/// The demo as it opens. The losses are none up and 0.2 down.
pub open spec fn opened(
    is_host: bool,
    frame: u64,
    frozen: bool,
    bitrate_kbps: u32,
    ana: AvatarModel,
    ben: AvatarModel,
    figures: DemoFigures,
) -> DemoModel {
    DemoModel {
        frame,
        members: band(ana, ben),
        extra_chat: Seq::empty(),
        metronome: MetronomeView {
            bpm: 112,
            beats_per_bar: 4,
            enabled: true,
            you_hear_click: true,
        },
        revoked: Seq::empty(),
        away: Seq::empty(),
        quiet: Seq::empty(),
        left: false,
        audition: false,
        hear_self: false,
        destinations: Seq::empty(),
        readiness: None,
        record: RecordModel { state: RecordStateModel::Idle, stems: false },
        device_error: None,
        device_mode: None,
        rate: None,
        crackling: false,
        uplink_loss_pct: Single { bits: 0 },
        downlink_loss_pct: Single { bits: 0x3e4c_cccd },
        audio_fault: None,
        own_name: None,
        bitrate_kbps,
        figures,
        is_host,
        frozen,
    }
}

/// A name at the protocol's cap of 64 characters, and another.
pub open spec fn long_name_a() -> Seq<char> {
    "Bartholomew Alexander Montgomery Fitzgerald Oyelaran-Wieczorek I"@
}

pub open spec fn long_name_b() -> Seq<char> {
    "Anastasia Wilhelmina Barrington-Smythe of the Greater Hebrides I"@
}

pub open spec fn long_line() -> ChatModel {
    line(
        1,
        long_name_a(),
        "the monitor mix on my end could use a little less low end between 80 and 120 Hz, and maybe a touch more of the click track, if anyone has a hand free before the next take"@,
        200_000,
    )
}

impl DemoRuntime {
    fn build(is_host: bool, frame: u64, frozen: bool, art: DemoArt) -> (rt: DemoRuntime)
        requires
            counts(frame),
        ensures
            rt.wf(),
            rt.deep_view() == opened(
                is_host,
                frame,
                frozen,
                art.bitrate_kbps,
                art.ana.deep_view(),
                art.ben.deep_view(),
                art.figures,
            ),
    {
        let ghost ana = art.ana.deep_view();
        let ghost ben = art.ben.deep_view();
        let mut members: Vec<DemoMember> = Vec::new();
        members.push(
            sit(
                0,
                "Sam",
                Role::Musician,
                FaderView::flat(),
                fv(0xbf80_0000, 0, false),
                None,
            ),
        );
        members.push(
            sit(
                1,
                "Ana",
                Role::Musician,
                fv(0xc040_0000, 0xbecc_cccd, false),
                fv(0xc000_0000, 0xbe99_999a, false),
                Some(art.ana),
            ),
        );
        members.push(
            sit(
                2,
                "Ben",
                Role::Musician,
                fv(0xbfc0_0000, 0x3e99_999a, false),
                fv(0xc090_0000, 0x3eb3_3333, false),
                Some(art.ben),
            ),
        );
        members.push(
            sit(
                3,
                "Mira",
                Role::Musician,
                fv(0xc0c0_0000, 0, true),
                fv(0xc140_0000, 0, true),
                None,
            ),
        );
        members.push(
            sit(4, "Lea", Role::Listener, FaderView::flat(), FaderView::flat(), None),
        );
        assert(members.deep_view() =~= band(ana, ben));
        let rt = DemoRuntime {
            frame,
            members,
            extra_chat: Vec::new(),
            metronome: MetronomeView {
                bpm: 112,
                beats_per_bar: 4,
                enabled: true,
                you_hear_click: true,
            },
            revoked: Vec::new(),
            away: Vec::new(),
            quiet: Vec::new(),
            left: false,
            audition: false,
            hear_self: false,
            destinations: Vec::new(),
            readiness: None,
            record: RecordView::default(),
            device_error: None,
            device_mode: None,
            rate: None,
            crackling: false,
            uplink_loss_pct: Single::zero(),
            downlink_loss_pct: Single { bits: 0x3e4c_cccd },
            audio_fault: None,
            own_name: None,
            bitrate_kbps: art.bitrate_kbps,
            figures: art.figures,
            is_host,
            frozen,
        };
        assert(rt.extra_chat.deep_view() =~= Seq::empty());
        assert(rt.destinations.deep_view() =~= Seq::empty());
        rt
    }

    /// The host's view: cost ticker, metronome controls, revoke buttons.
    pub fn host(art: DemoArt) -> (rt: DemoRuntime)
        ensures
            rt.wf(),
            rt.deep_view() == opened(
                true,
                0,
                false,
                art.bitrate_kbps,
                art.ana.deep_view(),
                art.ben.deep_view(),
                art.figures,
            ),
    {
        DemoRuntime::build(true, 0, false, art)
    }

    /// A plain musician's view.
    pub fn musician(art: DemoArt) -> (rt: DemoRuntime)
        ensures
            rt.wf(),
            rt.deep_view() == opened(
                false,
                0,
                false,
                art.bitrate_kbps,
                art.ana.deep_view(),
                art.ben.deep_view(),
                art.figures,
            ),
    {
        DemoRuntime::build(false, 0, false, art)
    }

    /// Frozen at `frame` for fixtures; the counter never advances.
    pub fn frozen(frame: u64, is_host: bool, art: DemoArt) -> (rt: DemoRuntime)
        requires
            counts(frame),
        ensures
            rt.wf(),
            rt.deep_view() == opened(
                is_host,
                frame,
                true,
                art.bitrate_kbps,
                art.ana.deep_view(),
                art.ben.deep_view(),
                art.figures,
            ),
    {
        DemoRuntime::build(is_host, frame, true, art)
    }

    /// The design maximum: 10 musicians and 10 listeners. `frozen` freezes the
    /// frame counter for fixtures; a running instance animates.
    pub fn full(frame: u64, is_host: bool, frozen: bool, art: DemoArt) -> (rt: DemoRuntime)
        requires
            counts(frame),
        ensures
            rt.wf(),
            rt.deep_view() == (DemoModel {
                members: full_house(art.ana.deep_view(), art.ben.deep_view()),
                ..opened(
                    is_host,
                    frame,
                    frozen,
                    art.bitrate_kbps,
                    art.ana.deep_view(),
                    art.ben.deep_view(),
                    art.figures,
                )
            }),
    {
        let ghost ana = art.ana.deep_view();
        let ghost ben = art.ben.deep_view();
        let mut rt = DemoRuntime::build(is_host, frame, frozen, art);
        let ghost first = rt.members.deep_view();
        assert(first.len() == 5);
        let flat = FaderView::flat();
        let m = Role::Musician;
        rt.members.insert(4, sit(5, "Theo", m, fv(0xc000_0000, 0x3e4c_cccd, false), flat, None));
        rt.members.insert(5, sit(6, "Ivy", m, fv(0xc090_0000, 0xbf19_999a, false), flat, None));
        rt.members.insert(6, sit(7, "Noor", m, fv(0x3fc0_0000, 0, false), flat, None));
        rt.members.insert(7, sit(8, "Kai", m, fv(0xc110_0000, 0x3f00_0000, true), flat, None));
        rt.members.insert(8, sit(9, "Zoe", m, fv(0xbf00_0000, 0xbe4c_cccd, false), flat, None));
        rt.members.insert(9, sit(10, "Raul", m, fv(0xc140_0000, 0, false), flat, None));
        assert(rt.members.deep_view() =~= first.take(4) + more_musicians() + first.skip(4));
        let l = Role::Listener;
        rt.members.push(sit(11, "Omar", l, flat, flat, None));
        rt.members.push(sit(12, "Pia", l, flat, flat, None));
        rt.members.push(sit(13, "Finn", l, flat, flat, None));
        rt.members.push(sit(14, "Nia", l, flat, flat, None));
        rt.members.push(sit(15, "Eli", l, flat, flat, None));
        rt.members.push(sit(16, "Rosa", l, flat, flat, None));
        rt.members.push(sit(17, "Jun", l, flat, flat, None));
        rt.members.push(sit(18, "Ada", l, flat, flat, None));
        rt.members.push(sit(19, "Max", l, flat, flat, None));
        assert(rt.members.deep_view() =~= full_house(ana, ben));
        rt
    }

    /// Names at the 64-character protocol cap plus long chat lines; frozen.
    pub fn long_names(frame: u64, is_host: bool, art: DemoArt) -> (rt: DemoRuntime)
        requires
            counts(frame),
        ensures
            rt.wf(),
            ({
                let plain = opened(
                    is_host,
                    frame,
                    true,
                    art.bitrate_kbps,
                    art.ana.deep_view(),
                    art.ben.deep_view(),
                    art.figures,
                );
                rt.deep_view() == (DemoModel {
                    members: plain.members.update(
                        1,
                        DemoMemberModel { name: long_name_a(), ..plain.members[1] },
                    ).update(2, DemoMemberModel { name: long_name_b(), ..plain.members[2] }),
                    extra_chat: seq![long_line()],
                    ..plain
                })
            }),
    {
        let mut rt = DemoRuntime::build(is_host, frame, true, art);
        let ghost plain = rt.deep_view();
        assert(rt.members.deep_view().len() == 5);
        let a = "Bartholomew Alexander Montgomery Fitzgerald Oyelaran-Wieczorek I";
        let b = "Anastasia Wilhelmina Barrington-Smythe of the Greater Hebrides I";
        rt.members[1].name = a.to_owned();
        rt.members[2].name = b.to_owned();
        assert(rt.members.deep_view() =~= plain.members.update(
            1,
            DemoMemberModel { name: long_name_a(), ..plain.members[1] },
        ).update(2, DemoMemberModel { name: long_name_b(), ..plain.members[2] }));
        rt.extra_chat.push(
            ChatLine {
                from_name: a.to_owned(),
                from_id: MemberId(1),
                text:
                    "the monitor mix on my end could use a little less low end between 80 and 120 Hz, and maybe a touch more of the click track, if anyone has a hand free before the next take".to_owned(),
                at_ms: 200_000,
            },
        );
        assert(rt.extra_chat.deep_view() =~= seq![long_line()]);
        rt
    }

    /// Moves the frame counter on, where it is not frozen, and says where it
    /// stands.
    pub fn next_frame(&mut self) -> (frame: u64)
        requires
            old(self).wf(),
            old(self).frozen || (old(self).frame < u64::MAX && counts((old(self).frame + 1) as u64)),
        ensures
            final(self).wf(),
            frame == final(self).frame,
            final(self).deep_view() == (DemoModel {
                frame: if old(self).frozen {
                    old(self).frame
                } else {
                    (old(self).frame + 1) as u64
                },
                ..old(self).deep_view()
            }),
    {
        if !self.frozen {
            self.frame = self.frame + 1;
        }
        self.frame
    }

    /// Takes the figures that go with the frame the counter stands at.
    pub fn set_figures(&mut self, figures: DemoFigures)
        requires
            old(self).wf(),
        ensures
            final(self).wf(),
            final(self).deep_view() == (DemoModel { figures, ..old(self).deep_view() }),
    {
        self.figures = figures;
    }

    /// Pins the broadcast state, ids assigned in the given order. One encode
    /// feeds every destination, so both frame counters are one counter each:
    /// nonzero on every destination whenever anything has gone wrong at all.
    pub fn set_destinations(&mut self, entries: &Vec<(StreamPlatform, DestinationState)>)
        requires
            old(self).wf(),
        ensures
            final(self).wf(),
            final(self).deep_view() == (DemoModel {
                destinations: pinned(entries.deep_view()),
                ..old(self).deep_view()
            }),
    {
        let mut wrong = false;
        let mut i: usize = 0;
        while i < entries.len()
            invariant
                i <= entries@.len(),
                wrong == exists|j: int|
                    0 <= j < i && (#[trigger] entries.deep_view()[j]).1 is Failed,
            decreases entries.len() - i,
        {
            let failed = match &entries[i].1 {
                DestinationState::Failed { reason } => true,
                _ => false,
            };
            assert(entries.deep_view()[i as int].1 == entries@[i as int].1.deep_view());
            if failed {
                assert(entries.deep_view()[i as int].1 is Failed);
                wrong = true;
            }
            i += 1;
        }
        let repeats: u64 = if wrong {
            41
        } else {
            0
        };
        let losses: u64 = if wrong {
            3
        } else {
            0
        };
        let mut destinations: Vec<DemoDestination> = Vec::new();
        let mut i: usize = 0;
        while i < entries.len()
            invariant
                i <= entries@.len(),
                wrong == any_failed(entries.deep_view()),
                repeats == (if wrong {
                    41u64
                } else {
                    0
                }),
                losses == (if wrong {
                    3u64
                } else {
                    0
                }),
                destinations.deep_view() == pinned(entries.deep_view()).take(i as int),
            decreases entries.len() - i,
        {
            let ghost sofar = destinations.deep_view();
            destinations.push(
                DemoDestination {
                    id: DestinationId(i as u16),
                    platform: entries[i].0,
                    state: entries[i].1.clone(),
                    dropped_frames: losses,
                    repeated_frames: repeats,
                },
            );
            assert(destinations.deep_view() =~= sofar.push(destinations@.last().deep_view()));
            assert(pinned(entries.deep_view()).take(i + 1) =~= pinned(
                entries.deep_view(),
            ).take(i as int).push(pinned(entries.deep_view())[i as int]));
            i += 1;
        }
        assert(pinned(entries.deep_view()).take(i as int) =~= pinned(
            entries.deep_view(),
        ));
        self.destinations = destinations;
    }

    /// Marks one member as no longer connected, the way the roster does when
    /// somebody's client goes quiet without leaving.
    pub fn set_away(&mut self, member: u16, away: bool)
        requires
            old(self).wf(),
        ensures
            final(self).wf(),
            final(self).deep_view() == (DemoModel {
                away: set_in(old(self).away@, member, away),
                ..old(self).deep_view()
            }),
    {
        self.away = set_member(&self.away, member, away);
    }

    /// Marks one member quiet. Away wins in the snapshot rather than here,
    /// because that is where the server's own rule lives.
    pub fn set_quiet(&mut self, member: u16, quiet: bool)
        requires
            old(self).wf(),
        ensures
            final(self).wf(),
            final(self).deep_view() == (DemoModel {
                quiet: set_in(old(self).quiet@, member, quiet),
                ..old(self).deep_view()
            }),
    {
        self.quiet = set_member(&self.quiet, member, quiet);
    }

    /// Pins the reason this computer has no audio stream.
    pub fn set_device_error(&mut self, reason: Option<&str>)
        requires
            old(self).wf(),
        ensures
            final(self).wf(),
            final(self).deep_view() == (DemoModel {
                device_error: reason.deep_view(),
                ..old(self).deep_view()
            }),
    {
        self.device_error = match reason {
            Some(reason) => Some(reason.to_owned()),
            None => None,
        };
    }

    /// Pins what the audio stream is doing wrong.
    pub fn set_audio_fault(&mut self, fault: Option<AudioFaultView>)
        requires
            old(self).wf(),
        ensures
            final(self).wf(),
            final(self).deep_view() == (DemoModel { audio_fault: fault, ..old(self).deep_view() }),
    {
        self.audio_fault = fault;
    }

    /// Pins the sharing mode.
    pub fn set_device_mode(&mut self, mode: Option<DeviceModeView>)
        requires
            old(self).wf(),
        ensures
            final(self).wf(),
            final(self).deep_view() == (DemoModel { device_mode: mode, ..old(self).deep_view() }),
    {
        self.device_mode = mode;
    }

    /// Pins the rate outcomes: which rung each direction landed on and what it
    /// costs.
    pub fn set_rate(&mut self, rate: Option<RateOutcomesView>)
        requires
            old(self).wf(),
        ensures
            final(self).wf(),
            final(self).deep_view() == (DemoModel { rate, ..old(self).deep_view() }),
    {
        self.rate = rate;
    }

    /// Pins whether the session can broadcast at all.
    pub fn set_broadcast_readiness(&mut self, readiness: Option<BroadcastReadiness>)
        requires
            old(self).wf(),
        ensures
            final(self).wf(),
            final(self).deep_view() == (DemoModel {
                readiness: readiness.deep_view(),
                ..old(self).deep_view()
            }),
    {
        self.readiness = readiness;
    }

    /// Pins the recorder's reported state.
    pub fn set_record(&mut self, state: RecordState, stems: bool)
        requires
            old(self).wf(),
        ensures
            final(self).wf(),
            final(self).deep_view() == (DemoModel {
                record: RecordModel { state: state.deep_view(), stems },
                ..old(self).deep_view()
            }),
    {
        self.record = RecordView { state, stems };
    }

    /// Pins each direction's loss rate.
    pub fn set_loss(&mut self, uplink_pct: Single, downlink_pct: Single)
        requires
            old(self).wf(),
        ensures
            final(self).wf(),
            final(self).deep_view() == (DemoModel {
                uplink_loss_pct: uplink_pct,
                downlink_loss_pct: downlink_pct,
                ..old(self).deep_view()
            }),
    {
        self.uplink_loss_pct = uplink_pct;
        self.downlink_loss_pct = downlink_pct;
    }

    /// Pins whether the playout ring reads as crackling.
    pub fn set_crackling(&mut self, crackling: bool)
        requires
            old(self).wf(),
        ensures
            final(self).wf(),
            final(self).deep_view() == (DemoModel { crackling, ..old(self).deep_view() }),
    {
        self.crackling = crackling;
    }

    fn scripted_chat() -> (chat: Vec<ChatLine>)
        ensures
            chat.deep_view() == script(),
    {
        let mut chat: Vec<ChatLine> = Vec::new();
        chat.push(say(1, "Ana", "tuning up, one minute", 12_000));
        chat.push(say(2, "Ben", "click at 112 works for me", 41_000));
        chat.push(say(0, "Sam", "same, keeping it at 112", 55_000));
        chat.push(say(3, "Mira", "my monitor mix is a bit bass heavy, fixing", 93_000));
        chat.push(say(4, "Lea", "sounds great from the listener side", 140_000));
        chat.push(say(1, "Ana", "take it from the bridge?", 171_000));
        assert(chat.deep_view() =~= script());
        chat
    }
}

fn say(id: u16, name: &str, text: &str, at_ms: u64) -> (l: ChatLine)
    ensures
        l.deep_view() == line(id, name@, text@, at_ms),
{
    ChatLine { from_name: name.to_owned(), from_id: MemberId(id), text: text.to_owned(), at_ms }
}

/// Whether any destination has failed.
pub open spec fn any_failed(entries: Seq<(StreamPlatform, DestinationStateModel)>) -> bool {
    exists|j: int| 0 <= j < entries.len() && (#[trigger] entries[j]).1 is Failed
}

/// The destinations that pinned entries make.
pub open spec fn pinned(entries: Seq<(StreamPlatform, DestinationStateModel)>) -> Seq<
    DemoDestinationModel,
> {
    Seq::new(
        entries.len(),
        |i: int|
            DemoDestinationModel {
                id: DestinationId(i as u16),
                platform: entries[i].0,
                state: entries[i].1,
                dropped_frames: if any_failed(entries) {
                    3
                } else {
                    0
                },
                repeated_frames: if any_failed(entries) {
                    41
                } else {
                    0
                },
            },
    )
}

impl Runtime for DemoRuntime {
    open spec fn wf(&self) -> bool {
        counts(self.frame)
    }

    open spec fn shown(&self) -> SnapshotModel {
        shown_by(self.deep_view())
    }

    open spec fn takes(&self, cmd: CommandModel, next: &DemoRuntime) -> bool {
        takes_to(self.deep_view(), cmd, next.deep_view())
    }

    fn snapshot(&self) -> (s: Snapshot) {
        let elapsed: u64 = BASE_ELAPSED_SECS + self.frame / 60;
        let stats = StatsView {
            state: self.conn_state(),
            rtt_ms: Some(self.figures.rtt_ms),
            jitter_depth: 3 + ((self.frame / 240) % 2) as usize,
            jitter_target: 4,
            uplink_loss_pct: Some(self.uplink_loss_pct),
            downlink_loss_pct: Some(self.downlink_loss_pct),
            mouth_to_ear_ms: Some(self.figures.mouth_to_ear_ms),
            device_mode: self.device_mode,
            rate: self.rate,
            crackling: self.crackling,
            playout_low_frames: None,
            // Nothing fills a ring here, so there is no thread to time.
            wake: None,
            cutting_out: None,
        };
        let members = self.member_views();
        let chat = self.whole_chat();
        let broadcast = if self.is_host {
            Some(BroadcastView { faders: self.broadcast_faders(), audition: self.audition })
        } else {
            None
        };
        let stream = StreamView {
            destinations: self.destination_views(),
            readiness: self.readiness.clone(),
        };
        let cost = if self.is_host {
            Some(
                CostView {
                    hourly_microusd: HOURLY_MICROUSD,
                    accrued_microusd: HOURLY_MICROUSD * elapsed / 3600,
                    elapsed_secs: elapsed,
                },
            )
        } else {
            None
        };
        Snapshot {
            stats,
            members,
            chat,
            levels: self.figures.levels,
            metronome: self.metronome,
            broadcast,
            stream,
            record: self.record.clone(),
            cost,
            hear_self: self.hear_self,
            offer_hear_self: false,
            session_short: "a3f29c41".to_owned(),
            server_addr: "203.0.113.10:43210".to_owned(),
            is_host: self.is_host,
            device_error: self.device_error.clone(),
            audio_fault: self.audio_fault,
        }
    }

    /// The state on its own, from the one flag that decides it.
    fn conn_state(&self) -> (state: ConnState) {
        if self.left {
            ConnState::Idle
        } else {
            ConnState::Joined
        }
    }

    fn send(&mut self, cmd: Command) {
        match cmd {
            Command::SetFader { member, gain_db, pan, muted } => {
                self.set_fader(member.0, FaderView { gain_db, pan, muted });
            },
            Command::SetClick(on) => self.metronome.you_hear_click = on,
            Command::SetMetronome { bpm, beats_per_bar, enabled } => {
                self.metronome.bpm = bpm;
                self.metronome.beats_per_bar = beats_per_bar;
                self.metronome.enabled = enabled;
            },
            Command::SendChat(text) => {
                let at_ms: u64 = (BASE_ELAPSED_SECS + self.frame / 60) * 1000;
                let ghost before = self.extra_chat.deep_view();
                self.extra_chat.push(
                    ChatLine { from_name: "Sam".to_owned(), from_id: MemberId(0), text, at_ms },
                );
                assert(self.extra_chat.deep_view() =~= before.push(
                    line(0, "Sam"@, text@, at_ms),
                ));
            },
            Command::SetBroadcastFader { member, gain_db, pan, muted } => {
                self.set_bcast(member.0, FaderView { gain_db, pan, muted });
            },
            Command::SetBroadcastAudition(on) => self.audition = on,
            Command::SetHearSelf(on) => self.hear_self = on,
            // Raw file bytes in, pixels on your own strip out, or the initials
            // disc back when they are dropped.
            Command::SetOwnAvatar(bytes) => self.set_own_avatar(bytes),
            // The key is taken by value and dropped here, unstored.
            Command::AddDestination { id, platform, key } => {
                self.add_destination(id, platform);
            },
            Command::RemoveDestination(id) => remove_destination(&mut self.destinations, id),
            Command::StartStream => self.start_stream(),
            Command::StopStream => self.stop_stream(),
            // The demo recorder transitions instantly.
            Command::StartRecord => self.record.state = RecordState::Recording,
            Command::StopRecord => self.record.state = RecordState::Idle,
            Command::SetOwnName(name) => {
                let name = trim(name.as_str());
                if !name.as_str().is_empty() {
                    self.own_name = Some(name);
                }
            },
            Command::Leave => self.left = true,
            Command::Revoke(jti) => {
                // The demo token is the member id repeated; reverse it.
                let id: u16 = jti.0[0] as u16;
                if !holds(&self.revoked, id) {
                    self.revoked.push(id);
                }
            },
        }
    }
}

impl DemoRuntime {
    fn member_views(&self) -> (views: Vec<MemberView>)
        ensures
            views.deep_view() == strips(self.deep_view(), self.members.deep_view()),
    {
        let ghost all = self.members.deep_view();
        let ghost me = self.deep_view();
        let mut views: Vec<MemberView> = Vec::new();
        let mut i: usize = 0;
        assert(views.deep_view() =~= Seq::empty());
        while i < self.members.len()
            invariant
                i <= self.members@.len(),
                all == self.members.deep_view(),
                me == self.deep_view(),
                views.deep_view() == strips(me, all.take(i as int)),
            decreases self.members.len() - i,
        {
            let m = &self.members[i];
            let ghost sofar = views.deep_view();
            assert(all.take(i + 1).drop_last() =~= all.take(i as int));
            assert(all.take(i + 1).last() == m.deep_view());
            // Revoking ejects, so the demo cannot leave a strip behind or the
            // mixer would contradict the invites panel beside it.
            if !holds(&self.revoked, m.id) {
                let gone = holds(&self.away, m.id);
                let name = match &self.own_name {
                    Some(own) if m.id == 0 => own.clone(),
                    _ => m.name.clone(),
                };
                let token = if self.is_host {
                    let repeated = [m.id as u8;16];
                    assert(repeated@ =~= token_of(m.id));
                    Some(TokenId(repeated))
                } else {
                    None
                };
                let view = MemberView {
                    id: MemberId(m.id),
                    name,
                    role: m.role,
                    connected: !gone,
                    quiet: !gone && holds(&self.quiet, m.id),
                    is_you: m.id == 0,
                    fader: m.fader,
                    token,
                    avatar: m.avatar.clone(),
                };
                assert(view.deep_view() == strip(me, m.deep_view()));
                views.push(view);
                assert(views.deep_view() =~= sofar.push(view.deep_view()));
            }
            i += 1;
        }
        assert(all.take(i as int) =~= all);
        views
    }

    fn whole_chat(&self) -> (chat: Vec<ChatLine>)
        ensures
            chat.deep_view() == script() + self.extra_chat.deep_view(),
    {
        let mut chat = DemoRuntime::scripted_chat();
        let ghost extra = self.extra_chat.deep_view();
        let mut i: usize = 0;
        assert(script() + extra.take(0) =~= script());
        while i < self.extra_chat.len()
            invariant
                i <= self.extra_chat@.len(),
                extra == self.extra_chat.deep_view(),
                chat.deep_view() == script() + extra.take(i as int),
            decreases self.extra_chat.len() - i,
        {
            let ghost sofar = chat.deep_view();
            chat.push(self.extra_chat[i].clone());
            assert(chat.deep_view() =~= sofar.push(extra[i as int]));
            assert(script() + extra.take(i + 1) =~= (script() + extra.take(i as int)).push(
                extra[i as int],
            ));
            i += 1;
        }
        assert(extra.take(i as int) =~= extra);
        chat
    }

    fn broadcast_faders(&self) -> (faders: Vec<(MemberId, FaderView)>)
        ensures
            faders@ == bcast_faders(self.members.deep_view()),
    {
        let ghost all = self.members.deep_view();
        let mut faders: Vec<(MemberId, FaderView)> = Vec::new();
        let mut i: usize = 0;
        while i < self.members.len()
            invariant
                i <= self.members@.len(),
                all == self.members.deep_view(),
                faders@ == bcast_faders(all.take(i as int)),
            decreases self.members.len() - i,
        {
            let m = &self.members[i];
            assert(all.take(i + 1).drop_last() =~= all.take(i as int));
            assert(all.take(i + 1).last() == m.deep_view());
            if let Role::Musician = m.role {
                faders.push((MemberId(m.id), m.bcast));
            }
            i += 1;
        }
        assert(all.take(i as int) =~= all);
        faders
    }

    fn destination_views(&self) -> (views: Vec<DestinationView>)
        ensures
            views.deep_view() == Seq::new(
                self.destinations@.len(),
                |i: int| destination_shown(self.deep_view(), self.destinations.deep_view()[i]),
            ),
    {
        let mut views: Vec<DestinationView> = Vec::new();
        let mut i: usize = 0;
        while i < self.destinations.len()
            invariant
                i <= self.destinations@.len(),
                views@.len() == i,
                forall|j: int|
                    0 <= j < i ==> (#[trigger] views@[j]).deep_view() == destination_shown(
                        self.deep_view(),
                        self.destinations.deep_view()[j],
                    ),
            decreases self.destinations.len() - i,
        {
            let d = &self.destinations[i];
            views.push(
                DestinationView {
                    id: d.id,
                    platform: d.platform,
                    state: d.state.clone(),
                    bitrate_kbps: self.bitrate_kbps,
                    dropped_frames: d.dropped_frames,
                    repeated_frames: d.repeated_frames,
                },
            );
            i += 1;
        }
        assert(views.deep_view() =~= Seq::new(
            self.destinations@.len(),
            |i: int| destination_shown(self.deep_view(), self.destinations.deep_view()[i]),
        ));
        views
    }

    fn set_fader(&mut self, id: u16, fader: FaderView)
        ensures
            final(self).deep_view() == (DemoModel {
                members: with_fader(old(self).members.deep_view(), id, fader),
                ..old(self).deep_view()
            }),
    {
        let at: usize = seat(&self.members, id);
        if at < self.members.len() {
            let ghost before = self.members.deep_view();
            self.members[at].fader = fader;
            assert(self.members.deep_view() =~= before.update(
                at as int,
                DemoMemberModel { fader, ..before[at as int] },
            ));
        }
    }

    fn set_bcast(&mut self, id: u16, bcast: FaderView)
        ensures
            final(self).deep_view() == (DemoModel {
                members: with_bcast(old(self).members.deep_view(), id, bcast),
                ..old(self).deep_view()
            }),
    {
        let at: usize = seat(&self.members, id);
        if at < self.members.len() {
            let ghost before = self.members.deep_view();
            self.members[at].bcast = bcast;
            assert(self.members.deep_view() =~= before.update(
                at as int,
                DemoMemberModel { bcast, ..before[at as int] },
            ));
        }
    }

    fn set_own_avatar(&mut self, bytes: Option<Vec<u8>>)
        ensures
            takes_to(
                old(self).deep_view(),
                CommandModel::SetOwnAvatar(bytes_model(bytes)),
                final(self).deep_view(),
            ),
            final(self).frame == old(self).frame,
    {
        let avatar = match &bytes {
            Some(bytes) => {
                let mut hash = "own-".to_owned();
                push_decimal(&mut hash, bytes.len() as u64);
                let decoded = decode(hash, bytes.as_slice());
                let ghost came_to = crate::avatar::outcome(decoded);
                assert(decode_may_be(own_key(bytes@), bytes@, came_to));
                match decoded {
                    Ok(handle) => {
                        proof {
                            lemma_own_picture(bytes@, came_to);
                        }
                        Some(handle)
                    },
                    Err(_) => {
                        proof {
                            lemma_own_picture(bytes@, came_to);
                        }
                        None
                    },
                }
            },
            None => None,
        };
        let ghost picture = avatar.deep_view();
        assert(own_picture(bytes_model(bytes), picture));
        let at: usize = seat(&self.members, 0);
        if at < self.members.len() {
            let ghost before = self.members.deep_view();
            self.members[at].avatar = avatar;
            assert(self.members.deep_view() =~= before.update(
                at as int,
                DemoMemberModel { avatar: picture, ..before[at as int] },
            ));
        }
    }

    fn add_destination(&mut self, id: DestinationId, platform: StreamPlatform)
        ensures
            final(self).deep_view() == (DemoModel {
                destinations: added(old(self).destinations.deep_view(), id, platform),
                ..old(self).deep_view()
            }),
    {
        remove_destination(&mut self.destinations, id);
        let ghost others = self.destinations.deep_view();
        let state = if is_streaming(&self.destinations) {
            DestinationState::Live
        } else {
            DestinationState::Idle
        };
        self.destinations.push(
            DemoDestination { id, platform, state, dropped_frames: 0, repeated_frames: 0 },
        );
        assert(self.destinations.deep_view() =~= others.push(
            self.destinations@.last().deep_view(),
        ));
    }

    fn start_stream(&mut self)
        ensures
            final(self).deep_view() == (DemoModel {
                destinations: all_live(old(self).destinations.deep_view()),
                ..old(self).deep_view()
            }),
    {
        let ghost before = self.deep_view();
        let mut i: usize = 0;
        while i < self.destinations.len()
            invariant
                i <= self.destinations@.len(),
                self.destinations@.len() == before.destinations.len(),
                forall|j: int|
                    0 <= j < self.destinations@.len() ==> (
                    #[trigger] self.destinations@[j]).deep_view() == (if j < i {
                        all_live(before.destinations)[j]
                    } else {
                        before.destinations[j]
                    }),
                self.deep_view() == (DemoModel {
                    destinations: self.destinations.deep_view(),
                    ..before
                }),
            decreases self.destinations.len() - i,
        {
            self.destinations[i].state = DestinationState::Live;
            i += 1;
        }
        assert(self.destinations.deep_view() =~= all_live(before.destinations));
    }

    fn stop_stream(&mut self)
        ensures
            final(self).deep_view() == (DemoModel {
                destinations: all_idle(old(self).destinations.deep_view()),
                ..old(self).deep_view()
            }),
    {
        let ghost before = self.deep_view();
        let mut i: usize = 0;
        while i < self.destinations.len()
            invariant
                i <= self.destinations@.len(),
                self.destinations@.len() == before.destinations.len(),
                forall|j: int|
                    0 <= j < self.destinations@.len() ==> (
                    #[trigger] self.destinations@[j]).deep_view() == (if j < i {
                        all_idle(before.destinations)[j]
                    } else {
                        before.destinations[j]
                    }),
                self.deep_view() == (DemoModel {
                    destinations: self.destinations.deep_view(),
                    ..before
                }),
            decreases self.destinations.len() - i,
        {
            self.destinations[i].state = DestinationState::Idle;
            self.destinations[i].dropped_frames = 0;
            self.destinations[i].repeated_frames = 0;
            i += 1;
        }
        assert(self.destinations.deep_view() =~= all_idle(before.destinations));
    }
}

// ------------------------------------------------------------------ recording

/// Wraps any runtime and logs every command; interaction tests look at the log
/// while the inner runtime keeps behaving.
pub struct RecordingRuntime<R: Runtime> {
    pub inner: R,
    pub log: Vec<Command>,
}

impl<R: Runtime> RecordingRuntime<R> {
    pub fn new(inner: R) -> (rt: RecordingRuntime<R>)
        ensures
            rt.inner == inner,
            rt.log.deep_view() == Seq::<CommandModel>::empty(),
    {
        let rt = RecordingRuntime { inner, log: Vec::new() };
        assert(rt.log.deep_view() =~= Seq::<CommandModel>::empty());
        rt
    }

    pub fn commands(&self) -> (commands: Vec<Command>)
        ensures
            commands.deep_view() == self.log.deep_view(),
    {
        let mut commands: Vec<Command> = Vec::new();
        let mut i: usize = 0;
        while i < self.log.len()
            invariant
                i <= self.log@.len(),
                commands@.len() == i,
                forall|j: int|
                    0 <= j < i ==> (#[trigger] commands@[j]).deep_view()
                        == self.log@[j].deep_view(),
            decreases self.log.len() - i,
        {
            commands.push(self.log[i].clone());
            i += 1;
        }
        assert(commands.deep_view() =~= self.log.deep_view());
        commands
    }

    /// The runtime underneath, so a test can move the session on mid-frame the
    /// way the server does.
    pub fn inner(&self) -> (inner: &R)
        ensures
            *inner == self.inner,
    {
        &self.inner
    }
}

impl<R: Runtime> Runtime for RecordingRuntime<R> {
    open spec fn wf(&self) -> bool {
        self.inner.wf()
    }

    open spec fn shown(&self) -> SnapshotModel {
        self.inner.shown()
    }

    open spec fn takes(&self, cmd: CommandModel, next: &RecordingRuntime<R>) -> bool {
        &&& self.inner.takes(cmd, &next.inner)
        &&& next.log.deep_view() == self.log.deep_view().push(cmd)
    }

    fn snapshot(&self) -> (s: Snapshot) {
        self.inner.snapshot()
    }

    fn send(&mut self, cmd: Command) {
        let ghost before = self.log.deep_view();
        let logged = cmd.clone();
        self.log.push(logged);
        assert(self.log.deep_view() =~= before.push(cmd.deep_view()));
        self.inner.send(cmd);
    }
}

// ------------------------------------------------------------------------ laws

/// A frozen demo shows the same frame after frame: pulling a frame changes
/// nothing of what it shows.
pub proof fn a_frozen_demo_stands_still(m: DemoModel, next: DemoModel)
    requires
        m.frozen,
        next == (DemoModel {
            frame: if m.frozen {
                m.frame
            } else {
                (m.frame + 1) as u64
            },
            ..m
        }),
    ensures
        shown_by(next) == shown_by(m),
{
}

/// A running demo's meter never runs backward.
pub proof fn the_meter_never_runs_backward(m: DemoModel, later: DemoModel)
    requires
        m.is_host,
        later.is_host,
        m.frame <= later.frame,
        counts(later.frame),
    ensures
        shown_by(m).cost->0.accrued_microusd <= shown_by(later).cost->0.accrued_microusd,
        shown_by(m).cost->0.elapsed_secs <= shown_by(later).cost->0.elapsed_secs,
{
    let a = elapsed_secs(m.frame);
    let b = elapsed_secs(later.frame);
    assert(HOURLY_MICROUSD * a <= HOURLY_MICROUSD * b);
    assert(HOURLY_MICROUSD * a / 3600 <= HOURLY_MICROUSD * b / 3600);
}

/// Whether a strip is the one of the member in that seat, who has not been
/// revoked.
pub open spec fn is_strip_of(
    m: DemoModel,
    members: Seq<DemoMemberModel>,
    j: int,
    view: MemberModel,
) -> bool {
    0 <= j < members.len() && !m.revoked.contains(members[j].id) && view == strip(m, members[j])
}

proof fn lemma_strip_comes_from(m: DemoModel, members: Seq<DemoMemberModel>, i: int) -> (j: int)
    requires
        0 <= i < strips(m, members).len(),
    ensures
        is_strip_of(m, members, j, strips(m, members)[i]),
    decreases members.len(),
{
    let head = members.drop_last();
    if i < strips(m, head).len() {
        lemma_strip_comes_from(m, head, i)
    } else {
        members.len() - 1
    }
}

proof fn lemma_member_has_strip(m: DemoModel, members: Seq<DemoMemberModel>, j: int) -> (i: int)
    requires
        0 <= j < members.len(),
        !m.revoked.contains(members[j].id),
    ensures
        0 <= i < strips(m, members).len(),
        strips(m, members)[i] == strip(m, members[j]),
    decreases members.len(),
{
    let head = members.drop_last();
    if j < head.len() {
        lemma_member_has_strip(m, head, j)
    } else {
        strips(m, members).len() - 1
    }
}

/// A musician's snapshot holds nothing that is the host's: no cost, no tokens,
/// no broadcast mix.
pub proof fn a_musician_sees_no_host_data(m: DemoModel)
    requires
        !m.is_host,
    ensures
        shown_by(m).cost is None,
        shown_by(m).broadcast is None,
        !shown_by(m).is_host,
        forall|i: int|
            0 <= i < shown_by(m).members.len() ==> (#[trigger] shown_by(m).members[i]).token is None,
{
    assert forall|i: int| 0 <= i < shown_by(m).members.len() implies (
    #[trigger] shown_by(m).members[i]).token is None by {
        let j = lemma_strip_comes_from(m, m.members, i);
    }
}

/// Gone is never also quiet, and nobody who was revoked has a strip.
pub proof fn quiet_is_never_gone(m: DemoModel)
    ensures
        forall|i: int|
            0 <= i < shown_by(m).members.len() ==> {
                let view = #[trigger] shown_by(m).members[i];
                &&& view.quiet ==> view.connected
                &&& !m.revoked.contains(view.id.0)
            },
{
    assert forall|i: int| 0 <= i < shown_by(m).members.len() implies {
        let view = #[trigger] shown_by(m).members[i];
        &&& view.quiet ==> view.connected
        &&& !m.revoked.contains(view.id.0)
    } by {
        let j = lemma_strip_comes_from(m, m.members, i);
    }
}

/// Only musicians have broadcast faders.
pub proof fn only_musicians_are_in_the_broadcast_mix(members: Seq<DemoMemberModel>)
    ensures
        forall|i: int|
            0 <= i < bcast_faders(members).len() ==> exists|j: int|
                0 <= j < members.len() && members[j].role is Musician
                    && #[trigger] bcast_faders(members)[i] == (
                    MemberId((#[trigger] members[j]).id),
                    members[j].bcast,
                ),
    decreases members.len(),
{
    if members.len() > 0 {
        let head = members.drop_last();
        only_musicians_are_in_the_broadcast_mix(head);
        assert forall|i: int| 0 <= i < bcast_faders(members).len() implies exists|j: int|
            0 <= j < members.len() && members[j].role is Musician
                && #[trigger] bcast_faders(members)[i] == (
                MemberId((#[trigger] members[j]).id),
                members[j].bcast,
            ) by {
            if i < bcast_faders(head).len() {
                assert(bcast_faders(members)[i] == bcast_faders(head)[i]);
                let j = choose|j: int|
                    0 <= j < head.len() && head[j].role is Musician && bcast_faders(head)[i] == (
                        MemberId((#[trigger] head[j]).id),
                        head[j].bcast,
                    );
                assert(members[j] == head[j]);
            } else {
                assert(members[members.len() - 1] == members.last());
            }
        }
    }
}

/// A fader you set is on the strip of the next snapshot, for anybody who is in
/// the room.
pub proof fn a_fader_you_set_is_shown(m: DemoModel, member: MemberId, fader: FaderView, j: int)
    requires
        0 <= j < m.members.len(),
        m.members[j].id == member.0,
        !m.revoked.contains(member.0),
    ensures
        exists|i: int|
            0 <= i < shown_by(step(m, CommandModel::SetFader { member, fader })).members.len() && {
                let view = #[trigger] shown_by(
                    step(m, CommandModel::SetFader { member, fader }),
                ).members[i];
                view.id == member && view.fader == fader
            },
{
    let next = step(m, CommandModel::SetFader { member, fader });
    lemma_seat_of(m.members, member.0);
    let at = seat_of(m.members, member.0);
    assert(at < m.members.len()) by {
        if at >= m.members.len() {
            assert(m.members[j].id != member.0);
        }
    }
    assert(next.members[at].fader == fader && next.members[at].id == member.0);
    let i = lemma_member_has_strip(next, next.members, at);
    assert(shown_by(next).members[i].id == member);
}

/// A chat line you send is the last one shown.
pub proof fn a_line_you_send_is_shown_last(m: DemoModel, text: Seq<char>)
    ensures
        shown_by(step(m, CommandModel::SendChat(text))).chat.last().text == text,
        shown_by(step(m, CommandModel::SendChat(text))).chat.drop_last() == shown_by(m).chat,
{
    let next = step(m, CommandModel::SendChat(text));
    assert(shown_by(next).chat.drop_last() =~= shown_by(m).chat);
}

/// Revoking a member takes their strip away, and revoking them again changes
/// nothing.
pub proof fn a_revoked_member_has_no_strip(m: DemoModel, jti: Seq<u8>)
    ensures
        forall|i: int|
            0 <= i < shown_by(step(m, CommandModel::Revoke(jti))).members.len() ==> (
            #[trigger] shown_by(step(m, CommandModel::Revoke(jti))).members[i]).id.0
                != jti[0] as u16,
        step(step(m, CommandModel::Revoke(jti)), CommandModel::Revoke(jti)) == step(
            m,
            CommandModel::Revoke(jti),
        ),
{
    let next = step(m, CommandModel::Revoke(jti));
    assert(next.revoked.contains(jti[0] as u16)) by {
        if !m.revoked.contains(jti[0] as u16) {
            assert(next.revoked[m.revoked.len() as int] == jti[0] as u16);
        }
    }
    quiet_is_never_gone(next);
}

/// Once you have left, the session is idle and no command brings it back.
pub proof fn leaving_is_for_good(m: DemoModel, cmd: CommandModel, next: DemoModel)
    requires
        m.left,
        takes_to(m, cmd, next),
    ensures
        next.left,
        shown_by(next).stats.state is Idle,
{
}

/// A name of nothing but white space is no name: nothing changes.
pub proof fn white_space_is_no_name(m: DemoModel, name: Seq<char>)
    requires
        trimmed(name).len() == 0,
    ensures
        step(m, CommandModel::SetOwnName(name)) == m,
{
}

/// Starting the stream puts every destination on air, and stopping it takes
/// every one off, with its counters at zero.
pub proof fn the_stream_starts_and_stops_everywhere(m: DemoModel)
    ensures
        forall|i: int|
            0 <= i < m.destinations.len() ==> (#[trigger] step(
                m,
                CommandModel::StartStream,
            ).destinations[i]).state is Live,
        forall|i: int|
            0 <= i < m.destinations.len() ==> {
                let d = #[trigger] step(m, CommandModel::StopStream).destinations[i];
                d.state is Idle && d.dropped_frames == 0 && d.repeated_frames == 0
            },
        step(m, CommandModel::StartStream).destinations.len() == m.destinations.len(),
        step(m, CommandModel::StopStream).destinations.len() == m.destinations.len(),
{
}

proof fn lemma_without(destinations: Seq<DemoDestinationModel>, id: DestinationId)
    ensures
        forall|i: int|
            0 <= i < without(destinations, id).len() ==> (#[trigger] without(
                destinations,
                id,
            )[i]).id != id,
        without(destinations, id).len() <= destinations.len(),
        (forall|i: int| 0 <= i < destinations.len() ==> (#[trigger] destinations[i]).id != id)
            ==> without(destinations, id) == destinations,
    decreases destinations.len(),
{
    if destinations.len() > 0 {
        let head = destinations.drop_last();
        lemma_without(head, id);
        if forall|i: int| 0 <= i < destinations.len() ==> (#[trigger] destinations[i]).id != id {
            assert forall|i: int| 0 <= i < head.len() implies (#[trigger] head[i]).id != id by {
                assert(head[i] == destinations[i]);
            }
            assert(destinations[destinations.len() - 1].id != id);
            assert(head.push(destinations.last()) =~= destinations);
        }
    }
}

/// A destination that is removed is gone, and adding one and removing it again
/// leaves the others as they were.
pub proof fn removing_a_destination_undoes_adding_it(
    m: DemoModel,
    id: DestinationId,
    platform: StreamPlatform,
    key: Seq<char>,
)
    requires
        forall|i: int| 0 <= i < m.destinations.len() ==> (#[trigger] m.destinations[i]).id != id,
    ensures
        step(
            step(m, CommandModel::AddDestination { id, platform, key }),
            CommandModel::RemoveDestination(id),
        ) == m,
{
    let next = step(m, CommandModel::AddDestination { id, platform, key });
    lemma_without(m.destinations, id);
    assert(next.destinations.drop_last() =~= m.destinations);
    assert(without(next.destinations, id) =~= m.destinations);
}

/// The key a destination is added with is not kept: two keys leave the same
/// demo behind.
pub proof fn no_key_is_kept(
    m: DemoModel,
    id: DestinationId,
    platform: StreamPlatform,
    one: Seq<char>,
    other: Seq<char>,
)
    ensures
        step(m, CommandModel::AddDestination { id, platform, key: one }) == step(
            m,
            CommandModel::AddDestination { id, platform, key: other },
        ),
{
}

// ------------------------------------------------- what each command comes to

/// Two lists that seat the same people, under the same revocations, have
/// strips seat for seat.
proof fn lemma_same_seats(
    one: DemoModel,
    ones: Seq<DemoMemberModel>,
    other: DemoModel,
    others: Seq<DemoMemberModel>,
)
    requires
        ones.len() == others.len(),
        forall|j: int| 0 <= j < ones.len() ==> (#[trigger] ones[j]).id == others[j].id,
        one.revoked == other.revoked,
    ensures
        strips(one, ones).len() == strips(other, others).len(),
        forall|i: int|
            0 <= i < strips(one, ones).len() ==> exists|j: int|
                0 <= j < ones.len() && #[trigger] strips(one, ones)[i] == strip(
                    one,
                    #[trigger] ones[j],
                ) && strips(other, others)[i] == strip(other, others[j]),
    decreases ones.len(),
{
    if ones.len() > 0 {
        let a = ones.drop_last();
        let b = others.drop_last();
        assert forall|j: int| 0 <= j < a.len() implies (#[trigger] a[j]).id == b[j].id by {
            assert(ones[j].id == others[j].id);
        }
        lemma_same_seats(one, a, other, b);
        assert(ones[ones.len() - 1].id == others[ones.len() - 1].id);
        assert forall|i: int| 0 <= i < strips(one, ones).len() implies exists|j: int|
            0 <= j < ones.len() && #[trigger] strips(one, ones)[i] == strip(
                one,
                #[trigger] ones[j],
            ) && strips(other, others)[i] == strip(other, others[j]) by {
            if i < strips(one, a).len() {
                let j = choose|j: int|
                    0 <= j < a.len() && strips(one, a)[i] == strip(one, #[trigger] a[j]) && strips(
                        other,
                        b,
                    )[i] == strip(other, b[j]);
                assert(ones[j] == a[j] && others[j] == b[j]);
            } else {
                assert(ones[ones.len() - 1] == ones.last());
            }
        }
    }
}

/// The broadcast mix of two lists that seat the same people in the same roles
/// differs only in the faders.
proof fn lemma_same_mix(ones: Seq<DemoMemberModel>, others: Seq<DemoMemberModel>)
    requires
        ones.len() == others.len(),
        forall|j: int|
            0 <= j < ones.len() ==> (#[trigger] ones[j]).id == others[j].id && ones[j].role
                == others[j].role,
    ensures
        bcast_faders(ones).len() == bcast_faders(others).len(),
        forall|i: int|
            0 <= i < bcast_faders(ones).len() ==> exists|j: int|
                0 <= j < ones.len() && #[trigger] bcast_faders(ones)[i] == (
                    MemberId((#[trigger] ones[j]).id),
                    ones[j].bcast,
                ) && bcast_faders(others)[i] == (MemberId(others[j].id), others[j].bcast),
    decreases ones.len(),
{
    if ones.len() > 0 {
        let a = ones.drop_last();
        let b = others.drop_last();
        assert forall|j: int| 0 <= j < a.len() implies (#[trigger] a[j]).id == b[j].id
            && a[j].role == b[j].role by {
            assert(ones[j].id == others[j].id);
        }
        lemma_same_mix(a, b);
        assert(ones[ones.len() - 1].id == others[ones.len() - 1].id);
        assert forall|i: int| 0 <= i < bcast_faders(ones).len() implies exists|j: int|
            0 <= j < ones.len() && #[trigger] bcast_faders(ones)[i] == (
                MemberId((#[trigger] ones[j]).id),
                ones[j].bcast,
            ) && bcast_faders(others)[i] == (MemberId(others[j].id), others[j].bcast) by {
            if i < bcast_faders(a).len() {
                let j = choose|j: int|
                    0 <= j < a.len() && bcast_faders(a)[i] == (
                        MemberId((#[trigger] a[j]).id),
                        a[j].bcast,
                    ) && bcast_faders(b)[i] == (MemberId(b[j].id), b[j].bcast);
                assert(ones[j] == a[j] && others[j] == b[j]);
            } else {
                assert(ones[ones.len() - 1] == ones.last());
            }
        }
    }
}

proof fn lemma_musician_is_mixed(members: Seq<DemoMemberModel>, j: int) -> (i: int)
    requires
        0 <= j < members.len(),
        members[j].role is Musician,
    ensures
        0 <= i < bcast_faders(members).len(),
        bcast_faders(members)[i] == (MemberId(members[j].id), members[j].bcast),
    decreases members.len(),
{
    let head = members.drop_last();
    if j < head.len() {
        lemma_musician_is_mixed(head, j)
    } else {
        bcast_faders(members).len() - 1
    }
}

/// A fader you set moves strips of that member and nothing else that is shown.
pub proof fn a_fader_moves_no_other_strip(m: DemoModel, member: MemberId, fader: FaderView)
    ensures
        ({
            let before = shown_by(m);
            let after = shown_by(step(m, CommandModel::SetFader { member, fader }));
            &&& after == (SnapshotModel { members: after.members, ..before })
            &&& after.members.len() == before.members.len()
            &&& forall|i: int|
                0 <= i < after.members.len() ==> {
                    let strip = #[trigger] after.members[i];
                    let was = before.members[i];
                    strip == was || was.id == member && strip == (MemberModel { fader, ..was })
                }
        }),
{
    let next = step(m, CommandModel::SetFader { member, fader });
    let before = shown_by(m);
    let after = shown_by(next);
    lemma_seat_of(m.members, member.0);
    lemma_same_seats(next, next.members, m, m.members);
    lemma_same_mix(next.members, m.members);
    assert(after.broadcast == before.broadcast) by {
        assert(bcast_faders(next.members) =~= bcast_faders(m.members)) by {
            assert forall|i: int| 0 <= i < bcast_faders(next.members).len() implies bcast_faders(
                next.members,
            )[i] == bcast_faders(m.members)[i] by {
                let j = choose|j: int|
                    0 <= j < next.members.len() && bcast_faders(next.members)[i] == (
                        MemberId((#[trigger] next.members[j]).id),
                        next.members[j].bcast,
                    ) && bcast_faders(m.members)[i] == (
                        MemberId(m.members[j].id),
                        m.members[j].bcast,
                    );
            }
        }
    }
    assert forall|i: int| 0 <= i < after.members.len() implies {
        let strip = #[trigger] after.members[i];
        let was = before.members[i];
        strip == was || was.id == member && strip == (MemberModel { fader, ..was })
    } by {
        let j = choose|j: int|
            0 <= j < next.members.len() && strips(next, next.members)[i] == strip(
                next,
                #[trigger] next.members[j],
            ) && strips(m, m.members)[i] == strip(m, m.members[j]);
        assert(after.members[i].id == MemberId(next.members[j].id));
    }
}

/// A broadcast fader a host sets is in the mix at once, every other pair of
/// the mix stays as it was, and no strip moves.
pub proof fn a_broadcast_fader_you_set_is_shown(
    m: DemoModel,
    member: MemberId,
    fader: FaderView,
    j: int,
)
    requires
        m.is_host,
        0 <= j < m.members.len(),
        m.members[j].id == member.0,
        m.members[j].role is Musician,
        forall|k: int| 0 <= k < j ==> (#[trigger] m.members[k]).id != member.0,
    ensures
        ({
            let before = shown_by(m);
            let after = shown_by(step(m, CommandModel::SetBroadcastFader { member, fader }));
            let was = before.broadcast->0.faders;
            let is = after.broadcast->0.faders;
            &&& before.broadcast is Some && after.broadcast is Some
            &&& after == (SnapshotModel { broadcast: after.broadcast, ..before })
            &&& after.members == before.members
            &&& after.broadcast->0.audition == before.broadcast->0.audition
            &&& is.len() == was.len()
            &&& is.contains((member, fader))
            &&& forall|i: int|
                0 <= i < is.len() ==> #[trigger] is[i] == was[i] || was[i].0 == member && is[i] == (
                    member,
                    fader,
                )
        }),
{
    let next = step(m, CommandModel::SetBroadcastFader { member, fader });
    lemma_seat_is(m.members, member.0, j);
    lemma_same_mix(next.members, m.members);
    lemma_same_seats(next, next.members, m, m.members);
    let at = lemma_musician_is_mixed(next.members, j);
    let was = shown_by(m).broadcast->0.faders;
    let is = shown_by(next).broadcast->0.faders;
    assert(is[at] == (member, fader));
    assert forall|i: int| 0 <= i < is.len() implies #[trigger] is[i] == was[i] || was[i].0 == member
        && is[i] == (member, fader) by {
        let k = choose|k: int|
            0 <= k < next.members.len() && bcast_faders(next.members)[i] == (
                MemberId((#[trigger] next.members[k]).id),
                next.members[k].bcast,
            ) && bcast_faders(m.members)[i] == (MemberId(m.members[k].id), m.members[k].bcast);
        assert(next.members[k].id == m.members[k].id);
    }
    assert(shown_by(next).members =~= shown_by(m).members) by {
        assert forall|i: int| 0 <= i < strips(next, next.members).len() implies strips(
            next,
            next.members,
        )[i] == strips(m, m.members)[i] by {
            let k = choose|k: int|
                0 <= k < next.members.len() && strips(next, next.members)[i] == strip(
                    next,
                    #[trigger] next.members[k],
                ) && strips(m, m.members)[i] == strip(m, m.members[k]);
            assert(next.members[k].fader == m.members[k].fader);
        }
    }
}

/// Strips do not depend on what no strip shows.
proof fn lemma_strips_alike(one: DemoModel, other: DemoModel, members: Seq<DemoMemberModel>)
    requires
        one.revoked == other.revoked,
        one.away == other.away,
        one.quiet == other.quiet,
        one.own_name == other.own_name,
        one.is_host == other.is_host,
    ensures
        strips(one, members) == strips(other, members),
    decreases members.len(),
{
    if members.len() > 0 {
        lemma_strips_alike(one, other, members.drop_last());
    }
}

/// What you toggle, and the metronome you set, is shown at once as the thing
/// of its own name, and nothing else moves.
pub proof fn a_toggle_is_shown_at_once(
    m: DemoModel,
    on: bool,
    bpm: u16,
    beats_per_bar: u8,
    enabled: bool,
)
    ensures
        shown_by(step(m, CommandModel::SetHearSelf(on))) == (SnapshotModel {
            hear_self: on,
            ..shown_by(m)
        }),
        ({
            let before = shown_by(m);
            let after = shown_by(step(m, CommandModel::SetClick(on)));
            &&& after.metronome.you_hear_click == on
            &&& after.metronome.bpm == before.metronome.bpm
            &&& after.metronome.beats_per_bar == before.metronome.beats_per_bar
            &&& after.metronome.enabled == before.metronome.enabled
            &&& after == (SnapshotModel { metronome: after.metronome, ..before })
        }),
        ({
            let before = shown_by(m);
            let after = shown_by(
                step(m, CommandModel::SetMetronome { bpm, beats_per_bar, enabled }),
            );
            &&& after.metronome.bpm == bpm
            &&& after.metronome.beats_per_bar == beats_per_bar
            &&& after.metronome.enabled == enabled
            &&& after.metronome.you_hear_click == before.metronome.you_hear_click
            &&& after == (SnapshotModel { metronome: after.metronome, ..before })
        }),
        ({
            let before = shown_by(m);
            let after = shown_by(step(m, CommandModel::SetBroadcastAudition(on)));
            &&& after == (SnapshotModel { broadcast: after.broadcast, ..before })
            &&& m.is_host ==> after.broadcast is Some && after.broadcast->0.audition == on
                && after.broadcast->0.faders == before.broadcast->0.faders
            &&& !m.is_host ==> after.broadcast is None
        }),
{
    lemma_strips_alike(step(m, CommandModel::SetHearSelf(on)), m, m.members);
    lemma_strips_alike(step(m, CommandModel::SetClick(on)), m, m.members);
    lemma_strips_alike(
        step(m, CommandModel::SetMetronome { bpm, beats_per_bar, enabled }),
        m,
        m.members,
    );
    lemma_strips_alike(step(m, CommandModel::SetBroadcastAudition(on)), m, m.members);
}

/// The take is on from starting it to stopping it, and whether it has stems
/// does not change. Leaving ends the session and nothing else.
pub proof fn a_take_runs_until_it_is_stopped(m: DemoModel)
    ensures
        ({
            let before = shown_by(m);
            let on = shown_by(step(m, CommandModel::StartRecord));
            let off = shown_by(step(m, CommandModel::StopRecord));
            let gone = shown_by(step(m, CommandModel::Leave));
            &&& on.record.state is Recording && on.record.stems == before.record.stems
            &&& off.record.state is Idle && off.record.stems == before.record.stems
            &&& on == (SnapshotModel { record: on.record, ..before })
            &&& off == (SnapshotModel { record: off.record, ..before })
            &&& gone.stats.state is Idle
            &&& gone == (SnapshotModel { stats: gone.stats, ..before })
            &&& gone.stats == (StatsModel { state: gone.stats.state, ..before.stats })
            &&& !m.left ==> before.stats.state is Joined
        }),
{
    lemma_strips_alike(step(m, CommandModel::StartRecord), m, m.members);
    lemma_strips_alike(step(m, CommandModel::StopRecord), m, m.members);
    lemma_strips_alike(step(m, CommandModel::Leave), m, m.members);
}

/// A line you send is yours: it stands under your name and number at the time
/// the session has run, and nothing but the chat moves.
pub proof fn a_line_you_send_is_yours(m: DemoModel, text: Seq<char>)
    requires
        counts(m.frame),
    ensures
        ({
            let before = shown_by(m);
            let after = shown_by(step(m, CommandModel::SendChat(text)));
            let line = after.chat.last();
            &&& after == (SnapshotModel { chat: after.chat, ..before })
            &&& line.text == text
            &&& line.from_id == MemberId(0)
            &&& line.from_name == "Sam"@
            &&& line.at_ms == 1000 * (47 * 60 + 12 + m.frame as int / 60)
        }),
{
    lemma_strips_alike(step(m, CommandModel::SendChat(text)), m, m.members);
}

/// The name you set is on your strip and on nobody else's.
pub proof fn the_name_you_set_is_on_your_strip(m: DemoModel, name: Seq<char>)
    requires
        trimmed(name).len() > 0,
    ensures
        ({
            let before = shown_by(m);
            let after = shown_by(step(m, CommandModel::SetOwnName(name)));
            &&& after == (SnapshotModel { members: after.members, ..before })
            &&& after.members.len() == before.members.len()
            &&& forall|i: int|
                0 <= i < after.members.len() ==> {
                    let strip = #[trigger] after.members[i];
                    let was = before.members[i];
                    if was.id == MemberId(0) {
                        strip == (MemberModel { name: trimmed(name), ..was })
                    } else {
                        strip == was
                    }
                }
        }),
{
    let next = step(m, CommandModel::SetOwnName(name));
    lemma_same_seats(next, m.members, m, m.members);
    assert forall|i: int| 0 <= i < shown_by(next).members.len() implies {
        let strip = #[trigger] shown_by(next).members[i];
        let was = shown_by(m).members[i];
        if was.id == MemberId(0) {
            strip == (MemberModel { name: trimmed(name), ..was })
        } else {
            strip == was
        }
    } by {
        let j = choose|j: int|
            0 <= j < m.members.len() && strips(next, m.members)[i] == strip(
                next,
                #[trigger] m.members[j],
            ) && strips(m, m.members)[i] == strip(m, m.members[j]);
        assert(shown_by(m).members[i].id == MemberId(m.members[j].id));
    }
}

/// Revoking somebody leaves everybody else's strip, and everything that is no
/// strip, as it was.
pub proof fn revoking_one_leaves_the_others(m: DemoModel, jti: Seq<u8>, j: int)
    requires
        0 <= j < m.members.len(),
        m.members[j].id != jti[0] as u16,
        !m.revoked.contains(m.members[j].id),
    ensures
        ({
            let before = shown_by(m);
            let after = shown_by(step(m, CommandModel::Revoke(jti)));
            &&& after == (SnapshotModel { members: after.members, ..before })
            &&& exists|i: int|
                0 <= i < after.members.len() && (#[trigger] after.members[i]) == strip(
                    m,
                    m.members[j],
                )
            &&& forall|i: int|
                0 <= i < after.members.len() ==> before.members.contains(
                    #[trigger] after.members[i],
                )
        }),
{
    let next = step(m, CommandModel::Revoke(jti));
    let id = m.members[j].id;
    assert(!next.revoked.contains(id)) by {
        if next.revoked.contains(id) {
            let k = choose|k: int| 0 <= k < next.revoked.len() && next.revoked[k] == id;
            if k < m.revoked.len() {
                assert(m.revoked[k] == id);
            }
        }
    }
    let i = lemma_member_has_strip(next, m.members, j);
    assert(shown_by(next).members[i] == strip(m, m.members[j]));
    assert forall|i: int| 0 <= i < shown_by(next).members.len() implies shown_by(
        m,
    ).members.contains(#[trigger] shown_by(next).members[i]) by {
        let k = lemma_strip_comes_from(next, m.members, i);
        assert(!m.revoked.contains(m.members[k].id)) by {
            if m.revoked.contains(m.members[k].id) {
                let r = choose|r: int| 0 <= r < m.revoked.len() && m.revoked[r] == m.members[k].id;
                assert(next.revoked[r] == m.members[k].id);
            }
        }
        let was = lemma_member_has_strip(m, m.members, k);
        assert(shown_by(m).members[was] == shown_by(next).members[i]);
    }
}

/// A strip is its member's: their number, role, fader and picture, your own
/// name where it is yours, there unless away, quiet only while there, and a
/// token for the host's eyes alone.
pub proof fn a_strip_is_its_members(m: DemoModel, member: DemoMemberModel)
    ensures
        ({
            let s = strip(m, member);
            &&& s.id == MemberId(member.id)
            &&& s.name == (if m.own_name is Some && member.id == 0 {
                m.own_name->0
            } else {
                member.name
            })
            &&& s.role == member.role
            &&& s.fader == member.fader
            &&& s.avatar == member.avatar
            &&& s.is_you <==> member.id == 0
            &&& s.connected <==> !m.away.contains(member.id)
            &&& s.quiet <==> m.quiet.contains(member.id) && !m.away.contains(member.id)
            &&& s.token is Some <==> m.is_host
            &&& s.token matches Some(token) ==> token.len() == 16 && forall|k: int|
                0 <= k < 16 ==> #[trigger] token[k] == member.id as u8
        }),
{
}

/// Everything the demo holds is shown under its own name, and the meter is the
/// hourly rate over the time the session has run.
pub proof fn what_the_demo_holds_is_shown(m: DemoModel)
    requires
        counts(m.frame),
    ensures
        ({
            let s = shown_by(m);
            let ran = 47 * 60 + 12 + m.frame as int / 60;
            &&& s.stats.rtt_ms == Some(m.figures.rtt_ms)
            &&& s.stats.mouth_to_ear_ms == Some(m.figures.mouth_to_ear_ms)
            &&& s.levels == m.figures.levels
            &&& s.stats.uplink_loss_pct == Some(m.uplink_loss_pct)
            &&& s.stats.downlink_loss_pct == Some(m.downlink_loss_pct)
            &&& s.stats.device_mode == m.device_mode
            &&& s.stats.rate == m.rate
            &&& s.stats.crackling == m.crackling
            &&& s.stats.jitter_target == 4
            &&& s.stats.jitter_depth == 3 || s.stats.jitter_depth == 4
            &&& s.stats.jitter_depth == 3 <==> (m.frame / 240) % 2 == 0
            &&& s.metronome == m.metronome
            &&& s.record == m.record
            &&& s.stream.readiness == m.readiness
            &&& s.hear_self == m.hear_self
            &&& !s.offer_hear_self
            &&& s.device_error == m.device_error
            &&& s.audio_fault == m.audio_fault
            &&& s.is_host == m.is_host
            &&& s.chat.len() == 6 + m.extra_chat.len()
            &&& s.chat.skip(6) == m.extra_chat
            &&& s.stream.destinations.len() == m.destinations.len()
            &&& forall|i: int|
                0 <= i < m.destinations.len() ==> {
                    let d = #[trigger] s.stream.destinations[i];
                    &&& d.id == m.destinations[i].id
                    &&& d.platform == m.destinations[i].platform
                    &&& d.state == m.destinations[i].state
                    &&& d.dropped_frames == m.destinations[i].dropped_frames
                    &&& d.repeated_frames == m.destinations[i].repeated_frames
                    &&& d.bitrate_kbps == m.bitrate_kbps
                }
            &&& m.is_host ==> s.broadcast is Some && s.broadcast->0.audition == m.audition
            &&& m.is_host ==> s.cost is Some && s.cost->0.hourly_microusd == 16_800
                && s.cost->0.elapsed_secs == ran && 3600 * s.cost->0.accrued_microusd <= 16_800
                * ran < 3600 * (s.cost->0.accrued_microusd + 1)
        }),
{
    let s = shown_by(m);
    assert(script().len() == 6);
    assert(s.chat.skip(6) =~= m.extra_chat);
}

/// The line each member of the band is down for in the script stands under
/// their own name, and the script is in the order it was said.
pub proof fn the_script_is_the_bands(ana: AvatarModel, ben: AvatarModel, i: int)
    requires
        0 <= i < script().len(),
    ensures
        script()[i].from_id.0 < band(ana, ben).len(),
        band(ana, ben)[script()[i].from_id.0 as int].name == script()[i].from_name,
        band(ana, ben)[script()[i].from_id.0 as int].id == script()[i].from_id.0,
        i > 0 ==> script()[i - 1].at_ms < script()[i].at_ms,
{
    assert(script().len() == 6);
    assert(band(ana, ben).len() == 5);
}

/// A house of any size seats everybody once, in the seat of their number the
/// musicians before the listeners, with the pictures of the two who have one.
pub proof fn the_house_seats_everybody_once(ana: AvatarModel, ben: AvatarModel)
    ensures
        ({
            let small = band(ana, ben);
            let full = full_house(ana, ben);
            &&& small.len() == 5
            &&& forall|i: int| 0 <= i < 5 ==> (#[trigger] small[i]).id == i
            &&& forall|i: int|
                0 <= i < 5 ==> ((#[trigger] small[i]).role is Musician <==> i < 4)
            &&& small[1].avatar == Some(ana)
            &&& small[2].avatar == Some(ben)
            &&& small[0].avatar is None && small[3].avatar is None && small[4].avatar is None
            &&& full.len() == 20
            &&& forall|i: int|
                0 <= i < 20 ==> ((#[trigger] full[i]).role is Musician <==> i < 10)
            &&& forall|i: int, j: int|
                0 <= i < j < 20 ==> (#[trigger] full[i]).id != (#[trigger] full[j]).id
            &&& forall|i: int| 0 <= i < 4 ==> #[trigger] full[i] == small[i]
            &&& full[10] == small[4]
        }),
{
    let small = band(ana, ben);
    let full = full_house(ana, ben);
    assert(small.len() == 5);
    assert(more_musicians().len() == 6);
    assert(more_listeners().len() == 9);
    assert forall|i: int| 0 <= i < 4 implies #[trigger] full[i] == small[i] by {}
    assert(full[10] == small[4]);
    assert forall|i: int| 4 <= i < 10 implies #[trigger] full[i] == more_musicians()[i - 4] by {}
    assert forall|i: int| 11 <= i < 20 implies #[trigger] full[i] == more_listeners()[i - 11] by {}
    assert forall|i: int| 0 <= i < 20 implies (#[trigger] full[i]).id == (if i < 4 {
        i
    } else if i < 10 {
        i + 1
    } else if i == 10 {
        4
    } else {
        i
    }) && (full[i].role is Musician <==> i < 10) by {}
}

/// A demo opens with everybody there, nothing wrong, nothing said beyond the
/// script, and nothing on air.
pub proof fn a_demo_opens_with_nothing_wrong(
    is_host: bool,
    frame: u64,
    frozen: bool,
    bitrate_kbps: u32,
    ana: AvatarModel,
    ben: AvatarModel,
    figures: DemoFigures,
)
    ensures
        ({
            let m = opened(is_host, frame, frozen, bitrate_kbps, ana, ben, figures);
            let s = shown_by(m);
            &&& m.frame == frame && m.frozen == frozen && m.bitrate_kbps == bitrate_kbps
            &&& m.figures == figures
            &&& m.revoked.len() == 0 && m.away.len() == 0 && m.quiet.len() == 0
            &&& s.is_host == is_host
            &&& s.stats.state is Joined
            &&& s.chat == script()
            &&& s.metronome.bpm == 112 && s.metronome.beats_per_bar == 4
            &&& s.metronome.enabled && s.metronome.you_hear_click
            &&& s.stream.destinations.len() == 0 && s.stream.readiness is None
            &&& s.record.state is Idle && !s.record.stems
            &&& !s.hear_self
            &&& s.device_error is None && s.audio_fault is None && s.stats.rate is None
            &&& s.stats.device_mode is None && !s.stats.crackling
            &&& s.stats.uplink_loss_pct matches Some(up) && up.bits == 0
            &&& s.stats.downlink_loss_pct matches Some(down) && down.bits == 0x3e4c_cccd
            &&& m.own_name is None
            &&& is_host ==> s.broadcast is Some && !s.broadcast->0.audition
        }),
{
    let m = opened(is_host, frame, frozen, bitrate_kbps, ana, ben, figures);
    assert(shown_by(m).chat =~= script());
}

proof fn lemma_dropping(ids: Seq<u16>, id: u16, x: u16)
    ensures
        dropping(ids, id).contains(x) <==> x != id && ids.contains(x),
    decreases ids.len(),
{
    if ids.len() > 0 {
        let head = ids.drop_last();
        lemma_dropping(head, id, x);
        if ids.contains(x) {
            let k = choose|k: int| 0 <= k < ids.len() && ids[k] == x;
            if k < head.len() {
                assert(head[k] == x);
            }
        }
        if head.contains(x) {
            let k = choose|k: int| 0 <= k < head.len() && head[k] == x;
            assert(ids[k] == x);
        }
        let before = dropping(head, id);
        let after = dropping(ids, id);
        if ids.last() != id {
            assert(after.last() == ids.last());
            if before.contains(x) {
                let k = choose|k: int| 0 <= k < before.len() && before[k] == x;
                assert(after[k] == x);
            }
            if after.contains(x) {
                let k = choose|k: int| 0 <= k < after.len() && after[k] == x;
                if k < before.len() {
                    assert(before[k] == x);
                } else {
                    assert(ids[ids.len() - 1] == x);
                }
            }
            if ids.last() == x {
                assert(after[after.len() - 1] == x);
            }
        }
    }
}

/// Setting a number puts it in and clearing it takes it out, and neither
/// touches any other.
pub proof fn a_number_is_in_exactly_while_it_is_set(ids: Seq<u16>, id: u16, on: bool, x: u16)
    ensures
        set_in(ids, id, on).contains(x) <==> (if x == id {
            on
        } else {
            ids.contains(x)
        }),
{
    lemma_dropping(ids, id, x);
    let without = dropping(ids, id);
    if on {
        let with = without.push(id);
        assert(with[without.len() as int] == id);
        if without.contains(x) {
            let k = choose|k: int| 0 <= k < without.len() && without[k] == x;
            assert(with[k] == x);
        }
        if with.contains(x) && x != id {
            let k = choose|k: int| 0 <= k < with.len() && with[k] == x;
            assert(without[k] == x);
        }
    }
}

/// Removing a destination takes out every one of that number and leaves the
/// others, in order.
pub proof fn removing_takes_out_that_number_alone(
    destinations: Seq<DemoDestinationModel>,
    d: DemoDestinationModel,
    id: DestinationId,
)
    ensures
        without(Seq::empty(), id).len() == 0,
        d.id == id ==> without(destinations.push(d), id) == without(destinations, id),
        d.id != id ==> without(destinations.push(d), id) == without(destinations, id).push(d),
{
    assert(destinations.push(d).drop_last() =~= destinations);
}

/// A destination that is added comes last, on its own platform, with nothing
/// dropped and nothing repeated; it is live at once only where another one is
/// past idle. The others stay as they were, and nothing but the stream moves.
pub proof fn a_destination_is_added_last(
    m: DemoModel,
    id: DestinationId,
    platform: StreamPlatform,
    key: Seq<char>,
)
    ensures
        ({
            let before = shown_by(m);
            let after = shown_by(step(m, CommandModel::AddDestination { id, platform, key }));
            let gone = shown_by(step(m, CommandModel::RemoveDestination(id)));
            let last = after.stream.destinations.last();
            &&& after == (SnapshotModel { stream: after.stream, ..before })
            &&& gone == (SnapshotModel { stream: gone.stream, ..before })
            &&& after.stream.readiness == before.stream.readiness
            &&& gone.stream.readiness == before.stream.readiness
            &&& after.stream.destinations.drop_last() == gone.stream.destinations
            &&& last.id == id
            &&& last.platform == platform
            &&& last.dropped_frames == 0 && last.repeated_frames == 0
            &&& last.bitrate_kbps == m.bitrate_kbps
            &&& last.state is Live || last.state is Idle
            &&& last.state is Live <==> exists|i: int|
                0 <= i < gone.stream.destinations.len() && !((
                #[trigger] gone.stream.destinations[i]).state is Idle)
        }),
{
    let next = step(m, CommandModel::AddDestination { id, platform, key });
    let less = step(m, CommandModel::RemoveDestination(id));
    lemma_strips_alike(next, m, m.members);
    lemma_strips_alike(less, m, m.members);
    let gone = shown_by(less).stream.destinations;
    assert(shown_by(next).stream.destinations.drop_last() =~= gone);
    if streaming(less.destinations) {
        let i = choose|i: int|
            0 <= i < less.destinations.len() && (#[trigger] less.destinations[i]).state !is Idle;
        assert(!(gone[i].state is Idle));
    }
    if exists|i: int| 0 <= i < gone.len() && !((#[trigger] gone[i]).state is Idle) {
        let i = choose|i: int| 0 <= i < gone.len() && !((#[trigger] gone[i]).state is Idle);
        assert(less.destinations[i].state !is Idle);
    }
}

/// Starting and stopping the stream changes no destination's number, platform
/// or bitrate, and nothing but the stream; starting keeps what was dropped.
pub proof fn the_stream_keeps_its_destinations(m: DemoModel)
    ensures
        ({
            let before = shown_by(m);
            let on = shown_by(step(m, CommandModel::StartStream));
            let off = shown_by(step(m, CommandModel::StopStream));
            &&& on == (SnapshotModel { stream: on.stream, ..before })
            &&& off == (SnapshotModel { stream: off.stream, ..before })
            &&& on.stream.readiness == before.stream.readiness
            &&& off.stream.readiness == before.stream.readiness
            &&& on.stream.destinations.len() == before.stream.destinations.len()
            &&& off.stream.destinations.len() == before.stream.destinations.len()
            &&& forall|i: int|
                0 <= i < before.stream.destinations.len() ==> {
                    let was = #[trigger] before.stream.destinations[i];
                    &&& on.stream.destinations[i] == (DestinationModel {
                        state: DestinationStateModel::Live,
                        ..was
                    })
                    &&& off.stream.destinations[i] == (DestinationModel {
                        state: DestinationStateModel::Idle,
                        dropped_frames: 0,
                        repeated_frames: 0,
                        ..was
                    })
                }
        }),
{
    lemma_strips_alike(step(m, CommandModel::StartStream), m, m.members);
    lemma_strips_alike(step(m, CommandModel::StopStream), m, m.members);
}

/// Pinned destinations are numbered in the order given, each on its platform
/// and in its state, and their counters stand at zero unless one has failed.
pub proof fn pinned_destinations_are_numbered_in_order(
    entries: Seq<(StreamPlatform, DestinationStateModel)>,
    i: int,
)
    requires
        0 <= i < entries.len() <= 65_536,
    ensures
        ({
            let d = pinned(entries)[i];
            let failed = exists|j: int|
                0 <= j < entries.len() && (#[trigger] entries[j]).1 is Failed;
            &&& pinned(entries).len() == entries.len()
            &&& d.id.0 == i
            &&& d.platform == entries[i].0
            &&& d.state == entries[i].1
            &&& !failed ==> d.dropped_frames == 0 && d.repeated_frames == 0
            &&& failed ==> d.dropped_frames == 3 && d.repeated_frames == 41
        }),
{
}

/// A command the demo takes does what that command does, and one that sets
/// your picture changes nothing but your picture: none at all where it is
/// dropped, and otherwise what the bytes decode to.
pub proof fn a_command_taken_is_the_one_sent(rt: DemoRuntime, cmd: Command, next: DemoRuntime)
    requires
        rt.takes(cmd.deep_view(), &next),
    ensures
        rt.shown() == shown_by(rt.deep_view()),
        !(cmd is SetOwnAvatar) ==> next.deep_view() == step(rt.deep_view(), cmd.deep_view()),
        cmd matches Command::SetOwnAvatar(bytes) ==> ({
            let m = rt.deep_view();
            let n = next.deep_view();
            &&& n == (DemoModel { members: n.members, ..m })
            &&& n.members.len() == m.members.len()
            &&& forall|i: int|
                0 <= i < m.members.len() ==> {
                    let is = #[trigger] n.members[i];
                    let was = m.members[i];
                    &&& is == (DemoMemberModel { avatar: is.avatar, ..was })
                    &&& was.id != 0 ==> is == was
                    &&& was.id == 0 && bytes is None && (forall|k: int|
                        0 <= k < i ==> (#[trigger] m.members[k]).id != 0) ==> is.avatar is None
                    &&& is.avatar matches Some(picture) ==> is == was || (bytes matches Some(file)
                        && decode_may_be(
                        "own-"@ + decimal(file@.len()),
                        file@,
                        Ok::<AvatarModel, AvatarErrorModel>(picture),
                    ))
                }
        }),
{
    let m = rt.deep_view();
    let n = next.deep_view();
    if let Command::SetOwnAvatar(bytes) = cmd {
        lemma_seat_of(m.members, 0);
        let given = bytes_model(bytes);
        let avatar = choose|avatar: Option<AvatarModel>| #[trigger]
            own_picture(given, avatar) && n == (DemoModel {
                members: with_avatar(m.members, 0, avatar),
                ..m
            });
        let at = seat_of(m.members, 0);
        assert forall|i: int| 0 <= i < m.members.len() implies {
            let is = #[trigger] n.members[i];
            let was = m.members[i];
            &&& is == (DemoMemberModel { avatar: is.avatar, ..was })
            &&& was.id != 0 ==> is == was
            &&& was.id == 0 && bytes is None && (forall|k: int|
                0 <= k < i ==> (#[trigger] m.members[k]).id != 0) ==> is.avatar is None
            &&& is.avatar matches Some(picture) ==> is == was || (bytes matches Some(file)
                && decode_may_be(
                "own-"@ + decimal(file@.len()),
                file@,
                Ok::<AvatarModel, AvatarErrorModel>(picture),
            ))
        } by {
            if i != at {
                assert(n.members[i] == m.members[i]);
                if m.members[i].id == 0 {
                    assert(at < i);
                    assert(m.members[at].id == 0);
                }
            } else if bytes is Some {
                let decoded = choose|decoded: Result<AvatarModel, AvatarErrorModel>|
                    avatar == picture_from(decoded) && #[trigger] decode_may_be(
                        own_key(given->0),
                        given->0,
                        decoded,
                    );
            }
        }
    }
}

/// A recorder keeps every command it passes on, in the order they came, and
/// shows what the runtime underneath shows.
pub proof fn a_recorder_keeps_every_command<R: Runtime>(
    rt: RecordingRuntime<R>,
    cmd: Command,
    next: RecordingRuntime<R>,
)
    requires
        rt.takes(cmd.deep_view(), &next),
    ensures
        next.log@.len() == rt.log@.len() + 1,
        next.log@.last().deep_view() == cmd.deep_view(),
        forall|i: int|
            0 <= i < rt.log@.len() ==> (#[trigger] next.log@[i]).deep_view()
                == rt.log@[i].deep_view(),
        rt.inner.takes(cmd.deep_view(), &next.inner),
        rt.shown() == rt.inner.shown(),
        rt.wf() == rt.inner.wf(),
{
    let now = next.log.deep_view();
    let before = rt.log.deep_view();
    assert(now.len() == next.log@.len());
    assert forall|i: int| 0 <= i < rt.log@.len() implies (#[trigger] next.log@[i]).deep_view()
        == rt.log@[i].deep_view() by {
        assert(now[i] == before[i]);
    }
    assert(now[before.len() as int] == cmd.deep_view());
}

/// A demo is what contracts take it for, part for part.
pub proof fn a_demo_is_read_part_for_part(rt: DemoRuntime)
    ensures
        ({
            let m = rt.deep_view();
            &&& m.frame == rt.frame
            &&& m.members.len() == rt.members@.len()
            &&& forall|i: int|
                0 <= i < rt.members@.len() ==> {
                    let member = #[trigger] m.members[i];
                    &&& member.id == rt.members@[i].id
                    &&& member.name == rt.members@[i].name@
                    &&& member.role == rt.members@[i].role
                    &&& member.fader == rt.members@[i].fader
                    &&& member.bcast == rt.members@[i].bcast
                }
            &&& m.extra_chat.len() == rt.extra_chat@.len()
            &&& m.metronome == rt.metronome
            &&& m.revoked == rt.revoked@
            &&& m.away == rt.away@
            &&& m.quiet == rt.quiet@
            &&& m.left == rt.left
            &&& m.audition == rt.audition
            &&& m.hear_self == rt.hear_self
            &&& m.destinations.len() == rt.destinations@.len()
            &&& forall|i: int|
                0 <= i < rt.destinations@.len() ==> {
                    let d = #[trigger] m.destinations[i];
                    &&& d.id == rt.destinations@[i].id
                    &&& d.platform == rt.destinations@[i].platform
                    &&& d.dropped_frames == rt.destinations@[i].dropped_frames
                    &&& d.repeated_frames == rt.destinations@[i].repeated_frames
                }
            &&& m.device_error is Some <==> rt.device_error is Some
            &&& m.device_mode == rt.device_mode
            &&& m.rate == rt.rate
            &&& m.crackling == rt.crackling
            &&& m.uplink_loss_pct == rt.uplink_loss_pct
            &&& m.downlink_loss_pct == rt.downlink_loss_pct
            &&& m.audio_fault == rt.audio_fault
            &&& m.own_name is Some <==> rt.own_name is Some
            &&& m.bitrate_kbps == rt.bitrate_kbps
            &&& m.figures == rt.figures
            &&& m.is_host == rt.is_host
            &&& m.frozen == rt.frozen
        }),
{
}

/// The mix a demo opens with. A musician's own gains and pans are, from your
/// seat on: flat; -3 and -0.4; -1.5 and 0.3; -6, muted. In the broadcast they
/// are -1; -2 and -0.3; -4.5 and 0.35; -12, muted. The listener's are flat.
pub proof fn a_demo_opens_on_its_mix(ana: AvatarModel, ben: AvatarModel)
    ensures
        ({
            let b = band(ana, ben);
            &&& b[0].fader == fader_of(0, 0, false)
            &&& b[1].fader == fader_of(0xc040_0000, 0xbecc_cccd, false)
            &&& b[2].fader == fader_of(0xbfc0_0000, 0x3e99_999a, false)
            &&& b[3].fader == fader_of(0xc0c0_0000, 0, true)
            &&& b[4].fader == fader_of(0, 0, false)
            &&& b[0].bcast == fader_of(0xbf80_0000, 0, false)
            &&& b[1].bcast == fader_of(0xc000_0000, 0xbe99_999a, false)
            &&& b[2].bcast == fader_of(0xc090_0000, 0x3eb3_3333, false)
            &&& b[3].bcast == fader_of(0xc140_0000, 0, true)
            &&& b[4].bcast == fader_of(0, 0, false)
            &&& b[0].name == "Sam"@ && b[1].name == "Ana"@ && b[2].name == "Ben"@
            &&& b[3].name == "Mira"@ && b[4].name == "Lea"@
        }),
        fader_of(1, 2, true).gain_db.bits == 1,
        fader_of(1, 2, true).pan.bits == 2,
        fader_of(1, 2, true).muted,
{
}

/// What was said before the demo began, word for word and at its time.
pub proof fn the_script_is_as_it_was_said()
    ensures
        script().len() == 6,
        script()[0].text == "tuning up, one minute"@ && script()[0].at_ms == 12_000,
        script()[1].text == "click at 112 works for me"@ && script()[1].at_ms == 41_000,
        script()[2].text == "same, keeping it at 112"@ && script()[2].at_ms == 55_000,
        script()[3].text == "my monitor mix is a bit bass heavy, fixing"@ && script()[3].at_ms
            == 93_000,
        script()[4].text == "sounds great from the listener side"@ && script()[4].at_ms == 140_000,
        script()[5].text == "take it from the bridge?"@ && script()[5].at_ms == 171_000,
{
}

} // verus!
