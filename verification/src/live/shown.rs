//! What a snapshot of the session shows of everything that came in: each
//! status the server sends, each command a person gives and each figure of a
//! tick is the thing of its own name in the next snapshot, and moves nothing
//! else.

use vstd::prelude::*;

use crate::avatar::{decode_may_be, hex_of, AvatarErrorModel};
use crate::live::conn::ClientState;
use crate::live::state::{
    after_decode, after_event, after_events, arrived, company, decodes_to, drained, fader_for,
    fresh_session, kept_avatars, mix_of, place_of, plays_along, points_at, published, seat_of,
    sender_name, shown_live, told, told_of, undecoded, wanted, with_line, Arrival, ClientEvent,
    ClientFigures, EventModel, InfoModel, LiveModel, LiveState,
};
use crate::model::{
    AvatarModel, ChatModel, CommandModel, ConnModel, DestinationStateModel, ReadinessModel,
    RecordStateModel, SnapshotModel,
};
use crate::runtime::{
    BroadcastReadiness, Command, DestinationState, FaderView, MemberId, MetronomeView, RecordState,
    Runtime,
};
use crate::text::decimal;

verus! {

// -------------------------------------------------------------------- helpers

/// From the `k`th event on, what no event speaks of stays as it was.
proof fn lemma_untouched(
    m: LiveModel,
    events: Seq<EventModel>,
    now_ms: u64,
    member_id: Option<MemberId>,
    k: int,
    target: MemberId,
)
    requires
        0 <= k <= events.len(),
    ensures
        ({
            let before = after_events(m, events.take(k), now_ms, member_id);
            let after = after_events(m, events, now_ms, member_id);
            &&& (forall|j: int| k <= j < events.len() ==> !((#[trigger] events[j]) is StreamStatus))
                ==> after.stream == before.stream
            &&& (forall|j: int|
                k <= j < events.len() ==> !((#[trigger] events[j]) is BroadcastReadiness))
                ==> after.readiness == before.readiness
            &&& (forall|j: int| k <= j < events.len() ==> !((#[trigger] events[j]) is RecordStatus))
                ==> after.record == before.record
            &&& (forall|j: int| k <= j < events.len() ==> !((#[trigger] events[j]) is Roster))
                ==> after.roster == before.roster
            &&& (forall|j: int| k <= j < events.len() ==> !((#[trigger] events[j]) is Joined))
                ==> after.me == before.me
            &&& (forall|j: int| k <= j < events.len() ==> !((#[trigger] events[j]) is Chat))
                ==> after.chat == before.chat
            &&& (forall|j: int|
                k <= j < events.len() ==> !((#[trigger] events[j]) is MetronomeChanged))
                ==> after.metronome == before.metronome
            &&& (forall|j: int|
                k <= j < events.len() ==> !((#[trigger] events[j]) matches
                    EventModel::BroadcastMixChanged { target: t, .. } && t == target))
                ==> fader_for(after.broadcast_faders, target.0) == fader_for(
                before.broadcast_faders,
                target.0,
            )
            &&& after.metronome.you_hear_click == before.metronome.you_hear_click
            &&& after.stats == before.stats
            &&& after.faders == before.faders
            &&& after.audition == before.audition
            &&& after.hear_self == before.hear_self
            &&& after.offer_hear_self == before.offer_hear_self
            &&& after.levels == before.levels
            &&& after.avatars == before.avatars
            &&& after.own_dropped == before.own_dropped
            &&& after.session_short == before.session_short
            &&& after.server_addr == before.server_addr
            &&& after.device_error == before.device_error
            &&& after.audio_fault == before.audio_fault
        }),
    decreases events.len() - k,
{
    if k == events.len() {
        assert(events.take(k) =~= events);
    } else {
        let head = events.drop_last();
        lemma_untouched(m, head, now_ms, member_id, k, target);
        assert(head.take(k) =~= events.take(k));
        assert(forall|j: int| 0 <= j < head.len() ==> #[trigger] head[j] == events[j]);
        assert(events.last() == events[events.len() - 1]);
    }
}

/// What stands after the first `k + 1` events is what the `k`th one left.
proof fn lemma_up_to(
    m: LiveModel,
    events: Seq<EventModel>,
    now_ms: u64,
    member_id: Option<MemberId>,
    k: int,
)
    requires
        0 <= k < events.len(),
    ensures
        after_events(m, events.take(k + 1), now_ms, member_id) == after_event(
            after_events(m, events.take(k), now_ms, member_id),
            events[k],
            now_ms,
            member_id,
        ),
{
    assert(events.take(k + 1).drop_last() =~= events.take(k));
    assert(events.take(k + 1).last() == events[k]);
}

proof fn lemma_nothing_yet(
    m: LiveModel,
    events: Seq<EventModel>,
    now_ms: u64,
    member_id: Option<MemberId>,
)
    ensures
        after_events(m, events.take(0), now_ms, member_id) == m,
{
    assert(events.take(0).len() == 0);
}

// ---------------------------------------------------------- the server's word

/// The destinations a snapshot shows are those of the last stream status the
/// server sent, and the ones shown before where it sent none.
pub proof fn the_last_stream_status_is_shown(
    m: LiveModel,
    events: Seq<EventModel>,
    now_ms: u64,
    member_id: Option<MemberId>,
    k: int,
)
    requires
        0 <= k <= events.len(),
        forall|j: int| k <= j < events.len() ==> !((#[trigger] events[j]) is StreamStatus),
    ensures
        ({
            let after = shown_live(drained(m, events, now_ms, member_id));
            &&& k == 0 ==> after.stream.destinations == shown_live(m).stream.destinations
            &&& k > 0 ==> (events[k - 1] matches EventModel::StreamStatus(destinations)
                ==> after.stream.destinations == destinations)
        }),
{
    lemma_untouched(m, events, now_ms, member_id, k, MemberId(0));
    if k > 0 {
        lemma_up_to(m, events, now_ms, member_id, k - 1);
    } else {
        lemma_nothing_yet(m, events, now_ms, member_id);
    }
}

/// Whether the session can broadcast is shown as the server last said it.
pub proof fn the_last_readiness_is_shown(
    m: LiveModel,
    events: Seq<EventModel>,
    now_ms: u64,
    member_id: Option<MemberId>,
    k: int,
)
    requires
        0 <= k <= events.len(),
        forall|j: int| k <= j < events.len() ==> !((#[trigger] events[j]) is BroadcastReadiness),
    ensures
        ({
            let after = shown_live(drained(m, events, now_ms, member_id));
            &&& k == 0 ==> after.stream.readiness == shown_live(m).stream.readiness
            &&& k > 0 ==> (events[k - 1] matches EventModel::BroadcastReadiness(readiness)
                ==> after.stream.readiness == Some(readiness))
        }),
{
    lemma_untouched(m, events, now_ms, member_id, k, MemberId(0));
    if k > 0 {
        lemma_up_to(m, events, now_ms, member_id, k - 1);
    } else {
        lemma_nothing_yet(m, events, now_ms, member_id);
    }
}

/// The take is shown as the server last said it is.
pub proof fn the_last_record_status_is_shown(
    m: LiveModel,
    events: Seq<EventModel>,
    now_ms: u64,
    member_id: Option<MemberId>,
    k: int,
)
    requires
        0 <= k <= events.len(),
        forall|j: int| k <= j < events.len() ==> !((#[trigger] events[j]) is RecordStatus),
    ensures
        ({
            let after = shown_live(drained(m, events, now_ms, member_id));
            &&& k == 0 ==> after.record == shown_live(m).record
            &&& k > 0 ==> (events[k - 1] matches EventModel::RecordStatus { state, stems }
                ==> after.record.state == state && after.record.stems == stems)
        }),
{
    lemma_untouched(m, events, now_ms, member_id, k, MemberId(0));
    if k > 0 {
        lemma_up_to(m, events, now_ms, member_id, k - 1);
    } else {
        lemma_nothing_yet(m, events, now_ms, member_id);
    }
}

/// The metronome is shown at the tempo, in the meter and on or off as the
/// server last said, and no word of the server's changes whether you hear its
/// click.
pub proof fn the_last_metronome_is_shown(
    m: LiveModel,
    events: Seq<EventModel>,
    now_ms: u64,
    member_id: Option<MemberId>,
    k: int,
)
    requires
        0 <= k <= events.len(),
        forall|j: int| k <= j < events.len() ==> !((#[trigger] events[j]) is MetronomeChanged),
    ensures
        ({
            let after = shown_live(drained(m, events, now_ms, member_id)).metronome;
            &&& after.you_hear_click == shown_live(m).metronome.you_hear_click
            &&& k == 0 ==> after == shown_live(m).metronome
            &&& k > 0 ==> (events[k - 1] matches EventModel::MetronomeChanged {
                bpm,
                beats_per_bar,
                enabled,
            } ==> after.bpm == bpm && after.beats_per_bar == beats_per_bar && after.enabled
                == enabled)
        }),
{
    lemma_untouched(m, events, now_ms, member_id, k, MemberId(0));
    lemma_untouched(m, events, now_ms, member_id, 0, MemberId(0));
    lemma_nothing_yet(m, events, now_ms, member_id);
    if k > 0 {
        lemma_up_to(m, events, now_ms, member_id, k - 1);
    }
}

/// Everybody on the last roster the server sent has a strip, in its order,
/// with the name, the role and the presence it gave them.
pub proof fn the_last_roster_is_shown(
    m: LiveModel,
    events: Seq<EventModel>,
    now_ms: u64,
    member_id: Option<MemberId>,
    k: int,
)
    requires
        0 <= k <= events.len(),
        forall|j: int| k <= j < events.len() ==> !((#[trigger] events[j]) is Roster),
    ensures
        ({
            let before = shown_live(m).members;
            let after = shown_live(drained(m, events, now_ms, member_id)).members;
            &&& k == 0 ==> after.len() == before.len() && forall|i: int|
                0 <= i < after.len() ==> {
                    let strip = #[trigger] after[i];
                    &&& strip.id == before[i].id
                    &&& strip.name == before[i].name
                    &&& strip.role == before[i].role
                    &&& strip.connected == before[i].connected
                    &&& strip.quiet == before[i].quiet
                    &&& strip.fader == before[i].fader
                }
            &&& k > 0 ==> (events[k - 1] matches EventModel::Roster(members) ==> after.len()
                == members.len() && forall|i: int|
                0 <= i < after.len() ==> {
                    let strip = #[trigger] after[i];
                    &&& strip.id == members[i].id
                    &&& strip.name == members[i].name
                    &&& strip.role == members[i].role
                    &&& strip.connected == members[i].connected
                    &&& strip.quiet == members[i].quiet
                    &&& members[i].avatar_hash is None ==> strip.avatar is None
                })
        }),
{
    lemma_untouched(m, events, now_ms, member_id, k, MemberId(0));
    if k > 0 {
        lemma_up_to(m, events, now_ms, member_id, k - 1);
    } else {
        lemma_nothing_yet(m, events, now_ms, member_id);
    }
}

/// The seat you hold is the one the core held when it last joined: that strip
/// is yours and no other, and seat zero is the host's.
pub proof fn joining_gives_you_your_seat(
    m: LiveModel,
    events: Seq<EventModel>,
    now_ms: u64,
    member_id: Option<MemberId>,
)
    ensures
        ({
            let after = shown_live(drained(m, events, now_ms, member_id));
            let joined = exists|j: int| 0 <= j < events.len() && (#[trigger] events[j]) is Joined;
            &&& joined ==> after.is_host == (member_id == Some(MemberId(0)))
            &&& joined ==> forall|i: int|
                0 <= i < after.members.len() ==> (#[trigger] after.members[i]).is_you == (member_id
                    == Some(after.members[i].id))
            &&& !joined ==> after.is_host == shown_live(m).is_host
        }),
{
    if exists|j: int| 0 <= j < events.len() && (#[trigger] events[j]) is Joined {
        lemma_seat_kept(m, events, now_ms, member_id);
    } else {
        lemma_untouched(m, events, now_ms, member_id, 0, MemberId(0));
        lemma_nothing_yet(m, events, now_ms, member_id);
    }
}

proof fn lemma_seat_kept(
    m: LiveModel,
    events: Seq<EventModel>,
    now_ms: u64,
    member_id: Option<MemberId>,
)
    requires
        exists|j: int| 0 <= j < events.len() && (#[trigger] events[j]) is Joined,
    ensures
        after_events(m, events, now_ms, member_id).me == member_id,
    decreases events.len(),
{
    if !(events.last() is Joined) {
        let head = events.drop_last();
        let j = choose|j: int| 0 <= j < events.len() && (#[trigger] events[j]) is Joined;
        assert(head[j] == events[j]);
        lemma_seat_kept(m, head, now_ms, member_id);
    }
}

/// What no event speaks of is shown as it was: the figures, the levels, your
/// own toggles, where the session is, and what is wrong with the device.
pub proof fn the_server_does_not_speak_of_your_side(
    m: LiveModel,
    events: Seq<EventModel>,
    now_ms: u64,
    member_id: Option<MemberId>,
)
    ensures
        ({
            let before = shown_live(m);
            let after = shown_live(drained(m, events, now_ms, member_id));
            &&& after.stats == before.stats
            &&& after.levels == before.levels
            &&& after.hear_self == before.hear_self
            &&& after.offer_hear_self == before.offer_hear_self
            &&& after.session_short == before.session_short
            &&& after.server_addr == before.server_addr
            &&& after.device_error == before.device_error
            &&& after.audio_fault == before.audio_fault
            &&& after.cost is None
            &&& after.broadcast is Some && before.broadcast is Some ==> after.broadcast->0.audition
                == before.broadcast->0.audition
        }),
{
    lemma_untouched(m, events, now_ms, member_id, 0, MemberId(0));
    lemma_nothing_yet(m, events, now_ms, member_id);
}

/// A line somebody says is the last one shown: under the name the roster has
/// for them at that moment, or their number where it has none, with the text
/// they sent and the time it came. The lines before it are the ones that were
/// shown, but for the oldest once the chat is full.
pub proof fn a_line_from_the_room_is_shown_as_it_was_said(
    m: LiveModel,
    events: Seq<EventModel>,
    now_ms: u64,
    member_id: Option<MemberId>,
    from: MemberId,
    text: Seq<char>,
)
    ensures
        ({
            let before = shown_live(drained(m, events, now_ms, member_id));
            let after = shown_live(
                drained(m, events.push(EventModel::Chat { from, text }), now_ms, member_id),
            );
            let line = after.chat.last();
            let room = before.members;
            &&& after.chat.len() > 0
            &&& line.text == text
            &&& line.from_id == from
            &&& line.at_ms == now_ms
            &&& forall|s: int|
                0 <= s < room.len() && (#[trigger] room[s]).id == from && (forall|r: int|
                    0 <= r < s ==> (#[trigger] room[r]).id != from) ==> line.from_name
                    == room[s].name
            &&& (forall|s: int| 0 <= s < room.len() ==> (#[trigger] room[s]).id != from)
                ==> line.from_name == "member "@ + decimal(from.0 as nat)
            &&& before.chat.len() < 500 ==> after.chat.drop_last() == before.chat
            &&& before.chat.len() == 500 ==> after.chat.drop_last() == before.chat.skip(1)
        }),
{
    let more = events.push(EventModel::Chat { from, text });
    assert(more.drop_last() =~= events);
    let b = drained(m, events, now_ms, member_id);
    let mid = after_events(m, events, now_ms, member_id);
    let before = shown_live(b);
    let room = before.members;
    let after = shown_live(drained(m, more, now_ms, member_id));
    assert(mid.roster == b.roster && mid.chat == b.chat);
    assert(after.chat == with_line(
        b.chat,
        ChatModel {
            from_name: sender_name(b.roster, from),
            from_id: from,
            text,
            at_ms: now_ms,
        },
    ));
    lemma_first_seat(b.roster, from);
    let at = seat_of(b.roster, from);
    assert forall|s: int|
        0 <= s < room.len() && (#[trigger] room[s]).id == from && (forall|r: int|
            0 <= r < s ==> (#[trigger] room[r]).id != from) implies after.chat.last().from_name
        == room[s].name by {
        assert(b.roster[s].id == from);
        if at < s {
            assert(room[at].id != from);
        }
    }
    if forall|s: int| 0 <= s < room.len() ==> (#[trigger] room[s]).id != from {
        if at < b.roster.len() {
            assert(room[at].id == from);
        }
    }
    if before.chat.len() == 500 {
        assert(after.chat.drop_last() =~= before.chat.skip(1));
    }
    if before.chat.len() < 500 {
        assert(after.chat.drop_last() =~= before.chat);
    }
}

proof fn lemma_first_seat(roster: Seq<InfoModel>, id: MemberId)
    ensures
        0 <= seat_of(roster, id) <= roster.len(),
        seat_of(roster, id) < roster.len() ==> roster[seat_of(roster, id)].id == id,
        forall|i: int| 0 <= i < seat_of(roster, id) ==> (#[trigger] roster[i]).id != id,
    decreases roster.len(),
{
    if roster.len() > 0 && roster[0].id != id {
        lemma_first_seat(roster.drop_first(), id);
        assert forall|i: int| 0 <= i < seat_of(roster, id) implies (#[trigger] roster[i]).id
            != id by {
            if i > 0 {
                assert(roster.drop_first()[i - 1] == roster[i]);
            }
        }
    }
}

/// Nothing but a line moves the chat.
pub proof fn nothing_but_a_line_moves_the_chat(
    m: LiveModel,
    events: Seq<EventModel>,
    now_ms: u64,
    member_id: Option<MemberId>,
    event: EventModel,
)
    requires
        !(event is Chat),
    ensures
        shown_live(drained(m, events.push(event), now_ms, member_id)).chat == shown_live(
            drained(m, events, now_ms, member_id),
        ).chat,
{
    assert(events.push(event).drop_last() =~= events);
}

// ----------------------------------------------------------- the broadcast mix

/// The musicians of a mix and their order come from the roster alone, and each
/// has the fader set for them.
proof fn lemma_mix(roster: Seq<InfoModel>, one: Map<u16, FaderView>, other: Map<u16, FaderView>)
    ensures
        mix_of(roster, one).len() == mix_of(roster, other).len(),
        forall|k: int|
            0 <= k < mix_of(roster, one).len() ==> (#[trigger] mix_of(roster, one)[k]).0 == mix_of(
                roster,
                other,
            )[k].0,
        forall|k: int|
            0 <= k < mix_of(roster, one).len() ==> (#[trigger] mix_of(roster, one)[k]).1
                == fader_for(one, mix_of(roster, one)[k].0.0),
    decreases roster.len(),
{
    if roster.len() > 0 {
        lemma_mix(roster.drop_last(), one, other);
    }
}

proof fn lemma_musician_is_mixed(roster: Seq<InfoModel>, faders: Map<u16, FaderView>, i: int) -> (k:
    int)
    requires
        0 <= i < roster.len(),
        roster[i].role is Musician,
    ensures
        0 <= k < mix_of(roster, faders).len(),
        mix_of(roster, faders)[k] == (roster[i].id, fader_for(faders, roster[i].id.0)),
    decreases roster.len(),
{
    let front = roster.drop_last();
    if i < front.len() {
        let k = lemma_musician_is_mixed(front, faders, i);
        k
    } else {
        mix_of(roster, faders).len() - 1
    }
}

/// The broadcast fader a host sets on a musician is the one the mix shows for
/// them at once. Every other pair of the mix stays as it was, and so does
/// everything else that is shown: no strip's own fader moves.
pub proof fn a_broadcast_fader_you_set_is_shown(m: LiveModel, member: MemberId, fader: FaderView)
    requires
        m.me == Some(MemberId(0)),
    ensures
        ({
            let before = shown_live(m);
            let after = shown_live(told(m, CommandModel::SetBroadcastFader { member, fader }));
            let was = before.broadcast->0.faders;
            let is = after.broadcast->0.faders;
            &&& before.broadcast is Some && after.broadcast is Some
            &&& after.members == before.members
            &&& after == (SnapshotModel { broadcast: after.broadcast, ..before })
            &&& after.broadcast->0.audition == before.broadcast->0.audition
            &&& is.len() == was.len()
            &&& forall|k: int|
                0 <= k < is.len() ==> #[trigger] is[k] == (if was[k].0 == member {
                    (member, fader)
                } else {
                    was[k]
                })
            &&& forall|i: int|
                0 <= i < m.roster.len() && (#[trigger] m.roster[i]).role is Musician
                    && m.roster[i].id == member ==> is.contains((member, fader))
        }),
{
    let next = told(m, CommandModel::SetBroadcastFader { member, fader });
    let is = shown_live(next).broadcast->0.faders;
    let was = shown_live(m).broadcast->0.faders;
    lemma_mix(m.roster, next.broadcast_faders, m.broadcast_faders);
    lemma_mix(m.roster, m.broadcast_faders, next.broadcast_faders);
    assert(shown_live(next).members =~= shown_live(m).members);
    assert forall|i: int|
        0 <= i < m.roster.len() && (#[trigger] m.roster[i]).role is Musician && m.roster[i].id
            == member implies is.contains((member, fader)) by {
        let k = lemma_musician_is_mixed(m.roster, next.broadcast_faders, i);
        assert(is[k] == (member, fader));
    }
    assert forall|k: int| 0 <= k < is.len() implies #[trigger] is[k] == (if was[k].0 == member {
        (member, fader)
    } else {
        was[k]
    }) by {
        assert(was[k].0 == is[k].0);
        assert(is[k].1 == fader_for(next.broadcast_faders, is[k].0.0));
        assert(was[k].1 == fader_for(m.broadcast_faders, was[k].0.0));
    }
}

/// A broadcast fader the server relays is the one the host is shown for that
/// musician, and where it relays none for a musician theirs stays as it was.
pub proof fn the_last_broadcast_fader_is_shown(
    m: LiveModel,
    events: Seq<EventModel>,
    now_ms: u64,
    member_id: Option<MemberId>,
    k: int,
    member: MemberId,
)
    requires
        0 <= k <= events.len(),
        forall|j: int|
            k <= j < events.len() ==> !((#[trigger] events[j]) matches
                EventModel::BroadcastMixChanged { target, .. } && target == member),
    ensures
        ({
            let before = shown_live(m).broadcast;
            let after = shown_live(drained(m, events, now_ms, member_id)).broadcast;
            &&& k > 0 && after is Some ==> (events[k - 1] matches EventModel::BroadcastMixChanged {
                target,
                fader,
            } ==> (target == member ==> forall|i: int|
                0 <= i < after->0.faders.len() && (#[trigger] after->0.faders[i]).0 == member
                    ==> after->0.faders[i].1 == fader))
            &&& k == 0 && before is Some && after is Some ==> forall|i: int, j: int|
                0 <= i < after->0.faders.len() && 0 <= j < before->0.faders.len() && (
                #[trigger] after->0.faders[i]).0 == member && (
                #[trigger] before->0.faders[j]).0 == member ==> after->0.faders[i]
                    == before->0.faders[j]
        }),
{
    let next = drained(m, events, now_ms, member_id);
    lemma_untouched(m, events, now_ms, member_id, k, member);
    lemma_mix(next.roster, next.broadcast_faders, next.broadcast_faders);
    lemma_mix(m.roster, m.broadcast_faders, m.broadcast_faders);
    if k > 0 {
        lemma_up_to(m, events, now_ms, member_id, k - 1);
    } else {
        lemma_nothing_yet(m, events, now_ms, member_id);
    }
    let before = shown_live(m).broadcast;
    let after = shown_live(next).broadcast;
    if k > 0 && after is Some {
        if let EventModel::BroadcastMixChanged { target, fader } = events[k - 1] {
            if target == member {
                assert(fader_for(next.broadcast_faders, member.0) == fader);
                assert forall|i: int|
                    0 <= i < after->0.faders.len() && (#[trigger] after->0.faders[i]).0
                        == member implies after->0.faders[i].1 == fader by {
                    assert(mix_of(next.roster, next.broadcast_faders)[i].1 == fader_for(
                        next.broadcast_faders,
                        member.0,
                    ));
                }
            }
        }
    }
}

// ---------------------------------------------------------- what you ask for

/// What you set on your own side is shown at once, each as the thing of its
/// own name, and nothing else moves with it.
pub proof fn a_toggle_is_shown_at_once(m: LiveModel, on: bool)
    ensures
        shown_live(told(m, CommandModel::SetHearSelf(on))) == (SnapshotModel {
            hear_self: on,
            ..shown_live(m)
        }),
        shown_live(told(m, CommandModel::SetClick(on))) == (SnapshotModel {
            metronome: MetronomeView {
                bpm: shown_live(m).metronome.bpm,
                beats_per_bar: shown_live(m).metronome.beats_per_bar,
                enabled: shown_live(m).metronome.enabled,
                you_hear_click: on,
            },
            ..shown_live(m)
        }),
        m.me == Some(MemberId(0)) ==> ({
            let before = shown_live(m);
            let after = shown_live(told(m, CommandModel::SetBroadcastAudition(on)));
            &&& after.broadcast is Some && after.broadcast->0.audition == on
            &&& after.broadcast->0.faders == before.broadcast->0.faders
            &&& after == (SnapshotModel { broadcast: after.broadcast, ..before })
        }),
        m.me != Some(MemberId(0)) ==> shown_live(told(m, CommandModel::SetBroadcastAudition(on)))
            == shown_live(m),
{
    assert(shown_live(told(m, CommandModel::SetHearSelf(on))).members =~= shown_live(m).members);
    assert(shown_live(told(m, CommandModel::SetClick(on))).members =~= shown_live(m).members);
    assert(shown_live(told(m, CommandModel::SetBroadcastAudition(on))).members =~= shown_live(
        m,
    ).members);
}

/// A metronome you set is shown at once, and whether you hear it does not
/// change.
pub proof fn a_metronome_you_set_is_shown(
    m: LiveModel,
    bpm: u16,
    beats_per_bar: u8,
    enabled: bool,
)
    ensures
        ({
            let before = shown_live(m);
            let after = shown_live(
                told(m, CommandModel::SetMetronome { bpm, beats_per_bar, enabled }),
            );
            &&& after.metronome.bpm == bpm
            &&& after.metronome.beats_per_bar == beats_per_bar
            &&& after.metronome.enabled == enabled
            &&& after.metronome.you_hear_click == before.metronome.you_hear_click
            &&& after == (SnapshotModel { metronome: after.metronome, ..before })
        }),
{
    assert(shown_live(
        told(m, CommandModel::SetMetronome { bpm, beats_per_bar, enabled }),
    ).members =~= shown_live(m).members);
}

/// A fader you set moves nothing but strips, and what the server has to answer
/// for moves nothing at all before it has.
pub proof fn what_the_server_answers_for_waits(m: LiveModel, cmd: CommandModel)
    ensures
        cmd is SetFader ==> shown_live(told(m, cmd)) == (SnapshotModel {
            members: shown_live(told(m, cmd)).members,
            ..shown_live(m)
        }),
        cmd is SetOwnAvatar ==> shown_live(told(m, cmd)) == (SnapshotModel {
            members: shown_live(told(m, cmd)).members,
            ..shown_live(m)
        }),
        cmd is SendChat || cmd is Leave || cmd is Revoke || cmd is SetOwnName
            || cmd is AddDestination || cmd is RemoveDestination || cmd is StartStream
            || cmd is StopStream || cmd is StartRecord || cmd is StopRecord ==> shown_live(
            told(m, cmd),
        ) == shown_live(m),
{
}

/// A strip nobody has set a fader on stands flat: no gain, in the middle, and
/// not muted. The last one set on it is the one that stands.
pub proof fn the_last_fader_set_stands(
    m: LiveModel,
    member: MemberId,
    one: FaderView,
    other: FaderView,
    i: int,
)
    requires
        0 <= i < m.roster.len(),
    ensures
        ({
            let first = told(m, CommandModel::SetFader { member, fader: one });
            let both = told(first, CommandModel::SetFader { member, fader: other });
            &&& m.roster[i].id == member ==> shown_live(both).members[i].fader == other
            &&& m.roster[i].id != member ==> shown_live(both).members[i].fader == shown_live(
                m,
            ).members[i].fader
            &&& m.faders == Map::<u16, FaderView>::empty() ==> {
                let fader = shown_live(m).members[i].fader;
                fader.gain_db.bits == 0 && fader.pan.bits == 0 && !fader.muted
            }
        }),
{
}

// ------------------------------------------------------------------- figures

/// Each figure handed in is the figure of its own name in the next snapshot,
/// and nothing that a tick has no figure for moves.
pub proof fn every_figure_is_shown_under_its_name(m: LiveModel, f: ClientFigures)
    ensures
        ({
            let before = shown_live(m);
            let after = shown_live(published(m, f));
            &&& after.stats.rtt_ms == f.rtt_ms
            &&& after.stats.jitter_depth == f.jitter_depth
            &&& after.stats.jitter_target == f.jitter_target
            &&& after.stats.uplink_loss_pct == f.uplink_loss_pct
            &&& after.stats.downlink_loss_pct == f.downlink_loss_pct
            &&& after.stats.mouth_to_ear_ms == f.mouth_to_ear_ms
            &&& after.stats.playout_low_frames == f.playout_low_frames
            &&& after.stats.wake == f.wake
            &&& after.levels.input_peak == f.levels.input_peak
            &&& after.levels.input_rms == f.levels.input_rms
            &&& after.levels.output_peak == f.levels.output_peak
            &&& after.levels.output_rms == f.levels.output_rms
            &&& after.is_host == (f.member_id == Some(MemberId(0)))
            &&& after.members.len() == before.members.len()
            &&& forall|i: int|
                0 <= i < after.members.len() ==> {
                    let strip = #[trigger] after.members[i];
                    &&& strip.is_you == (f.member_id == Some(strip.id))
                    &&& strip.id == before.members[i].id
                    &&& strip.name == before.members[i].name
                    &&& strip.role == before.members[i].role
                    &&& strip.connected == before.members[i].connected
                    &&& strip.quiet == before.members[i].quiet
                    &&& strip.fader == before.members[i].fader
                }
            &&& after.stats.device_mode == before.stats.device_mode
            &&& after.stats.rate == before.stats.rate
            &&& after.stats.crackling == before.stats.crackling
            &&& after.stats.cutting_out == before.stats.cutting_out
            &&& after.chat == before.chat
            &&& after.metronome == before.metronome
            &&& after.stream == before.stream
            &&& after.record == before.record
            &&& after.hear_self == before.hear_self
            &&& after.offer_hear_self == before.offer_hear_self
            &&& after.session_short == before.session_short
            &&& after.server_addr == before.server_addr
            &&& after.device_error == before.device_error
            &&& after.audio_fault == before.audio_fault
        }),
{
}

/// The connection is shown as the core has it, until the session is over; a
/// full session takes the place of connecting and of nothing else.
pub proof fn the_connection_is_shown_as_it_stands(m: LiveModel, f: ClientFigures)
    ensures
        ({
            let state = shown_live(published(m, f)).stats.state;
            if m.stats.state is Idle {
                state is Idle
            } else {
                match f.state {
                    ClientState::Connecting => if f.session_full {
                        state is SessionFull
                    } else {
                        state is Connecting
                    },
                    ClientState::Joined => state is Joined,
                    ClientState::TimedOut => state is TimedOut,
                    ClientState::Ejected { reason } => state == ConnModel::Ejected(reason@),
                    ClientState::Rejected { .. } => state is Ejected,
                }
            }
        }),
{
}

// -------------------------------------------------------------------- strips

/// A strip is the roster's entry: what the server says of a member is what
/// their strip says, and it carries no token.
pub proof fn a_strip_is_the_rosters_entry(m: LiveModel, i: int)
    requires
        0 <= i < m.roster.len(),
    ensures
        ({
            let strip = shown_live(m).members[i];
            let info = m.roster[i];
            &&& shown_live(m).members.len() == m.roster.len()
            &&& strip.id == info.id
            &&& strip.name == info.name
            &&& strip.role == info.role
            &&& strip.connected == info.connected
            &&& strip.quiet == info.quiet
            &&& strip.is_you == (m.me == Some(info.id))
            &&& strip.token is None
        }),
{
}

proof fn lemma_first_place(avatars: Seq<AvatarModel>, hash: Seq<char>)
    ensures
        0 <= place_of(avatars, hash) <= avatars.len(),
        place_of(avatars, hash) < avatars.len() ==> avatars[place_of(avatars, hash)].hash == hash,
        forall|i: int|
            0 <= i < place_of(avatars, hash) ==> (#[trigger] avatars[i]).hash != hash,
    decreases avatars.len(),
{
    if avatars.len() > 0 && avatars[0].hash != hash {
        lemma_first_place(avatars.drop_first(), hash);
        assert forall|i: int| 0 <= i < place_of(avatars, hash) implies (
        #[trigger] avatars[i]).hash != hash by {
            if i > 0 {
                assert(avatars.drop_first()[i - 1] == avatars[i]);
            }
        }
    }
}

/// A member's picture is one that was decoded and whose hash is the one the
/// roster has for them. It is shown as soon as there is one, except on your
/// own strip once you have dropped it.
pub proof fn a_picture_belongs_to_its_member(m: LiveModel, i: int)
    requires
        0 <= i < m.roster.len(),
    ensures
        ({
            let strip = shown_live(m).members[i];
            let hidden = m.own_dropped && m.me == Some(m.roster[i].id);
            &&& strip.avatar matches Some(picture) ==> m.roster[i].avatar_hash matches Some(hash)
                && picture.hash == hex_of(hash) && m.avatars.contains(picture) && !hidden
            &&& m.roster[i].avatar_hash matches Some(hash) ==> (!hidden && (exists|k: int|
                0 <= k < m.avatars.len() && (#[trigger] m.avatars[k]).hash == hex_of(hash))
                ==> strip.avatar is Some)
        }),
{
    if let Some(hash) = m.roster[i].avatar_hash {
        lemma_first_place(m.avatars, hex_of(hash));
    }
}

proof fn lemma_kept(avatars: Seq<AvatarModel>, roster: Seq<InfoModel>, picture: AvatarModel)
    ensures
        kept_avatars(avatars, roster).contains(picture) <==> avatars.contains(picture) && wanted(
            roster,
            picture.hash,
        ),
    decreases avatars.len(),
{
    if avatars.len() > 0 {
        let front = avatars.drop_last();
        lemma_kept(front, roster, picture);
        let before = kept_avatars(front, roster);
        let kept = kept_avatars(avatars, roster);
        if kept.contains(picture) {
            let k = choose|k: int| 0 <= k < kept.len() && kept[k] == picture;
            if k < before.len() {
                assert(before[k] == picture);
                let j = choose|j: int| 0 <= j < front.len() && front[j] == picture;
                assert(avatars[j] == picture);
            } else {
                assert(avatars[avatars.len() - 1] == picture);
            }
        }
        if avatars.contains(picture) && wanted(roster, picture.hash) {
            let j = choose|j: int| 0 <= j < avatars.len() && avatars[j] == picture;
            if j < front.len() {
                assert(front[j] == picture);
                let k = choose|k: int| 0 <= k < before.len() && before[k] == picture;
                assert(kept[k] == picture);
            } else {
                assert(kept[kept.len() - 1] == picture);
            }
        }
    }
}

/// A decoded picture outlives a tick exactly as long as somebody on the roster
/// it shows has its hash.
pub proof fn a_picture_stays_while_somebody_has_it(
    m: LiveModel,
    events: Seq<EventModel>,
    now_ms: u64,
    member_id: Option<MemberId>,
    picture: AvatarModel,
)
    requires
        events.len() > 0,
    ensures
        ({
            let after = drained(m, events, now_ms, member_id);
            after.avatars.contains(picture) <==> m.avatars.contains(picture) && exists|i: int|
                0 <= i < after.roster.len() && (#[trigger] after.roster[i]).avatar_hash is Some
                    && hex_of(after.roster[i].avatar_hash->0) == picture.hash
        }),
{
    let after = drained(m, events, now_ms, member_id);
    lemma_untouched(m, events, now_ms, member_id, 0, MemberId(0));
    lemma_nothing_yet(m, events, now_ms, member_id);
    lemma_kept(m.avatars, after.roster, picture);
    if wanted(after.roster, picture.hash) {
        let i = choose|i: int|
            0 <= i < after.roster.len() && points_at(#[trigger] after.roster[i], picture.hash);
        assert(after.roster[i].avatar_hash is Some);
    }
    if exists|i: int|
        0 <= i < after.roster.len() && (#[trigger] after.roster[i]).avatar_hash is Some && hex_of(
            after.roster[i].avatar_hash->0,
        ) == picture.hash {
        let i = choose|i: int|
            0 <= i < after.roster.len() && (#[trigger] after.roster[i]).avatar_hash is Some
                && hex_of(after.roster[i].avatar_hash->0) == picture.hash;
        assert(points_at(after.roster[i], picture.hash));
    }
}

/// The pictures to decode are those that have arrived, one for each time one
/// did and in that order, and nothing else.
pub proof fn every_arrival_is_handed_over_once(
    events: Seq<EventModel>,
    member: MemberId,
    hash: Seq<u8>,
    event: EventModel,
)
    ensures
        arrived(Seq::empty()).len() == 0,
        arrived(events.push(EventModel::AvatarReady { member, hash })) == arrived(events).push(
            (member, hash),
        ),
        !(event is AvatarReady) ==> arrived(events.push(event)) == arrived(events),
{
    assert(events.push(event).drop_last() =~= events);
    assert(events.push(EventModel::AvatarReady { member, hash }).drop_last() =~= events);
}

/// There is somebody to play with exactly where a strip that is not yours is a
/// connected musician's; listeners and those who are gone are no company.
pub proof fn company_is_a_connected_musician(m: LiveModel)
    ensures
        company(m.roster, m.me) <==> exists|i: int|
            0 <= i < shown_live(m).members.len() && {
                let strip = #[trigger] shown_live(m).members[i];
                strip.connected && strip.role is Musician && !strip.is_you
            },
{
    if company(m.roster, m.me) {
        let i = choose|i: int|
            0 <= i < m.roster.len() && plays_along(#[trigger] m.roster[i], m.me);
        assert(shown_live(m).members[i].connected);
    }
    if exists|i: int|
        0 <= i < shown_live(m).members.len() && {
            let strip = #[trigger] shown_live(m).members[i];
            strip.connected && strip.role is Musician && !strip.is_you
        } {
        let i = choose|i: int|
            0 <= i < shown_live(m).members.len() && {
                let strip = #[trigger] shown_live(m).members[i];
                strip.connected && strip.role is Musician && !strip.is_you
            };
        assert(plays_along(m.roster[i], m.me));
    }
}

/// A session that has only been asked for shows where it is and nothing that
/// nobody has said yet. It has no fader set, no picture, and no word of who
/// you are.
pub proof fn a_fresh_session_shows_nothing(session_short: Seq<char>, server_addr: Seq<char>)
    ensures
        ({
            let shown = shown_live(fresh_session(session_short, server_addr));
            &&& shown.session_short == session_short
            &&& shown.server_addr == server_addr
            &&& shown.stats.state is Connecting
            &&& shown.stats.rtt_ms is None
            &&& shown.stats.uplink_loss_pct is None
            &&& shown.stats.downlink_loss_pct is None
            &&& shown.stats.mouth_to_ear_ms is None
            &&& shown.stats.device_mode is None
            &&& shown.stats.rate is None
            &&& !shown.stats.crackling
            &&& shown.stats.playout_low_frames is None
            &&& shown.stats.wake is None
            &&& shown.stats.cutting_out is None
            &&& shown.members.len() == 0
            &&& shown.chat.len() == 0
            &&& shown.broadcast is None
            &&& shown.stream.destinations.len() == 0
            &&& shown.stream.readiness is None
            &&& shown.record.state is Idle
            &&& !shown.record.stems
            &&& shown.cost is None
            &&& !shown.hear_self
            &&& !shown.offer_hear_self
            &&& !shown.is_host
            &&& shown.device_error is None
            &&& shown.audio_fault is None
            &&& !shown.metronome.enabled
            &&& shown.metronome.you_hear_click
            &&& shown.metronome.bpm == 120
            &&& shown.metronome.beats_per_bar == 4
            &&& shown.levels.input_peak.bits == 0 && shown.levels.input_rms.bits == 0
            &&& shown.levels.output_peak.bits == 0 && shown.levels.output_rms.bits == 0
        }),
        ({
            let m = fresh_session(session_short, server_addr);
            &&& m.me is None && !m.own_dropped && !m.audition
            &&& m.faders == Map::<u16, FaderView>::empty()
            &&& m.broadcast_faders == Map::<u16, FaderView>::empty()
            &&& m.avatars.len() == 0 && m.avatar_failed.len() == 0
            &&& m.reopen_attempts == 0
        }),
{
}

/// What the worker publishes is what is shown, each under its own name.
pub proof fn what_is_published_is_shown(s: LiveState)
    ensures
        ({
            let m = s.deep_view();
            let shown = s.shown();
            &&& shown == shown_live(m)
            &&& shown.stats == s.stats.deep_view()
            &&& shown.levels == s.levels
            &&& shown.metronome == s.metronome
            &&& shown.hear_self == s.hear_self
            &&& shown.offer_hear_self == s.offer_hear_self
            &&& shown.session_short == s.session_short@
            &&& shown.server_addr == s.server_addr@
            &&& shown.device_error == s.device_error.deep_view()
            &&& shown.audio_fault == s.audio_fault
            &&& shown.record == s.record.deep_view()
            &&& shown.stream.destinations == s.stream.deep_view()
            &&& shown.stream.readiness == s.readiness.deep_view()
            &&& shown.is_host == (s.me == Some(MemberId(0)))
            &&& shown.members.len() == s.roster@.len()
            &&& shown.chat.len() == s.chat@.len()
            &&& forall|i: int|
                0 <= i < s.chat@.len() ==> (#[trigger] shown.chat[i]) == s.chat@[i].deep_view()
        }),
{
}

/// A command taken shows at once as what was asked for.
pub proof fn a_command_taken_is_shown(s: LiveState, cmd: Command, next: LiveState)
    requires
        s.takes(cmd.deep_view(), &next),
    ensures
        next.shown().stats == s.shown().stats,
        next.shown().chat == s.shown().chat,
        next.shown().stream == s.shown().stream,
        next.shown().record == s.shown().record,
        match cmd {
            Command::SetFader { member, gain_db, pan, muted } => forall|i: int|
                0 <= i < s.roster@.len() ==> {
                    let strip = #[trigger] next.shown().members[i];
                    if strip.id == member {
                        strip.fader == (FaderView { gain_db, pan, muted })
                    } else {
                        strip == s.shown().members[i]
                    }
                },
            Command::SetBroadcastFader { member, gain_db, pan, muted } => next.shown().members
                == s.shown().members && (s.me == Some(MemberId(0)) ==> forall|k: int|
                0 <= k < next.shown().broadcast->0.faders.len() ==> {
                    let pair = #[trigger] next.shown().broadcast->0.faders[k];
                    pair.0 == member ==> pair.1 == (FaderView { gain_db, pan, muted })
                }),
            Command::SetClick(on) => next.shown().metronome == (MetronomeView {
                you_hear_click: on,
                ..s.shown().metronome
            }),
            Command::SetMetronome { bpm, beats_per_bar, enabled } => next.shown().metronome == (
            MetronomeView {
                bpm,
                beats_per_bar,
                enabled,
                you_hear_click: s.shown().metronome.you_hear_click,
            }),
            Command::SetHearSelf(on) => next.shown().hear_self == on,
            Command::SetBroadcastAudition(on) => s.me == Some(MemberId(0)) ==> next.shown(
            ).broadcast is Some && next.shown().broadcast->0.audition == on,
            Command::SetOwnAvatar(_) => next.shown() == (SnapshotModel {
                members: next.shown().members,
                ..s.shown()
            }),
            _ => next.shown() == s.shown(),
        },
{
    let m = s.deep_view();
    match cmd {
        Command::SetBroadcastFader { member, gain_db, pan, muted } => {
            let fader = FaderView { gain_db, pan, muted };
            if s.me == Some(MemberId(0)) {
                a_broadcast_fader_you_set_is_shown(m, member, fader);
            }
            assert(next.shown().members =~= s.shown().members);
        },
        _ => {},
    }
}

/// An event is what contracts take it for, part for part.
pub proof fn an_event_is_read_part_for_part(event: ClientEvent)
    ensures
        match event {
            ClientEvent::AvatarReady { member, hash } => event.deep_view() matches
                EventModel::AvatarReady { member: m, hash: h } && m == member && h == hash@,
            ClientEvent::Joined => event.deep_view() is Joined,
            ClientEvent::Roster(members) => event.deep_view() matches EventModel::Roster(roster)
                && roster.len() == members@.len() && forall|i: int|
                0 <= i < roster.len() ==> {
                    let info = #[trigger] roster[i];
                    let member = members@[i];
                    &&& info.id == member.id
                    &&& info.name == member.name@
                    &&& info.role == member.role
                    &&& info.connected == member.connected
                    &&& info.quiet == member.quiet
                    &&& info.avatar_hash is Some <==> member.avatar_hash is Some
                    &&& member.avatar_hash matches Some(hash) ==> info.avatar_hash->0 == hash@
                },
            ClientEvent::Chat { from, text } => event.deep_view() matches EventModel::Chat {
                from: f,
                text: t,
            } && f == from && t == text@,
            ClientEvent::MetronomeChanged { bpm, beats_per_bar, enabled } => event.deep_view()
                matches EventModel::MetronomeChanged { bpm: b, beats_per_bar: n, enabled: e } && b
                == bpm && n == beats_per_bar && e == enabled,
            ClientEvent::BroadcastMixChanged { target, fader } => event.deep_view() matches
                EventModel::BroadcastMixChanged { target: t, fader: f } && t == target && f
                == fader,
            ClientEvent::StreamStatus(destinations) => event.deep_view() matches
                EventModel::StreamStatus(seen) && seen.len() == destinations@.len()
                && forall|i: int|
                0 <= i < seen.len() ==> {
                    let d = #[trigger] seen[i];
                    let view = destinations@[i];
                    &&& d.id == view.id
                    &&& d.platform == view.platform
                    &&& d.bitrate_kbps == view.bitrate_kbps
                    &&& d.dropped_frames == view.dropped_frames
                    &&& d.repeated_frames == view.repeated_frames
                    &&& d.state is Idle <==> view.state is Idle
                    &&& d.state is Connecting <==> view.state is Connecting
                    &&& d.state is Live <==> view.state is Live
                    &&& view.state matches DestinationState::Failed { reason } ==> d.state
                        == DestinationStateModel::Failed { reason: reason@ }
                },
            ClientEvent::BroadcastReadiness(BroadcastReadiness::Ready) => event.deep_view()
                == EventModel::BroadcastReadiness(ReadinessModel::Ready),
            ClientEvent::BroadcastReadiness(BroadcastReadiness::Unavailable { reason }) =>
                event.deep_view() == EventModel::BroadcastReadiness(
                ReadinessModel::Unavailable { reason: reason@ },
            ),
            ClientEvent::RecordStatus { state, stems } => event.deep_view() matches
                EventModel::RecordStatus { state: s, stems: t } && t == stems && (s is Idle
                <==> state is Idle) && (s is Recording <==> state is Recording) && (s is Uploading
                <==> state is Uploading) && (state matches RecordState::Failed { reason } ==> s
                == RecordStateModel::Failed { reason: reason@ }),
            ClientEvent::Other => event.deep_view() is Other,
        },
{
}

/// A picture still has to be decoded exactly while it has neither been decoded
/// nor failed to be.
pub proof fn a_picture_is_due_until_it_is_settled(m: LiveModel, hash: Seq<char>)
    ensures
        undecoded(m, hash) <==> !m.avatar_failed.contains(hash) && forall|i: int|
            0 <= i < m.avatars.len() ==> (#[trigger] m.avatars[i]).hash != hash,
{
    lemma_first_place(m.avatars, hash);
    let at = place_of(m.avatars, hash);
    if at < m.avatars.len() {
        assert(m.avatars[at].hash == hash);
    }
}

/// What decoding comes to is kept and told, and nothing else changes: a picture
/// among the pictures, with its size, or a hash among those that failed, with
/// the reason.
pub proof fn what_decoding_came_to_is_kept_and_told(
    m: LiveModel,
    hex: Seq<char>,
    bytes: Seq<u8>,
    next: LiveModel,
    arrival: Arrival,
)
    requires
        decodes_to(m, hex, bytes, next, arrival),
    ensures
        next == (LiveModel { avatars: next.avatars, avatar_failed: next.avatar_failed, ..m }),
        match arrival {
            Arrival::Decoded { width, height } => next.avatar_failed == m.avatar_failed
                && next.avatars.len() == m.avatars.len() + 1 && next.avatars.drop_last()
                == m.avatars && next.avatars.last().hash == hex && next.avatars.last().width
                == width && next.avatars.last().height == height && decode_may_be(
                hex,
                bytes,
                Ok::<AvatarModel, AvatarErrorModel>(next.avatars.last()),
            ),
            Arrival::Refused(refusal) => next.avatars == m.avatars && next.avatar_failed
                == m.avatar_failed.push(hex) && decode_may_be(
                hex,
                bytes,
                Err::<AvatarModel, AvatarErrorModel>(refusal.deep_view()),
            ),
            _ => false,
        },
{
    let decoded = choose|decoded: Result<AvatarModel, AvatarErrorModel>| #[trigger]
        decode_may_be(hex, bytes, decoded) && next == after_decode(m, hex, decoded) && told_of(
            decoded,
            arrival,
        );
    if decoded is Ok {
        assert(next.avatars.drop_last() =~= m.avatars);
    }
}

} // verus!
