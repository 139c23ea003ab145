use std::collections::HashMap;

use jamstream_client::live::conn::{
    conn_state, conn_state_with, log_rate_changes, rate_change_line, ClientState,
};
use jamstream_client::live::costed::CostedRuntime;
use jamstream_client::live::notices::{
    system_line, DeviceNotices, OpenFailure, SYSTEM_MEMBER_ID,
};
use jamstream_client::live::ops::{
    core_op, work_of, CoreOp, RecordOp, StreamOp, ThreadMsg, Work,
};
use jamstream_client::live::state::{
    Arrival, ClientEvent, ClientFigures, LiveState, MemberInfo, CHAT_LIMIT,
};
use jamstream_client::live::watch::{REOPEN_ATTEMPTS_MAX, STREAM_SETTLED_AFTER};
use jamstream_client::live::worker::{
    count_moved, count_refusal, drain_stalled_playout, fail_over, pump_one, sleep_for, tick_after,
    uplink_recovered, Carry, Drain, FaultChange, OpenPlan, OpenStep, PumpStep, Shut, SinceReopen,
    StreamKeeper,
};
use jamstream_client::live::{AudioSettings, CHUNK_STEREO, MILLISECOND, SECOND, TICK};
use jamstream_client::runtime::{
    recording_or_on_air, AudioFaultView, BroadcastReadiness, ChatLine, Command, ConnState,
    DestinationId, DestinationState, DestinationView, FaderView, LevelsView, MemberId,
    RateOutcomeView, RateOutcomesView, RecordState, RecordView, Role, Runtime, StreamKey,
    StreamPlatform, TokenId, WakeView,
};
use jamstream_client::single::Single;

fn single(value: f32) -> Single {
    Single {
        bits: value.to_bits(),
    }
}

fn info(id: u16, name: &str, role: Role) -> MemberInfo {
    MemberInfo {
        id: MemberId(id),
        name: name.to_owned(),
        role,
        connected: true,
        quiet: false,
        avatar_hash: None,
    }
}

fn state() -> LiveState {
    LiveState::new(
        &[
            0xa3, 0xf2, 0x9c, 0x41, 1, 2, 3, 4, 5, 6, 7, 8, 9, 10, 11, 12,
        ],
        "203.0.113.10:43210".to_owned(),
    )
}

fn figures(state: ClientState, member: Option<u16>) -> ClientFigures {
    ClientFigures {
        state,
        session_full: false,
        member_id: member.map(MemberId),
        rtt_ms: Some(single(18.0)),
        jitter_depth: 3,
        jitter_target: 4,
        uplink_loss_pct: None,
        downlink_loss_pct: Some(single(0.5)),
        mouth_to_ear_ms: Some(single(31.0)),
        levels: LevelsView::default(),
        playout_low_frames: Some(240),
        wake: Some(WakeView {
            p99_us: 2_500,
            max_us: 3_000,
        }),
    }
}

fn png(w: u32, h: u32) -> Vec<u8> {
    let mut buf = std::io::Cursor::new(Vec::new());
    image::DynamicImage::ImageRgba8(image::RgbaImage::new(w, h))
        .write_to(&mut buf, image::ImageFormat::Png)
        .expect("encode png");
    buf.into_inner()
}

// ----------------------------------------------------------------- rate lines

#[test]
fn rung_changes_earn_one_honest_chat_line() {
    let clock_set = RateOutcomeView::ClockSet { from: 44_100 };
    let resampled = RateOutcomeView::Resampled {
        device: 44_100,
        added_ms: single(3.2),
    };
    assert_eq!(
        rate_change_line(None, clock_set, "capture", "").as_deref(),
        Some("moved the capture device to 48 kHz (was 44.1)")
    );
    assert_eq!(
        rate_change_line(None, resampled, "capture", "3.2").as_deref(),
        Some("converting capture 44.1 kHz to 48 kHz (+3.2 ms)")
    );
    assert_eq!(
        rate_change_line(Some(clock_set), resampled, "playback", "3.2").as_deref(),
        Some(
            "another app took the device clock back; \
             converting playback 44.1 kHz to 48 kHz (+3.2 ms)"
        )
    );
    // Silence: the device's own rate, the OS converter, and any unchanged path.
    assert_eq!(
        rate_change_line(None, RateOutcomeView::Native, "capture", ""),
        None
    );
    assert_eq!(
        rate_change_line(Some(resampled), RateOutcomeView::Native, "capture", ""),
        None,
        "returning to native is visible in the tag, not the chat"
    );
    assert_eq!(
        rate_change_line(
            None,
            RateOutcomeView::OsConverted { device: 44_100 },
            "playback",
            ""
        ),
        None
    );
    assert_eq!(
        rate_change_line(Some(resampled), resampled, "capture", "3.2"),
        None
    );
    assert_eq!(
        rate_change_line(Some(clock_set), clock_set, "capture", ""),
        None
    );
}

#[test]
fn rung_changes_earn_one_honest_log_line() {
    let clock_set = RateOutcomeView::ClockSet { from: 44_100 };
    let resampled = RateOutcomeView::Resampled {
        device: 44_100,
        added_ms: single(3.2),
    };
    assert_eq!(
        rate_change_line(None, clock_set, "capture", "").as_deref(),
        Some("moved the capture device to 48 kHz (was 44.1)")
    );
    assert_eq!(
        rate_change_line(None, resampled, "capture", "3.2").as_deref(),
        Some("converting capture 44.1 kHz to 48 kHz (+3.2 ms)")
    );
    assert_eq!(
        rate_change_line(Some(clock_set), resampled, "playback", "3.2").as_deref(),
        Some(
            "another app took the device clock back; \
             converting playback 44.1 kHz to 48 kHz (+3.2 ms)"
        )
    );
    for (old, new) in [
        (None, RateOutcomeView::Native),
        (Some(resampled), RateOutcomeView::Native),
        (None, RateOutcomeView::OsConverted { device: 44_100 }),
        (Some(resampled), resampled),
        (Some(clock_set), clock_set),
    ] {
        assert_eq!(rate_change_line(old, new, "playback", "3.2"), None);
    }
}

#[test]
fn a_reopen_on_the_same_path_writes_nothing() {
    let rate = RateOutcomesView {
        capture: RateOutcomeView::ClockSet { from: 44_100 },
        playback: RateOutcomeView::Native,
    };
    let mut announced = None;
    let first = log_rate_changes(&mut announced, Some(rate), "", "");
    assert_eq!(
        first,
        (
            Some("moved the capture device to 48 kHz (was 44.1)".to_owned()),
            None
        )
    );
    assert_eq!(log_rate_changes(&mut announced, Some(rate), "", ""), (None, None));
    assert_eq!(log_rate_changes(&mut announced, None, "", ""), (None, None));
    assert_eq!(announced, Some(rate));
}

#[test]
fn the_connection_reads_as_the_core_has_it() {
    assert_eq!(conn_state(&ClientState::Connecting), ConnState::Connecting);
    assert_eq!(conn_state(&ClientState::Joined), ConnState::Joined);
    assert_eq!(conn_state(&ClientState::TimedOut), ConnState::TimedOut);
    assert_eq!(
        conn_state(&ClientState::Ejected {
            reason: "revoked".to_owned()
        }),
        ConnState::Ejected("revoked".to_owned())
    );
    assert_eq!(
        conn_state(&ClientState::Rejected { ours: 7, theirs: 12 }),
        ConnState::Ejected(
            "protocol version mismatch: this client speaks 7, the server speaks 12".to_owned()
        )
    );
    assert_eq!(
        conn_state_with(&ClientState::Connecting, true),
        ConnState::SessionFull
    );
    assert_eq!(conn_state_with(&ClientState::Joined, true), ConnState::Joined);
}

#[test]
fn only_a_running_take_or_a_watched_destination_holds_the_cushion() {
    let take = |state| RecordView {
        state,
        stems: false,
    };
    let destination = |state| {
        vec![DestinationView {
            id: DestinationId(0),
            platform: StreamPlatform::Twitch,
            state,
            bitrate_kbps: 0,
            dropped_frames: 0,
            repeated_frames: 0,
        }]
    };
    let idle = take(RecordState::Idle);

    assert!(!recording_or_on_air(&idle, &vec![]));
    assert!(recording_or_on_air(&take(RecordState::Recording), &vec![]));
    assert!(!recording_or_on_air(&take(RecordState::Uploading), &vec![]));
    assert!(recording_or_on_air(
        &idle,
        &destination(DestinationState::Live)
    ));
    for state in [
        DestinationState::Idle,
        DestinationState::Connecting,
        DestinationState::Failed {
            reason: "no relay".into(),
        },
    ] {
        assert!(
            !recording_or_on_air(&idle, &destination(state.clone())),
            "{state:?} held the cushion still"
        );
    }
}

// ---------------------------------------------------------------------- state

#[test]
fn a_fresh_session_is_connecting_and_knows_nobody() {
    let s = state();
    let snap = s.snapshot();
    assert_eq!(snap.stats.state, ConnState::Connecting);
    assert_eq!(s.conn_state(), ConnState::Connecting);
    assert_eq!(snap.session_short, "a3f29c41");
    assert_eq!(snap.server_addr, "203.0.113.10:43210");
    assert!(snap.members.is_empty() && snap.chat.is_empty() && !snap.is_host);
    assert_eq!(
        (
            snap.metronome.bpm,
            snap.metronome.beats_per_bar,
            snap.metronome.enabled,
            snap.metronome.you_hear_click
        ),
        (120, 4, false, true)
    );
}

#[test]
fn events_reach_the_snapshot() {
    let mut s = state();
    let ready = s.drain_events(
        vec![
            ClientEvent::Joined,
            ClientEvent::Roster(vec![
                info(0, "Sam", Role::Musician),
                info(1, "Ana", Role::Musician),
                info(4, "Lea", Role::Listener),
            ]),
            ClientEvent::Chat {
                from: MemberId(1),
                text: "hi".to_owned(),
            },
            ClientEvent::Chat {
                from: MemberId(9),
                text: "who".to_owned(),
            },
            ClientEvent::MetronomeChanged {
                bpm: 90,
                beats_per_bar: 3,
                enabled: true,
            },
            ClientEvent::BroadcastMixChanged {
                target: MemberId(1),
                fader: FaderView {
                    gain_db: single(-3.0),
                    pan: single(0.0),
                    muted: false,
                },
            },
            ClientEvent::BroadcastReadiness(BroadcastReadiness::Ready),
            ClientEvent::RecordStatus {
                state: RecordState::Recording,
                stems: true,
            },
            ClientEvent::StreamStatus(vec![]),
            ClientEvent::Other,
        ],
        1_234,
        Some(MemberId(0)),
    );
    assert!(ready.is_empty());
    let snap = s.snapshot();
    assert!(snap.is_host);
    assert!(snap.members[0].is_you && !snap.members[1].is_you);
    assert_eq!(snap.chat[0].from_name, "Ana");
    assert_eq!(snap.chat[0].at_ms, 1_234);
    assert_eq!(snap.chat[1].from_name, "member 9");
    assert_eq!((snap.metronome.bpm, snap.metronome.enabled), (90, true));
    assert!(snap.metronome.you_hear_click);
    let broadcast = snap.broadcast.expect("the host's mix");
    assert_eq!(broadcast.faders.len(), 2, "musicians only");
    assert_eq!(broadcast.faders[1].1.gain_db, single(-3.0));
    assert_eq!(snap.stream.readiness, Some(BroadcastReadiness::Ready));
    assert_eq!(snap.record.state, RecordState::Recording);
    assert!(snap.cost.is_none());
}

#[test]
fn a_musician_sees_no_broadcast_mix() {
    let mut s = state();
    s.drain_events(vec![ClientEvent::Joined], 0, Some(MemberId(3)));
    let snap = s.snapshot();
    assert!(!snap.is_host && snap.broadcast.is_none());
}

#[test]
fn the_chat_keeps_its_length() {
    let mut s = state();
    for i in 0..CHAT_LIMIT + 20 {
        s.push_chat(ChatLine {
            from_name: "Ana".to_owned(),
            from_id: MemberId(1),
            text: format!("{i}"),
            at_ms: i as u64,
        });
    }
    let chat = s.snapshot().chat;
    assert_eq!(chat.len(), CHAT_LIMIT);
    assert_eq!(chat[0].text, "20");
    assert_eq!(chat.last().map(|l| l.text.as_str()), Some("519"));
}

#[test]
fn what_you_set_shows_at_once_and_what_the_server_says_waits() {
    let mut s = state();
    s.drain_events(
        vec![
            ClientEvent::Joined,
            ClientEvent::Roster(vec![
                info(0, "Sam", Role::Musician),
                info(1, "Ana", Role::Musician),
            ]),
        ],
        0,
        Some(MemberId(0)),
    );
    s.send(Command::SetFader {
        member: MemberId(1),
        gain_db: single(2.5),
        pan: single(0.1),
        muted: true,
    });
    s.send(Command::SetClick(false));
    s.send(Command::SetHearSelf(true));
    s.send(Command::SetBroadcastAudition(true));
    s.send(Command::StartStream);
    s.send(Command::StartRecord);
    s.send(Command::SendChat("hello".to_owned()));
    s.send(Command::SetOwnName("Samuel".to_owned()));
    let snap = s.snapshot();
    assert!(snap.members[1].fader.muted);
    assert_eq!(snap.members[0].fader, FaderView::flat());
    assert!(!snap.metronome.you_hear_click && snap.hear_self);
    assert!(snap.broadcast.expect("host").audition);
    assert!(!snap.stream.on_air());
    assert_eq!(snap.record.state, RecordState::Idle);
    assert!(snap.chat.is_empty());
    assert_eq!(snap.members[0].name, "Sam");
}

#[test]
fn a_picture_is_decoded_once_and_leaves_with_its_member() {
    let mut s = state();
    let hash = [0xab; 32];
    let mut ana = info(1, "Ana", Role::Musician);
    ana.avatar_hash = Some(hash);
    let ready = s.drain_events(
        vec![
            ClientEvent::Roster(vec![info(0, "Sam", Role::Musician), ana]),
            ClientEvent::AvatarReady {
                member: MemberId(1),
                hash,
            },
        ],
        0,
        None,
    );
    assert_eq!(ready, [(MemberId(1), hash)]);
    assert!(s.snapshot().members[1].avatar.is_none(), "still in flight");
    assert_eq!(s.decode_avatar(&hash, None), Arrival::Gone);
    assert_eq!(
        s.decode_avatar(&hash, Some(&png(4, 6))),
        Arrival::Decoded {
            width: 4,
            height: 6
        }
    );
    assert_eq!(s.decode_avatar(&hash, Some(&png(9, 9))), Arrival::Settled);
    let snap = s.snapshot();
    let shown = snap.members[1].avatar.as_ref().expect("decoded");
    assert_eq!((shown.width, shown.height), (4, 6));
    assert_eq!(shown.hash, "ab".repeat(32));

    s.drain_events(
        vec![ClientEvent::Roster(vec![info(0, "Sam", Role::Musician)])],
        0,
        None,
    );
    assert!(s.avatars.is_empty());
}

#[test]
fn a_bad_picture_is_tried_once() {
    let mut s = state();
    let hash = [7; 32];
    assert!(s.wants_decode(&hash));
    assert!(matches!(
        s.decode_avatar(&hash, Some(b"garbage")),
        Arrival::Refused(_)
    ));
    assert!(!s.wants_decode(&hash));
    assert_eq!(s.decode_avatar(&hash, Some(&png(2, 2))), Arrival::Settled);
}

#[test]
fn dropping_your_avatar_hides_only_yours() {
    let mut s = state();
    let (mine, theirs) = ([1; 32], [2; 32]);
    let mut sam = info(0, "Sam", Role::Musician);
    sam.avatar_hash = Some(mine);
    let mut ana = info(1, "Ana", Role::Musician);
    ana.avatar_hash = Some(theirs);
    s.drain_events(
        vec![ClientEvent::Joined, ClientEvent::Roster(vec![sam, ana])],
        0,
        Some(MemberId(0)),
    );
    s.decode_avatar(&mine, Some(&png(2, 2)));
    s.decode_avatar(&theirs, Some(&png(3, 3)));
    s.send(Command::SetOwnAvatar(None));
    let snap = s.snapshot();
    assert!(snap.members[0].avatar.is_none());
    assert!(snap.members[1].avatar.is_some());
    s.send(Command::SetOwnAvatar(Some(vec![1])));
    assert!(s.snapshot().members[0].avatar.is_some());
}

#[test]
fn figures_are_published_and_idle_is_terminal() {
    let mut s = state();
    s.publish_stats(figures(ClientState::Joined, Some(2)));
    let snap = s.snapshot();
    assert_eq!(snap.stats.state, ConnState::Joined);
    assert_eq!(snap.stats.jitter_depth, 3);
    assert_eq!(snap.stats.playout_low_frames, Some(240));
    assert_eq!(s.me, Some(MemberId(2)));
    let mut full = figures(ClientState::Connecting, None);
    full.session_full = true;
    s.publish_stats(full);
    assert_eq!(s.conn_state(), ConnState::SessionFull);
    s.shut();
    s.publish_stats(figures(ClientState::Joined, Some(2)));
    assert_eq!(s.conn_state(), ConnState::Idle);
}

#[test]
fn company_is_a_connected_musician_who_is_not_you() {
    let mut s = state();
    s.me = Some(MemberId(0));
    s.roster = vec![info(0, "Sam", Role::Musician), info(4, "Lea", Role::Listener)];
    assert!(!s.playing_with_others());
    let mut ana = info(1, "Ana", Role::Musician);
    ana.connected = false;
    s.roster.push(ana);
    assert!(!s.playing_with_others());
    s.roster[2].connected = true;
    assert!(s.playing_with_others());
}

#[test]
fn a_refusal_stays_until_a_stream_opens() {
    let mut s = state();
    s.stream_refused("device busy".to_owned());
    assert_eq!(s.snapshot().device_error.as_deref(), Some("device busy"));
    let rate = RateOutcomesView {
        capture: RateOutcomeView::Native,
        playback: RateOutcomeView::Native,
    };
    s.stream_opened(3, Some(rate));
    let snap = s.snapshot();
    assert_eq!(snap.device_error, None);
    assert_eq!(snap.stats.rate, Some(rate));
    assert_eq!(s.reopen_attempts, 3);
}

#[test]
fn a_host_is_shown_the_cost_and_the_newest_tokens() {
    let mut s = state();
    s.drain_events(
        vec![
            ClientEvent::Joined,
            ClientEvent::Roster(vec![
                info(0, "Sam", Role::Musician),
                info(1, "Ana", Role::Musician),
            ]),
        ],
        0,
        Some(MemberId(0)),
    );
    let tokens = HashMap::from([(1, TokenId([1; 16]))]);
    let mut rt = CostedRuntime::new(s, 16_800, 1_000, tokens);
    assert_eq!(rt.snapshot().cost.map(|c| c.accrued_microusd), Some(0));
    rt.set_now(1_000 + 1_800);
    let snap = rt.snapshot();
    let cost = snap.cost.expect("a meter");
    assert_eq!((cost.elapsed_secs, cost.accrued_microusd), (1_800, 8_400));
    assert_eq!(snap.members[0].token, None);
    assert_eq!(snap.members[1].token, Some(TokenId([1; 16])));
    rt.set_token(1, TokenId([9; 16]));
    assert_eq!(rt.snapshot().members[1].token, Some(TokenId([9; 16])));
    // A clock behind the machine's reads as no time at all.
    rt.set_now(5);
    assert_eq!(rt.snapshot().cost.map(|c| c.elapsed_secs), Some(0));
    rt.send(Command::SetClick(false));
    assert!(!rt.inner.metronome.you_hear_click);
    assert_eq!(rt.conn_state(), ConnState::Connecting);
}

// --------------------------------------------------------------------- worker

#[test]
fn rings_are_cut_again_once_and_no_more() {
    let mut plan = OpenPlan::new(120);
    assert_eq!(plan.opened(Some(120)), OpenStep::Run);
    assert_eq!(plan.opened(None), OpenStep::Run);
    assert_eq!(plan.opened(Some(480)), OpenStep::Reopen);
    assert_eq!(plan.frames, 480);
    assert_eq!(plan.opened(Some(480)), OpenStep::Run);
    assert_eq!(plan.opened(Some(960)), OpenStep::RunShort { needed: 960 });
    assert_eq!(plan.frames, 480);
}

#[test]
fn a_stall_is_replayed_or_dropped_whole() {
    assert_eq!(pump_one(100, 100, 48_000), PumpStep::Idle);
    assert_eq!(pump_one(100, 400, 48_000), PumpStep::Idle);
    assert_eq!(pump_one(150, 100, 48_000), PumpStep::Pump { frames: 50 });
    assert_eq!(pump_one(10_000, 100, 48_000), PumpStep::Pump { frames: 120 });
    assert_eq!(pump_one(96_000, 0, 48_000), PumpStep::Pump { frames: 120 });
    assert_eq!(
        pump_one(96_001, 0, 48_000),
        PumpStep::Skip { pumped: 96_001 }
    );
}

#[test]
fn a_full_ring_discards_nothing() {
    let mut carry = Carry::new();
    assert!(carry.wants_frame());
    carry.pulled();
    assert!(!carry.wants_frame());
    assert!(!carry.pushed(100));
    assert_eq!(carry.pos, 100);
    assert!(carry.pushed(CHUNK_STEREO - 100));
    assert!(carry.wants_frame());
    carry.pulled();
    carry.forget();
    assert!(carry.wants_frame());
}

#[test]
fn a_stalled_device_is_drained_at_the_frame_clock() {
    // Taking audio: nothing is owed.
    assert_eq!(
        drain_stalled_playout(SECOND, true, SECOND - MILLISECOND, 120, Some(5)),
        Drain {
            frames: 0,
            from: None
        }
    );
    // Just stalled: the debt starts now.
    assert_eq!(
        drain_stalled_playout(SECOND, false, SECOND, 120, None),
        Drain {
            frames: 0,
            from: Some(SECOND)
        }
    );
    // Three frames and a bit later.
    assert_eq!(
        drain_stalled_playout(SECOND + 8 * MILLISECOND, false, 0, 120, Some(SECOND)),
        Drain {
            frames: 3,
            from: Some(SECOND + 3 * TICK)
        }
    );
    // A debt past one pass is paid once and abandoned.
    assert_eq!(
        drain_stalled_playout(9 * SECOND, false, 0, 120, Some(SECOND)),
        Drain {
            frames: 64,
            from: Some(9 * SECOND)
        }
    );
    // A ring that took nothing for four callbacks is a stalled device too.
    assert_eq!(
        drain_stalled_playout(SECOND, true, SECOND - 41 * MILLISECOND, 120, None).from,
        Some(SECOND)
    );
}

#[test]
fn the_loop_keeps_its_cadence_and_skips_a_stall() {
    assert_eq!(sleep_for(SECOND + TICK, SECOND), TICK);
    assert_eq!(sleep_for(SECOND, SECOND + 1), 0);
    assert_eq!(tick_after(SECOND, SECOND), SECOND + TICK);
    assert_eq!(tick_after(SECOND, 9 * SECOND), 9 * SECOND + TICK);
}

#[test]
fn only_a_first_connect_fails_over() {
    assert_eq!(fail_over(false, true, 0, 2), Some(1));
    assert_eq!(fail_over(true, true, 0, 2), None);
    assert_eq!(fail_over(false, false, 0, 2), None);
    assert_eq!(fail_over(false, true, 1, 2), None);
}

#[test]
fn refused_packets_are_reported_as_they_double() {
    let mut errors = 0;
    let mut said = Vec::new();
    for _ in 0..20 {
        let (count, report) = count_refusal(errors);
        errors = count;
        if report {
            said.push(count);
        }
    }
    assert_eq!(said, [1, 2, 4, 8, 16]);
    assert_eq!(count_refusal(u64::MAX), (u64::MAX, false));
}

#[test]
fn a_reopen_is_judged_after_ten_seconds_of_capture() {
    let start = SinceReopen { moved: 0, sent: 0 };
    assert_eq!(
        count_moved(start, 479_999),
        (
            SinceReopen {
                moved: 479_999,
                sent: 0
            },
            false
        )
    );
    assert!(count_moved(start, 480_000).1);
    assert!(uplink_recovered(Some(single(4.9)), 480_000, 0));
    assert!(!uplink_recovered(Some(single(5.0)), 480_000, 0));
    assert!(!uplink_recovered(None, 480_000, 0));
    assert!(!uplink_recovered(Some(single(0.0)), 0, 0));
    assert!(!uplink_recovered(Some(single(0.0)), 480_000, 1));
    assert!(!uplink_recovered(Some(single(f32::NAN)), 480_000, 0));
}

#[test]
fn a_device_that_keeps_dying_is_given_up_on() {
    let mut keeper = StreamKeeper::new(0);
    assert_eq!(keeper.audio_fault(), None);
    let mut now = SECOND;
    assert!(keeper.check_stream(now, true), "a first loss reopens at once");
    let attempt = keeper.attempt_open(now);
    assert_eq!((attempt.attempt, attempt.in_episode), (1, 1));
    assert!(!attempt.asked_for);
    assert_eq!(keeper.publish_fault(), FaultChange::Retrying);
    assert_eq!(keeper.publish_fault(), FaultChange::Unchanged);
    let mut attempts = 1;
    for _ in 0..20_000 {
        now += TICK;
        if keeper.check_stream(now, false) {
            keeper.attempt_open(now);
            attempts += 1;
        }
    }
    assert_eq!(attempts, REOPEN_ATTEMPTS_MAX);
    assert_eq!(
        keeper.publish_fault(),
        FaultChange::GaveUp {
            tries: REOPEN_ATTEMPTS_MAX
        }
    );
    assert_eq!(
        keeper.audio_fault(),
        Some(AudioFaultView::GaveUp {
            tries: REOPEN_ATTEMPTS_MAX
        })
    );
    // Another pick is a fresh start.
    keeper.reconfigure(now);
    assert!(keeper.attempt_open(now).asked_for);
    let shut = keeper.opened(now + 300 * MILLISECOND);
    assert_eq!(
        shut,
        Some(Shut {
            shut_ms: 300,
            slow: false
        })
    );
    assert_eq!(keeper.publish_fault(), FaultChange::Recovered);
}

#[test]
fn a_stream_that_settles_ends_its_episode() {
    let mut keeper = StreamKeeper::new(0);
    keeper.check_stream(SECOND, true);
    keeper.attempt_open(SECOND);
    assert_eq!(keeper.opened(SECOND), None);
    assert!(!keeper.check_stream(SECOND + STREAM_SETTLED_AFTER - 1, false));
    assert_eq!(keeper.episode.attempts, 1);
    keeper.check_stream(SECOND + STREAM_SETTLED_AFTER, false);
    assert_eq!(keeper.episode.attempts, 0);
    assert_eq!(keeper.device_stops, 1);
}

#[test]
fn stops_close_together_are_told_once() {
    let mut keeper = StreamKeeper::new(0);
    assert_eq!(keeper.publish_cutting_out(0), (None, false));
    let mut told = 0;
    for stop in 1..=4u64 {
        keeper.check_stream(stop * SECOND, true);
        keeper.attempt_open(stop * SECOND);
        keeper.opened(stop * SECOND);
        let (stops, begins) = keeper.publish_cutting_out(stop * SECOND);
        told += u64::from(begins);
        assert_eq!(stops, if stop >= 3 { Some(stop) } else { None });
        // Each stop settles before the next, so the budget is never spent.
        keeper.check_stream(stop * SECOND + STREAM_SETTLED_AFTER, false);
    }
    assert_eq!(told, 1);
}

#[test]
fn a_slow_reopen_is_told_apart() {
    let mut keeper = StreamKeeper::new(0);
    keeper.reconfigure(SECOND);
    keeper.attempt_open(SECOND);
    assert_eq!(
        keeper.opened(2 * SECOND),
        Some(Shut {
            shut_ms: 1_000,
            slow: true
        })
    );
}

// -------------------------------------------------------------------- notices

#[test]
fn the_conversation_is_told_each_thing_once() {
    let mut notices = DeviceNotices::new();
    assert_eq!(
        notices.stopped().as_deref(),
        Some("the audio stream stopped; retrying")
    );
    assert_eq!(notices.stopped(), None);
    assert_eq!(
        notices.announce_open_failure(OpenFailure::Gone).as_deref(),
        Some("audio device disconnected; retrying")
    );
    assert_eq!(notices.announce_open_failure(OpenFailure::Gone), None);
    assert_eq!(
        notices
            .announce_open_failure(OpenFailure::Refused("busy".to_owned()))
            .as_deref(),
        Some("audio device refused: busy")
    );
    assert_eq!(notices.opened().as_deref(), Some("audio device reopened"));
    assert_eq!(notices.opened(), None);
    assert_eq!(
        notices.gave_up().as_deref(),
        Some(
            "the audio device did not stay open after 6 tries; \
             pick a device on the Audio tab to try again"
        )
    );
    assert_eq!(notices.gave_up(), None);
    notices.settled();
    assert!(notices.stopped().is_some());
    notices.reconfigured();
    assert_eq!(notices.opened(), None);
    let line = system_line("audio device reopened".to_owned(), 5);
    assert_eq!(line.from_name, "system");
    assert_eq!(line.from_id, MemberId(SYSTEM_MEMBER_ID));
    assert_eq!(line.at_ms, 5);
}

// ------------------------------------------------------------------------ ops

#[test]
fn every_command_becomes_the_call_that_carries_it_out() {
    assert!(matches!(
        core_op(Command::SetClick(true)),
        Some(CoreOp::SetClick(true))
    ));
    assert!(matches!(
        core_op(Command::SetOwnAvatar(None)),
        Some(CoreOp::DropAvatarLocally)
    ));
    assert!(matches!(
        core_op(Command::SetOwnAvatar(Some(vec![1, 2]))),
        Some(CoreOp::SetAvatar(bytes)) if bytes == [1, 2]
    ));
    assert!(matches!(
        core_op(Command::AddDestination {
            id: DestinationId(3),
            platform: StreamPlatform::YouTube,
            key: StreamKey("k".to_owned()),
        }),
        Some(CoreOp::Stream(StreamOp::AddDestination { id: DestinationId(3), key, .. }))
            if key.0 == "k"
    ));
    assert!(matches!(
        core_op(Command::StopRecord),
        Some(CoreOp::Record(RecordOp::Stop))
    ));
    assert!(core_op(Command::Leave).is_none());
    assert!(matches!(
        work_of(ThreadMsg::Cmd(Command::Leave)),
        Work::Shutdown
    ));
    assert!(matches!(
        work_of(ThreadMsg::Cmd(Command::StartStream)),
        Work::Call(CoreOp::Stream(StreamOp::Start))
    ));
    assert!(matches!(
        work_of(ThreadMsg::AutoCushion(false)),
        Work::SetAutoCushion(false)
    ));
    assert!(matches!(
        work_of(ThreadMsg::Reconfigure(AudioSettings::default())),
        Work::Reopen(_)
    ));
}
