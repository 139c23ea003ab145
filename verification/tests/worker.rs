use jamstream_client::live::conn::ClientState;
use jamstream_client::live::ring::playout_target;
use jamstream_client::live::state::{ClientEvent, ClientFigures, LiveState, MemberInfo};
use jamstream_client::live::tick::{FillStep, Opened, Worker};
use jamstream_client::live::watch::{JitterStats, RingCounters};
use jamstream_client::live::worker::{FaultChange, SinceReopen};
use jamstream_client::live::{AudioSettings, CHUNK_STEREO, MILLISECOND, SECOND, TICK};
use jamstream_client::runtime::{
    AudioFaultView, LevelsView, MemberId, RateOutcomeView, RateOutcomesView, RecordState, Role,
    Runtime, WakeView,
};
use jamstream_client::single::Single;

fn single(value: f32) -> Single {
    Single {
        bits: value.to_bits(),
    }
}

fn worker() -> (Worker, LiveState) {
    (
        Worker::new(0, AudioSettings::default(), 120, true, None, 2),
        LiveState::new(&[7; 16], "203.0.113.10:43210".to_owned()),
    )
}

fn opened(frames: u32, rate: Option<RateOutcomesView>) -> Opened {
    Opened {
        device_frames: frames,
        rate,
        capture_added: String::new(),
        playback_added: String::new(),
    }
}

fn figures(state: ClientState) -> ClientFigures {
    ClientFigures {
        state,
        session_full: false,
        member_id: Some(MemberId(0)),
        rtt_ms: None,
        jitter_depth: 2,
        jitter_target: 3,
        uplink_loss_pct: None,
        downlink_loss_pct: None,
        mouth_to_ear_ms: Some(single(45.0)),
        levels: LevelsView::default(),
        playout_low_frames: None,
        wake: None,
    }
}

fn quiet_ring() -> RingCounters {
    RingCounters {
        overruns: 0,
        underruns: 0,
        low_water_samples: Some(480),
    }
}

fn jitter(pulled: u64, lost: u64) -> JitterStats {
    JitterStats {
        pulled,
        lost,
        late: 0,
        reanchors: 0,
        waiting: 0,
        depth_frames: 2,
        target_frames: 3,
    }
}

#[test]
fn a_lost_device_is_reopened_and_the_screen_follows() {
    let (mut w, mut s) = worker();
    s.stats.rate = Some(RateOutcomesView {
        capture: RateOutcomeView::Native,
        playback: RateOutcomeView::Native,
    });
    assert!(w.check_stream(SECOND, true, &mut s));
    assert_eq!(s.stats.rate, None);
    let attempt = w.attempt_open(SECOND);
    assert_eq!((attempt.attempt, attempt.asked_for), (1, false));
    s.stream_refused("device busy".to_owned());
    assert_eq!(
        w.publish_fault(SECOND, &mut s),
        (FaultChange::Retrying, false)
    );
    assert_eq!(s.snapshot().audio_fault, Some(AudioFaultView::Retrying));

    let now = SECOND + 500 * MILLISECOND;
    assert!(w.check_stream(now, false, &mut s));
    w.attempt_open(now);
    let rate = RateOutcomesView {
        capture: RateOutcomeView::ClockSet { from: 44_100 },
        playback: RateOutcomeView::Native,
    };
    let report = w.opened(now, opened(480, Some(rate)), &mut s);
    assert!(report.shut.is_none());
    assert_eq!(
        report.capture_line.as_deref(),
        Some("moved the capture device to 48 kHz (was 44.1)")
    );
    assert_eq!(report.playback_line, None);
    assert_eq!(w.device_frames, 480);
    assert_eq!(
        w.publish_fault(now, &mut s),
        (FaultChange::Recovered, false)
    );
    let snap = s.snapshot();
    assert_eq!(
        (snap.audio_fault, snap.device_error, snap.stats.rate),
        (None, None, Some(rate))
    );
    assert_eq!(s.reopen_attempts, 2);
}

#[test]
fn a_settings_change_is_judged_once() {
    let (mut w, mut s) = worker();
    assert_eq!(w.captured(480_000), None, "nobody asked for a reopen");
    let attempt = w.reconfigure(
        SECOND,
        AudioSettings {
            buffer_frames: 240,
            ..AudioSettings::default()
        },
    );
    assert!(attempt.asked_for);
    assert_eq!(w.settings.buffer_frames, 240);
    let report = w.opened(2 * SECOND, opened(240, None), &mut s);
    assert_eq!(
        report.shut.map(|shut| (shut.shut_ms, shut.slow)),
        Some((1_000, true))
    );
    w.packet_made();
    assert_eq!(w.captured(479_999), None);
    let judged = w.captured(1);
    assert_eq!(
        judged,
        Some(SinceReopen {
            moved: 480_000,
            sent: 1
        })
    );
    assert!(w.recovered(judged.unwrap(), Some(single(1.0))));
    assert!(!w.recovered(judged.unwrap(), None));
    assert!(w.refused());
    assert!(!w.recovered(judged.unwrap(), Some(single(1.0))));
    assert_eq!(w.captured(480_000), None);
}

#[test]
fn a_top_up_stops_at_the_depth_and_loses_nothing() {
    let (mut w, _) = worker();
    let target = playout_target(120);
    let mut banked = 0;
    let mut pulled = 0;
    loop {
        match w.top_up_playout(banked, target) {
            FillStep::Pull => {
                w.pulled();
                pulled += CHUNK_STEREO;
            }
            FillStep::Push { from, to } => {
                assert!(from < to);
                banked += to - from;
                if !w.pushed(TICK, to - from) {
                    break;
                }
            }
            FillStep::Full => break,
        }
    }
    assert_eq!(banked, target);
    assert_eq!(pulled - banked, w.carry.len - w.carry.pos);
    assert_eq!(w.ring_took, TICK);
    // A ring that refuses leaves the rest where it was.
    assert!(matches!(
        w.top_up_playout(target - 10, target),
        FillStep::Push { .. }
    ));
    assert!(!w.pushed(2 * TICK, 0));
    assert_eq!(w.ring_took, TICK);
}

#[test]
fn a_stalled_device_walks_past_what_was_staged() {
    let (mut w, mut s) = worker();
    w.pulled();
    assert_eq!(w.drain_stalled_playout(TICK), 0);
    assert_eq!(w.carry.len, CHUNK_STEREO, "a device that takes audio");
    w.check_stream(SECOND, true, &mut s);
    assert_eq!(w.drain_stalled_playout(SECOND), 0);
    assert_eq!(w.carry.len, 0);
    assert_eq!(w.drain_stalled_playout(SECOND + 3 * TICK), 3);
    w.opened(SECOND + 4 * TICK, opened(120, None), &mut s);
    assert_eq!(w.drain_stalled_playout(SECOND + 4 * TICK), 0);
    assert_eq!(w.drain_from, None);
}

#[test]
fn the_rings_are_watched_while_there_are_any() {
    let (mut w, mut s) = worker();
    let (reports, held) = w.watch_ring_health(SECOND, quiet_ring(), &mut s);
    assert!(reports.is_some() && !held);
    assert_eq!(w.rings.playout_low_frames(), Some(240));
    s.record.state = RecordState::Recording;
    s.stats.crackling = true;
    w.check_stream(SECOND, true, &mut s);
    let (reports, held) = w.watch_ring_health(2 * SECOND, quiet_ring(), &mut s);
    assert!(reports.is_none() && held);
    assert_eq!(w.rings.playout_low_frames(), None);
    assert!(!s.snapshot().stats.crackling);
}

#[test]
fn what_the_watchers_measured_is_published() {
    let (mut w, mut s) = worker();
    let target = playout_target(120);
    assert_eq!(w.watch_wakeup(TICK, target), None);
    let mut now = TICK;
    while now < SECOND + 2 * TICK {
        now += 4 * TICK;
        if let Some(report) = w.watch_wakeup(now, target) {
            assert_eq!(report.cushion, 5 * MILLISECOND);
            assert_eq!(report.p99, 10 * MILLISECOND);
        }
    }
    w.watch_ring_health(now, quiet_ring(), &mut s);
    let joined = ClientState::Joined;
    assert_eq!(w.watch_downlink(0, &joined, jitter(0, 0)), None);
    let span = w
        .watch_downlink(SECOND, &joined, jitter(390, 10))
        .expect("a closed window");
    assert_eq!(span.to.lost - span.from.lost, 10);
    w.downlink.measured(Some(single(2.5)));
    w.publish_stats(figures(ClientState::Joined), &mut s);
    let stats = s.snapshot().stats;
    assert_eq!(stats.downlink_loss_pct, Some(single(2.5)));
    assert_eq!(stats.playout_low_frames, Some(240));
    assert_eq!(
        stats.wake,
        Some(WakeView {
            p99_us: 10_000,
            max_us: 10_000
        })
    );
    assert!(w.ever_joined);
    // Left: nothing is owed any more.
    w.watch_downlink(2 * SECOND, &ClientState::TimedOut, jitter(400, 10));
    assert_eq!(w.downlink.published(), None);
}

#[test]
fn a_late_worker_says_so_once_per_episode() {
    let (mut w, _) = worker();
    let target = playout_target(120);
    let mut now = 0;
    let mut reports = 0;
    // Four seconds of waking late, two in time, two late again.
    for (until, step) in [(4, 4 * TICK), (6, TICK), (8, 4 * TICK)] {
        while now < until * SECOND {
            now += step;
            reports += usize::from(w.watch_wakeup(now, target).is_some());
        }
        if until == 4 {
            assert_eq!(reports, 1, "once while it stays late");
            assert!(w.wake.said);
        } else if until == 6 {
            assert!(!w.wake.said, "in time again");
        }
    }
    assert_eq!(reports, 2, "and again once it is late again");
}

#[test]
fn each_downlink_window_is_measured_from_the_last() {
    let (mut w, _) = worker();
    let joined = ClientState::Joined;
    assert_eq!(w.watch_downlink(0, &joined, jitter(0, 0)), None);
    let first = w
        .watch_downlink(SECOND, &joined, jitter(400, 4))
        .expect("a closed window");
    assert_eq!((first.from.lost, first.to.lost), (0, 4));
    assert_eq!(
        w.watch_downlink(SECOND + TICK, &joined, jitter(401, 4)),
        None
    );
    let second = w
        .watch_downlink(2 * SECOND, &joined, jitter(800, 6))
        .expect("the next window");
    assert_eq!((second.from.lost, second.to.lost), (4, 6));
    assert_eq!(
        w.watch_downlink(2 * SECOND + TICK, &ClientState::TimedOut, jitter(800, 6)),
        None
    );
    assert!(w.downlink.from.is_none(), "nothing is owed any more");
}

#[test]
fn only_a_joined_client_is_owed_media() {
    let (mut w, _) = worker();
    for tick in 0..2_000u64 {
        let reports = w.watch_playout(
            tick * TICK,
            &ClientState::Connecting,
            Some(MemberId(1)),
            jitter(0, 0),
        );
        assert!(reports.silence.is_none());
    }
    let mut said = 0;
    for tick in 2_000..4_000u64 {
        let mut stats = jitter(0, 0);
        stats.waiting = tick;
        let reports = w.watch_playout(tick * TICK, &ClientState::Joined, Some(MemberId(1)), stats);
        said += u32::from(reports.silence.is_some());
    }
    assert_eq!(said, 1, "one line per episode");
}

#[test]
fn a_join_among_the_events_ends_the_search_for_an_address() {
    let (mut w, mut s) = worker();
    assert_eq!(w.maybe_fail_over(&ClientState::Connecting), None);
    assert_eq!(w.maybe_fail_over(&ClientState::TimedOut), Some(1));
    assert_eq!(w.maybe_fail_over(&ClientState::TimedOut), None, "the last");
    let (mut w, _) = worker();
    w.drain_events(vec![ClientEvent::Other], 0, None, &mut s);
    assert!(!w.ever_joined);
    w.drain_events(
        vec![ClientEvent::Other, ClientEvent::Joined],
        0,
        Some(MemberId(0)),
        &mut s,
    );
    assert!(w.ever_joined);
    assert_eq!(s.me, Some(MemberId(0)));
    assert_eq!(w.maybe_fail_over(&ClientState::TimedOut), None);
}

#[test]
fn the_offer_is_made_against_the_figure_on_screen() {
    let (mut w, mut s) = worker();
    s.roster = vec![MemberInfo {
        id: MemberId(1),
        name: "Ana".to_owned(),
        role: Role::Musician,
        connected: true,
        quiet: false,
        avatar_hash: None,
    }];
    w.publish_stats(figures(ClientState::Joined), &mut s);
    w.watch_hear_self_offer(0, &mut s);
    assert!(!s.snapshot().offer_hear_self);
    w.watch_hear_self_offer(10 * SECOND, &mut s);
    assert!(s.snapshot().offer_hear_self);
    s.hear_self = true;
    w.watch_hear_self_offer(11 * SECOND, &mut s);
    assert!(!s.snapshot().offer_hear_self);
}

#[test]
fn pinning_the_cushion_touches_no_device() {
    let (mut w, _) = worker();
    w.set_auto_cushion(false);
    assert!(!w.settings.auto_cushion && w.keeper.streaming);
}
