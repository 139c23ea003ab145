use std::collections::BTreeSet;

use jamstream_client::live::ring::{playout_target, HEAL_TICKS};
use jamstream_client::live::watch::{
    CounterWatch, DownlinkLoss, DroppedCapture, EpisodeWatch, JitterStats, LossSpan, PlayoutReports,
    PlayoutWatch, ReopenEpisode, RingCounters, RingReports, RingWatch, CONCEALED_GAP_AFTER,
    CRACKLE_EPISODE_COUNT, CRACKLE_EPISODE_WINDOW, CUTTING_OUT_COUNT, CUTTING_OUT_WINDOW,
    DOWNLINK_LOSS_WINDOW, PLAYOUT_LOW_WINDOW, REOPEN_ATTEMPTS_MAX, REOPEN_BACKOFF_MAX,
    REOPEN_INTERVAL,
};
use jamstream_client::live::{CHANNELS, MILLISECOND, SECOND, TICK};
use jamstream_client::runtime::MemberId;
use jamstream_client::single::Single;

// ------------------------------------------------------------------ reopening

fn check_reopen_cadence() {
    let mut episode = ReopenEpisode::default();
    let mut waits = Vec::new();
    while !episode.spent() {
        waits.push(episode.backoff());
        episode.attempts += 1;
    }
    assert_eq!(waits.len(), REOPEN_ATTEMPTS_MAX as usize, "{waits:?}");
    assert_eq!(waits[0], 0, "a one-shot loss reopens at once");
    assert_eq!(waits[1], REOPEN_INTERVAL);
    for pair in waits[1..].windows(2) {
        assert_eq!(
            pair[1],
            (pair[0] * 2).min(REOPEN_BACKOFF_MAX),
            "the wait must double to the ceiling and stay there: {waits:?}"
        );
    }
    // Long enough that a driver settling has a chance, short enough that
    // nobody watches dead meters for a minute.
    let span: u64 = waits.iter().sum();
    assert!(
        span > 5 * SECOND && span < 30 * SECOND,
        "the whole budget spans {span:?}"
    );
}

#[test]
fn live_the_reopen_cadence_widens_and_then_gives_up() {
    check_reopen_cadence();
}

#[test]
fn watch_the_reopen_cadence_widens_and_then_gives_up() {
    check_reopen_cadence();
}

// -------------------------------------------------------------------- playout

/// The member the watched buffer plays for.
const ME: MemberId = MemberId(7);

/// A jitter buffer as its counters show it: it waits until the first frame,
/// then plays one frame a pull, concealing those that are not there and
/// refusing those that are behind.
struct Jitter {
    queue: BTreeSet<u32>,
    next: Option<u32>,
    stats: JitterStats,
}

impl Jitter {
    fn new() -> Jitter {
        Jitter {
            queue: BTreeSet::new(),
            next: None,
            stats: JitterStats {
                depth_frames: 0,
                target_frames: 1,
                pulled: 0,
                lost: 0,
                late: 0,
                waiting: 0,
                reanchors: 0,
            },
        }
    }

    fn push(&mut self, seq: u32) {
        if self.next.is_some_and(|next| seq < next) {
            self.stats.late += 1;
        } else {
            self.queue.insert(seq);
        }
    }

    fn pull(&mut self) {
        let next = match self.next.or_else(|| self.queue.first().copied()) {
            Some(next) => next,
            None => {
                self.stats.waiting += 1;
                return;
            }
        };
        self.stats.pulled += 1;
        if !self.queue.remove(&next) {
            self.stats.lost += 1;
        }
        self.next = Some(next + 1);
        self.stats.depth_frames = self.queue.len();
    }
}

/// A buffer, the watch over it, and a synthetic mix clock: one tick is one
/// 2.5 ms pull.
struct Ticker {
    jitter: Jitter,
    watch: PlayoutWatch,
    tick: u32,
    said: Vec<PlayoutReports>,
}

impl Ticker {
    fn new() -> Ticker {
        Ticker {
            jitter: Jitter::new(),
            watch: PlayoutWatch::default(),
            tick: 0,
            said: Vec::new(),
        }
    }

    fn run(&mut self, ticks: u32, joined_as: Option<MemberId>, feed: fn(&mut Jitter, u32)) {
        for _ in 0..ticks {
            feed(&mut self.jitter, self.tick);
            self.jitter.pull();
            let at = TICK * u64::from(self.tick);
            let reports = self.watch.observe(at, joined_as, self.jitter.stats);
            if reports.silence.is_some() || reports.gap.is_some() || reports.refused.is_some() {
                self.said.push(reports);
            }
            self.tick += 1;
        }
    }
}

/// This tick's frame, in time, every tick.
fn healthy(jitter: &mut Jitter, tick: u32) {
    jitter.push(tick);
}

/// Nothing arrives at all, so every pull has nothing to play.
fn nothing(_: &mut Jitter, _: u32) {}

/// This tick's frame every tick, save one that never arrives.
fn one_frame_short(jitter: &mut Jitter, tick: u32) {
    if tick != 200 {
        jitter.push(tick);
    }
}

/// This tick's frame plus a copy of the one from 100 ms back.
fn stale_copies(jitter: &mut Jitter, tick: u32) {
    jitter.push(tick);
    if let Some(old) = tick.checked_sub(40) {
        jitter.push(old);
    }
}

fn check_no_media() {
    let mut t = Ticker::new();
    t.run(1_200, Some(ME), nothing);
    assert_eq!(t.said.len(), 1, "{:#?}", t.said);
    assert!(t.said[0].gap.is_none() && t.said[0].refused.is_none());
    let silence = t.said[0].silence.expect("playout is silence");
    assert_eq!(silence.member, ME);
    assert_eq!(silence.depth_frames, 0);
    assert_eq!(silence.target_frames, 1);
    assert_eq!(silence.late, 0);
    assert_eq!(silence.reanchors, 0);
    assert_eq!(silence.silent_ms, 1_000);
}

#[test]
fn live_a_client_handed_no_media_says_so_once() {
    check_no_media();
}

#[test]
fn watch_a_client_handed_no_media_says_so_once() {
    check_no_media();
}

fn check_refused_media() {
    let mut t = Ticker::new();
    t.run(1_200, Some(ME), stale_copies);
    assert_eq!(t.said.len(), 1, "{:#?}", t.said);
    assert!(
        t.said[0].silence.is_none(),
        "a refused stream must not read as a silent one: {:?}",
        t.said[0]
    );
    let refused = t.said[0].refused.expect("media is being refused");
    assert_eq!(refused.member, ME);
    assert_eq!(refused.reanchors, 0);
    assert!(refused.refused > 200, "{refused:?}");
    assert!(refused.late >= refused.refused, "{refused:?}");
}

#[test]
fn live_a_client_whose_media_is_refused_says_something_else() {
    check_refused_media();
}

#[test]
fn watch_a_client_whose_media_is_refused_says_something_else() {
    check_refused_media();
}

fn check_ordinary_stream() {
    let mut t = Ticker::new();
    t.run(1_200, Some(ME), healthy);
    assert!(t.said.is_empty(), "{:#?}", t.said);
}

#[test]
fn live_an_ordinary_stream_says_nothing() {
    check_ordinary_stream();
}

#[test]
fn watch_an_ordinary_stream_says_nothing() {
    check_ordinary_stream();
}

fn check_dropout() {
    let mut t = Ticker::new();
    t.run(400, Some(ME), healthy);
    t.run(400, Some(ME), nothing);
    t.run(400, Some(ME), healthy);
    assert_eq!(t.said.len(), 1, "{:#?}", t.said);
    assert!(
        t.said[0].silence.is_none(),
        "a buffer that anchored and ran dry is not one that never filled: {:?}",
        t.said[0]
    );
    // The synthetic clock advances exactly one tick per pull, so the
    // reported length is the threshold to the millisecond.
    let gap = t.said[0].gap.expect("concealing a gap");
    assert_eq!(gap.member, ME);
    assert_eq!(gap.gap_ms, 250);
    assert_eq!(gap.concealed, 101);
    assert_eq!(gap.refused, 0);
    assert_eq!(gap.reanchors, 0);
    assert_eq!(gap.depth_frames, 0);
}

#[test]
fn live_a_dropout_says_how_long_it_lasted() {
    check_dropout();
}

#[test]
fn watch_a_dropout_says_how_long_it_lasted() {
    check_dropout();
}

fn check_single_concealed_frame() {
    let mut t = Ticker::new();
    t.run(1_200, Some(ME), one_frame_short);
    assert_eq!(t.jitter.stats.lost, 1);
    assert!(t.said.is_empty(), "{:#?}", t.said);
}

#[test]
fn live_a_single_concealed_frame_says_nothing() {
    check_single_concealed_frame();
}

#[test]
fn watch_a_single_concealed_frame_says_nothing() {
    check_single_concealed_frame();
}

fn check_healable_gap() {
    let mut t = Ticker::new();
    t.run(400, Some(ME), healthy);
    t.run(80, Some(ME), nothing);
    t.run(400, Some(ME), healthy);
    assert!(t.said.is_empty(), "{:#?}", t.said);
}

#[test]
fn live_a_gap_the_buffer_could_still_heal_says_nothing() {
    check_healable_gap();
}

#[test]
fn watch_a_gap_the_buffer_could_still_heal_says_nothing() {
    check_healable_gap();
}

fn check_second_dropout() {
    let mut t = Ticker::new();
    for _ in 0..2 {
        t.run(400, Some(ME), healthy);
        t.run(400, Some(ME), nothing);
    }
    t.run(400, Some(ME), healthy);
    assert_eq!(t.said.len(), 2, "{:#?}", t.said);
    for said in &t.said {
        assert_eq!(said.gap.expect("concealing a gap").gap_ms, 250);
    }
}

#[test]
fn live_a_second_dropout_is_its_own_episode() {
    check_second_dropout();
}

#[test]
fn watch_a_second_dropout_is_its_own_episode() {
    check_second_dropout();
}

fn check_dropout_threshold() {
    let heal = TICK * HEAL_TICKS;
    assert!(
        CONCEALED_GAP_AFTER > heal,
        "{CONCEALED_GAP_AFTER:?} would warn while the buffer is still \
         recovering, which takes up to {heal:?}"
    );
}

#[test]
fn live_the_dropout_threshold_clears_the_buffer_healing_itself() {
    check_dropout_threshold();
}

#[test]
fn watch_the_dropout_threshold_clears_the_buffer_healing_itself() {
    check_dropout_threshold();
}

fn check_silence_before_joining() {
    let mut t = Ticker::new();
    t.run(1_200, None, nothing);
    assert!(t.said.is_empty(), "{:#?}", t.said);
}

#[test]
fn live_silence_before_joining_says_nothing() {
    check_silence_before_joining();
}

#[test]
fn watch_silence_before_joining_says_nothing() {
    check_silence_before_joining();
}

fn check_reconnected_stream() {
    let mut t = Ticker::new();
    t.run(1_200, Some(ME), stale_copies);
    t.jitter = Jitter::new();
    t.run(1_200, Some(ME), healthy);
    assert_eq!(
        t.said.len(),
        1,
        "the healthy stream after it said nothing new"
    );
    assert!(t.said[0].refused.is_some(), "{:?}", t.said[0]);
}

#[test]
fn live_a_reconnected_stream_starts_its_own_episode() {
    check_reconnected_stream();
}

#[test]
fn watch_a_reconnected_stream_starts_its_own_episode() {
    check_reconnected_stream();
}

#[test]
fn a_silence_that_ends_can_be_said_again() {
    let mut t = Ticker::new();
    t.run(600, Some(ME), nothing);
    t.run(10, None, nothing);
    t.jitter = Jitter::new();
    t.run(600, Some(ME), nothing);
    assert_eq!(t.said.len(), 2, "{:#?}", t.said);
}

// ------------------------------------------------------------------- downlink

/// The loss of a closed window, as the caller works it out.
fn rate(span: LossSpan) -> Option<Single> {
    if span.to.pulled <= span.from.pulled || span.to.lost < span.from.lost {
        return None;
    }
    let lost = (span.to.lost - span.from.lost) as f32;
    let pulled = (span.to.pulled - span.from.pulled) as f32;
    Some(Single {
        bits: (lost * 100.0 / pulled).to_bits(),
    })
}

fn observe(watch: &mut DownlinkLoss, now: u64, joined: bool, stats: JitterStats) -> Option<f32> {
    if let Some(span) = watch.observe(now, joined, stats) {
        watch.measured(rate(span));
    }
    watch.published().map(|pct| f32::from_bits(pct.bits))
}

fn play_a_tick(
    watch: &mut DownlinkLoss,
    stats: &mut JitterStats,
    tick: &mut u64,
    lossy: bool,
) -> Option<f32> {
    stats.pulled += 1;
    if lossy && stats.pulled % 4 == 0 {
        stats.lost += 1;
    }
    *tick += 1;
    observe(watch, TICK * *tick, true, *stats)
}

#[test]
fn the_downlink_reads_clean_again_once_the_bad_stretch_is_over() {
    let ticks = DOWNLINK_LOSS_WINDOW / TICK + 1;
    let mut watch = DownlinkLoss::default();
    let mut stats = Jitter::new().stats;
    let mut tick = 0u64;

    // Nothing is claimed before a window has closed.
    assert_eq!(observe(&mut watch, 0, true, stats), None);

    let mut bad = None;
    for _ in 0..ticks {
        bad = play_a_tick(&mut watch, &mut stats, &mut tick, true);
    }
    let bad = bad.expect("a window closed");
    assert!(
        (bad - 25.0).abs() < 1.0,
        "a quarter of a bad second concealed is 25%, not {bad}"
    );

    // A clean second, and the bad one is out of the reading.
    let mut clean = None;
    for _ in 0..ticks {
        clean = play_a_tick(&mut watch, &mut stats, &mut tick, false);
    }
    assert_eq!(
        clean,
        Some(0.0),
        "a clean window must read clean whatever came before it"
    );
    for _ in 0..ticks * 4 {
        assert_eq!(
            play_a_tick(&mut watch, &mut stats, &mut tick, false),
            Some(0.0)
        );
    }
    let lifetime = stats.lost as f32 * 100.0 / stats.pulled as f32;
    assert!(
        lifetime > 1.0,
        "the cumulative figure is the one that cannot come down: {lifetime}"
    );
}

#[test]
fn the_downlink_figure_goes_with_the_session() {
    let ticks = DOWNLINK_LOSS_WINDOW / TICK + 1;
    let mut watch = DownlinkLoss::default();
    let mut stats = Jitter::new().stats;
    let mut tick = 0u64;
    for _ in 0..ticks {
        play_a_tick(&mut watch, &mut stats, &mut tick, true);
    }
    assert!(observe(&mut watch, TICK * tick, true, stats).is_some());
    assert_eq!(observe(&mut watch, TICK * tick, false, stats), None);

    // A fresh buffer whose counters start again is not a window either.
    let mut fresh = Jitter::new().stats;
    let mut readings = Vec::new();
    for _ in 0..ticks * 2 {
        readings.push(play_a_tick(&mut watch, &mut fresh, &mut tick, false));
    }
    assert_eq!(
        readings.last().copied().flatten(),
        Some(0.0),
        "the new session measures its own window: {readings:?}"
    );
}

// ---------------------------------------------------------------------- rings

fn counters(overruns: u64, underruns: u64) -> RingCounters {
    RingCounters {
        overruns,
        underruns,
        low_water_samples: None,
    }
}

fn check_burst() {
    let mut watch = RingWatch::new(0);
    let mut said = Vec::new();
    // A minute of ticks after the burst, at the loop's own cadence.
    for tick in 0..24_000u64 {
        let reports = watch.observe(TICK * tick, counters(8, 0), 120);
        assert!(reports.padded.is_none());
        said.extend(reports.dropped);
    }
    assert_eq!(
        said,
        [DroppedCapture {
            dropped: 8,
            overruns: 8,
            ring_frames: 120,
            up_ms: 0,
        }]
    );
}

#[test]
fn live_a_burst_of_dropped_capture_says_so_once() {
    check_burst();
}

#[test]
fn watch_a_burst_of_dropped_capture_says_so_once() {
    check_burst();
}

fn check_kept_dropping() {
    let mut watch = RingWatch::new(0);
    let mut overruns = 0;
    let mut said = Vec::new();
    // Ten seconds, dropping one callback every 100 ms.
    for tick in 0..4_000u64 {
        if tick % 40 == 0 {
            overruns += 1;
        }
        said.extend(
            watch
                .observe(TICK * tick, counters(overruns, 0), 120)
                .dropped,
        );
    }
    assert!(said.len() >= 4, "{said:#?}");
    // The first line is the first drop; each one after it waits twice as
    // long, so ten seconds of dropping costs four lines and not four
    // hundred.
    assert_eq!(said[0].up_ms, 0, "{said:?}");
    for pair in said[1..].windows(2) {
        let widened =
            (pair[1].up_ms - pair[0].up_ms) as f64 / (pair[0].up_ms.max(1)) as f64;
        assert!(widened > 0.5, "the wait did not widen: {said:?}");
    }
    // Every drop is accounted for across the lines, none counted twice.
    let dropped: u64 = said.iter().map(|line| line.dropped).sum();
    let last = said.last().expect("a line").overruns;
    assert_eq!(dropped, last, "the deltas must add up to the total");
}

#[test]
fn live_capture_that_keeps_dropping_keeps_saying_so() {
    check_kept_dropping();
}

#[test]
fn watch_capture_that_keeps_dropping_keeps_saying_so() {
    check_kept_dropping();
}

fn check_ring_with_room() {
    let mut watch = RingWatch::new(0);
    for tick in 0..4_000u64 {
        assert_eq!(
            watch.observe(TICK * tick, counters(0, 0), 120),
            RingReports {
                crackling: false,
                dropped: None,
                padded: None,
            }
        );
    }
}

#[test]
fn live_a_ring_with_room_says_nothing() {
    check_ring_with_room();
}

#[test]
fn watch_a_ring_with_room_says_nothing() {
    check_ring_with_room();
}

fn check_dry_playout() {
    let mut watch = RingWatch::new(0);
    let mut padded = Vec::new();
    for tick in 0..400u64 {
        let reports = watch.observe(TICK * tick, counters(0, 1), 120);
        assert!(
            reports.dropped.is_none(),
            "a dry playout ring is not a dropped capture: {reports:?}"
        );
        padded.extend(reports.padded);
    }
    assert_eq!(padded.len(), 1, "{padded:#?}");
    assert_eq!(padded[0].padded, 1);
}

#[test]
fn live_a_dry_playout_ring_says_that_instead() {
    check_dry_playout();
}

#[test]
fn watch_a_dry_playout_ring_says_that_instead() {
    check_dry_playout();
}

/// A ring watch driven by an underrun count and a tick count.
struct Ring {
    watch: RingWatch,
    underruns: u64,
    tick: u64,
}

impl Ring {
    fn new() -> Ring {
        let mut ring = Ring {
            watch: RingWatch::new(0),
            underruns: 0,
            tick: 0,
        };
        ring.observe();
        ring
    }

    fn observe(&mut self) -> bool {
        let on = self
            .watch
            .observe(TICK * self.tick, counters(0, self.underruns), 120)
            .crackling;
        self.tick += 1;
        on
    }
}

#[test]
fn a_single_underrun_never_turns_crackling_on() {
    let mut ring = Ring::new();
    ring.underruns += 1;
    // Two windows and a half, so a stale attempt restarts at least once
    // without a second underrun ever arriving to complete it.
    for _ in 0..CRACKLE_EPISODE_WINDOW * 5 / 2 / TICK {
        assert!(
            !ring.observe(),
            "a single underrun must never turn crackling on"
        );
    }
}

#[test]
fn a_run_of_underruns_turns_crackling_on_and_holds_it() {
    let mut ring = Ring::new();
    let mut readings = Vec::new();
    for _ in 0..CRACKLE_EPISODE_COUNT {
        ring.underruns += 1;
        readings.push(ring.observe());
        // A few seconds of quiet between each: still one stretch of
        // playing, and nowhere near spending the whole window.
        for _ in 0..1_000 {
            readings.push(ring.observe());
        }
    }
    let turned_on = readings
        .iter()
        .position(|&on| on)
        .expect("three underruns in one window must turn crackling on");
    assert_eq!(
        turned_on,
        readings.len() - 1_001,
        "must turn on with the third underrun, not later"
    );
    assert!(
        readings[turned_on..].iter().all(|&on| on),
        "must hold on once turned on"
    );
}

#[test]
fn crackling_turns_off_after_a_quiet_stretch_and_a_new_run_turns_it_on_again() {
    let mut ring = Ring::new();
    for _ in 0..CRACKLE_EPISODE_COUNT {
        ring.underruns += 1;
        ring.observe();
    }

    // Comfortably inside the window since the last fresh underrun.
    ring.tick += CRACKLE_EPISODE_WINDOW / 2 / TICK;
    assert!(ring.observe(), "must still be on well inside the window");

    // Comfortably past a whole window with nothing fresh.
    ring.tick += CRACKLE_EPISODE_WINDOW / TICK + 10;
    assert!(
        !ring.observe(),
        "a whole window with nothing fresh must turn crackling off"
    );

    // A second run turns it on again rather than finding it spent.
    for _ in 0..CRACKLE_EPISODE_COUNT {
        ring.underruns += 1;
        ring.observe();
    }
    assert!(
        ring.observe(),
        "a second run of underruns must turn crackling on again"
    );
}

/// The low water mark over one window.
fn low_after(watch: &mut RingWatch, at: u64, samples: Option<usize>) -> Option<usize> {
    let low_water_samples = if watch.reads_low_water(at) { samples } else { None };
    watch.observe(
        at,
        RingCounters {
            overruns: 0,
            underruns: 0,
            low_water_samples,
        },
        120,
    );
    watch.playout_low_frames()
}

#[test]
fn a_ring_that_is_never_late_reads_as_its_whole_cushion() {
    const FRAMES: u32 = 120;
    let mut watch = RingWatch::new(0);
    for tick in 0..=PLAYOUT_LOW_WINDOW / TICK {
        low_after(&mut watch, TICK * tick, Some(playout_target(FRAMES)));
    }
    assert_eq!(watch.playout_low_frames(), Some(2 * FRAMES as usize));
    assert_eq!(
        playout_target(FRAMES),
        2 * FRAMES as usize * usize::from(CHANNELS),
        "the same cushion in samples is twice the frames"
    );
}

#[test]
fn a_dip_short_of_empty_reads_as_the_frames_that_were_left() {
    const LEFT: usize = 30;
    let mut watch = RingWatch::new(0);
    assert_eq!(
        low_after(
            &mut watch,
            PLAYOUT_LOW_WINDOW,
            Some(LEFT * usize::from(CHANNELS))
        ),
        Some(LEFT)
    );
}

#[test]
fn each_window_reports_its_own_worst_moment() {
    const FRAMES: usize = 120;
    let mut watch = RingWatch::new(0);
    // A window that dips: two callbacks with no top-up between them.
    assert_eq!(
        low_after(
            &mut watch,
            PLAYOUT_LOW_WINDOW,
            Some(FRAMES * usize::from(CHANNELS))
        ),
        Some(FRAMES)
    );
    // A window that keeps up.
    assert_eq!(
        low_after(
            &mut watch,
            PLAYOUT_LOW_WINDOW * 2,
            Some(2 * FRAMES * usize::from(CHANNELS))
        ),
        Some(2 * FRAMES)
    );
    assert_eq!(watch.low_water_at(), PLAYOUT_LOW_WINDOW * 2);
}

#[test]
fn a_window_without_a_callback_has_no_reading() {
    let mut watch = RingWatch::new(0);
    assert_eq!(
        watch.playout_low_frames(),
        None,
        "the first window has not closed yet"
    );
    assert!(low_after(&mut watch, PLAYOUT_LOW_WINDOW, Some(480)).is_some());
    assert_eq!(low_after(&mut watch, PLAYOUT_LOW_WINDOW * 2, None), None);
}

#[test]
fn a_ring_that_is_gone_has_no_reading() {
    let mut watch = RingWatch::new(0);
    assert!(low_after(&mut watch, PLAYOUT_LOW_WINDOW, Some(480)).is_some());
    watch.forget();
    assert_eq!(watch.playout_low_frames(), None);
}

// ---------------------------------------------------------------- cutting out

/// The cutting-out watch, driven by a counter the test moves and a clock it
/// advances.
struct Stops {
    watch: EpisodeWatch,
    tick: u64,
    total: u64,
}

impl Stops {
    fn new() -> Stops {
        let mut watch = EpisodeWatch::new(CUTTING_OUT_COUNT, CUTTING_OUT_WINDOW);
        watch.observe(0, 0);
        Stops {
            watch,
            tick: 1,
            total: 0,
        }
    }

    /// One stream that stopped on its own, and the reading it lands on.
    fn stop(&mut self) -> bool {
        self.total += 1;
        self.observe()
    }

    /// Ticks out `span` with the device up, asserting every tick in it.
    fn holding(&mut self, span: u64, expect: bool) -> bool {
        for _ in 0..span / TICK {
            assert_eq!(
                self.observe(),
                expect,
                "the state flickered inside the stretch"
            );
        }
        expect
    }

    /// The same stretch across a change, so only the reading it ends on counts.
    fn settling(&mut self, span: u64) -> bool {
        let mut last = false;
        for _ in 0..span / TICK {
            last = self.observe();
        }
        last
    }

    fn observe(&mut self) -> bool {
        let on = self.watch.observe(TICK * self.tick, self.total);
        self.tick += 1;
        on
    }
}

#[test]
fn one_device_stop_never_reads_as_cutting_out() {
    let mut stops = Stops::new();
    assert!(!stops.stop());
    // Two and a half windows, so a stale run restarts at least once
    // without a second stop ever arriving to complete it.
    stops.holding(CUTTING_OUT_WINDOW * 5 / 2, false);
}

#[test]
fn two_device_stops_five_minutes_apart_never_read_as_cutting_out() {
    let mut stops = Stops::new();
    assert!(!stops.stop());
    stops.holding(300 * SECOND, false);
    assert!(!stops.stop());
    stops.holding(300 * SECOND, false);
}

#[test]
fn a_run_of_device_stops_reads_as_cutting_out() {
    let mut stops = Stops::new();
    for _ in 1..CUTTING_OUT_COUNT {
        assert!(!stops.stop(), "under the floor must stay quiet");
        // Half a minute of playing between them: three of these fit
        // inside one window, and the device is up for all of it.
        stops.holding(30 * SECOND, false);
    }
    assert!(
        stops.stop(),
        "the stop that crosses the floor must turn the state on"
    );
    assert!(
        stops.holding(CUTTING_OUT_WINDOW / 2, true),
        "and it must hold while somebody is playing through it"
    );
}

#[test]
fn cutting_out_clears_after_a_quiet_stretch_and_a_new_run_says_so_again() {
    let mut stops = Stops::new();
    for _ in 0..CUTTING_OUT_COUNT {
        stops.stop();
    }
    // Still on well inside the window since the last stop, and off once a
    // whole one of them has passed with the device up.
    assert!(stops.holding(CUTTING_OUT_WINDOW / 2, true));
    assert!(!stops.settling(CUTTING_OUT_WINDOW));

    for _ in 1..CUTTING_OUT_COUNT {
        assert!(!stops.stop());
    }
    assert!(stops.stop(), "a second run must say so again");
}

#[test]
fn a_slow_drip_never_reads_as_cutting_out() {
    let mut stops = Stops::new();
    for _ in 0..6 {
        assert!(!stops.stop());
        stops.holding(CUTTING_OUT_WINDOW * 2 / 3, false);
    }
}

#[test]
fn a_counter_that_stands_still_is_said_once() {
    let mut watch = CounterWatch::default();
    assert_eq!(watch.due(0, 0), None);
    assert_eq!(watch.due(10 * MILLISECOND, 3), Some(3));
    assert_eq!(watch.due(2 * SECOND, 3), None);
    assert_eq!(watch.due(2 * SECOND, 5), Some(2));
}
