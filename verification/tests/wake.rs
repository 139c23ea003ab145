use jamstream_client::live::ring::{cushion_time, playout_target};
use jamstream_client::live::wake::{
    wake_bucket, WakePacing, WakeReport, WakeWatch, WAKE_BUCKETS, WAKE_WINDOW,
};
use jamstream_client::live::{MICROSECOND, MILLISECOND, TICK};

/// A window's worth of wakeups, every `late_every`th of them arriving after
/// `late` rather than after a tick.
fn wake_for_a_window(
    watch: &mut WakeWatch,
    at: &mut u64,
    late_every: u32,
    late: u64,
    cushion: Option<u64>,
) -> Vec<WakeReport> {
    let closes_at = *at + WAKE_WINDOW;
    let mut wakeup = 0u32;
    let mut said = Vec::new();
    while *at <= closes_at {
        wakeup += 1;
        *at += if wakeup % late_every == 0 { late } else { TICK };
        said.extend(watch.observe(*at, cushion));
    }
    said
}

fn cushion() -> u64 {
    cushion_time(playout_target(120))
}

#[test]
fn a_loop_that_keeps_its_pace_says_nothing() {
    let mut watch = WakeWatch::new(0);
    let mut at = 0;
    // Never late: every wakeup lands one tick after the last.
    let said = wake_for_a_window(&mut watch, &mut at, u32::MAX, TICK, Some(cushion()));
    assert!(said.is_empty(), "{said:#?}");
    assert_eq!(
        watch.pacing(),
        Some(WakePacing {
            p99: TICK,
            max: TICK
        }),
        "a loop on the tick reads as one tick, not as two"
    );
}

#[test]
fn wakeups_the_ring_cannot_cover_name_both_numbers() {
    const STALL: u64 = 20 * MILLISECOND;
    let mut watch = WakeWatch::new(0);
    let mut at = 0;
    let said = wake_for_a_window(&mut watch, &mut at, 20, STALL, Some(cushion()));
    assert_eq!(
        said,
        [WakeReport {
            p99: 20 * MILLISECOND,
            max: 20 * MILLISECOND,
            cushion: 5 * MILLISECOND,
        }]
    );
    let pacing = watch.pacing().expect("a closed window");
    assert!(
        pacing.p99 > cushion(),
        "{:?} is inside what the ring holds, so the warning was wrong",
        pacing.p99
    );
}

#[test]
fn a_pace_that_recovers_can_say_it_again() {
    const STALL: u64 = 20 * MILLISECOND;
    let cushion = Some(cushion());
    let mut watch = WakeWatch::new(0);
    let mut at = 0;
    let mut said = Vec::new();
    said.extend(wake_for_a_window(&mut watch, &mut at, 20, STALL, cushion));
    said.extend(wake_for_a_window(&mut watch, &mut at, 20, STALL, cushion));
    said.extend(wake_for_a_window(&mut watch, &mut at, u32::MAX, TICK, cushion));
    said.extend(wake_for_a_window(&mut watch, &mut at, 20, STALL, cushion));
    assert_eq!(
        said.len(),
        2,
        "two late episodes with a recovery between them: {said:#?}"
    );
}

#[test]
fn a_ring_nothing_drains_has_no_deadline_to_miss() {
    const STALL: u64 = 80 * MILLISECOND;
    let mut watch = WakeWatch::new(0);
    let mut at = 0;
    let said = wake_for_a_window(&mut watch, &mut at, 4, STALL, None);
    assert!(said.is_empty(), "{said:#?}");
    assert!(
        watch.pacing().is_some_and(|p| p.max >= STALL),
        "the pacing still has to be measured: {:?}",
        watch.pacing()
    );
}

#[test]
fn the_p99_is_the_top_of_the_bucket_and_the_maximum_is_exact() {
    const LATE: u64 = 6_100 * MICROSECOND;
    let mut watch = WakeWatch::new(0);
    let mut at = 0;
    assert_eq!(watch.pacing(), None, "no window has closed yet");

    wake_for_a_window(&mut watch, &mut at, 50, LATE, None);
    let pacing = watch.pacing().expect("a closed window");
    assert_eq!(
        pacing.p99,
        TICK * 3,
        "6.1 ms sits in the 5 to 7.5 ms bucket"
    );
    assert_eq!(pacing.max, LATE, "the maximum is the interval itself");
}

#[test]
fn each_window_reports_its_own_pacing() {
    const STALL: u64 = 40 * MILLISECOND;
    let mut watch = WakeWatch::new(0);
    let mut at = 0;
    wake_for_a_window(&mut watch, &mut at, 8, STALL, None);
    assert!(watch.pacing().is_some_and(|p| p.max >= STALL));
    wake_for_a_window(&mut watch, &mut at, u32::MAX, TICK, None);
    assert_eq!(
        watch.pacing(),
        Some(WakePacing {
            p99: TICK,
            max: TICK
        }),
        "the window that kept up has to read as having kept up"
    );
}

#[test]
fn a_wakeup_lands_in_the_bucket_that_covers_it() {
    assert_eq!(wake_bucket(0), 0);
    assert_eq!(wake_bucket(TICK), 0);
    assert_eq!(wake_bucket(TICK + MICROSECOND), 1);
    assert_eq!(wake_bucket(2 * TICK), 1);
    assert_eq!(wake_bucket(u64::MAX), WAKE_BUCKETS - 1);
}
