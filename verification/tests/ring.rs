use std::collections::VecDeque;

use jamstream_client::live::ring::{
    capture_capacity, cushion_time, fill_playout_to, playout_capacity, playout_stall_after,
    playout_target, ring_frames, CAPTURE_RING, MAX_DEPTH_FRAMES, PLAYOUT_CUSHION_MAX,
};
use jamstream_client::live::watch::{RingCounters, RingWatch, PLAYOUT_LOW_WINDOW};
use jamstream_client::live::{
    full_ring, stream_config, AudioSettings, LiveError, CHANNELS, CHUNK_STEREO, FRAME_FRAMES,
    MICROSECOND, MILLISECOND, SAMPLE_RATE, TICK,
};

/// A ring between a device and a worker: pushes past the capacity are dropped
/// and counted, as are callbacks that find too little.
struct Bridge {
    capture: VecDeque<f32>,
    capture_cap: usize,
    overruns: u64,
    playout: VecDeque<f32>,
    underruns: u64,
    low: Option<usize>,
}

impl Bridge {
    fn new(capture_cap: usize) -> Bridge {
        Bridge {
            capture: VecDeque::new(),
            capture_cap,
            overruns: 0,
            playout: VecDeque::new(),
            underruns: 0,
            low: None,
        }
    }

    fn on_capture(&mut self, samples: &[f32]) {
        if self.capture.len() + samples.len() > self.capture_cap {
            self.overruns += 1;
            return;
        }
        self.capture.extend(samples);
    }

    fn pull_captured(&mut self) -> usize {
        let got = self.capture.len();
        self.capture.clear();
        got
    }

    fn on_playback(&mut self, out: &mut [f32]) {
        let banked = self.playout.len();
        self.low = Some(self.low.map_or(banked, |low| low.min(banked)));
        if banked < out.len() {
            self.underruns += 1;
        }
        for s in out {
            *s = self.playout.pop_front().unwrap_or(0.0);
        }
    }

    fn counters(&mut self, take_low: bool) -> RingCounters {
        RingCounters {
            overruns: self.overruns,
            underruns: self.underruns,
            low_water_samples: if take_low { self.low.take() } else { None },
        }
    }
}

#[test]
fn live_the_loop_paces_at_the_frame_it_moves() {
    let micros_of_a_frame = FRAME_FRAMES as u64 * 1_000_000 / u64::from(SAMPLE_RATE);
    assert_eq!(
        TICK,
        micros_of_a_frame * MICROSECOND,
        "{FRAME_FRAMES} samples at {SAMPLE_RATE} Hz is not {TICK:?} of audio"
    );
    assert_eq!(CHUNK_STEREO, FRAME_FRAMES * usize::from(CHANNELS));
}

#[test]
fn mod_the_loop_paces_at_the_frame_it_moves() {
    let micros_of_a_frame = FRAME_FRAMES as u64 * 1_000_000 / u64::from(SAMPLE_RATE);
    assert_eq!(
        TICK,
        micros_of_a_frame * MICROSECOND,
        "{FRAME_FRAMES} samples at {SAMPLE_RATE} Hz is not {TICK:?} of audio"
    );
    assert_eq!(CHUNK_STEREO, FRAME_FRAMES * usize::from(CHANNELS));
}

#[test]
fn live_the_ring_is_sized_from_what_the_device_delivers() {
    // Shared mode: 120 asked for, the ~10 ms device period given.
    assert_eq!(ring_frames(120, Some(480)), 480);
    assert_eq!(
        full_ring::playout_capacity(ring_frames(120, Some(480))),
        2 * 480 * usize::from(CHANNELS),
        "the 2x headroom applies to the negotiated size"
    );
    // A device that honours the request keeps the requested cushion.
    assert_eq!(ring_frames(120, Some(120)), 120);
    // A backend that cannot say leaves the request in charge.
    assert_eq!(ring_frames(240, None), 240);
    // A smaller negotiation never shrinks the ring below the request.
    assert_eq!(ring_frames(240, Some(32)), 240);
}

#[test]
fn mod_the_ring_is_sized_from_what_the_device_delivers() {
    assert_eq!(ring_frames(120, Some(480)), 480);
    assert_eq!(
        playout_target(ring_frames(120, Some(480))),
        2 * 480 * usize::from(CHANNELS),
        "the 2x headroom applies to the negotiated size"
    );
    assert_eq!(ring_frames(120, Some(120)), 120);
    assert_eq!(ring_frames(240, None), 240);
    assert_eq!(ring_frames(240, Some(32)), 240);
}

fn ms(samples: usize) -> f64 {
    samples as f64 / f64::from(CHANNELS) / f64::from(SAMPLE_RATE) * 1000.0
}

#[test]
fn live_the_capture_ring_is_deeper_than_the_playout_cushion_and_costs_nothing() {
    for frames in [32u32, 120, 240] {
        assert_eq!(
            ms(full_ring::playout_capacity(frames)),
            2.0 * f64::from(frames.max(FRAME_FRAMES as u32)) / 48.0,
            "the playout cushion is the latency and may not grow"
        );
        assert_eq!(
            ms(full_ring::capture_capacity(frames)),
            (CAPTURE_RING / MILLISECOND) as f64,
            "{frames}-frame callbacks want {CAPTURE_RING:?} of capture ring"
        );
    }
    // A device period past the floor takes the deeper of the two rather
    // than losing the two-callback slack the ring depends on.
    assert_eq!(
        full_ring::capture_capacity(2_400),
        full_ring::playout_capacity(2_400)
    );
}

#[test]
fn mod_the_capture_ring_is_deeper_than_the_playout_cushion_and_costs_nothing() {
    for frames in [32u32, 120, 240] {
        assert_eq!(
            ms(playout_target(frames)),
            2.0 * f64::from(frames.max(FRAME_FRAMES as u32)) / 48.0,
            "the playout cushion is the latency and may not grow"
        );
        assert_eq!(
            ms(capture_capacity(frames)),
            (CAPTURE_RING / MILLISECOND) as f64,
            "{frames}-frame callbacks want {CAPTURE_RING:?} of capture ring"
        );
    }
    assert_eq!(capture_capacity(2_400), playout_target(2_400));
}

#[test]
fn the_ring_holds_the_deepest_cushion_without_reopening_the_device() {
    let deepest = (PLAYOUT_CUSHION_MAX / MILLISECOND) as usize * SAMPLE_RATE as usize / 1000
        * usize::from(CHANNELS);
    for frames in [0u32, 32, 120, 240, 480, 2_400] {
        let capacity = playout_capacity(frames);
        assert!(
            capacity >= playout_target(frames),
            "{frames}-frame callbacks: a ring of {capacity} cannot hold its own target"
        );
        assert_eq!(capacity, playout_target(frames).max(deepest));
    }
    // Every buffer the Audio tab offers has room above its own cushion.
    for frames in [120u32, 240, 480] {
        assert!(
            playout_capacity(frames) > playout_target(frames),
            "{frames}-frame callbacks leave the cushion nowhere to grow into"
        );
    }
}

#[test]
fn only_the_device_half_of_the_settings_reopens_the_stream() {
    let base = AudioSettings {
        capture_id: Some("coreaudio:scarlett-in".to_owned()),
        playback_id: Some("coreaudio:scarlett-out".to_owned()),
        buffer_frames: 120,
        allow_exclusive: true,
        auto_cushion: true,
    };
    assert!(!base.reopens_for(&base), "nothing changed, nothing reopens");
    for pinned in [false, true] {
        assert!(
            !base.reopens_for(&AudioSettings {
                auto_cushion: pinned,
                ..base.clone()
            }),
            "pinning the cushion may not reopen the device"
        );
    }
    for changed in [
        AudioSettings {
            capture_id: None,
            ..base.clone()
        },
        AudioSettings {
            playback_id: None,
            ..base.clone()
        },
        AudioSettings {
            buffer_frames: 240,
            ..base.clone()
        },
        AudioSettings {
            allow_exclusive: false,
            ..base.clone()
        },
    ] {
        assert!(
            base.reopens_for(&changed),
            "the backend has to be handed {changed:?}"
        );
        // And the two changes together are still a reopen, so a cushion
        // answer riding along cannot swallow a device pick.
        assert!(base.reopens_for(&AudioSettings {
            auto_cushion: false,
            ..changed
        }));
    }
}

/// The stall threshold against the device period and the buffer's depth.
fn check_stall_threshold() {
    let cap = TICK * MAX_DEPTH_FRAMES;
    for frames in [0u32, 32, 120, 240, 480, 960] {
        let period = TICK * u64::from(frames.max(FRAME_FRAMES as u32)) / FRAME_FRAMES as u64;
        let after = playout_stall_after(frames);
        assert!(
            after >= period * 2,
            "{frames}-frame callbacks: {after:?} is inside two device periods"
        );
        assert!(
            after < cap,
            "{frames}-frame callbacks: {after:?} outlasts the {cap:?} the buffer holds"
        );
    }
}

#[test]
fn live_the_stall_threshold_outlasts_a_callback_and_beats_the_buffer_cap() {
    check_stall_threshold();
    assert_eq!(playout_stall_after(120), 40 * MILLISECOND, "the floor");
}

#[test]
fn mod_the_stall_threshold_outlasts_a_callback_and_beats_the_buffer_cap() {
    check_stall_threshold();
    assert_eq!(playout_stall_after(4_800), 80 * MILLISECOND, "the ceiling");
}

/// One device callback per worker tick: what waits is a callback, whatever the
/// capacity is.
fn check_what_waits(capacity: usize) {
    let callback = 120 * usize::from(CHANNELS);
    let mut bridge = Bridge::new(capacity);
    let mut deepest = 0usize;
    for _ in 0..400 {
        bridge.on_capture(&vec![1.0; callback]);
        deepest = deepest.max(bridge.pull_captured());
    }
    assert_eq!(deepest, callback, "one callback waits, not the ring");
    assert_eq!(bridge.overruns, 0);
}

#[test]
fn live_a_deeper_capture_ring_does_not_deepen_what_waits_in_it() {
    check_what_waits(full_ring::capture_capacity(120));
}

#[test]
fn mod_a_deeper_capture_ring_does_not_deepen_what_waits_in_it() {
    check_what_waits(capture_capacity(120));
}

/// Eight callbacks arriving before the consumer's first drain.
fn check_bring_up(capacity: usize) {
    const BRING_UP: usize = 8;
    let callback = 120 * usize::from(CHANNELS);
    let mut bridge = Bridge::new(capacity);
    for _ in 0..BRING_UP {
        bridge.on_capture(&vec![1.0; callback]);
    }
    let got = bridge.pull_captured();
    assert_eq!(
        bridge.overruns, 0,
        "{} callbacks of capture were dropped while the consumer came up",
        bridge.overruns
    );
    assert_eq!(
        got,
        BRING_UP * callback,
        "the ring held {got} of the {} samples pushed before the first drain",
        BRING_UP * callback
    );
}

#[test]
fn live_a_capture_ring_absorbs_the_session_coming_up() {
    check_bring_up(full_ring::capture_capacity(120));
}

#[test]
fn mod_a_capture_ring_absorbs_the_session_coming_up() {
    check_bring_up(capture_capacity(120));
}

/// The exclusive answer rides every open, and the floor on the buffer stays.
fn check_device_request() {
    let mut settings = AudioSettings {
        buffer_frames: 120,
        ..AudioSettings::default()
    };
    assert!(
        stream_config(&settings).allow_exclusive,
        "the default asks for the low-latency path"
    );
    settings.allow_exclusive = false;
    let config = stream_config(&settings);
    assert!(!config.allow_exclusive);
    assert_eq!(config.sample_rate, SAMPLE_RATE);
    assert_eq!(config.buffer_frames, 120);
    settings.buffer_frames = 0;
    assert_eq!(stream_config(&settings).buffer_frames, 32, "the floor");
    assert_eq!(stream_config(&settings).channels, 2);
}

#[test]
fn live_the_device_request_carries_the_users_exclusive_answer() {
    check_device_request();
}

#[test]
fn mod_the_device_request_carries_the_users_exclusive_answer() {
    check_device_request();
    assert!(AudioSettings::default().auto_cushion);
}

#[test]
fn the_cushion_is_two_device_callbacks_of_audio() {
    assert_eq!(cushion_time(playout_target(120)), 5 * MILLISECOND);
    assert_eq!(cushion_time(playout_target(480)), 20 * MILLISECOND);
    for frames in [0u32, 32, 120, 240, 480, 960] {
        let period = u64::from(frames.max(FRAME_FRAMES as u32)) * 1_000_000
            / u64::from(SAMPLE_RATE)
            * MICROSECOND;
        assert_eq!(
            cushion_time(playout_target(frames)),
            period * 2,
            "{frames}-frame callbacks against a target of {} samples",
            playout_target(frames)
        );
        assert!(
            cushion_time(playout_target(frames))
                <= playout_capacity(frames) as u64 * TICK
                    / (FRAME_FRAMES * usize::from(CHANNELS)) as u64,
            "{frames}-frame callbacks: the cushion cannot outlast the ring holding it"
        );
    }
}

#[test]
fn a_target_below_the_ring_is_the_depth_held_and_the_latency_paid() {
    const FRAMES: u32 = 120;
    let callback = FRAMES as usize * usize::from(CHANNELS);
    let capacity = playout_capacity(FRAMES);
    let target = 3 * callback;
    assert!(
        target > playout_target(FRAMES) && target < capacity,
        "a cushion no device size expresses, inside a ring that fits it"
    );

    let mut bridge = Bridge::new(capture_capacity(FRAMES));
    let mut watch = RingWatch::new(0);
    let fill = |bridge: &mut Bridge, value: f32| {
        let fits = fill_playout_to(bridge.playout.len(), capacity, target);
        for _ in 0..fits {
            bridge.playout.push_back(value);
        }
        fits
    };
    fill(&mut bridge, 0.0);
    assert_eq!(
        bridge.playout.len(),
        target,
        "the ring opens at the target, not at the capacity"
    );

    let mut out = vec![0.0f32; callback];
    let mut heard = None;
    for tick in 0..=PLAYOUT_LOW_WINDOW / TICK {
        bridge.on_playback(&mut out);
        if heard.is_none() && out.contains(&1.0) {
            heard = Some(tick);
        }
        let source = if tick == 0 { 1.0 } else { 0.0 };
        while fill(&mut bridge, source) > 0 {}
        assert_eq!(
            bridge.playout.len(),
            target,
            "tick {tick} left the ring off its target"
        );
        let now = TICK * tick;
        let counters = bridge.counters(watch.reads_low_water(now));
        watch.observe(now, counters, FRAMES);
    }

    let waited = heard.expect("the marked audio reached the device") as usize;
    assert_eq!(
        waited * callback,
        target,
        "a sample waited {waited} callbacks against a {target} sample cushion"
    );
    assert!(
        waited < capacity / callback,
        "{waited} callbacks is the whole {capacity} sample ring, not the cushion"
    );
    assert_eq!(
        watch.playout_low_frames(),
        Some(target / usize::from(CHANNELS)),
        "the water mark reads the cushion the loop holds"
    );
    assert_eq!(bridge.underruns, 0);
}

#[test]
fn a_ring_takes_what_there_is_room_for() {
    assert_eq!(fill_playout_to(0, 240, 480), 240);
    assert_eq!(fill_playout_to(400, 240, 480), 80);
    assert_eq!(fill_playout_to(480, 240, 480), 0);
    assert_eq!(fill_playout_to(900, 240, 480), 0);
    assert_eq!(playout_capacity(120), 5_760);
    assert_eq!(capture_capacity(120), 3_840);
}

#[test]
fn a_session_that_did_not_start_says_why() {
    assert_eq!(
        LiveError::Audio("no device".to_owned()).message(),
        "audio: no device"
    );
    assert_eq!(
        LiveError::Session("bad invite".to_owned()).message(),
        "session: bad invite"
    );
    assert_eq!(
        LiveError::Io("unreachable".to_owned()).message(),
        "network: unreachable"
    );
    assert_eq!(
        LiveError::NoAddress.message(),
        "invite has no server address"
    );
}
