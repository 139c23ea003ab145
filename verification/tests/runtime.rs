use std::sync::Arc;

use jamstream_client::runtime::{
    khz, AvatarHandle, BroadcastReadiness, BroadcastView, ConnState, DestinationId,
    DestinationState, DestinationView, FaderView, MemberId, RateOutcomeView, RateOutcomesView,
    RecordState, RecordView, Runtime, StatsView, StreamPlatform, StreamView,
};
use jamstream_client::single::Single;
use jamstream_client::text::{
    is_white_space, push_decimal, push_decimal_fixed, push_hex_fixed, same_text, stands_before,
    trim,
};

fn single(value: f32) -> Single {
    Single {
        bits: value.to_bits(),
    }
}

fn stats() -> StatsView {
    StatsView {
        state: ConnState::Joined,
        rtt_ms: None,
        jitter_depth: 0,
        jitter_target: 0,
        uplink_loss_pct: None,
        downlink_loss_pct: None,
        mouth_to_ear_ms: None,
        device_mode: None,
        rate: None,
        crackling: false,
        playout_low_frames: None,
        wake: None,
        cutting_out: None,
    }
}

#[test]
fn rates_read_in_kilohertz() {
    assert_eq!(khz(48_000), "48");
    assert_eq!(khz(44_100), "44.1");
    assert_eq!(khz(11_025), "11.025");
    assert_eq!(khz(22_050), "22.05");
    assert_eq!(khz(0), "0");
    assert_eq!(khz(1), "0.001");
}

#[test]
fn the_two_directions_are_told_apart() {
    let rates = RateOutcomesView {
        capture: RateOutcomeView::Resampled {
            device: 44_100,
            added_ms: single(3.2),
        },
        playback: RateOutcomeView::OsConverted { device: 96_000 },
    };
    assert_eq!(rates.resampled_rate(), Some(44_100));
    assert_eq!(
        rates.lines("3.2", ""),
        [
            "converting capture 44.1 kHz to 48 kHz (+3.2 ms)",
            "the OS is converting playback to this device's 96 kHz",
        ]
    );
    let native = RateOutcomesView {
        capture: RateOutcomeView::Native,
        playback: RateOutcomeView::Native,
    };
    assert_eq!(native.resampled_rate(), None);
    assert!(native.lines("", "").is_empty());
}

#[test]
fn outcomes_compare_as_numbers() {
    let resampled = |added| RateOutcomeView::Resampled {
        device: 44_100,
        added_ms: single(added),
    };
    assert!(resampled(3.2).same(resampled(3.2)));
    assert!(!resampled(3.2).same(resampled(3.3)));
    assert!(resampled(0.0).same(resampled(-0.0)));
    assert!(!resampled(f32::NAN).same(resampled(f32::NAN)));
    assert!(!RateOutcomeView::Native.same(RateOutcomeView::ClockSet { from: 1 }));
}

#[test]
fn the_worse_direction_is_the_headline() {
    let mut s = stats();
    assert_eq!(s.worst_loss_pct(), None);
    s.uplink_loss_pct = Some(single(0.5));
    assert_eq!(s.worst_loss_pct(), Some(single(0.5)));
    s.downlink_loss_pct = Some(single(2.0));
    assert_eq!(s.worst_loss_pct(), Some(single(2.0)));
}

#[test]
fn pictures_are_the_same_by_their_hash() {
    let handle = |hash: &str, fill: u8| AvatarHandle {
        hash: hash.to_owned(),
        width: 1,
        height: 1,
        rgba: Arc::new(vec![fill; 4]),
    };
    assert!(handle("a", 0) == handle("a", 9));
    assert!(handle("a", 0) != handle("b", 0));
    let copy = handle("a", 7).clone();
    assert_eq!(*copy.rgba, [7, 7, 7, 7]);
}

#[test]
fn destinations_are_counted_and_found() {
    let dest = |id, platform, state| DestinationView {
        id: DestinationId(id),
        platform,
        state,
        bitrate_kbps: 0,
        dropped_frames: 0,
        repeated_frames: 0,
    };
    let view = StreamView {
        destinations: vec![
            dest(0, StreamPlatform::Twitch, DestinationState::Live),
            dest(
                1,
                StreamPlatform::YouTube,
                DestinationState::Failed {
                    reason: "refused".to_owned(),
                },
            ),
            dest(2, StreamPlatform::YouTube, DestinationState::Connecting),
        ],
        readiness: Some(BroadcastReadiness::Unavailable {
            reason: "no relay".to_owned(),
        }),
    };
    assert!(view.on_air());
    assert_eq!((view.live_count(), view.failed_count()), (1, 1));
    assert_eq!(view.unavailable_reason(), Some("no relay"));
    assert_eq!(
        view.get(DestinationId(2)).map(|d| d.platform),
        Some(StreamPlatform::YouTube)
    );
    assert!(view.get(DestinationId(9)).is_none());
    assert_eq!(
        view.of_platform(StreamPlatform::YouTube).map(|d| d.id),
        Some(DestinationId(1))
    );
    assert_eq!(StreamPlatform::Twitch.as_str(), "twitch");
    assert_eq!(StreamPlatform::YouTube.as_str(), "youtube");
}

#[test]
fn single_precision_compares_as_the_machine_does() {
    let values = [
        0.0f32,
        -0.0,
        1.0,
        -1.0,
        30.0,
        30.000_002,
        f32::INFINITY,
        f32::NEG_INFINITY,
        f32::NAN,
        f32::MIN_POSITIVE,
        1.0e-45,
        f32::MAX,
    ];
    for a in values {
        for b in values {
            assert_eq!(single(a).over(single(b)), a > b, "{a} > {b}");
            assert_eq!(single(a).same(single(b)), a == b, "{a} == {b}");
            let larger = f32::from_bits(single(a).max(single(b)).bits);
            let expected = a.max(b);
            assert!(
                larger == expected || (larger.is_nan() && expected.is_nan()),
                "max of {a} and {b}"
            );
        }
        assert_eq!(single(a).is_nan(), a.is_nan());
    }
}

#[test]
fn numbers_are_written_as_the_formatter_does() {
    for n in [0u64, 7, 10, 99, 100, 65_535, u64::MAX] {
        let mut s = String::from("n=");
        push_decimal(&mut s, n);
        assert_eq!(s, format!("n={n}"));
        let mut hex = String::new();
        push_hex_fixed(&mut hex, n, 16);
        assert_eq!(hex, format!("{n:016x}"));
    }
    let mut fixed = String::new();
    push_decimal_fixed(&mut fixed, 5, 3);
    assert_eq!(fixed, "005");
}

#[test]
fn space_is_what_the_standard_says_it_is() {
    for c in (0..=0x10ffffu32).filter_map(char::from_u32) {
        assert_eq!(is_white_space(c), c.is_whitespace(), "{c:?}");
    }
    for text in ["", "  ", " a b ", "\u{3000}x\u{2003}", "none"] {
        assert_eq!(trim(text), text.trim());
    }
    assert!(same_text("a", "a") && !same_text("a", "b") && !same_text("a", "ab"));
}

#[test]
fn texts_stand_in_the_order_of_strings() {
    let words = ["", "a", "aa", "ab", "b", "Z", "\u{e9}", "\u{10000}", "\u{ffff}", "a\u{e9}"];
    for a in words {
        for b in words {
            assert_eq!(stands_before(a, b), a < b, "{a:?} {b:?}");
        }
    }
}

#[test]
fn views_start_empty_and_copy_whole() {
    let broadcast = BroadcastView::default();
    assert!(broadcast.faders.is_empty() && !broadcast.audition);
    let broadcast = BroadcastView {
        faders: vec![(MemberId(3), FaderView::flat())],
        audition: true,
    };
    assert_eq!(broadcast.clone(), broadcast);
    assert_eq!(RecordState::default(), RecordState::Idle);
    let failed = RecordState::Failed { reason: "disk".to_owned() };
    assert_eq!(failed.clone(), failed);
    assert_eq!(RecordView::default().state, RecordState::default());
    let stream = StreamView::default();
    assert!(stream.destinations.is_empty() && stream.readiness.is_none());
    let stream = StreamView {
        destinations: vec![DestinationView {
            id: DestinationId(1),
            platform: StreamPlatform::Twitch,
            state: DestinationState::Live,
            bitrate_kbps: 6_000,
            dropped_frames: 1,
            repeated_frames: 2,
        }],
        readiness: Some(BroadcastReadiness::Ready),
    };
    assert_eq!(stream.clone(), stream);
    let live = jamstream_client::live::state::LiveState::new(&[7; 16], "192.0.2.1:9".to_owned());
    let snap = live.snapshot();
    assert_eq!(snap.clone(), snap);
    assert_eq!(snap.members.clone(), snap.members);
}
