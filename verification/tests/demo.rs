use std::sync::Arc;

use jamstream_client::demo::{
    DemoArt, DemoFigures, DemoRuntime, RecordingRuntime, BASE_ELAPSED_SECS, FROZEN_FRAME,
    HOURLY_MICROUSD,
};
use jamstream_client::runtime::{
    AvatarHandle, Command, ConnState, DestinationId, DestinationState, LevelsView, MemberId,
    RecordState, Role, Runtime, StreamKey, StreamPlatform, TokenId,
};
use jamstream_client::single::Single;

fn single(value: f32) -> Single {
    Single {
        bits: value.to_bits(),
    }
}

fn picture(hash: &str, width: u32, height: u32) -> AvatarHandle {
    AvatarHandle {
        hash: hash.to_owned(),
        width,
        height,
        rgba: Arc::new(vec![0; (width * height * 4) as usize]),
    }
}

fn figures(level: f32) -> DemoFigures {
    DemoFigures {
        levels: LevelsView {
            input_peak: single(level),
            input_rms: single(level / 2.0),
            output_peak: single(level),
            output_rms: single(level / 2.0),
        },
        rtt_ms: single(18.0),
        mouth_to_ear_ms: single(31.0),
    }
}

fn art() -> DemoArt {
    DemoArt {
        bitrate_kbps: 6_000,
        ana: picture("ana", 4, 2),
        ben: picture("ben", 3, 3),
        figures: figures(0.4),
    }
}

#[test]
fn frozen_snapshots_are_identical() {
    let mut rt = DemoRuntime::frozen(FROZEN_FRAME, true, art());
    let first = rt.snapshot();
    rt.next_frame();
    assert_eq!(first, rt.snapshot());
}

#[test]
fn running_demo_advances() {
    let mut rt = DemoRuntime::host(art());
    let a = rt.snapshot();
    rt.next_frame();
    rt.set_figures(figures(0.5));
    let b = rt.snapshot();
    assert_ne!(a.levels, b.levels);
    assert!(
        b.cost.expect("host cost").accrued_microusd >= a.cost.expect("host cost").accrued_microusd
    );
}

#[test]
fn the_state_accessor_agrees_with_the_snapshot() {
    let mut rt = DemoRuntime::host(art());
    assert_eq!(rt.conn_state(), rt.snapshot().stats.state);
    rt.send(Command::Leave);
    assert_eq!(rt.conn_state(), ConnState::Idle);
    assert_eq!(rt.conn_state(), rt.snapshot().stats.state);
}

#[test]
fn commands_are_reflected_in_the_next_snapshot() {
    let mut rt = DemoRuntime::host(art());
    rt.send(Command::SetFader {
        member: MemberId(1),
        gain_db: single(2.5),
        pan: single(0.1),
        muted: true,
    });
    rt.send(Command::SendChat("hello".to_owned()));
    let snap = rt.snapshot();
    let ana = snap.members.iter().find(|m| m.id == MemberId(1)).unwrap();
    assert_eq!(ana.fader.gain_db, single(2.5));
    assert!(ana.fader.muted);
    assert_eq!(snap.chat.last().unwrap().text, "hello");
}

#[test]
fn set_own_name_renames_your_own_strip() {
    let mut rt = DemoRuntime::frozen(FROZEN_FRAME, false, art());
    rt.send(Command::SetOwnName("  Ana Lucia  ".to_owned()));
    let snap = rt.snapshot();
    let me = snap.members.iter().find(|m| m.is_you).expect("you");
    assert_eq!(me.name, "Ana Lucia", "trimmed, like the wire's copy");
    // Whitespace alone is not a name; nothing changes.
    rt.send(Command::SetOwnName("   ".to_owned()));
    let me_id = me.id;
    let snap = rt.snapshot();
    let me = snap.members.iter().find(|m| m.id == me_id).expect("you");
    assert_eq!(me.name, "Ana Lucia");
}

#[test]
fn recording_runtime_logs_and_forwards() {
    let mut rt = RecordingRuntime::new(DemoRuntime::frozen(0, false, art()));
    rt.send(Command::SetClick(false));
    assert!(rt.commands() == vec![Command::SetClick(false)]);
    assert!(!rt.snapshot().metronome.you_hear_click);
    assert!(!rt.inner().snapshot().metronome.you_hear_click);
}

#[test]
fn musician_snapshot_has_no_host_data() {
    let snap = DemoRuntime::musician(art()).snapshot();
    assert!(snap.cost.is_none());
    assert!(snap.members.iter().all(|m| m.token.is_none()));
    assert!(snap.broadcast.is_none());
    assert!(!snap.is_host);
}

#[test]
fn broadcast_commands_are_reflected_in_the_next_snapshot() {
    let mut rt = DemoRuntime::host(art());
    rt.send(Command::SetBroadcastFader {
        member: MemberId(2),
        gain_db: single(-7.5),
        pan: single(-0.25),
        muted: true,
    });
    rt.send(Command::SetBroadcastAudition(true));
    let broadcast = rt.snapshot().broadcast.expect("host broadcast view");
    assert!(broadcast.audition);
    let (_, ben) = broadcast
        .faders
        .iter()
        .find(|(id, _)| *id == MemberId(2))
        .expect("Ben in broadcast faders");
    assert_eq!(
        (ben.gain_db, ben.pan, ben.muted),
        (single(-7.5), single(-0.25), true)
    );
    // Only musicians have broadcast faders; Lea the listener does not.
    assert!(broadcast.faders.iter().all(|(id, _)| *id != MemberId(4)));
}

#[test]
fn the_meter_is_the_rate_over_the_time() {
    let rt = DemoRuntime::frozen(60 * 60, true, art());
    let cost = rt.snapshot().cost.expect("host cost");
    assert_eq!(cost.elapsed_secs, BASE_ELAPSED_SECS + 60);
    assert_eq!(cost.hourly_microusd, HOURLY_MICROUSD);
    assert_eq!(
        cost.accrued_microusd,
        HOURLY_MICROUSD * (BASE_ELAPSED_SECS + 60) / 3600
    );
    let mut running = DemoRuntime::host(art());
    let mut last = 0;
    for _ in 0..600 {
        running.next_frame();
        let accrued = running.snapshot().cost.expect("host cost").accrued_microusd;
        assert!(accrued >= last);
        last = accrued;
    }
}

#[test]
fn a_revoked_member_has_no_strip() {
    let mut rt = DemoRuntime::host(art());
    let ben = rt
        .snapshot()
        .members
        .iter()
        .find(|m| m.id == MemberId(2))
        .and_then(|m| m.token)
        .expect("a host is shown tokens");
    assert_eq!(ben, TokenId([2; 16]));
    rt.send(Command::Revoke(ben));
    assert!(rt.snapshot().members.iter().all(|m| m.id != MemberId(2)));
}

#[test]
fn quiet_is_never_gone_and_away_is_never_quiet() {
    let mut rt = DemoRuntime::host(art());
    rt.set_quiet(1, true);
    rt.set_away(2, true);
    rt.set_quiet(2, true);
    let snap = rt.snapshot();
    let ana = snap.members.iter().find(|m| m.id == MemberId(1)).unwrap();
    assert!(ana.connected && ana.quiet);
    let ben = snap.members.iter().find(|m| m.id == MemberId(2)).unwrap();
    assert!(!ben.connected && !ben.quiet);
    rt.set_quiet(1, false);
    let snap = rt.snapshot();
    assert!(snap.members.iter().all(|m| !m.quiet));
}

#[test]
fn a_destination_comes_and_goes_without_its_key() {
    let mut rt = DemoRuntime::host(art());
    let id = DestinationId(5);
    rt.send(Command::AddDestination {
        id,
        platform: StreamPlatform::Twitch,
        key: StreamKey("live_000_fake".to_owned()),
    });
    let stream = rt.snapshot().stream;
    assert_eq!(
        stream.get(id).map(|d| d.state.clone()),
        Some(DestinationState::Idle)
    );
    assert!(!format!("{stream:?}").contains("live_000_fake"));
    rt.send(Command::StartStream);
    let stream = rt.snapshot().stream;
    assert!(stream.on_air());
    assert_eq!(stream.live_count(), 1);
    assert_eq!(stream.get(id).map(|d| d.bitrate_kbps), Some(6_000));
    rt.send(Command::StopStream);
    assert!(!rt.snapshot().stream.on_air());
    rt.send(Command::RemoveDestination(id));
    assert!(rt.snapshot().stream.destinations.is_empty());
}

#[test]
fn a_recorder_does_as_it_is_told() {
    let mut rt = DemoRuntime::musician(art());
    rt.send(Command::StartRecord);
    assert_eq!(rt.snapshot().record.state, RecordState::Recording);
    rt.send(Command::StopRecord);
    assert_eq!(rt.snapshot().record.state, RecordState::Idle);
    rt.set_record(RecordState::Uploading, true);
    assert!(rt.snapshot().record.stems);
}

#[test]
fn the_full_house_is_ten_and_ten() {
    let snap = DemoRuntime::full(FROZEN_FRAME, true, true, art()).snapshot();
    let musicians = snap
        .members
        .iter()
        .filter(|m| m.role == Role::Musician)
        .count();
    assert_eq!((musicians, snap.members.len() - musicians), (10, 10));
    assert_eq!(snap.members.iter().filter(|m| m.is_you).count(), 1);
}

#[test]
fn your_own_picture_is_decoded_onto_your_strip() {
    let mut png = std::io::Cursor::new(Vec::new());
    image::DynamicImage::ImageRgba8(image::RgbaImage::new(5, 6))
        .write_to(&mut png, image::ImageFormat::Png)
        .expect("encode png");
    let mut rt = DemoRuntime::host(art());
    rt.send(Command::SetOwnAvatar(Some(png.into_inner())));
    let snap = rt.snapshot();
    let me = snap.members.iter().find(|m| m.is_you).expect("you");
    let shown = me.avatar.as_ref().expect("the picture");
    assert_eq!((shown.width, shown.height), (5, 6));
    rt.send(Command::SetOwnAvatar(Some(b"not a picture".to_vec())));
    rt.send(Command::SetOwnAvatar(None));
    let snap = rt.snapshot();
    let me = snap.members.iter().find(|m| m.is_you).expect("you");
    assert!(me.avatar.is_none());
}
