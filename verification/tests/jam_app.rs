use jamstream_client::app::devices::{DeviceCatalog, DeviceInfo, DeviceSetup};
use jamstream_client::app::window::{QuitAnswer, Screen, SettingsTab, Then};
use jamstream_client::app::{JamApp, Launched};
use jamstream_client::picker::{Chosen, Picked};
use jamstream_client::prefs::AppPrefs;
use jamstream_client::live::costed::{CostedRuntime, Hosting};
use jamstream_client::live::state::LiveState;
use jamstream_client::runtime::{Command, ConnState, Runtime, TokenId};

const CAP: usize = 64;

fn png(w: u32, h: u32) -> Vec<u8> {
    let mut buf = std::io::Cursor::new(Vec::new());
    image::DynamicImage::ImageRgba8(image::RgbaImage::new(w, h))
        .write_to(&mut buf, image::ImageFormat::Png)
        .expect("encode png");
    buf.into_inner()
}

fn device(id: Option<&str>, name: &str) -> DeviceInfo {
    DeviceInfo {
        id: id.map(str::to_owned),
        name: name.to_owned(),
    }
}

fn catalog() -> DeviceCatalog {
    let list = || vec![device(None, "System default"), device(Some("a"), "A")];
    DeviceCatalog {
        capture: list(),
        playback: list(),
    }
}

fn pickers() -> DeviceSetup {
    DeviceSetup {
        catalog: DeviceCatalog {
            capture: Vec::new(),
            playback: Vec::new(),
        },
        capture_idx: 0,
        playback_idx: 0,
        buffer_frames: 120,
        allow_exclusive: true,
        rescan_note: None,
    }
}

fn app() -> JamApp {
    JamApp::with_system_devices(
        pickers(),
        Ok(catalog()),
        Some(AppPrefs::default()),
        &vec![120, 240],
    )
}

fn hosting() -> Hosting {
    Hosting {
        hourly_microusd: 36_000,
        created_unix: 1_000,
        tokens: [(3u16, TokenId([9; 16]))].into_iter().collect(),
    }
}

fn chosen(bytes: Vec<u8>) -> Chosen {
    Chosen {
        file: "me.png".to_owned(),
        bytes: Ok(bytes),
    }
}

#[test]
fn a_launch_puts_back_what_the_last_one_saved() {
    let mut first = app();
    first.devices.capture_idx = 1;
    first.devices.buffer_frames = 240;
    first.identity.own_name = "  Ana ".to_owned();
    let (reopen, prefs) = first.apply_picks();
    assert!(reopen.is_none(), "no session to reopen a stream in");
    let prefs = prefs.expect("remembered");
    assert_eq!(prefs.display_name.as_deref(), Some("Ana"));
    let (reopen, again) = first.apply_picks();
    assert!(reopen.is_none() && again.is_none(), "handed on once");

    let next = JamApp::with_system_devices(pickers(), Ok(catalog()), Some(prefs), &vec![120, 240]);
    assert_eq!(next.identity.own_name, "Ana");
    assert_eq!(next.devices.audio_settings(), first.devices.audio_settings());
    assert_eq!(next.applied_audio, first.devices.audio_settings());
}

#[test]
fn a_failed_scan_leaves_the_pickers_empty() {
    let app = JamApp::with_system_devices(
        pickers(),
        Err("no sound system".to_owned()),
        None,
        &vec![120],
    );
    assert!(app.devices.catalog.capture.is_empty());
    assert!(app.persist_audio_prefs().is_none(), "nowhere to keep it");
    let mut app = app;
    app.restore_audio_prefs(
        AppPrefs {
            display_name: Some("Ana".to_owned()),
            ..AppPrefs::default()
        },
        &vec![120],
    );
    assert_eq!(app.identity.own_name, "");
}

#[test]
fn every_join_says_who_you_are() {
    let mut app = app();
    app.identity.own_name = "Ana".to_owned();
    assert!(app.load_avatar_from(chosen(png(8, 8))).is_none());
    for _ in 0..2 {
        let told = app.join_answered(Ok(()), CAP);
        assert!(told.avatar == Some(Command::SetOwnAvatar(Some(png(8, 8)))));
        assert!(told.name == Some(Command::SetOwnName("Ana".to_owned())));
        assert_eq!(
            told.prefs.and_then(|p| p.display_name).as_deref(),
            Some("Ana")
        );
        assert!(app.live && app.window.in_session);
        let (again, _) = app.commit_name(CAP);
        assert!(again.is_none(), "only a change is news");
        app.left();
        assert!(!app.live && app.window.screen == Screen::Home);
    }
}

#[test]
fn a_failed_join_says_so_and_changes_nothing_else() {
    let mut app = app();
    let told = app.join_answered(Err("network: unreachable".to_owned()), CAP);
    assert!(told.avatar.is_none() && told.name.is_none() && told.prefs.is_none());
    assert_eq!(app.home_error.as_deref(), Some("network: unreachable"));
    assert!(!app.window.in_session && !app.live);
}

#[test]
fn a_launch_ends_in_one_of_three_ways() {
    let mut app = app();
    app.enter_hosted_session(Launched::Undecodable, Some("30d".to_owned()), CAP);
    assert_eq!(app.retention.as_deref(), Some("30d"), "kept however it ended");
    assert_eq!(
        app.launch_error.as_deref(),
        Some("the session launched but its host invite does not decode")
    );
    app.enter_hosted_session(Launched::Unjoined("audio: busy".to_owned()), None, CAP);
    assert!(app
        .launch_error
        .as_deref()
        .is_some_and(|e| e.starts_with("the server is running but joining it failed: audio: busy.")));
    assert!(!app.hosting_live_session());
    app.identity.own_name = "Ana".to_owned();
    let told = app.enter_hosted_session(Launched::Joined(hosting()), None, CAP);
    assert!(told.name.is_some() && told.prefs.is_none());
    let hosting = told.hosting.expect("the launch's own record");
    assert_eq!(hosting.hourly_microusd, 36_000);
    assert_eq!(hosting.created_unix, 1_000);
    assert_eq!(hosting.tokens.get(&3), Some(&TokenId([9; 16])));
    assert!(app.hosting_live_session());
    assert_eq!(app.window.settings_tab, SettingsTab::Invites);
}

#[test]
fn ending_a_hosted_session_reports_a_failed_teardown() {
    let mut app = app();
    app.enter_hosted_session(Launched::Joined(hosting()), None, CAP);
    assert_eq!(app.end_session(), Then::TearDown);
    assert!(app.ending() && !app.live);
    assert_eq!(
        app.teardown_answered(Err("quota".to_owned())),
        Then::Nothing
    );
    assert_eq!(
        app.home_error.as_deref(),
        Some("ending the session failed: quota")
    );
    app.enter_hosted_session(Launched::Joined(hosting()), None, CAP);
    assert_eq!(app.answer_quit(QuitAnswer::EndAndQuit), Then::TearDown);
    assert!(!app.live);
    assert_eq!(app.teardown_answered(Ok(())), Then::Close);
}

#[test]
fn a_pick_reopens_only_a_live_stream() {
    let mut live = app();
    live.join_answered(Ok(()), CAP);
    live.devices.buffer_frames = 240;
    let (reopen, _) = live.apply_picks();
    assert_eq!(reopen.map(|s| s.buffer_frames), Some(240));

    assert!(JamApp::in_memory(pickers()).persist_audio_prefs().is_none());
    let mut demo = JamApp::demo(pickers());
    assert_eq!(demo.window.screen, Screen::Session);
    demo.devices.buffer_frames = 240;
    let (reopen, prefs) = demo.apply_picks();
    assert!(reopen.is_none() && prefs.is_none());
}

#[test]
fn a_rescan_speaks_through_the_pickers() {
    let mut app = app();
    app.devices.capture_idx = 1;
    app.rescan_devices(Ok(DeviceCatalog {
        capture: vec![device(None, "System default")],
        playback: vec![device(None, "System default")],
    }));
    assert_eq!(
        app.devices.rescan_note.as_deref(),
        Some("A is no longer present; using the system default")
    );
}

#[test]
fn a_session_that_goes_idle_is_let_go() {
    let mut app = app();
    app.join_answered(Ok(()), CAP);
    app.fall_back_when_idle(&ConnState::Joined);
    assert!(app.live);
    assert!(app.repaint_while_animating(false, false, false));
    app.fall_back_when_idle(&ConnState::Idle);
    assert!(!app.live && !app.window.in_session);
    assert!(!app.repaint_while_animating(false, false, false));
}

#[test]
fn a_picture_is_chosen_refused_and_removed() {
    let mut app = app();
    app.identity.avatar_error = Some("old".to_owned());
    app.choose_picture();
    assert!(app.window.avatar_dialog && app.identity.avatar_error.is_none());
    assert!(app
        .poll_avatar_pick(Picked::Failed("no".to_owned()))
        .is_none());
    assert!(!app.window.avatar_dialog);
    assert_eq!(app.identity.avatar_error.as_deref(), Some("no"));
    app.load_avatar_from(chosen(b"nothing".to_vec()));
    assert_eq!(
        app.identity.avatar_error.as_deref(),
        Some("me.png: only PNG and JPEG images are supported")
    );
    app.join_answered(Ok(()), CAP);
    assert!(app.load_avatar_from(chosen(png(4, 4))).is_some());
    assert!(app.remove_avatar() == Some(Command::SetOwnAvatar(None)));
}

#[test]
fn one_sweep_runs_at_a_time() {
    let mut app = app();
    assert_eq!(app.begin_sweep(), Then::StartSweep);
    assert!(app.sweeping());
    assert_eq!(app.begin_sweep(), Then::Nothing);
}

#[test]
fn a_hosted_session_is_wrapped_with_its_record() {
    let live = LiveState::new(&[7; 16], "203.0.113.10:43210".to_owned());
    let mut rt = CostedRuntime::hosting(live, hosting());
    rt.set_now(1_000 + 1_800);
    let cost = rt.snapshot().cost.expect("the meter");
    assert_eq!(cost.hourly_microusd, 36_000);
    assert_eq!(cost.accrued_microusd, 18_000);
    assert_eq!(cost.elapsed_secs, 1_800);

    let mut guest = app();
    assert!(guest.join_answered(Ok(()), CAP).hosting.is_none());
}
