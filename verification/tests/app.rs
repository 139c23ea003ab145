use jamstream_client::app::devices::{DeviceCatalog, DeviceInfo, DeviceSetup};
use jamstream_client::app::identity::{cut_name, Identity};
use jamstream_client::app::window::{
    ending_failed, invite_undecodable, launch_unjoined, HomeAction, QuitAnswer, Screen,
    SettingsTab, Then, Window,
};
use jamstream_client::exec::{Job, Received};
use jamstream_client::live::AudioSettings;
use jamstream_client::logging::banner;
use jamstream_client::picker::{settle, Chosen, Pick, Picked};
use jamstream_client::prefs::AppPrefs;
use jamstream_client::runtime::{Command, ConnState};

fn png(w: u32, h: u32) -> Vec<u8> {
    let mut buf = std::io::Cursor::new(Vec::new());
    image::DynamicImage::ImageRgba8(image::RgbaImage::new(w, h))
        .write_to(&mut buf, image::ImageFormat::Png)
        .expect("encode png");
    buf.into_inner()
}

fn hosting() -> Window {
    let mut w = Window::new();
    w.joined_as_host();
    w
}

// --------------------------------------------------------------------- window

#[test]
fn every_screen_has_its_title() {
    assert_eq!(Screen::Home.title(), "home");
    assert_eq!(Screen::HostWizard.title(), "host a session");
    assert_eq!(Screen::Session.title(), "session");
    assert_eq!(Screen::Takes.title(), "takes");
}

#[test]
fn a_hosted_session_is_not_closed_in_silence() {
    let mut w = hosting();
    assert!(w.hosting_live_session());
    assert_eq!(w.ask_close(), Then::CancelClose);
    assert!(w.confirm_quit);
    let mut kept = w;
    assert_eq!(kept.answer_quit(QuitAnswer::KeepRunning), Then::Close);
    assert_eq!(kept.ask_close(), Then::Nothing);
    let mut stayed = w;
    assert_eq!(stayed.answer_quit(QuitAnswer::Cancel), Then::Nothing);
    assert!(!stayed.confirm_quit && !stayed.allow_close);

    assert_eq!(w.answer_quit(QuitAnswer::EndAndQuit), Then::TearDown);
    assert!(w.ending && w.screen == Screen::Home && !w.in_session);
    assert_eq!(w.ask_close(), Then::CancelClose, "the teardown holds it");
    assert_eq!(w.teardown_answered(), Then::Close);
    assert_eq!(w.ask_close(), Then::Nothing);
}

#[test]
fn a_plain_join_closes_untouched() {
    let mut w = Window::new();
    w.joined();
    assert!(!w.hosting_live_session());
    assert_eq!(w.ask_close(), Then::Nothing);
    assert_eq!(w.end_session(), Then::Leave);
    assert_eq!(w.end_session(), Then::Nothing);
    assert!(!w.ending);
}

#[test]
fn escape_leaves_the_innermost_thing() {
    let mut w = hosting();
    w.confirm_quit = true;
    w.confirm_sweep = true;
    assert!(w.press_escape(false));
    assert!(!w.confirm_quit && w.confirm_sweep && w.settings_open);
    assert!(w.press_escape(false));
    assert!(!w.confirm_sweep && w.settings_open);
    assert!(!w.press_escape(true), "the screen has something inside it");
    assert!(w.settings_open);
    assert!(w.press_escape(false));
    assert!(!w.settings_open);
    assert!(!w.press_escape(false));
}

#[test]
fn one_sheet_stands_at_a_time() {
    let mut w = Window::new();
    w.joined();
    w.record_open = true;
    w.took_the_sheet_anchor = true;
    w.press_settings();
    assert!(w.settings_open && !w.record_open && !w.took_the_sheet_anchor);
    w.record_open = true;
    w.took_the_sheet_anchor = true;
    w.close_the_other_sheet();
    assert!(!w.settings_open && w.record_open);
    w.press_settings();
    w.press_settings();
    assert!(!w.settings_open);
}

#[test]
fn home_is_offered_where_nothing_is_walked_out_of() {
    let mut w = Window::new();
    assert!(!w.offers_home());
    w.press_on_home(HomeAction::Takes);
    assert_eq!(w.screen, Screen::Takes);
    assert!(w.offers_home());
    w.press_home();
    w.press_on_home(HomeAction::Host);
    assert_eq!(w.screen, Screen::HostWizard);
    w.joined();
    assert!(!w.offers_home());
    w.left();
    assert_eq!(w.screen, Screen::Home);
}

#[test]
fn a_sweep_asks_and_runs_once() {
    let mut w = Window::new();
    w.press_on_home(HomeAction::Sweep);
    assert!(w.confirm_sweep && !w.sweeping);
    assert_eq!(w.answer_sweep(false), Then::Nothing);
    assert!(!w.confirm_sweep && !w.sweeping);
    assert_eq!(w.answer_sweep(true), Then::StartSweep);
    assert_eq!(w.begin_sweep(), Then::Nothing);
    w.sweep_answered();
    assert!(!w.sweeping);
}

#[test]
fn a_remembered_tab_cannot_outlive_what_it_showed() {
    let mut w = hosting();
    assert_eq!(w.settings_tab, SettingsTab::Invites);
    let all = vec![
        SettingsTab::Audio,
        SettingsTab::Broadcast,
        SettingsTab::Invites,
        SettingsTab::Recording,
        SettingsTab::You,
    ];
    let tabs = w.settings_tabs(Some(all.clone()));
    assert_eq!(tabs, all);
    w.keep_tab(&tabs);
    assert_eq!(w.settings_tab, SettingsTab::Invites);
    w.left();
    let tabs = w.settings_tabs(Some(all));
    assert_eq!(
        tabs,
        [SettingsTab::Audio, SettingsTab::Recording, SettingsTab::You]
    );
    w.keep_tab(&tabs);
    assert_eq!(w.settings_tab, SettingsTab::Audio);
    w.press_tab(SettingsTab::You);
    assert_eq!(w.settings_tab, SettingsTab::You);
}

#[test]
fn a_session_that_ended_from_the_far_side_falls_back_to_home() {
    let mut w = Window::new();
    w.joined();
    w.fall_back_when_idle(&ConnState::TimedOut);
    assert_eq!(w.screen, Screen::Session);
    w.fall_back_when_idle(&ConnState::Idle);
    assert_eq!(w.screen, Screen::Home);
    assert!(!w.in_session);
    let mut lost = Window::new();
    lost.screen = Screen::Session;
    assert!(!lost.show_session());
    assert_eq!(lost.screen, Screen::Home);
}

#[test]
fn the_loop_rests_when_nothing_moves() {
    let mut w = Window::new();
    assert!(!w.animating(false, false, false));
    w.settings_open = true;
    assert!(!w.animating(false, false, false), "a drawer of zeros");
    w.in_session = true;
    assert!(w.animating(false, false, false));
    w.settings_open = false;
    assert!(!w.animating(false, true, true), "neither is on screen");
    assert!(w.animating(true, false, false));
    w.screen = Screen::HostWizard;
    assert!(w.animating(false, true, false));
    w.screen = Screen::Takes;
    assert!(w.animating(false, false, true));
    w.screen = Screen::Session;
    assert!(w.animating(false, false, false));
    let mut picking = Window::new();
    picking.avatar_dialog = true;
    assert!(picking.animating(false, false, false));
}

#[test]
fn failures_are_told_in_full() {
    assert_eq!(ending_failed("gone"), "ending the session failed: gone");
    assert_eq!(
        invite_undecodable(),
        "the session launched but its host invite does not decode"
    );
    assert_eq!(
        launch_unjoined("network: unreachable"),
        "the server is running but joining it failed: network: unreachable. Go Back and press \
         Stop strays on the home screen to stop it; jamstream end --last does the same from a \
         terminal."
    );
}

// -------------------------------------------------------------------- devices

fn device(id: Option<&str>, name: &str) -> DeviceInfo {
    DeviceInfo {
        id: id.map(str::to_owned),
        name: name.to_owned(),
    }
}

fn catalog(names: &[&str]) -> DeviceCatalog {
    let list = || {
        let mut list = vec![device(None, "System default")];
        list.extend(names.iter().map(|n| device(Some(n), n)));
        list
    };
    DeviceCatalog {
        capture: list(),
        playback: list(),
    }
}

fn setup(names: &[&str]) -> DeviceSetup {
    DeviceSetup {
        catalog: catalog(names),
        capture_idx: 0,
        playback_idx: 0,
        buffer_frames: 120,
        allow_exclusive: true,
        rescan_note: None,
    }
}

#[test]
fn a_rescan_keeps_the_selection_by_id() {
    let mut s = setup(&["a", "b"]);
    s.capture_idx = 2;
    s.playback_idx = 1;
    let before = s.audio_settings();
    assert_eq!(before.capture_id.as_deref(), Some("b"));
    s.rescan_devices(Ok(catalog(&["b", "c", "a"])));
    assert_eq!((s.capture_idx, s.playback_idx), (1, 3));
    assert_eq!(s.audio_settings(), before);
    assert_eq!(s.rescan_note, None);
    let mut applied = before;
    assert!(!s.apply(&mut applied), "a reordered catalog reopens nothing");
}

#[test]
fn a_lost_device_falls_back_with_a_note() {
    let mut s = setup(&["a", "b"]);
    s.capture_idx = 2;
    s.playback_idx = 1;
    s.rescan_devices(Ok(catalog(&["a"])));
    assert_eq!((s.capture_idx, s.playback_idx), (0, 1));
    assert_eq!(
        s.rescan_note.as_deref(),
        Some("b is no longer present; using the system default")
    );
    s.capture_idx = 1;
    s.rescan_devices(Ok(catalog(&[])));
    assert_eq!(
        s.rescan_note.as_deref(),
        Some("a and a is no longer present; using the system default")
    );
    s.rescan_devices(Err("no sound system".to_owned()));
    assert_eq!(
        s.rescan_note.as_deref(),
        Some("device scan failed: no sound system")
    );
    // The system default is never lost.
    s.rescan_devices(Ok(catalog(&["z"])));
    assert_eq!(s.rescan_note, None);
}

#[test]
fn a_remembered_setup_comes_back() {
    let mut s = setup(&["a", "b"]);
    s.capture_idx = 1;
    s.playback_idx = 2;
    s.buffer_frames = 240;
    s.allow_exclusive = false;
    let prefs = s.audio_prefs("  Ana ");
    assert_eq!(prefs.display_name.as_deref(), Some("Ana"));
    let mut fresh = setup(&["a", "b"]);
    fresh.restore_audio_prefs(&prefs, &vec![120, 240, 480]);
    assert_eq!(fresh.audio_settings(), s.audio_settings());
    // An unplugged interface stays on the default, and a size no picker offers
    // is not smuggled in.
    let mut other = setup(&["b"]);
    other.restore_audio_prefs(&prefs, &vec![120, 480]);
    assert_eq!((other.capture_idx, other.playback_idx), (0, 1));
    assert_eq!(other.buffer_frames, 120);
    assert!(!other.allow_exclusive);
    assert_eq!(s.audio_prefs(" \t").display_name, None);
    let mut untouched = setup(&["a"]);
    untouched.restore_audio_prefs(&AppPrefs::default(), &vec![120]);
    assert_eq!(untouched, setup(&["a"]));
}

#[test]
fn a_pick_is_applied_once() {
    let mut s = setup(&["a"]);
    let mut applied = s.audio_settings();
    assert!(!s.apply(&mut applied));
    s.buffer_frames = 240;
    assert!(s.apply(&mut applied));
    assert!(!s.apply(&mut applied));
    assert_eq!(applied.buffer_frames, 240);
    s.capture_idx = 9;
    assert_eq!(s.audio_settings().capture_id, None);
    let pinned = AudioSettings {
        auto_cushion: false,
        ..s.audio_settings()
    };
    let mut applied = pinned;
    assert!(s.apply(&mut applied));
}

#[test]
fn a_picker_finds_by_id_or_stands_on_the_first() {
    let list = catalog(&["a", "b"]).capture;
    assert_eq!(DeviceCatalog::find(&list, &Some("b".to_owned())), (2, true));
    assert_eq!(DeviceCatalog::find(&list, &None), (0, true));
    assert_eq!(DeviceCatalog::find(&list, &Some("z".to_owned())), (0, false));
}

// ------------------------------------------------------------------- identity

#[test]
fn a_name_is_cut_on_a_character_boundary() {
    assert_eq!(cut_name("Ana", 64), "Ana");
    assert_eq!(cut_name("Ana", 2), "An");
    assert_eq!(cut_name("\u{e9}\u{e9}\u{e9}", 5), "\u{e9}\u{e9}");
    assert_eq!(cut_name("\u{1f3b8}", 3), "");
}

#[test]
fn only_a_change_of_name_is_news() {
    let mut id = Identity::new();
    assert!(id.announce_own_name(true, 64).is_none(), "no name, no news");
    id.restore_name(Some("  Ana  ".to_owned()));
    assert!(id.announce_own_name(false, 64).is_none(), "nobody to tell");
    assert!(id.announce_own_name(true, 64) == Some(Command::SetOwnName("Ana".to_owned())));
    assert!(id.announce_own_name(true, 64).is_none());
    id.own_name = "Ana Lucia".to_owned();
    assert!(id.announce_own_name(true, 5) == Some(Command::SetOwnName("Ana L".to_owned())));
    id.restore_name(None);
    assert_eq!(id.own_name, "Ana Lucia");
}

#[test]
fn a_picture_is_shown_kept_and_announced() {
    let mut id = Identity::new();
    assert_eq!(
        id.avatar_line(),
        "PNG or JPEG. A photo is cropped square and fitted to 256x256."
    );
    assert!(id.announce_own_avatar(true).is_none());
    let picked = settle(Some(Chosen {
        file: "me.png".to_owned(),
        bytes: Ok(png(40, 30)),
    }));
    let sent = id.take_pick(picked, true);
    assert!(sent == Some(Command::SetOwnAvatar(Some(png(40, 30)))));
    assert_eq!(id.avatar_line(), "40x30");
    assert!(id.announce_own_avatar(false).is_none());
    assert!(id.announce_own_avatar(true) == Some(Command::SetOwnAvatar(Some(png(40, 30)))));
    let shown = id.shown_avatar(None).expect("the local pick");
    assert_eq!((shown.width, shown.height), (40, 30));

    assert!(id
        .take_pick(Picked::Failed("no".to_owned()), true)
        .is_none());
    assert_eq!(id.avatar_error.as_deref(), Some("no"));
    assert!(id.own_avatar.is_some());
    assert!(id.take_pick(Picked::Cancelled, true).is_none());

    assert!(id.remove_avatar(true) == Some(Command::SetOwnAvatar(None)));
    assert!(id.own_avatar.is_none() && id.avatar_error.is_none());
    assert!(id.remove_avatar(false).is_none());
}

#[test]
fn a_fitted_picture_says_what_it_was() {
    let mut id = Identity::new();
    let picked = settle(Some(Chosen {
        file: "wide.png".to_owned(),
        bytes: Ok(png(600, 300)),
    }));
    id.take_pick(picked, false);
    assert_eq!(id.avatar_line(), "600x300 fitted to 256x256");
}

// -------------------------------------------------------------- jobs and picks

#[test]
fn a_cancelled_dialog_reports_itself() {
    assert!(matches!(settle(None), Picked::Cancelled));
}

#[test]
fn a_file_that_is_not_a_picture_fails_with_the_reason() {
    let picked = settle(Some(Chosen {
        file: "set-list.txt".to_owned(),
        bytes: Ok(b"three chords".to_vec()),
    }));
    match picked {
        Picked::Failed(err) => {
            assert_eq!(err, "set-list.txt: only PNG and JPEG images are supported")
        }
        other => panic!("expected a refusal, got {other:?}"),
    }
}

#[test]
fn a_file_that_cannot_be_read_is_named() {
    let picked = settle(Some(Chosen {
        file: "gone.png".to_owned(),
        bytes: Err("no such file".to_owned()),
    }));
    assert!(picked == Picked::Failed("gone.png could not be read: no such file".to_owned()));
}

#[test]
fn a_chosen_file_comes_back_loaded() {
    let picked = settle(Some(Chosen {
        file: "rehearsal.png".to_owned(),
        bytes: Ok(png(40, 40)),
    }));
    match picked {
        Picked::Loaded(picture) => {
            assert_eq!(picture.file, "rehearsal.png");
            assert_eq!(picture.fitted, (40, 40));
        }
        other => panic!("expected the picture, got {other:?}"),
    }
}

#[test]
fn a_dialog_whose_thread_died_reads_as_cancelled() {
    let mut pick = Pick::new();
    assert!(pick.poll(Received::Empty).is_none());
    assert!(pick.poll(Received::Disconnected) == Some(Picked::Cancelled));
}

#[test]
fn a_pick_yields_at_most_once() {
    let mut pick = Pick::new();
    assert!(pick.poll(Received::Empty).is_none());
    assert!(
        pick.poll(Received::Value(Picked::Failed("x".to_owned())))
            == Some(Picked::Failed("x".to_owned()))
    );
    assert!(pick.poll(Received::Disconnected).is_none(), "it has yielded");
    assert!(pick.poll(Received::Value(Picked::Cancelled)).is_none());

    let mut died = Pick::new();
    assert!(died.poll(Received::Disconnected) == Some(Picked::Cancelled));
    assert!(died.poll(Received::Disconnected).is_none(), "once is enough");
}

#[test]
fn a_lost_job_is_told_apart_from_a_slow_one() {
    let mut job = Job::new(true);
    assert_eq!(job.poll::<u32>(Received::Empty), None);
    assert!(!job.lost());
    assert_eq!(job.poll::<u32>(Received::Disconnected), None);
    assert!(job.lost());
    assert_eq!(job.poll::<u32>(Received::Empty), None);
    assert!(job.lost());
    assert!(Job::new(false).lost());
}

#[test]
fn a_job_that_delivered_is_not_lost() {
    let mut job = Job::new(true);
    assert_eq!(job.poll::<u32>(Received::Empty), None);
    assert_eq!(job.poll(Received::Value(7u32)), Some(7));
    assert!(!job.lost());
    assert_eq!(job.poll::<u32>(Received::Disconnected), None);
    assert!(!job.lost(), "the value came before the sender went");
    assert_eq!(job.poll(Received::Value(8u32)), None, "exactly once");
    assert!(!job.lost());
}

#[test]
fn a_log_opens_with_a_banner() {
    let line = banner("1.2.3");
    assert!(line.starts_with("jamstream-app 1.2.3"), "{line:?}");
    assert_eq!(line.lines().count(), 1, "{line:?}");
    assert!(line.contains("empty after this line is a healthy run"));
}
