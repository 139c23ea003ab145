//! What the app decides between frames: where the window is, which devices are
//! used, who you are to the others, and what an answer from outside leads to.

use vstd::prelude::*;

pub mod devices;
pub mod identity;
pub mod window;

use crate::app::devices::{
    remembered, rescanned, restored, selected, DeviceCatalog, DeviceModel, DeviceSetup, SetupModel,
};
use crate::app::identity::{
    after_pick, bare, name_announced, sent, Identity, IdentityModel,
};
use crate::app::window::{
    ending_failed, invite_undecodable, launch_unjoined, QuitAnswer, Screen, Then, Window,
};
use crate::live::costed::{Hosting, HostingModel};
use crate::live::{AudioSettings, SettingsModel};
use crate::model::CommandModel;
use crate::picker::{pick_may_be, settle, Chosen, Picked, PickedModel};
use crate::prefs::{AppPrefs, AppPrefsModel};
use crate::runtime::{Command, ConnState};

verus! {

// ----------------------------------------------------------------------- data

/// The app between two frames. The network, the jobs, the dialogs and the
/// drawing are somewhere else; they report what happened and do what the answer
/// says.
pub struct JamApp {
    pub window: Window,
    pub devices: DeviceSetup,
    pub identity: Identity,
    /// The device selection last handed to a session, by id rather than by
    /// picker index: a rescan reorders the catalog without moving the
    /// selection.
    pub applied_audio: AudioSettings,
    /// Whether the setup is remembered between launches.
    pub remembers: bool,
    /// Whether the session has a device stream of its own; a demo has none.
    pub live: bool,
    /// What the home screen has to say.
    pub home_error: Option<String>,
    /// What the host wizard has to say.
    pub launch_error: Option<String>,
    /// What the bucket of the last launch agreed to on how long takes are kept.
    pub retention: Option<String>,
}

#[verifier::ext_equal]
pub struct AppModel {
    pub window: Window,
    pub devices: SetupModel,
    pub identity: IdentityModel,
    pub applied: SettingsModel,
    pub remembers: bool,
    pub live: bool,
    pub home_error: Option<Seq<char>>,
    pub launch_error: Option<Seq<char>>,
    pub retention: Option<Seq<char>>,
}

impl DeepView for JamApp {
    type V = AppModel;

    open spec fn deep_view(&self) -> AppModel {
        AppModel {
            window: self.window,
            devices: self.devices.deep_view(),
            identity: self.identity.deep_view(),
            applied: self.applied_audio.deep_view(),
            remembers: self.remembers,
            live: self.live,
            home_error: self.home_error.deep_view(),
            launch_error: self.launch_error.deep_view(),
            retention: self.retention.deep_view(),
        }
    }
}

/// What becomes of a session that was just joined: what it is wrapped with,
/// where this computer launched it, what it is told, in this order, and what is
/// written for the next launch.
pub struct Announce {
    /// What the host's snapshots take the meter and the tokens from.
    pub hosting: Option<Hosting>,
    pub avatar: Option<Command>,
    pub name: Option<Command>,
    pub prefs: Option<AppPrefs>,
}

#[verifier::ext_equal]
pub struct AnnounceModel {
    pub hosting: Option<HostingModel>,
    pub avatar: Option<CommandModel>,
    pub name: Option<CommandModel>,
    pub prefs: Option<AppPrefsModel>,
}

impl DeepView for Announce {
    type V = AnnounceModel;

    open spec fn deep_view(&self) -> AnnounceModel {
        AnnounceModel {
            hosting: self.hosting.deep_view(),
            avatar: self.avatar.deep_view(),
            name: self.name.deep_view(),
            prefs: self.prefs.deep_view(),
        }
    }
}

/// How a launch from this computer ended.
pub enum Launched {
    /// The machine is up, and its own invite does not decode.
    Undecodable,
    /// The machine is up and joined; this is what its record says.
    Joined(Hosting),
    /// The machine is up, and joining it failed.
    Unjoined(String),
}

// ---------------------------------------------------------------------- model

pub open spec fn silence() -> AnnounceModel {
    AnnounceModel { hosting: None, avatar: None, name: None, prefs: None }
}

impl AppModel {
    pub open spec fn fresh(devices: SetupModel, remembers: bool) -> AppModel {
        AppModel {
            window: Window::fresh(),
            devices,
            identity: IdentityModel::nobody(),
            applied: selected(devices),
            remembers,
            live: false,
            home_error: None,
            launch_error: None,
            retention: None,
        }
    }

    /// The app with a saved setup put back where it is used: the devices and
    /// the buffer on the pickers, the name on the field.
    pub open spec fn recalling(self, prefs: AppPrefsModel, choices: Seq<u32>) -> AppModel {
        if !self.remembers {
            self
        } else {
            AppModel {
                devices: restored(self.devices, prefs, choices),
                identity: match prefs.display_name {
                    Some(name) => IdentityModel { own_name: name, ..self.identity },
                    None => self.identity,
                },
                ..self
            }
        }
    }

    /// What the next launch reads, where one is to read anything.
    pub open spec fn kept(self) -> Option<AppPrefsModel> {
        if self.remembers {
            Some(remembered(self.devices, self.identity.own_name))
        } else {
            None
        }
    }

    /// The identity as a link that was told nothing yet finds it.
    pub open spec fn untold(self) -> IdentityModel {
        IdentityModel { announced_name: None, ..self.identity }
    }

    /// The picture a new session is told of, where one was picked.
    pub open spec fn picture_told(self) -> Option<CommandModel> {
        match self.identity.own_avatar_bytes {
            Some(bytes) => sent(Some(bytes), true),
            None => None,
        }
    }

    /// An invite was answered.
    pub open spec fn after_join(self, joined: Result<(), Seq<char>>, cap: nat) -> (
        AppModel,
        AnnounceModel,
    ) {
        match joined {
            Ok(()) => {
                let (identity, name) = name_announced(self.untold(), true, cap);
                (
                    AppModel {
                        window: self.window.on_joining(),
                        identity,
                        live: true,
                        ..self
                    },
                    AnnounceModel {
                        hosting: None,
                        avatar: self.picture_told(),
                        name,
                        prefs: self.kept(),
                    },
                )
            },
            Err(reason) => (AppModel { home_error: Some(reason), ..self }, silence()),
        }
    }

    /// A launch from this computer was answered. What the bucket agreed to is
    /// true whether or not the host gets into the session they just paid for,
    /// so it is kept however the launch ended.
    pub open spec fn after_launch(
        self,
        launched: Launched,
        retention: Option<Seq<char>>,
        cap: nat,
    ) -> (AppModel, AnnounceModel) {
        let kept = AppModel { retention, ..self };
        kept.after_entering(launched, cap)
    }

    /// The host is let into the session, or told why not.
    pub open spec fn after_entering(self, launched: Launched, cap: nat) -> (
        AppModel,
        AnnounceModel,
    ) {
        match launched {
            Launched::Undecodable => (
                AppModel {
                    launch_error: Some(
                        "the session launched but its host invite does not decode"@,
                    ),
                    ..self
                },
                silence(),
            ),
            Launched::Joined(hosting) => {
                let (identity, name) = name_announced(self.untold(), true, cap);
                (
                    AppModel {
                        window: self.window.on_hosting(),
                        identity,
                        live: true,
                        ..self
                    },
                    AnnounceModel {
                        hosting: Some(hosting.deep_view()),
                        avatar: self.picture_told(),
                        name,
                        prefs: None,
                    },
                )
            },
            Launched::Unjoined(reason) => (
                AppModel {
                    launch_error: Some(crate::app::window::unjoined(reason@)),
                    ..self
                },
                silence(),
            ),
        }
    }

    /// The session was ended for everyone.
    pub open spec fn ended(self) -> (AppModel, Then) {
        let (window, then_do) = self.window.session_ended();
        (AppModel { window, live: false, ..self }, then_do)
    }

    /// The device pick applies at once: a session that has a stream reopens it,
    /// otherwise the selection waits for the next join. Either way it is
    /// remembered.
    pub open spec fn picks_applied(self) -> (
        AppModel,
        Option<SettingsModel>,
        Option<AppPrefsModel>,
    ) {
        let now = selected(self.devices);
        if now == self.applied {
            (self, None, None)
        } else {
            (
                AppModel { applied: now, ..self },
                if self.live {
                    Some(now)
                } else {
                    None
                },
                self.kept(),
            )
        }
    }
}

/// What a scan found, for capture and for playback; nothing where it failed.
pub open spec fn lists_of(scan: Result<DeviceCatalog, String>) -> (
    Seq<DeviceModel>,
    Seq<DeviceModel>,
) {
    match scan {
        Ok(catalog) => (catalog.capture.deep_view(), catalog.playback.deep_view()),
        Err(_) => (Seq::empty(), Seq::empty()),
    }
}

/// The app as it starts over the devices of this computer: what was saved is
/// put back over what a scan found.
pub open spec fn started(
    pickers: SetupModel,
    scan: (Seq<DeviceModel>, Seq<DeviceModel>),
    saved: Option<AppPrefsModel>,
    choices: Seq<u32>,
) -> AppModel {
    let (capture, playback) = scan;
    let app = AppModel::fresh(SetupModel { capture, playback, ..pickers }, saved is Some);
    let recalled = match saved {
        Some(prefs) => app.recalling(prefs, choices),
        None => app,
    };
    AppModel { applied: selected(recalled.devices), ..recalled }
}

// ------------------------------------------------------------------------ app

impl JamApp {
    /// The app over a set of pickers, with nothing remembered yet.
    pub fn new(devices: DeviceSetup, remembers: bool) -> (app: JamApp)
        ensures
            app.deep_view() == AppModel::fresh(devices.deep_view(), remembers),
    {
        let applied_audio = devices.audio_settings();
        JamApp {
            window: Window::new(),
            devices,
            identity: Identity::new(),
            applied_audio,
            remembers,
            live: false,
            home_error: None,
            launch_error: None,
            retention: None,
        }
    }

    /// The app as it starts: the pickers over what a scan of this computer
    /// found, and what the last launch saved put back. No saved setup means
    /// there is nowhere to keep one either.
    pub fn with_system_devices(
        pickers: DeviceSetup,
        scan: Result<DeviceCatalog, String>,
        saved: Option<AppPrefs>,
        choices: &Vec<u32>,
    ) -> (app: JamApp)
        ensures
            app.deep_view() == started(
                pickers.deep_view(),
                lists_of(scan),
                saved.deep_view(),
                choices@,
            ),
    {
        let ghost before = pickers.deep_view();
        let ghost lists = lists_of(scan);
        let mut devices = pickers;
        devices.catalog = match scan {
            Ok(catalog) => catalog,
            Err(_) => DeviceCatalog { capture: Vec::new(), playback: Vec::new() },
        };
        assert(devices.catalog.capture.deep_view() =~= lists.0);
        assert(devices.catalog.playback.deep_view() =~= lists.1);
        assert(devices.deep_view() =~= SetupModel {
            capture: lists.0,
            playback: lists.1,
            ..before
        });
        let mut app = JamApp::new(devices, saved.is_some());
        if let Some(prefs) = saved {
            app.restore_audio_prefs(prefs, choices);
        }
        app.applied_audio = app.devices.audio_settings();
        app
    }

    /// The app with nothing that outlives this process.
    pub fn in_memory(devices: DeviceSetup) -> (app: JamApp)
        ensures
            app.deep_view() == AppModel::fresh(devices.deep_view(), false),
    {
        JamApp::new(devices, false)
    }

    /// Straight into a session that reaches no platform and keeps nothing.
    pub fn demo(devices: DeviceSetup) -> (app: JamApp)
        ensures
            app.deep_view() == (AppModel {
                window: Window { screen: Screen::Session, in_session: true, ..Window::fresh() },
                ..AppModel::fresh(devices.deep_view(), false)
            }),
    {
        let mut app = JamApp::in_memory(devices);
        app.window.in_session = true;
        app.window.screen = Screen::Session;
        app
    }

    /// Puts a saved setup back where it is used; `choices` are the buffer sizes
    /// the picker offers.
    pub fn restore_audio_prefs(&mut self, prefs: AppPrefs, choices: &Vec<u32>)
        ensures
            final(self).deep_view() == old(self).deep_view().recalling(prefs.deep_view(), choices@),
    {
        if !self.remembers {
            return;
        }
        let ghost before = self.deep_view();
        let ghost saved = prefs.deep_view();
        self.devices.restore_audio_prefs(&prefs, choices);
        self.identity.restore_name(prefs.display_name);
        assert(self.deep_view() =~= before.recalling(saved, choices@));
    }

    /// What the next launch reads.
    pub fn persist_audio_prefs(&self) -> (prefs: Option<AppPrefs>)
        ensures
            prefs.deep_view() == self.deep_view().kept(),
    {
        if self.remembers {
            Some(self.devices.audio_prefs(self.identity.own_name.as_str()))
        } else {
            None
        }
    }

    /// Takes in a rescan of the devices.
    pub fn rescan_devices(&mut self, scan: Result<DeviceCatalog, String>)
        ensures
            final(self).deep_view() == (AppModel {
                devices: match scan {
                    Ok(catalog) => rescanned(
                        old(self).deep_view().devices,
                        catalog.capture.deep_view(),
                        catalog.playback.deep_view(),
                    ),
                    Err(err) => SetupModel {
                        rescan_note: Some("device scan failed: "@ + err@),
                        ..old(self).deep_view().devices
                    },
                },
                ..old(self).deep_view()
            }),
    {
        self.devices.rescan_devices(scan);
    }

    /// Hands a changed device pick on, once: what a running stream is reopened
    /// with, and what is remembered.
    pub fn apply_picks(&mut self) -> (r: (Option<AudioSettings>, Option<AppPrefs>))
        ensures
            (final(self).deep_view(), r.0.deep_view(), r.1.deep_view()) == old(
                self,
            ).deep_view().picks_applied(),
    {
        let ghost before = self.deep_view();
        if !self.devices.apply(&mut self.applied_audio) {
            assert(self.deep_view() =~= before);
            return (None, None);
        }
        let reopen = if self.live {
            Some(self.applied_audio.clone())
        } else {
            None
        };
        let prefs = self.persist_audio_prefs();
        assert(self.deep_view() =~= before.picks_applied().0);
        (reopen, prefs)
    }

    // -------------------------------------------------------------- sessions

    /// Tells a session that was just joined who you are. The link is new and
    /// knows nothing, whatever an earlier one was told.
    fn introduce(&mut self, cap: usize) -> (r: (Option<Command>, Option<Command>))
        requires
            old(self).window.in_session,
        ensures
            r.0.deep_view() == old(self).deep_view().picture_told(),
            (final(self).deep_view().identity, r.1.deep_view()) == name_announced(
                old(self).deep_view().untold(),
                true,
                cap as nat,
            ),
            final(self).deep_view() == (AppModel {
                identity: final(self).deep_view().identity,
                ..old(self).deep_view()
            }),
    {
        let ghost before = self.deep_view();
        self.identity.announced_name = None;
        assert(self.identity.deep_view() =~= before.untold());
        let avatar = self.identity.announce_own_avatar(self.window.in_session);
        let name = self.identity.announce_own_name(self.window.in_session, cap);
        (avatar, name)
    }

    /// An invite was joined, or refused with a reason; `cap` is the wire's byte
    /// cap on a name.
    pub fn join_answered(&mut self, joined: Result<(), String>, cap: usize) -> (told: Announce)
        ensures
            (final(self).deep_view(), told.deep_view()) == old(self).deep_view().after_join(
                match joined {
                    Ok(()) => Ok(()),
                    Err(reason) => Err(reason@),
                },
                cap as nat,
            ),
            joined matches Err(reason) ==> final(self).home_error is Some && final(self).home_error->0@ == reason@ && final(self).window == old(self).window && final(self).live == old(self).live,
            joined is Ok ==> final(self).window.in_session && final(self).live && final(self).home_error.deep_view() == old(self).home_error.deep_view(),
            final(self).launch_error.deep_view() == old(self).launch_error.deep_view(),
            told.name is Some ==> told.name->0 is SetOwnName,
            told.avatar is Some ==> told.avatar->0 is SetOwnAvatar,
            told.hosting is None,
    {
        let ghost before = self.deep_view();
        match joined {
            Ok(()) => {
                self.window.joined();
                self.live = true;
                let (avatar, name) = self.introduce(cap);
                let prefs = self.persist_audio_prefs();
                assert(self.deep_view() =~= before.after_join(Ok(()), cap as nat).0);
                assert(prefs.deep_view() == before.kept());
                Announce { hosting: None, avatar, name, prefs }
            },
            Err(reason) => {
                self.home_error = Some(reason);
                assert(self.deep_view() =~= AppModel { home_error: Some(reason@), ..before });
                Announce { hosting: None, avatar: None, name: None, prefs: None }
            },
        }
    }

    /// The wizard finished a launch, and the machine's own invite was joined or
    /// not. The session is wrapped with what the launch recorded, so that a host
    /// sees the meter and has a token to revoke for every seat. `retention` is
    /// what the bucket agreed to.
    pub fn enter_hosted_session(
        &mut self,
        launched: Launched,
        retention: Option<String>,
        cap: usize,
    ) -> (told: Announce)
        ensures
            (final(self).deep_view(), told.deep_view()) == old(self).deep_view().after_launch(
                launched,
                retention.deep_view(),
                cap as nat,
            ),
            final(self).retention.deep_view() == retention.deep_view(),
            final(self).home_error.deep_view() == old(self).home_error.deep_view(),
            !(launched is Joined) ==> final(self).launch_error is Some && final(self).window
                == old(self).window,
            launched is Joined ==> final(self).window.in_session && final(self).window.has_invites
                && final(self).live && told.hosting is Some,
            told.name is Some ==> told.name->0 is SetOwnName,
            told.avatar is Some ==> told.avatar->0 is SetOwnAvatar,
            told.prefs is None,
    {
        let ghost kept = AppModel { retention: retention.deep_view(), ..self.deep_view() };
        self.retention = retention;
        assert(self.deep_view() =~= kept);
        self.enter(launched, cap)
    }

    fn enter(&mut self, launched: Launched, cap: usize) -> (told: Announce)
        ensures
            (final(self).deep_view(), told.deep_view()) == old(self).deep_view().after_entering(
                launched,
                cap as nat,
            ),
    {
        let ghost before = self.deep_view();
        match launched {
            Launched::Undecodable => {
                self.launch_error = Some(invite_undecodable());
                assert(self.deep_view() =~= before.after_entering(launched, cap as nat).0);
                Announce { hosting: None, avatar: None, name: None, prefs: None }
            },
            Launched::Joined(hosting) => {
                self.window.joined_as_host();
                self.live = true;
                let (avatar, name) = self.introduce(cap);
                assert(self.deep_view() =~= before.after_entering(launched, cap as nat).0);
                Announce { hosting: Some(hosting), avatar, name, prefs: None }
            },
            Launched::Unjoined(reason) => {
                self.launch_error = Some(launch_unjoined(reason.as_str()));
                assert(self.deep_view() =~= before.after_entering(launched, cap as nat).0);
                Announce { hosting: None, avatar: None, name: None, prefs: None }
            },
        }
    }

    /// The session was left.
    pub fn left(&mut self)
        ensures
            final(self).deep_view() == (AppModel {
                window: Window {
                    screen: Screen::Home,
                    in_session: false,
                    ..old(self).window
                },
                live: false,
                ..old(self).deep_view()
            }),
    {
        self.window.left();
        self.live = false;
    }

    /// The session is ended for everyone.
    pub fn end_session(&mut self) -> (then_do: Then)
        ensures
            (final(self).deep_view(), then_do) == old(self).deep_view().ended(),
    {
        let then_do = self.window.end_session();
        self.live = false;
        then_do
    }

    /// Somebody answered the question a close of the window put up.
    pub fn answer_quit(&mut self, answer: QuitAnswer) -> (then_do: Then)
        ensures
            ({
                let (window, first) = old(self).window.quit_answered(answer);
                &&& then_do == first
                &&& final(self).deep_view() == (AppModel {
                    window,
                    live: old(self).live && !(answer is EndAndQuit),
                    ..old(self).deep_view()
                })
            }),
    {
        if let QuitAnswer::EndAndQuit = answer {
            self.live = false;
        }
        self.window.answer_quit(answer)
    }

    /// The teardown answered. A failure lands on the home screen with the
    /// provider's reason.
    pub fn teardown_answered(&mut self, answer: Result<(), String>) -> (then_do: Then)
        ensures
            ({
                let (window, first) = old(self).window.teardown_over();
                &&& then_do == first
                &&& final(self).deep_view() == (AppModel {
                    window,
                    home_error: match answer {
                        Ok(()) => old(self).deep_view().home_error,
                        Err(reason) => Some("ending the session failed: "@ + reason@),
                    },
                    ..old(self).deep_view()
                })
            }),
            answer matches Err(reason) ==> final(self).home_error is Some && final(self).home_error->0@ == "ending the session failed: "@ + reason@,
            !final(self).window.ending,
    {
        if let Err(reason) = answer {
            self.home_error = Some(ending_failed(reason.as_str()));
        }
        self.window.teardown_answered()
    }

    /// A session that ended from the far side falls back to home.
    pub fn fall_back_when_idle(&mut self, state: &ConnState)
        ensures
            final(self).deep_view() == (AppModel {
                window: old(self).window.fallen_back(*state is Idle),
                live: old(self).live && old(self).window.fallen_back(*state is Idle)
                    == old(self).window,
                ..old(self).deep_view()
            }),
    {
        let before = self.window;
        self.window.fall_back_when_idle(state);
        self.live = self.live && self.window == before;
    }

    /// Whether closing the window right now would strand a machine this app
    /// launched.
    pub fn hosting_live_session(&self) -> (b: bool)
        ensures
            b == self.window.hosts(),
    {
        self.window.hosting_live_session()
    }

    /// Whether the teardown is in flight.
    pub fn ending(&self) -> (b: bool)
        ensures
            b == self.window.ending,
    {
        self.window.ending
    }

    /// Whether a sweep is in flight.
    pub fn sweeping(&self) -> (b: bool)
        ensures
            b == self.window.sweeping,
    {
        self.window.sweeping
    }

    /// Starts a sweep, unless one is running.
    pub fn begin_sweep(&mut self) -> (then_do: Then)
        ensures
            final(self).deep_view() == (AppModel {
                window: Window { sweeping: true, ..old(self).window },
                ..old(self).deep_view()
            }),
            then_do == (if old(self).window.sweeping {
                Then::Nothing
            } else {
                Then::StartSweep
            }),
    {
        self.window.begin_sweep()
    }

    /// Whether something on screen is moving, so another frame is asked for.
    pub fn repaint_while_animating(
        &self,
        recording_busy: bool,
        wizard_busy: bool,
        takes_busy: bool,
    ) -> (b: bool)
        ensures
            b == self.window.moving(recording_busy, wizard_busy, takes_busy),
    {
        self.window.animating(recording_busy, wizard_busy, takes_busy)
    }

    // -------------------------------------------------------------- identity

    /// An edit of the name was committed: what is sent, and what is remembered.
    pub fn commit_name(&mut self, cap: usize) -> (r: (Option<Command>, Option<AppPrefs>))
        ensures
            ({
                let (identity, cmd) = name_announced(
                    old(self).deep_view().identity,
                    old(self).window.in_session,
                    cap as nat,
                );
                &&& r.0.deep_view() == cmd
                &&& r.1.deep_view() == old(self).deep_view().kept()
                &&& final(self).deep_view() == (AppModel { identity, ..old(self).deep_view() })
            }),
    {
        let ghost before = self.deep_view();
        let cmd = self.identity.announce_own_name(self.window.in_session, cap);
        let prefs = self.persist_audio_prefs();
        assert(prefs.deep_view() == before.kept());
        (cmd, prefs)
    }

    /// The picture dialog was opened; the last refusal is old news.
    pub fn choose_picture(&mut self)
        ensures
            final(self).deep_view() == (AppModel {
                window: Window { avatar_dialog: true, ..old(self).window },
                identity: IdentityModel {
                    avatar_error: None,
                    ..old(self).deep_view().identity
                },
                ..old(self).deep_view()
            }),
    {
        let ghost before = self.deep_view();
        self.identity.avatar_error = None;
        self.window.avatar_dialog = true;
        assert(self.identity.deep_view() =~= IdentityModel {
            avatar_error: None,
            ..before.identity
        });
    }

    /// The picture dialog came back.
    pub fn poll_avatar_pick(&mut self, picked: Picked) -> (cmd: Option<Command>)
        ensures
            ({
                let (identity, first) = after_pick(
                    old(self).deep_view().identity,
                    picked.deep_view(),
                    old(self).window.in_session,
                );
                &&& cmd.deep_view() == first
                &&& final(self).deep_view() == (AppModel {
                    window: Window { avatar_dialog: false, ..old(self).window },
                    identity,
                    ..old(self).deep_view()
                })
            }),
    {
        self.window.avatar_dialog = false;
        self.identity.take_pick(picked, self.window.in_session)
    }

    /// Fits and decodes a file that was read, and shows and announces what it
    /// became, or says why it is no picture.
    pub fn load_avatar_from(&mut self, chosen: Chosen) -> (cmd: Option<Command>)
        ensures
            exists|picked: PickedModel|
                {
                    let (identity, first) = after_pick(
                        IdentityModel {
                            avatar_error: None,
                            ..old(self).deep_view().identity
                        },
                        picked,
                        old(self).window.in_session,
                    );
                    &&& #[trigger] pick_may_be(Some(chosen), picked)
                    &&& cmd.deep_view() == first
                    &&& final(self).deep_view() == (AppModel {
                        identity,
                        ..old(self).deep_view()
                    })
                },
    {
        let ghost before = self.deep_view();
        self.identity.avatar_error = None;
        assert(self.identity.deep_view() =~= IdentityModel {
            avatar_error: None,
            ..before.identity
        });
        let picked = settle(Some(chosen));
        assert(pick_may_be(Some(chosen), picked.deep_view()));
        self.identity.take_pick(picked, self.window.in_session)
    }

    /// Drops the picture, here and on the next join.
    pub fn remove_avatar(&mut self) -> (cmd: Option<Command>)
        ensures
            cmd.deep_view() == sent(None, old(self).window.in_session),
            final(self).deep_view() == (AppModel {
                identity: bare(old(self).deep_view().identity),
                ..old(self).deep_view()
            }),
    {
        self.identity.remove_avatar(self.window.in_session)
    }
}

// ----------------------------------------------------------------------- laws

/// A name is sent into presence at every join, whatever an earlier session was
/// told, and so is a picture that was picked. A session this computer launched
/// is wrapped with what its own record says, and no other is.
pub proof fn every_join_says_who_you_are(
    m: AppModel,
    hosting: Hosting,
    retention: Option<Seq<char>>,
    cap: nat,
)
    ensures
        ({
            let name = crate::app::identity::name_to_send(m.identity.own_name, cap);
            let (joined, told) = m.after_join(Ok(()), cap);
            let (host, host_told) = m.after_launch(Launched::Joined(hosting), retention, cap);
            &&& told.name == host_told.name
            &&& told.avatar == host_told.avatar
            &&& told.name == (if name.len() > 0 {
                Some(CommandModel::SetOwnName(name))
            } else {
                None
            })
            &&& told.avatar == (match m.identity.own_avatar_bytes {
                Some(bytes) => Some(CommandModel::SetOwnAvatar(Some(bytes))),
                None => None,
            })
            &&& told.hosting is None
            &&& host_told.hosting == Some(hosting.deep_view())
            &&& joined.window.in_session && host.window.hosts()
        }),
{
}

/// A join or a launch that fails changes nothing but what is said of it, and
/// what a launch's bucket agreed to outlives its failure.
pub proof fn a_failed_join_only_says_so(
    m: AppModel,
    reason: Seq<char>,
    launched: Launched,
    retention: Option<Seq<char>>,
    cap: nat,
)
    requires
        !(launched is Joined),
    ensures
        ({
            let (after, told) = m.after_join(Err(reason), cap);
            &&& told == silence()
            &&& after == (AppModel { home_error: Some(reason), ..m })
        }),
        ({
            let (after, told) = m.after_launch(launched, retention, cap);
            &&& told == silence()
            &&& after.launch_error is Some
            &&& after == (AppModel { launch_error: after.launch_error, retention, ..m })
        }),
{
}

/// A device pick is handed on once: with nothing picked since, the next frame
/// reopens nothing and writes nothing.
pub proof fn a_pick_is_handed_on_once(m: AppModel)
    ensures
        ({
            let (after, reopen, prefs) = m.picks_applied();
            after.picks_applied() == (after, None::<SettingsModel>, None::<AppPrefsModel>)
        }),
{
}

/// The next launch knows this one: over the same devices, with the buffer still
/// on offer, it opens the stream the same way and has the name on the field.
pub proof fn the_next_launch_knows_this_one(
    m: AppModel,
    pickers: SetupModel,
    choices: Seq<u32>,
)
    requires
        m.remembers,
        0 <= m.devices.capture_idx < m.devices.capture.len(),
        0 <= m.devices.playback_idx < m.devices.playback.len(),
        m.devices.capture[0].id is None,
        m.devices.playback[0].id is None,
        pickers.capture_idx == 0,
        pickers.playback_idx == 0,
        choices.contains(m.devices.buffer_frames),
    ensures
        ({
            let next = started(
                pickers,
                (m.devices.capture, m.devices.playback),
                m.kept(),
                choices,
            );
            let name = crate::text::trimmed(m.identity.own_name);
            &&& selected(next.devices) == selected(m.devices)
            &&& next.applied == selected(m.devices)
            &&& next.identity.own_name == name
        }),
{
    let held = SetupModel {
        capture: m.devices.capture,
        playback: m.devices.playback,
        ..pickers
    };
    crate::app::devices::a_remembered_setup_comes_back(
        m.devices,
        held,
        m.identity.own_name,
        choices,
    );
    let name = crate::text::trimmed(m.identity.own_name);
    if name.len() == 0 {
        assert(name =~= Seq::<char>::empty());
    }
}

/// A join puts the window into the session it joined and changes nothing but
/// who has been told what; what is remembered goes out with it, where anything
/// is.
pub proof fn a_join_enters_the_session(m: AppModel, cap: nat)
    ensures
        ({
            let (after, told) = m.after_join(Ok(()), cap);
            &&& after.window.screen == Screen::Session && after.window.in_session
            &&& !after.window.has_invites
            &&& after.live
            &&& after.devices == m.devices && after.applied == m.applied
            &&& after.home_error == m.home_error && after.launch_error == m.launch_error
            &&& after.retention == m.retention && after.remembers == m.remembers
            &&& after.identity.own_name == m.identity.own_name
            &&& after.identity.own_avatar == m.identity.own_avatar
            &&& after.identity.own_avatar_bytes == m.identity.own_avatar_bytes
            &&& after.identity.picture == m.identity.picture
            &&& after.identity.avatar_error == m.identity.avatar_error
            &&& told.prefs is Some <==> m.remembers
        }),
{
}

/// A launch that was joined opens on the links to share, with what its bucket
/// agreed to kept and nothing written for the next launch.
pub proof fn a_hosted_session_opens_on_its_links(
    m: AppModel,
    hosting: Hosting,
    retention: Option<Seq<char>>,
    cap: nat,
)
    ensures
        ({
            let (after, told) = m.after_launch(Launched::Joined(hosting), retention, cap);
            &&& after.window.screen == Screen::Session && after.window.in_session
            &&& after.window.has_invites && after.window.settings_open
            &&& after.window.settings_tab == crate::app::window::SettingsTab::Invites
            &&& after.live
            &&& after.retention == retention
            &&& after.launch_error == m.launch_error && after.home_error == m.home_error
            &&& after.devices == m.devices && after.applied == m.applied
            &&& after.identity.own_name == m.identity.own_name
            &&& after.identity.own_avatar_bytes == m.identity.own_avatar_bytes
            &&& told.prefs is None
            &&& told.hosting is Some
            &&& told.hosting->0.hourly_microusd == hosting.hourly_microusd
            &&& told.hosting->0.created_unix == hosting.created_unix
            &&& told.hosting->0.tokens == hosting.tokens@
        }),
{
}

/// A launch that could not be entered says why: an invite that does not decode,
/// or the reason joining gave.
pub proof fn a_launch_that_was_not_entered_says_why(
    m: AppModel,
    reason: String,
    retention: Option<Seq<char>>,
    cap: nat,
)
    ensures
        m.after_launch(Launched::Undecodable, retention, cap).0.launch_error == Some(
            "the session launched but its host invite does not decode"@,
        ),
        m.after_launch(Launched::Unjoined(reason), retention, cap).0.launch_error == Some(
            "the server is running but joining it failed: "@ + reason@
                + ". Go Back and press Stop strays on the home screen to stop it; jamstream end --last does the same from a terminal."@,
        ),
{
}

/// What the next launch reads is the selection and the name as they stand, and
/// nothing at all where nothing is remembered.
pub proof fn what_is_kept_is_what_stands(m: AppModel)
    ensures
        m.kept() is Some <==> m.remembers,
        m.kept() matches Some(prefs) ==> prefs.capture_id == selected(m.devices).capture_id
            && prefs.playback_id == selected(m.devices).playback_id && prefs.buffer_frames == Some(
            m.devices.buffer_frames,
        ) && prefs.allow_exclusive == Some(m.devices.allow_exclusive),
        m.kept() matches Some(prefs) ==> (prefs.display_name is Some <==> crate::text::trimmed(
            m.identity.own_name,
        ).len() > 0),
        m.kept() matches Some(prefs) ==> (prefs.display_name matches Some(name) ==> name
            == crate::text::trimmed(m.identity.own_name)),
{
}

/// A changed device pick is what a running stream is reopened with, and waits
/// for the next join where none runs; it is remembered either way. One that has
/// not changed is nothing to do.
pub proof fn a_changed_pick_reopens_what_runs(m: AppModel)
    ensures
        ({
            let (after, reopen, prefs) = m.picks_applied();
            &&& after.applied == selected(m.devices)
            &&& after == (AppModel { applied: after.applied, ..m })
            &&& selected(m.devices) == m.applied ==> reopen is None && prefs is None
            &&& selected(m.devices) != m.applied ==> (reopen is Some <==> m.live) && (
            prefs is Some <==> m.remembers)
            &&& reopen matches Some(now) ==> now == selected(m.devices)
            &&& prefs is Some ==> prefs == m.kept()
        }),
{
}

/// A saved setup is put back only where one is kept, and then onto the pickers
/// and the field and nowhere else.
pub proof fn a_saved_setup_is_put_back(m: AppModel, prefs: AppPrefsModel, choices: Seq<u32>)
    ensures
        ({
            let after = m.recalling(prefs, choices);
            &&& !m.remembers ==> after == m
            &&& m.remembers ==> after.devices == restored(m.devices, prefs, choices)
            &&& m.remembers ==> (prefs.display_name matches Some(name) ==> after.identity == (
            IdentityModel { own_name: name, ..m.identity }))
            &&& prefs.display_name is None ==> after.identity == m.identity
            &&& after == (AppModel { devices: after.devices, identity: after.identity, ..m })
        }),
{
}

/// Ending a session leaves it and its stream, and changes nothing of the
/// devices, the name or the picture.
pub proof fn ending_leaves_the_session(m: AppModel)
    ensures
        ({
            let (after, then_do) = m.ended();
            &&& !after.live && !after.window.in_session && !after.window.has_invites
            &&& after.window.screen == Screen::Home
            &&& then_do is TearDown <==> m.window.has_invites
            &&& then_do is Leave <==> !m.window.has_invites && m.window.in_session
            &&& after == (AppModel { window: after.window, live: false, ..m })
        }),
{
}

/// An app starts at home over the devices a scan found, outside any session,
/// and remembers only where something was to be read.
pub proof fn an_app_starts_at_home(
    pickers: SetupModel,
    capture: Seq<DeviceModel>,
    playback: Seq<DeviceModel>,
    saved: Option<AppPrefsModel>,
    choices: Seq<u32>,
)
    ensures
        ({
            let app = started(pickers, (capture, playback), saved, choices);
            &&& app.window.screen == Screen::Home && !app.window.in_session
            &&& !app.window.settings_open && !app.window.ending && !app.window.sweeping
            &&& !app.live
            &&& app.devices.capture == capture && app.devices.playback == playback
            &&& app.applied == selected(app.devices)
            &&& app.remembers <==> saved is Some
            &&& app.home_error is None && app.launch_error is None && app.retention is None
            &&& app.identity.own_avatar is None && app.identity.announced_name is None
            &&& saved is None ==> app.identity.own_name.len() == 0 && app.devices == (SetupModel {
                capture,
                playback,
                ..pickers
            })
        }),
{
}

/// A failure has nothing to tell, and a scan's lists are its own: what it found
/// to capture with and what it found to play with, and none where it failed.
pub proof fn a_scans_lists_are_its_own(scan: Result<DeviceCatalog, String>)
    ensures
        scan matches Ok(catalog) ==> lists_of(scan).0 == catalog.capture.deep_view() && lists_of(
            scan,
        ).1 == catalog.playback.deep_view(),
        scan is Err ==> lists_of(scan).0.len() == 0 && lists_of(scan).1.len() == 0,
        silence().hosting is None && silence().avatar is None && silence().name is None,
        silence().prefs is None,
{
}

} // verus!
