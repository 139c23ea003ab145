//! Where the window is, what stands over it, and when it may close.
//!
//! Every method is one thing that can happen in a frame. Drawing, the network
//! and the jobs are somewhere else; they report what happened and do what the
//! answer says.

use vstd::prelude::*;

use crate::runtime::ConnState;

verus! {

/// Where the window is. There is no devices screen: audio settings live in the
/// drawer, which is reachable from everywhere.
#[derive(Debug, Clone, Copy, PartialEq, Eq, Structural)]
pub enum Screen {
    Home,
    HostWizard,
    Session,
    /// The takes past sessions left. Off Home rather than inside a session,
    /// because a take outlives the session that made it.
    Takes,
}

impl Screen {
    pub open spec fn heading(self) -> Seq<char> {
        match self {
            Screen::Home => "home"@,
            Screen::HostWizard => "host a session"@,
            Screen::Session => "session"@,
            Screen::Takes => "takes"@,
        }
    }

    /// What the top bar calls a screen.
    pub fn title(self) -> (s: &'static str)
        ensures
            s@ == self.heading(),
            match self {
                Screen::Home => s@ == "home"@,
                Screen::HostWizard => s@ == "host a session"@,
                Screen::Session => s@ == "session"@,
                Screen::Takes => s@ == "takes"@,
            },
    {
        match self {
            Screen::Home => "home",
            Screen::HostWizard => "host a session",
            Screen::Session => "session",
            Screen::Takes => "takes",
        }
    }
}

/// The settings drawer's tabs.
#[derive(Debug, Clone, Copy, PartialEq, Eq, Structural)]
pub enum SettingsTab {
    Audio,
    Broadcast,
    Invites,
    Recording,
    You,
}

/// What a press on the home screen asks for, a join aside.
#[derive(Debug, Clone, Copy, PartialEq, Eq, Structural)]
pub enum HomeAction {
    Sweep,
    Takes,
    Host,
}

/// What somebody answers when they close the window on a session this computer
/// launched.
#[derive(Debug, Clone, Copy, PartialEq, Eq, Structural)]
pub enum QuitAnswer {
    Cancel,
    KeepRunning,
    EndAndQuit,
}

/// What an answer or an event has the caller do.
#[derive(Debug, Clone, Copy, PartialEq, Eq, Structural)]
pub enum Then {
    Nothing,
    /// Close the window.
    Close,
    /// Hold the window open against the close that was asked for.
    CancelClose,
    /// Leave the session, while one is up, and destroy the machine it ran on.
    TearDown,
    /// Leave the session; nothing was launched from here.
    Leave,
    /// Destroy every tagged machine in reach.
    StartSweep,
}

#[derive(Debug, Clone, Copy, PartialEq, Eq, Structural)]
pub struct Window {
    pub screen: Screen,
    /// Whether there is a session to show.
    pub in_session: bool,
    /// Whether this computer launched the session the screen was built for.
    pub has_invites: bool,
    pub settings_open: bool,
    /// Which drawer tab is showing, for as long as the app runs.
    pub settings_tab: SettingsTab,
    /// The record sheet, which is anchored where the drawer is.
    pub record_open: bool,
    /// Whether the record sheet was opened since the drawer last looked.
    pub took_the_sheet_anchor: bool,
    /// The teardown is in flight.
    pub ending: bool,
    /// The close-the-window confirmation is up.
    pub confirm_quit: bool,
    /// The confirmation was answered; the next close request passes.
    pub allow_close: bool,
    /// Close the window once the teardown confirms, not before, or the provider
    /// call dies with the process.
    pub quit_after_ending: bool,
    pub sweeping: bool,
    /// The sweep confirmation is up.
    pub confirm_sweep: bool,
    /// The picture dialog is open.
    pub avatar_dialog: bool,
}

impl Window {
    /// A fresh launch: home, with the drawer shut and on Audio, which is what a
    /// musician sets up first.
    pub open spec fn fresh() -> Window {
        Window {
            screen: Screen::Home,
            in_session: false,
            has_invites: false,
            settings_open: false,
            settings_tab: SettingsTab::Audio,
            record_open: false,
            took_the_sheet_anchor: false,
            ending: false,
            confirm_quit: false,
            allow_close: false,
            quit_after_ending: false,
            sweeping: false,
            confirm_sweep: false,
            avatar_dialog: false,
        }
    }

    pub fn new() -> (w: Window)
        ensures
            w == Window::fresh(),
            w.screen == Screen::Home && !w.in_session && !w.has_invites,
            !w.settings_open && w.settings_tab == SettingsTab::Audio,
            !w.record_open && !w.took_the_sheet_anchor && !w.ending && !w.confirm_quit,
            !w.allow_close && !w.quit_after_ending && !w.sweeping && !w.confirm_sweep,
            !w.avatar_dialog,
    {
        Window {
            screen: Screen::Home,
            in_session: false,
            has_invites: false,
            settings_open: false,
            settings_tab: SettingsTab::Audio,
            record_open: false,
            took_the_sheet_anchor: false,
            ending: false,
            confirm_quit: false,
            allow_close: false,
            quit_after_ending: false,
            sweeping: false,
            confirm_sweep: false,
            avatar_dialog: false,
        }
    }

    // ------------------------------------------------------------ the top bar

    /// The window once Settings was pressed. One right-anchored sheet at a
    /// time: opening the drawer shuts the record sheet.
    pub open spec fn settings_pressed(self) -> Window {
        if self.settings_open {
            Window { settings_open: false, ..self }
        } else {
            Window {
                settings_open: true,
                record_open: false,
                took_the_sheet_anchor: false,
                ..self
            }
        }
    }

    pub fn press_settings(&mut self)
        ensures
            *final(self) == old(self).settings_pressed(),
            final(self).settings_open == !old(self).settings_open,
            final(self).settings_open ==> !final(self).record_open && !final(self).took_the_sheet_anchor,
            !final(self).settings_open ==> *final(self) == (Window {
                settings_open: false,
                ..*old(self)
            }),
            *final(self) == (Window {
                settings_open: final(self).settings_open,
                record_open: final(self).record_open,
                took_the_sheet_anchor: final(self).took_the_sheet_anchor,
                ..*old(self)
            }),
    {
        self.settings_open = !self.settings_open;
        if self.settings_open {
            self.record_open = false;
            self.took_the_sheet_anchor = false;
        }
    }

    /// Whether the top bar offers a way home: a session is left, not walked out
    /// of.
    pub fn offers_home(&self) -> (b: bool)
        ensures
            b == (self.screen != Screen::Home && self.screen != Screen::Session),
    {
        self.screen != Screen::Home && self.screen != Screen::Session
    }

    pub fn press_home(&mut self)
        requires
            old(self).screen != Screen::Home,
            old(self).screen != Screen::Session,
        ensures
            *final(self) == (Window { screen: Screen::Home, ..*old(self) }),
    {
        self.screen = Screen::Home;
    }

    // ---------------------------------------------------------------- closing

    /// Whether closing the window right now would strand a machine this app
    /// launched. Leaving a session somebody else launched costs a musician
    /// nothing but their seat, which is kept.
    pub open spec fn hosts(self) -> bool {
        self.in_session && self.has_invites
    }

    pub fn hosting_live_session(&self) -> (b: bool)
        ensures
            b == self.hosts(),
            b <==> self.in_session && self.has_invites,
    {
        self.in_session && self.has_invites
    }

    /// The window once somebody asked to close it. A teardown in flight holds
    /// it until it answers; a session launched from here puts the question up;
    /// anything else closes untouched.
    pub open spec fn close_asked(self) -> (Window, Then) {
        if self.allow_close {
            (self, Then::Nothing)
        } else if self.ending {
            (Window { quit_after_ending: true, ..self }, Then::CancelClose)
        } else if self.hosts() {
            (Window { confirm_quit: true, ..self }, Then::CancelClose)
        } else {
            (self, Then::Nothing)
        }
    }

    pub fn ask_close(&mut self) -> (then_do: Then)
        ensures
            (*final(self), then_do) == old(self).close_asked(),
            ({
                let w = *old(self);
                let hosting = w.in_session && w.has_invites;
                &&& then_do == (if !w.allow_close && (w.ending || hosting) {
                    Then::CancelClose
                } else {
                    Then::Nothing
                })
                &&& *final(self) == (Window {
                    quit_after_ending: w.quit_after_ending || (!w.allow_close && w.ending),
                    confirm_quit: w.confirm_quit || (!w.allow_close && !w.ending && hosting),
                    ..w
                })
            }),
    {
        if self.allow_close {
            return Then::Nothing;
        }
        if self.ending {
            self.quit_after_ending = true;
            return Then::CancelClose;
        }
        if self.hosting_live_session() {
            self.confirm_quit = true;
            return Then::CancelClose;
        }
        Then::Nothing
    }

    /// The window once the question was answered.
    pub open spec fn quit_answered(self, answer: QuitAnswer) -> (Window, Then) {
        match answer {
            QuitAnswer::Cancel => (Window { confirm_quit: false, ..self }, Then::Nothing),
            QuitAnswer::KeepRunning => (
                Window { confirm_quit: false, allow_close: true, ..self },
                Then::Close,
            ),
            QuitAnswer::EndAndQuit => (Window {
                confirm_quit: false,
                quit_after_ending: true,
                ..self
            }).session_ended(),
        }
    }

    pub fn answer_quit(&mut self, answer: QuitAnswer) -> (then_do: Then)
        ensures
            (*final(self), then_do) == old(self).quit_answered(answer),
            answer is Cancel ==> then_do is Nothing && *final(self) == (Window {
                confirm_quit: false,
                ..*old(self)
            }),
            answer is KeepRunning ==> then_do is Close && *final(self) == (Window {
                confirm_quit: false,
                allow_close: true,
                ..*old(self)
            }),
            answer is EndAndQuit ==> then_do == (if old(self).has_invites {
                Then::TearDown
            } else if old(self).in_session {
                Then::Leave
            } else {
                Then::Nothing
            }) && *final(self) == (Window {
                confirm_quit: false,
                quit_after_ending: true,
                ending: old(self).ending || old(self).has_invites,
                has_invites: false,
                in_session: false,
                screen: Screen::Home,
                ..*old(self)
            }),
    {
        self.confirm_quit = false;
        match answer {
            QuitAnswer::Cancel => Then::Nothing,
            QuitAnswer::KeepRunning => {
                self.allow_close = true;
                Then::Close
            },
            QuitAnswer::EndAndQuit => {
                self.quit_after_ending = true;
                self.end_session()
            },
        }
    }

    // ----------------------------------------------------------------- escape

    /// Whether the session screen has something up that Escape leaves first.
    pub open spec fn overlaid(self, inner_overlay: bool) -> bool {
        self.screen == Screen::Session && self.in_session && inner_overlay
    }

    /// The window once Escape was pressed, and whether it was taken here. The
    /// innermost thing entered is the first thing left: a confirmation, then
    /// the drawer, unless the screen has something inside it waiting.
    pub open spec fn escape_pressed(self, inner_overlay: bool) -> (Window, bool) {
        if self.confirm_quit {
            (Window { confirm_quit: false, ..self }, true)
        } else if self.confirm_sweep {
            (Window { confirm_sweep: false, ..self }, true)
        } else if self.settings_open && !self.overlaid(inner_overlay) {
            (Window { settings_open: false, ..self }, true)
        } else {
            (self, false)
        }
    }

    pub fn press_escape(&mut self, inner_overlay: bool) -> (taken: bool)
        ensures
            (*final(self), taken) == old(self).escape_pressed(inner_overlay),
            ({
                let w = *old(self);
                let waiting = w.screen == Screen::Session && w.in_session && inner_overlay;
                &&& w.confirm_quit ==> taken && *final(self) == (Window {
                    confirm_quit: false,
                    ..w
                })
                &&& !w.confirm_quit && w.confirm_sweep ==> taken && *final(self) == (Window {
                    confirm_sweep: false,
                    ..w
                })
                &&& !w.confirm_quit && !w.confirm_sweep && w.settings_open && !waiting ==> taken
                    && *final(self) == (Window { settings_open: false, ..w })
                &&& !w.confirm_quit && !w.confirm_sweep && (!w.settings_open || waiting) ==> !taken
                    && *final(self) == w
            }),
    {
        if self.confirm_quit {
            self.confirm_quit = false;
            return true;
        }
        if self.confirm_sweep {
            self.confirm_sweep = false;
            return true;
        }
        let overlaid = self.screen == Screen::Session && self.in_session && inner_overlay;
        if self.settings_open && !overlaid {
            self.settings_open = false;
            return true;
        }
        false
    }

    // --------------------------------------------------------------- sessions

    /// What a press on the home screen leads to.
    pub fn press_on_home(&mut self, action: HomeAction)
        ensures
            *final(self) == (match action {
                // It destroys machines, one of which a band may be playing on,
                // so it asks.
                HomeAction::Sweep => Window { confirm_sweep: true, ..*old(self) },
                HomeAction::Takes => Window { screen: Screen::Takes, ..*old(self) },
                HomeAction::Host => Window { screen: Screen::HostWizard, ..*old(self) },
            }),
    {
        match action {
            HomeAction::Sweep => self.confirm_sweep = true,
            HomeAction::Takes => self.screen = Screen::Takes,
            HomeAction::Host => self.screen = Screen::HostWizard,
        }
    }

    /// The window once an invite was joined: the session screen starts over.
    pub open spec fn on_joining(self) -> Window {
        Window {
            screen: Screen::Session,
            in_session: true,
            has_invites: false,
            record_open: false,
            took_the_sheet_anchor: false,
            ..self
        }
    }

    pub fn joined(&mut self)
        ensures
            *final(self) == old(self).on_joining(),
            final(self).screen == Screen::Session && final(self).in_session,
            !final(self).has_invites && !final(self).record_open,
            final(self).settings_open == old(self).settings_open,
            final(self).settings_tab == old(self).settings_tab,
            final(self).ending == old(self).ending,
            final(self).allow_close == old(self).allow_close,
            final(self).quit_after_ending == old(self).quit_after_ending,
            final(self).confirm_quit == old(self).confirm_quit,
            final(self).sweeping == old(self).sweeping,
            final(self).confirm_sweep == old(self).confirm_sweep,
            final(self).avatar_dialog == old(self).avatar_dialog,
            !final(self).took_the_sheet_anchor,
    {
        self.in_session = true;
        self.has_invites = false;
        self.record_open = false;
        self.took_the_sheet_anchor = false;
        self.screen = Screen::Session;
    }

    /// The window once a session launched from here was joined: a session with
    /// nobody in it, so the drawer opens on the tab holding the links, because
    /// sharing them is the next act.
    pub open spec fn on_hosting(self) -> Window {
        Window {
            screen: Screen::Session,
            in_session: true,
            has_invites: true,
            settings_open: true,
            settings_tab: SettingsTab::Invites,
            record_open: false,
            took_the_sheet_anchor: false,
            ..self
        }
    }

    pub fn joined_as_host(&mut self)
        ensures
            *final(self) == old(self).on_hosting(),
            final(self).screen == Screen::Session && final(self).in_session,
            final(self).has_invites && !final(self).record_open,
            final(self).settings_open && final(self).settings_tab == SettingsTab::Invites,
            final(self).ending == old(self).ending,
            final(self).allow_close == old(self).allow_close,
            final(self).quit_after_ending == old(self).quit_after_ending,
            final(self).confirm_quit == old(self).confirm_quit,
            final(self).sweeping == old(self).sweeping,
            final(self).confirm_sweep == old(self).confirm_sweep,
            final(self).avatar_dialog == old(self).avatar_dialog,
            !final(self).took_the_sheet_anchor,
    {
        self.in_session = true;
        self.has_invites = true;
        self.record_open = false;
        self.took_the_sheet_anchor = false;
        self.settings_open = true;
        self.settings_tab = SettingsTab::Invites;
        self.screen = Screen::Session;
    }

    /// The session was left.
    pub fn left(&mut self)
        ensures
            *final(self) == (Window {
                screen: Screen::Home,
                in_session: false,
                ..*old(self)
            }),
    {
        self.in_session = false;
        self.screen = Screen::Home;
    }

    /// The window once the session was ended for everyone. Only a session
    /// launched from here has a machine to destroy.
    pub open spec fn session_ended(self) -> (Window, Then) {
        (
            Window {
                ending: self.ending || self.has_invites,
                has_invites: false,
                in_session: false,
                screen: Screen::Home,
                ..self
            },
            if self.has_invites {
                Then::TearDown
            } else if self.in_session {
                Then::Leave
            } else {
                Then::Nothing
            },
        )
    }

    pub fn end_session(&mut self) -> (then_do: Then)
        ensures
            (*final(self), then_do) == old(self).session_ended(),
            then_do is TearDown <==> old(self).has_invites,
            then_do is Leave <==> !old(self).has_invites && old(self).in_session,
            then_do is Nothing <==> !old(self).has_invites && !old(self).in_session,
            *final(self) == (Window {
                ending: old(self).ending || old(self).has_invites,
                has_invites: false,
                in_session: false,
                screen: Screen::Home,
                ..*old(self)
            }),
    {
        let then_do = if self.has_invites {
            Then::TearDown
        } else if self.in_session {
            Then::Leave
        } else {
            Then::Nothing
        };
        if self.has_invites {
            self.ending = true;
            self.has_invites = false;
        }
        self.in_session = false;
        self.screen = Screen::Home;
        then_do
    }

    /// The teardown answered, with success or a failure alike: a failure is on
    /// record, and the next sweep collects what is left.
    pub open spec fn teardown_over(self) -> (Window, Then) {
        if self.quit_after_ending {
            (Window { ending: false, allow_close: true, ..self }, Then::Close)
        } else {
            (Window { ending: false, ..self }, Then::Nothing)
        }
    }

    pub fn teardown_answered(&mut self) -> (then_do: Then)
        ensures
            (*final(self), then_do) == old(self).teardown_over(),
            then_do is Close <==> old(self).quit_after_ending,
            !old(self).quit_after_ending ==> then_do is Nothing,
            *final(self) == (Window {
                ending: false,
                allow_close: old(self).allow_close || old(self).quit_after_ending,
                ..*old(self)
            }),
    {
        self.ending = false;
        if self.quit_after_ending {
            self.allow_close = true;
            Then::Close
        } else {
            Then::Nothing
        }
    }

    /// Whether the session screen has a session to draw; without one the window
    /// goes home.
    pub fn show_session(&mut self) -> (b: bool)
        requires
            old(self).screen == Screen::Session,
        ensures
            b == old(self).in_session,
            *final(self) == (if old(self).in_session {
                *old(self)
            } else {
                Window { screen: Screen::Home, ..*old(self) }
            }),
    {
        if !self.in_session {
            self.screen = Screen::Home;
        }
        self.in_session
    }

    /// A session that ended from the far side falls back to home.
    pub open spec fn fallen_back(self, ended: bool) -> Window {
        if self.screen == Screen::Session && self.in_session && ended {
            Window { in_session: false, screen: Screen::Home, ..self }
        } else {
            self
        }
    }

    pub fn fall_back_when_idle(&mut self, state: &ConnState)
        ensures
            *final(self) == old(self).fallen_back(*state is Idle),
            *state is Idle && old(self).screen == Screen::Session && old(self).in_session
                ==> *final(self) == (Window {
                in_session: false,
                screen: Screen::Home,
                ..*old(self)
            }),
            !(*state is Idle) || old(self).screen != Screen::Session || !old(self).in_session
                ==> *final(self) == *old(self),
    {
        if self.screen == Screen::Session && self.in_session {
            if let ConnState::Idle = state {
                self.in_session = false;
                self.screen = Screen::Home;
            }
        }
    }

    // ----------------------------------------------------------------- sweeps

    /// Starts a sweep, unless one is running.
    pub fn begin_sweep(&mut self) -> (then_do: Then)
        ensures
            *final(self) == (Window { sweeping: true, ..*old(self) }),
            then_do == (if old(self).sweeping {
                Then::Nothing
            } else {
                Then::StartSweep
            }),
    {
        if self.sweeping {
            return Then::Nothing;
        }
        self.sweeping = true;
        Then::StartSweep
    }

    /// The sweep confirmation was answered.
    pub fn answer_sweep(&mut self, stop_them: bool) -> (then_do: Then)
        ensures
            *final(self) == (Window {
                confirm_sweep: false,
                sweeping: old(self).sweeping || stop_them,
                ..*old(self)
            }),
            then_do == (if stop_them && !old(self).sweeping {
                Then::StartSweep
            } else {
                Then::Nothing
            }),
    {
        self.confirm_sweep = false;
        if stop_them {
            self.begin_sweep()
        } else {
            Then::Nothing
        }
    }

    /// The sweep answered.
    pub fn sweep_answered(&mut self)
        ensures
            *final(self) == (Window { sweeping: false, ..*old(self) }),
    {
        self.sweeping = false;
    }

    // ----------------------------------------------------------------- sheets

    /// The window once the screen has been drawn. The record sheet and the
    /// drawer are both anchored to the right edge, and whichever was opened last
    /// keeps the anchor.
    pub open spec fn sheets_settled(self) -> Window {
        Window {
            took_the_sheet_anchor: false,
            settings_open: self.settings_open && !self.took_the_sheet_anchor,
            ..self
        }
    }

    pub fn close_the_other_sheet(&mut self)
        ensures
            *final(self) == old(self).sheets_settled(),
            old(self).took_the_sheet_anchor ==> *final(self) == (Window {
                took_the_sheet_anchor: false,
                settings_open: false,
                ..*old(self)
            }),
            !old(self).took_the_sheet_anchor ==> *final(self) == *old(self),
    {
        if self.took_the_sheet_anchor {
            self.took_the_sheet_anchor = false;
            self.settings_open = false;
        }
    }

    /// The tabs that can be shown right now. Session-scoped ones exist only
    /// inside a session; `in_session` is what the session offers.
    pub open spec fn tabs(self, session_tabs: Option<Seq<SettingsTab>>) -> Seq<SettingsTab> {
        match session_tabs {
            Some(tabs) if self.screen == Screen::Session => tabs,
            _ => seq![SettingsTab::Audio, SettingsTab::Recording, SettingsTab::You],
        }
    }

    pub fn settings_tabs(&self, session_tabs: Option<Vec<SettingsTab>>) -> (tabs: Vec<SettingsTab>)
        ensures
            tabs@ == self.tabs(
                match session_tabs {
                    Some(tabs) => Some(tabs@),
                    None => None,
                },
            ),
            self.screen == Screen::Session && session_tabs is Some ==> tabs@ == session_tabs->0@,
            self.screen != Screen::Session || session_tabs is None ==> tabs@ == seq![
                SettingsTab::Audio,
                SettingsTab::Recording,
                SettingsTab::You,
            ],
    {
        if self.screen == Screen::Session {
            if let Some(tabs) = session_tabs {
                return tabs;
            }
        }
        let tabs = vec![SettingsTab::Audio, SettingsTab::Recording, SettingsTab::You];
        assert(tabs@ =~= seq![SettingsTab::Audio, SettingsTab::Recording, SettingsTab::You]);
        tabs
    }

    /// A remembered tab cannot outlive the thing it showed: leaving a session
    /// drops some, and a drawer still pointing at one would open on nothing.
    pub fn keep_tab(&mut self, tabs: &Vec<SettingsTab>)
        ensures
            *final(self) == (if tabs@.contains(old(self).settings_tab) {
                *old(self)
            } else {
                Window { settings_tab: SettingsTab::Audio, ..*old(self) }
            }),
    {
        let mut i: usize = 0;
        while i < tabs.len()
            invariant
                i <= tabs@.len(),
                *self == *old(self),
                forall|j: int| 0 <= j < i ==> tabs@[j] != self.settings_tab,
            decreases tabs.len() - i,
        {
            if tabs[i] == self.settings_tab {
                return;
            }
            i += 1;
        }
        self.settings_tab = SettingsTab::Audio;
    }

    pub fn press_tab(&mut self, tab: SettingsTab)
        ensures
            *final(self) == (Window { settings_tab: tab, ..*old(self) }),
    {
        self.settings_tab = tab;
    }

    // --------------------------------------------------------------- repaints

    /// Whether something on screen is moving. Meters, the cost ticker and
    /// connection quality move for as long as a session is up; an open drawer
    /// counts only then too, since all that moves in it is the input meter.
    pub open spec fn moving(
        self,
        recording_busy: bool,
        wizard_busy: bool,
        takes_busy: bool,
    ) -> bool {
        let drawer = self.settings_open && self.in_session;
        ||| self.ending
        ||| self.avatar_dialog
        ||| recording_busy
        ||| match self.screen {
            Screen::Session => true,
            Screen::HostWizard => wizard_busy || drawer,
            Screen::Takes => takes_busy || drawer,
            Screen::Home => drawer,
        }
    }

    pub fn animating(&self, recording_busy: bool, wizard_busy: bool, takes_busy: bool) -> (b: bool)
        ensures
            b == self.moving(recording_busy, wizard_busy, takes_busy),
            b <==> self.ending || self.avatar_dialog || recording_busy || self.screen
                == Screen::Session || (self.screen == Screen::HostWizard && wizard_busy) || (
            self.screen == Screen::Takes && takes_busy) || (self.settings_open && self.in_session),
    {
        let drawer = self.settings_open && self.in_session;
        self.ending || self.avatar_dialog || recording_busy || match self.screen {
            Screen::Session => true,
            Screen::HostWizard => wizard_busy || drawer,
            Screen::Takes => takes_busy || drawer,
            Screen::Home => drawer,
        }
    }
}

// ---------------------------------------------------------------------- texts

/// What a teardown that failed is answered with, on the home screen.
pub fn ending_failed(err: &str) -> (s: String)
    ensures
        s@ == "ending the session failed: "@ + err@,
{
    let mut s = "ending the session failed: ".to_owned();
    s.append(err);
    s
}

/// What a launch whose own invite does not decode is answered with.
pub fn invite_undecodable() -> (s: String)
    ensures
        s@ == "the session launched but its host invite does not decode"@,
{
    "the session launched but its host invite does not decode".to_owned()
}

/// What a launch that could not be joined is answered with: the machine is
/// running, and this is how to stop it.
pub open spec fn unjoined(err: Seq<char>) -> Seq<char> {
    "the server is running but joining it failed: "@ + err
        + ". Go Back and press Stop strays on the home screen to stop it; jamstream end --last does the same from a terminal."@
}

pub fn launch_unjoined(err: &str) -> (s: String)
    ensures
        s@ == unjoined(err@),
{
    let mut s = "the server is running but joining it failed: ".to_owned();
    s.append(err);
    s.append(
        ". Go Back and press Stop strays on the home screen to stop it; jamstream end --last does the same from a terminal.",
    );
    s
}

// ----------------------------------------------------------------------- laws

/// A machine launched from here is never stranded in silence: a close that is
/// asked for while one is up, or while it is being destroyed, is held, and
/// nothing but an answer lets the next one through.
pub proof fn a_hosted_session_is_never_closed_in_silence(w: Window)
    requires
        !w.allow_close,
        w.hosts() || w.ending,
    ensures
        w.close_asked().1 == Then::CancelClose,
        w.close_asked().0.confirm_quit || w.close_asked().0.quit_after_ending,
        !w.close_asked().0.allow_close,
{
}

/// Ending the session and quitting closes the window once the teardown has
/// answered, and not before.
pub proof fn quitting_waits_for_the_teardown(w: Window)
    requires
        w.has_invites,
        !w.allow_close,
    ensures
        ({
            let (asked, first) = w.quit_answered(QuitAnswer::EndAndQuit);
            let (held, second) = asked.close_asked();
            let (over, third) = asked.teardown_over();
            &&& first == Then::TearDown
            &&& asked.ending && !asked.allow_close
            &&& second == Then::CancelClose
            &&& third == Then::Close
            &&& over.allow_close
        }),
{
}

/// Escape leaves one thing: no press shuts two, and none opens anything.
pub proof fn escape_leaves_one_thing(w: Window, inner_overlay: bool)
    ensures
        ({
            let (after, taken) = w.escape_pressed(inner_overlay);
            &&& !taken ==> after == w
            &&& taken ==> after == (Window { confirm_quit: false, ..w }) || after == (Window {
                confirm_sweep: false,
                ..w
            }) || after == (Window { settings_open: false, ..w })
            &&& taken ==> after != w
        }),
{
}

/// One right-anchored sheet at a time, whichever was opened last: a drawer that
/// opens shuts the record sheet, and a record sheet that took the anchor shuts
/// the drawer.
pub proof fn one_sheet_at_a_time(w: Window)
    ensures
        !w.settings_open ==> w.settings_pressed().settings_open
            && !w.settings_pressed().record_open,
        !w.settings_open ==> w.settings_pressed().sheets_settled().settings_open,
        w.took_the_sheet_anchor ==> !w.sheets_settled().settings_open
            && w.sheets_settled().record_open == w.record_open,
{
}

/// A session that has ended is off the screen, however it ended.
pub proof fn an_ended_session_is_off_the_screen(w: Window)
    ensures
        w.session_ended().0.screen == Screen::Home,
        !w.session_ended().0.in_session,
        !w.session_ended().0.hosts(),
        w.screen == Screen::Session && w.in_session ==> w.fallen_back(true).screen == Screen::Home,
{
}

/// A still screen asks for no repaint: with nothing in flight, no session and
/// no screen at work, nothing moves.
pub proof fn a_still_screen_is_left_alone(w: Window)
    requires
        !w.ending,
        !w.avatar_dialog,
        !w.in_session,
        w.screen != Screen::Session,
    ensures
        !w.moving(false, false, false),
{
}

/// Joining and hosting both start the session screen over, with its sheet shut
/// and the anchor free. Only who hosts holds the invites, and only who hosts has
/// the drawer opened on them. Ended, a guest leaves and a host tears down.
pub proof fn entering_a_session_starts_its_screen_over(w: Window)
    ensures
        ({
            let guest = w.on_joining();
            let host = w.on_hosting();
            &&& guest.screen == Screen::Session && host.screen == Screen::Session
            &&& guest.in_session && host.in_session
            &&& !guest.hosts() && host.hosts()
            &&& !guest.record_open && !host.record_open
            &&& !guest.took_the_sheet_anchor && !host.took_the_sheet_anchor
            &&& guest.settings_open == w.settings_open && guest.settings_tab == w.settings_tab
            &&& host.settings_open && host.settings_tab == SettingsTab::Invites
            &&& guest.session_ended().1 == Then::Leave && host.session_ended().1 == Then::TearDown
            &&& guest.session_ended().0.ending == w.ending && host.session_ended().0.ending
            &&& guest.sheets_settled() == guest && host.sheets_settled() == host
            &&& guest.fallen_back(true) == (Window {
                screen: Screen::Home,
                in_session: false,
                ..guest
            })
            &&& host.fallen_back(false) == host
        }),
{
}

/// Backing out of quitting leaves the window as it was before the question. To
/// keep the session running closes the window at once, and nothing stops the
/// close that follows. To end it closes nothing yet.
pub proof fn a_quit_does_as_it_was_answered(w: Window)
    ensures
        !w.confirm_quit ==> w.close_asked().0.quit_answered(QuitAnswer::Cancel).0 == (Window {
            quit_after_ending: w.close_asked().0.quit_after_ending,
            ..w
        }),
        w.quit_answered(QuitAnswer::Cancel).1 == Then::Nothing,
        w.quit_answered(QuitAnswer::KeepRunning).1 == Then::Close,
        w.quit_answered(QuitAnswer::KeepRunning).0.close_asked().1 == Then::Nothing,
        w.quit_answered(QuitAnswer::KeepRunning).0 == (Window {
            allow_close: true,
            confirm_quit: false,
            ..w
        }),
        w.quit_answered(QuitAnswer::EndAndQuit).1 == w.session_ended().1,
        w.quit_answered(QuitAnswer::EndAndQuit).0 == (Window {
            confirm_quit: false,
            quit_after_ending: true,
            ..w.session_ended().0
        }),
{
}

/// A teardown that has answered is over, and closes the window just where that
/// was waited for.
pub proof fn a_teardown_that_answered_is_over(w: Window)
    ensures
        !w.teardown_over().0.ending,
        w.teardown_over().1 == Then::Close <==> w.quit_after_ending,
        w.teardown_over().1 == Then::Nothing <==> !w.quit_after_ending,
        w.quit_after_ending ==> w.teardown_over().0.allow_close,
        !w.quit_after_ending ==> w.teardown_over().0 == (Window { ending: false, ..w }),
        w.teardown_over().0.screen == w.screen && w.teardown_over().0.in_session == w.in_session,
{
}

/// Escape answers the question asked last before it shuts the drawer, and a
/// drawer with something open inside it is left to that.
pub proof fn escape_takes_what_is_on_top(w: Window, inner_overlay: bool)
    ensures
        w.confirm_quit ==> !w.escape_pressed(inner_overlay).0.confirm_quit
            && w.escape_pressed(inner_overlay).0.confirm_sweep == w.confirm_sweep,
        !w.confirm_quit && w.confirm_sweep ==> !w.escape_pressed(inner_overlay).0.confirm_sweep
            && w.escape_pressed(inner_overlay).0.settings_open == w.settings_open,
        !w.confirm_quit && !w.confirm_sweep ==> (w.escape_pressed(inner_overlay).1
            <==> w.settings_open && !(inner_overlay && w.in_session && w.screen
            == Screen::Session)),
        w.confirm_quit || w.confirm_sweep ==> w.escape_pressed(inner_overlay).1,
{
}

/// The drawer shows the tabs a session has while one is on the screen, and the
/// three that need none everywhere else.
pub proof fn the_tabs_are_the_sessions_on_its_screen(w: Window, of: Seq<SettingsTab>)
    ensures
        w.screen == Screen::Session ==> w.tabs(Some(of)) == of,
        w.screen != Screen::Session ==> w.tabs(Some(of)) == w.tabs(None),
        w.tabs(None) == seq![SettingsTab::Audio, SettingsTab::Recording, SettingsTab::You],
{
}

/// Something moves while a teardown or a picture is waited for, while a take is
/// busy, on the session's screen, on a screen at work, and behind an open drawer
/// in a session.
pub proof fn what_is_at_work_is_repainted(w: Window, recording: bool, wizard: bool, takes: bool)
    ensures
        w.ending || w.avatar_dialog || recording ==> w.moving(recording, wizard, takes),
        w.screen == Screen::Session ==> w.moving(recording, wizard, takes),
        w.settings_open && w.in_session ==> w.moving(recording, wizard, takes),
        w.screen == Screen::HostWizard && wizard ==> w.moving(recording, wizard, takes),
        w.screen == Screen::Takes && takes ==> w.moving(recording, wizard, takes),
        w.screen != Screen::HostWizard ==> w.moving(recording, wizard, takes) == w.moving(
            recording,
            !wizard,
            takes,
        ),
        w.screen != Screen::Takes ==> w.moving(recording, wizard, takes) == w.moving(
            recording,
            wizard,
            !takes,
        ),
{
}

} // verus!
