//! How the session core's own state reads to everybody else, and the sentence a
//! change of sample rate path earns.

use vstd::prelude::*;

use crate::model::ConnModel;
use crate::runtime::{ConnState, RateOutcomeView, RateOutcomesView};
use crate::text::{decimal, push_decimal};

verus! {

/// Where the session core stands with the server.
#[derive(Debug, PartialEq)]
pub enum ClientState {
    Connecting,
    Joined,
    /// The two sides speak different protocol versions.
    Rejected { ours: u32, theirs: u32 },
    Ejected { reason: String },
    TimedOut,
}

/// What a version mismatch reads as.
pub open spec fn mismatch(ours: u32, theirs: u32) -> Seq<char> {
    "protocol version mismatch: this client speaks "@ + decimal(ours as nat)
        + ", the server speaks "@ + decimal(theirs as nat)
}

impl ClientState {
    /// The connection state the interface shows for it. A snapshot has no
    /// rejection of its own; the ejection banner with the mismatch text is the
    /// honest nearest fit.
    pub open spec fn shown(self) -> ConnModel {
        match self {
            ClientState::Connecting => ConnModel::Connecting,
            ClientState::Joined => ConnModel::Joined,
            ClientState::Rejected { ours, theirs } => ConnModel::Ejected(mismatch(ours, theirs)),
            ClientState::Ejected { reason } => ConnModel::Ejected(reason@),
            ClientState::TimedOut => ConnModel::TimedOut,
        }
    }

    /// The same with a full session told apart: the core stays connecting while
    /// it retries one, so that decides, and only while nothing better has
    /// happened.
    pub open spec fn shown_with(self, session_full: bool) -> ConnModel {
        if session_full && self is Connecting {
            ConnModel::SessionFull
        } else {
            self.shown()
        }
    }
}

pub fn conn_state(state: &ClientState) -> (shown: ConnState)
    ensures
        shown.deep_view() == state.shown(),
        match state {
            ClientState::Connecting => shown is Connecting,
            ClientState::Joined => shown is Joined,
            ClientState::Rejected { ours, theirs } => shown matches ConnState::Ejected(text)
                && text@ == "protocol version mismatch: this client speaks "@ + decimal(
                *ours as nat,
            ) + ", the server speaks "@ + decimal(*theirs as nat),
            ClientState::Ejected { reason } => shown matches ConnState::Ejected(text) && text@
                == reason@,
            ClientState::TimedOut => shown is TimedOut,
        },
{
    match state {
        ClientState::Connecting => ConnState::Connecting,
        ClientState::Joined => ConnState::Joined,
        ClientState::Rejected { ours, theirs } => {
            let mut text = "protocol version mismatch: this client speaks ".to_owned();
            push_decimal(&mut text, *ours as u64);
            text.append(", the server speaks ");
            push_decimal(&mut text, *theirs as u64);
            assert(text@ =~= mismatch(*ours, *theirs));
            ConnState::Ejected(text)
        },
        ClientState::Ejected { reason } => ConnState::Ejected(reason.clone()),
        ClientState::TimedOut => ConnState::TimedOut,
    }
}

pub fn conn_state_with(state: &ClientState, session_full: bool) -> (shown: ConnState)
    ensures
        shown.deep_view() == state.shown_with(session_full),
        state is Connecting ==> (if session_full {
            shown is SessionFull
        } else {
            shown is Connecting
        }),
        !(state is Connecting) ==> shown.deep_view() == state.shown(),
{
    if session_full {
        if let ClientState::Connecting = state {
            return ConnState::SessionFull;
        }
    }
    conn_state(state)
}

/// A full session is only ever shown in place of connecting: once the core has
/// got any further, what it says is what is shown.
pub proof fn a_full_session_only_stands_for_connecting(state: ClientState, session_full: bool)
    ensures
        state.shown_with(session_full) is SessionFull ==> state is Connecting && session_full,
        !(state is Connecting) ==> state.shown_with(session_full) == state.shown(),
{
}

// ------------------------------------------------------------------ rate lines

/// The sentence one direction's change of rate path earns. The device's own
/// rate is not news, the OS converter is a hover detail, and an unchanged path
/// is silence, so a reopen cadence can never fill the log. A converter that
/// replaces a clock this app had set names the contest.
pub open spec fn rate_change(
    old: Option<RateOutcomeView>,
    new: RateOutcomeView,
    side: Seq<char>,
    added: Seq<char>,
) -> Option<Seq<char>> {
    if old matches Some(old) && old.is_same(new) {
        None
    } else {
        match new {
            RateOutcomeView::Native => None,
            RateOutcomeView::OsConverted { .. } => None,
            RateOutcomeView::ClockSet { .. } => new.sentence(side, added),
            RateOutcomeView::Resampled { .. } => if old matches Some(RateOutcomeView::ClockSet {
                ..
            }) {
                Some(
                    "another app took the device clock back; "@ + new.sentence(side, added)->0,
                )
            } else {
                new.sentence(side, added)
            },
        }
    }
}

/// The line one direction's rate path earns at an open, given the path it was
/// on before; `added` is what a converter adds, in milliseconds to one decimal.
pub fn rate_change_line(
    old: Option<RateOutcomeView>,
    new: RateOutcomeView,
    side: &str,
    added: &str,
) -> (line: Option<String>)
    ensures
        line.deep_view() == rate_change(old, new, side@, added@),
        old matches Some(old) && old.is_same(new) ==> line is None,
        new is Native || new is OsConverted ==> line is None,
        !(old matches Some(old) && old.is_same(new)) && new is ClockSet ==> line.deep_view()
            == new.sentence(side@, added@),
        !(old matches Some(old) && old.is_same(new)) && new is Resampled ==> line is Some
            && line->0@ == (if old matches Some(RateOutcomeView::ClockSet { .. }) {
            "another app took the device clock back; "@ + new.sentence(side@, added@)->0
        } else {
            new.sentence(side@, added@)->0
        }),
{
    if let Some(old) = old {
        if old.same(new) {
            return None;
        }
    }
    match new {
        RateOutcomeView::Native => None,
        RateOutcomeView::OsConverted { device } => None,
        RateOutcomeView::ClockSet { from } => new.line(side, added),
        RateOutcomeView::Resampled { device, added_ms } => {
            let contested = match old {
                Some(RateOutcomeView::ClockSet { from }) => true,
                _ => false,
            };
            match new.line(side, added) {
                Some(line) => if contested {
                    let mut whole = "another app took the device clock back; ".to_owned();
                    whole.append(line.as_str());
                    Some(whole)
                } else {
                    Some(line)
                },
                None => None,
            }
        },
    }
}

/// The lines an open earns, capture first, and what the next open is held
/// against: a stream that reports no rate leaves that as it was.
pub open spec fn rate_changes(
    announced: Option<RateOutcomesView>,
    rate: Option<RateOutcomesView>,
    capture_added: Seq<char>,
    playback_added: Seq<char>,
) -> (Option<Seq<char>>, Option<Seq<char>>) {
    match rate {
        None => (None, None),
        Some(rate) => (
            rate_change(
                match announced {
                    Some(old) => Some(old.capture),
                    None => None,
                },
                rate.capture,
                "capture"@,
                capture_added,
            ),
            rate_change(
                match announced {
                    Some(old) => Some(old.playback),
                    None => None,
                },
                rate.playback,
                "playback"@,
                playback_added,
            ),
        ),
    }
}

pub fn log_rate_changes(
    announced: &mut Option<RateOutcomesView>,
    rate: Option<RateOutcomesView>,
    capture_added: &str,
    playback_added: &str,
) -> (lines: (Option<String>, Option<String>))
    ensures
        (lines.0.deep_view(), lines.1.deep_view()) == rate_changes(
            *old(announced),
            rate,
            capture_added@,
            playback_added@,
        ),
        rate is None ==> lines.0 is None && lines.1 is None,
        rate matches Some(now) ==> lines.0.deep_view() == rate_change(
            match *old(announced) {
                Some(was) => Some(was.capture),
                None => None,
            },
            now.capture,
            "capture"@,
            capture_added@,
        ) && lines.1.deep_view() == rate_change(
            match *old(announced) {
                Some(was) => Some(was.playback),
                None => None,
            },
            now.playback,
            "playback"@,
            playback_added@,
        ),
        *final(announced) == (if rate is Some {
            rate
        } else {
            *old(announced)
        }),
{
    let rate = match rate {
        Some(rate) => rate,
        None => {
            return (None, None);
        },
    };
    let (capture, playback) = match *announced {
        Some(old) => (Some(old.capture), Some(old.playback)),
        None => (None, None),
    };
    let lines = (
        rate_change_line(capture, rate.capture, "capture", capture_added),
        rate_change_line(playback, rate.playback, "playback", playback_added),
    );
    *announced = Some(rate);
    lines
}

/// A stream that opens again on the very paths it had says nothing.
pub proof fn an_unchanged_path_is_silence(
    rate: RateOutcomesView,
    capture_added: Seq<char>,
    playback_added: Seq<char>,
)
    requires
        rate.capture.is_same(rate.capture),
        rate.playback.is_same(rate.playback),
    ensures
        rate_changes(Some(rate), Some(rate), capture_added, playback_added) == (
            None::<Seq<char>>,
            None::<Seq<char>>,
        ),
{
}

} // verus!
