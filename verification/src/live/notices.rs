//! What the conversation is told about the audio device: each thing once per
//! episode, and each distinct refusal once, so a retry cadence never floods the
//! room.

use vstd::prelude::*;

use crate::live::watch::REOPEN_ATTEMPTS_MAX;
use crate::model::ChatModel;
use crate::runtime::{ChatLine, MemberId};
use crate::text::{decimal, push_decimal, same_text};

verus! {

/// Synthetic sender of system lines; no member has this number.
pub const SYSTEM_MEMBER_ID: u16 = 0xffff;

/// Why a device did not open.
#[derive(Debug, PartialEq, Eq)]
pub enum OpenFailure {
    /// It is gone. Disconnection is claimed only when the device says so.
    Gone,
    /// It refused, in its own words.
    Refused(String),
}

/// What has been said of the device so far.
#[derive(Debug, PartialEq, Eq)]
pub struct DeviceNotices {
    pub said_stopped: bool,
    pub said_reopened: bool,
    pub said_given_up: bool,
    /// The refusal last said.
    pub announced_failure: Option<String>,
}

#[verifier::ext_equal]
pub struct NoticesModel {
    pub said_stopped: bool,
    pub said_reopened: bool,
    pub said_given_up: bool,
    pub announced_failure: Option<Seq<char>>,
}

impl DeepView for DeviceNotices {
    type V = NoticesModel;

    open spec fn deep_view(&self) -> NoticesModel {
        NoticesModel {
            said_stopped: self.said_stopped,
            said_reopened: self.said_reopened,
            said_given_up: self.said_given_up,
            announced_failure: self.announced_failure.deep_view(),
        }
    }
}

/// What a refusal reads as.
pub open spec fn failure_line(failure: OpenFailure) -> Seq<char> {
    match failure {
        OpenFailure::Gone => "audio device disconnected; retrying"@,
        OpenFailure::Refused(detail) => "audio device refused: "@ + detail@,
    }
}

/// What giving up reads as.
pub open spec fn given_up_line() -> Seq<char> {
    "the audio device did not stay open after "@ + decimal(REOPEN_ATTEMPTS_MAX as nat)
        + " tries; pick a device on the Audio tab to try again"@
}

impl NoticesModel {
    pub open spec fn nothing_said() -> NoticesModel {
        NoticesModel {
            said_stopped: false,
            said_reopened: false,
            said_given_up: false,
            announced_failure: None,
        }
    }

    pub open spec fn on_stop(self) -> (NoticesModel, Option<Seq<char>>) {
        if self.said_stopped {
            (self, None)
        } else {
            (
                NoticesModel { said_stopped: true, ..self },
                Some("the audio stream stopped; retrying"@),
            )
        }
    }

    /// A stream that opened ends the refusals, and a stop that was told is told
    /// to be over.
    pub open spec fn on_open(self) -> (NoticesModel, Option<Seq<char>>) {
        let quiet = NoticesModel { announced_failure: None, ..self };
        if self.said_stopped && !self.said_reopened {
            (NoticesModel { said_reopened: true, ..quiet }, Some("audio device reopened"@))
        } else {
            (quiet, None)
        }
    }

    pub open spec fn on_refusal(self, failure: OpenFailure) -> (NoticesModel, Option<Seq<char>>) {
        let line = failure_line(failure);
        if self.announced_failure == Some(line) {
            (self, None)
        } else {
            (NoticesModel { announced_failure: Some(line), ..self }, Some(line))
        }
    }

    pub open spec fn on_giving_up(self) -> (NoticesModel, Option<Seq<char>>) {
        if self.said_given_up {
            (self, None)
        } else {
            (NoticesModel { said_given_up: true, ..self }, Some(given_up_line()))
        }
    }

    /// The episode is over: the next stop is news again.
    pub open spec fn on_settling(self) -> NoticesModel {
        NoticesModel {
            said_stopped: false,
            said_reopened: false,
            said_given_up: false,
            ..self
        }
    }
}

impl DeviceNotices {
    pub fn new() -> (n: DeviceNotices)
        ensures
            n.deep_view() == NoticesModel::nothing_said(),
            !n.said_stopped && !n.said_reopened && !n.said_given_up && n.announced_failure is None,
    {
        DeviceNotices {
            said_stopped: false,
            said_reopened: false,
            said_given_up: false,
            announced_failure: None,
        }
    }

    /// The stream stopped.
    pub fn stopped(&mut self) -> (line: Option<String>)
        ensures
            (final(self).deep_view(), line.deep_view()) == old(self).deep_view().on_stop(),
            line is Some <==> !old(self).said_stopped,
            line matches Some(text) ==> text@ == "the audio stream stopped; retrying"@,
            final(self).said_stopped,
            final(self).said_reopened == old(self).said_reopened,
            final(self).said_given_up == old(self).said_given_up,
            final(self).announced_failure.deep_view() == old(self).announced_failure.deep_view(),
    {
        if self.said_stopped {
            return None;
        }
        self.said_stopped = true;
        Some("the audio stream stopped; retrying".to_owned())
    }

    /// The stream opened.
    pub fn opened(&mut self) -> (line: Option<String>)
        ensures
            (final(self).deep_view(), line.deep_view()) == old(self).deep_view().on_open(),
            line is Some <==> old(self).said_stopped && !old(self).said_reopened,
            line matches Some(text) ==> text@ == "audio device reopened"@,
            final(self).said_stopped == old(self).said_stopped,
            final(self).said_reopened == (old(self).said_reopened || old(self).said_stopped),
            final(self).said_given_up == old(self).said_given_up,
            final(self).announced_failure is None,
    {
        self.announced_failure = None;
        if self.said_stopped && !self.said_reopened {
            self.said_reopened = true;
            Some("audio device reopened".to_owned())
        } else {
            None
        }
    }

    /// The stream would not open.
    pub fn announce_open_failure(&mut self, failure: OpenFailure) -> (line: Option<String>)
        ensures
            (final(self).deep_view(), line.deep_view()) == old(self).deep_view().on_refusal(
                failure,
            ),
            ({
                let words = match failure {
                    OpenFailure::Gone => "audio device disconnected; retrying"@,
                    OpenFailure::Refused(detail) => "audio device refused: "@ + detail@,
                };
                &&& line is Some <==> !(old(self).announced_failure is Some && old(
                    self,
                ).announced_failure->0@ == words)
                &&& line matches Some(text) ==> text@ == words
                &&& final(self).announced_failure is Some && final(self).announced_failure->0@
                    == words
            }),
            final(self).said_stopped == old(self).said_stopped,
            final(self).said_reopened == old(self).said_reopened,
            final(self).said_given_up == old(self).said_given_up,
    {
        let line = match failure {
            OpenFailure::Gone => "audio device disconnected; retrying".to_owned(),
            OpenFailure::Refused(detail) => {
                let mut line = "audio device refused: ".to_owned();
                line.append(detail.as_str());
                line
            },
        };
        if let Some(said) = &self.announced_failure {
            if same_text(said.as_str(), line.as_str()) {
                return None;
            }
        }
        self.announced_failure = Some(line.clone());
        Some(line)
    }

    /// The retries are over.
    pub fn gave_up(&mut self) -> (line: Option<String>)
        ensures
            (final(self).deep_view(), line.deep_view()) == old(self).deep_view().on_giving_up(),
            line is Some <==> !old(self).said_given_up,
            line matches Some(text) ==> text@ == "the audio device did not stay open after "@
                + decimal(REOPEN_ATTEMPTS_MAX as nat)
                + " tries; pick a device on the Audio tab to try again"@,
            final(self).said_given_up,
            final(self).said_stopped == old(self).said_stopped,
            final(self).said_reopened == old(self).said_reopened,
            final(self).announced_failure.deep_view() == old(self).announced_failure.deep_view(),
    {
        if self.said_given_up {
            return None;
        }
        self.said_given_up = true;
        let mut line = "the audio device did not stay open after ".to_owned();
        push_decimal(&mut line, REOPEN_ATTEMPTS_MAX as u64);
        line.append(" tries; pick a device on the Audio tab to try again");
        Some(line)
    }

    /// The stream has stayed up: the episode is over.
    pub fn settled(&mut self)
        ensures
            final(self).deep_view() == old(self).deep_view().on_settling(),
            !final(self).said_stopped && !final(self).said_reopened && !final(self).said_given_up,
            final(self).announced_failure.deep_view() == old(self).announced_failure.deep_view(),
    {
        self.said_stopped = false;
        self.said_reopened = false;
        self.said_given_up = false;
    }

    /// Another device was picked: a fresh start, and nothing said of the last
    /// one carries over.
    pub fn reconfigured(&mut self)
        ensures
            final(self).deep_view() == NoticesModel::nothing_said(),
            !final(self).said_stopped && !final(self).said_reopened && !final(self).said_given_up,
            final(self).announced_failure is None,
    {
        self.said_stopped = false;
        self.said_reopened = false;
        self.said_given_up = false;
        self.announced_failure = None;
    }
}

/// A line nobody in the room wrote.
pub fn system_line(text: String, at_ms: u64) -> (line: ChatLine)
    ensures
        line.deep_view() == (ChatModel {
            from_name: "system"@,
            from_id: MemberId(SYSTEM_MEMBER_ID),
            text: text@,
            at_ms,
        }),
{
    ChatLine {
        from_name: "system".to_owned(),
        from_id: MemberId(SYSTEM_MEMBER_ID),
        text,
        at_ms,
    }
}

/// Each thing is said once per episode: said again without the stream having
/// settled, it is silence.
pub proof fn each_thing_is_said_once(n: NoticesModel, failure: OpenFailure)
    ensures
        n.on_stop().0.on_stop().1 is None,
        n.on_giving_up().0.on_giving_up().1 is None,
        n.on_refusal(failure).0.on_refusal(failure).1 is None,
        n.on_open().0.on_open().1 is None,
{
}

/// A reopen is told only where a stop was, and a settled stream makes the next
/// stop news again.
pub proof fn a_reopen_answers_a_stop(n: NoticesModel)
    ensures
        n.on_open().1 is Some ==> n.said_stopped,
        n.on_settling().on_stop().1 is Some,
        n.on_settling().on_open().1 is None,
{
}

/// A run of the device's troubles is told in order: the stop, the refusal in
/// the device's own words, the reopening, and nothing a second time. Another
/// refusal is news of its own, and so is the same one after a stream opened.
pub proof fn a_refusal_is_news_until_it_is_repeated(
    n: NoticesModel,
    one: OpenFailure,
    other: OpenFailure,
)
    requires
        failure_line(one) != failure_line(other),
    ensures
        n.on_refusal(one).0.on_refusal(other).1 == Some(failure_line(other)),
        n.on_refusal(one).0.on_open().0.on_refusal(one).1 == Some(failure_line(one)),
        n.on_settling().on_stop().0.on_open().1 == Some("audio device reopened"@),
        n.on_settling().on_giving_up().1 is Some,
        NoticesModel::nothing_said().on_refusal(one).1 == Some(failure_line(one)),
        NoticesModel::nothing_said().on_open().1 is None,
        NoticesModel::nothing_said().on_stop().1 is Some,
        NoticesModel::nothing_said().on_giving_up().1 is Some,
{
}

} // verus!
