//! What the worker decides between two ticks. The worker itself owns the
//! socket, the session core and the device; what it does with them next is
//! decided here, from plain values.

use vstd::prelude::*;

use crate::live::ring::{
    larger, period, playout_stall_after, ring_frames, smaller, PLAYOUT_DRAIN_MAX,
    PLAYOUT_STALL_CEILING, PLAYOUT_STALL_FLOOR, PUMP_REPLAY_MAX_SECS,
};
use crate::live::watch::{
    reopen_wait, EpisodeWatch, ReopenEpisode, CUTTING_OUT_COUNT, CUTTING_OUT_WINDOW,
    REOPEN_ATTEMPTS_MAX, STREAM_SETTLED_AFTER,
};
use crate::live::{
    elapsed, since, CHUNK_STEREO, FRAME_FRAMES, MICROSECOND, MILLISECOND, Nanos, SAMPLE_RATE,
    SECOND, TICK,
};
use crate::runtime::AudioFaultView;
use crate::single::Single;

verus! {

// -------------------------------------------------------------------- opening

/// What to do with a stream that has just been opened.
#[derive(Debug, Clone, Copy, PartialEq, Eq, Structural)]
pub enum OpenStep {
    /// The rings fit what the device delivers: run it.
    Run,
    /// The device gave two different answers in a row; chasing it would reopen
    /// forever, so run it on the rings there are. `needed` is what it wants.
    RunShort { needed: u32 },
    /// The device delivers bigger callbacks than the rings were cut for: close
    /// it and open it again over rings that hold them.
    Reopen,
}

/// An open under way: the rings are first sized from the request, because the
/// callback size is only knowable from an open stream, and resized once.
#[derive(Debug, Clone, Copy, PartialEq, Eq, Structural)]
pub struct OpenPlan {
    pub requested: u32,
    /// Frames the rings are sized from.
    pub frames: u32,
    pub resized: bool,
}

/// What the device needs: the request, or its own callback where bigger.
pub open spec fn needed(requested: u32, negotiated: Option<u32>) -> int {
    larger(
        requested as int,
        match negotiated {
            Some(n) => n as int,
            None => 0,
        },
    )
}

impl OpenPlan {
    pub fn new(requested: u32) -> (p: OpenPlan)
        ensures
            p == (OpenPlan { requested, frames: requested, resized: false }),
    {
        OpenPlan { requested, frames: requested, resized: false }
    }

    /// Takes the callback size an open stream reports.
    pub fn opened(&mut self, negotiated: Option<u32>) -> (step: OpenStep)
        ensures
            ({
                let wants = needed(old(self).requested, negotiated);
                &&& step == (if wants <= old(self).frames {
                    OpenStep::Run
                } else if old(self).resized {
                    OpenStep::RunShort { needed: wants as u32 }
                } else {
                    OpenStep::Reopen
                })
                &&& *final(self) == (if step is Reopen {
                    OpenPlan {
                        requested: old(self).requested,
                        frames: wants as u32,
                        resized: true,
                    }
                } else {
                    *old(self)
                })
            }),
    {
        let wants: u32 = ring_frames(self.requested, negotiated);
        if wants <= self.frames {
            OpenStep::Run
        } else if self.resized {
            OpenStep::RunShort { needed: wants }
        } else {
            self.frames = wants;
            self.resized = true;
            OpenStep::Reopen
        }
    }
}

// ------------------------------------------------------------------- reopening

/// A reopen slower than this is worth a warning of its own.
pub const SLOW_REOPEN: u64 = SECOND;

/// One attempt to open the stream, as the log tells it.
#[derive(Debug, Clone, Copy, PartialEq, Eq, Structural)]
pub struct Attempt {
    pub attempt: u64,
    pub in_episode: u32,
    /// A first attempt at a reopen somebody asked for, which is no fault.
    pub asked_for: bool,
}

/// How long a device shut for a settings change stayed shut.
#[derive(Debug, Clone, Copy, PartialEq, Eq, Structural)]
pub struct Shut {
    pub shut_ms: u64,
    /// Whether that is longer than a reopen costs.
    pub slow: bool,
}

/// What changed about the fault the interface reads.
#[derive(Debug, Clone, Copy, PartialEq, Eq, Structural)]
pub enum FaultChange {
    Unchanged,
    /// The cadence has ended, and nothing after it reopens the stream.
    GaveUp { tries: u32 },
    Retrying,
    /// The stream is running again.
    Recovered,
}

/// Keeps the audio stream open: when a dead one is retried, when the retries
/// stop, and what is said of it.
#[derive(Debug, Clone, Copy, PartialEq, Eq, Structural)]
pub struct StreamKeeper {
    /// Whether a stream is running. The network side keeps going without one,
    /// so the session survives an unplugged interface.
    pub streaming: bool,
    /// When the running stream opened, until it has been up long enough to
    /// count as recovered.
    pub opened_at: Option<Nanos>,
    pub last_reopen: Option<Nanos>,
    pub reopen_attempts: u64,
    pub episode: ReopenEpisode,
    /// When a settings change closed the device.
    pub shut_at: Option<Nanos>,
    /// Streams that stopped on their own this session. A reopen somebody asked
    /// for never counts.
    pub device_stops: u64,
    /// Whether those stops are bunched up densely enough to call the device
    /// unreliable.
    pub cutting_out: EpisodeWatch,
    pub was_cutting_out: bool,
    /// The fault as it was last published.
    pub fault: Option<AudioFaultView>,
}

/// A fresh episode.
pub open spec fn fresh_episode() -> ReopenEpisode {
    ReopenEpisode { attempts: 0, faulted: false }
}

impl StreamKeeper {
    pub open spec fn wf(self) -> bool {
        &&& self.episode.attempts <= REOPEN_ATTEMPTS_MAX
        &&& self.cutting_out.wf()
        &&& self.cutting_out.count == CUTTING_OUT_COUNT
        &&& self.cutting_out.window == CUTTING_OUT_WINDOW
    }

    /// The keeper once a dead stream has been noticed. One stop, whether or not
    /// the reopen that follows heals it before any screen could draw the fault.
    pub open spec fn stopped(self) -> StreamKeeper {
        StreamKeeper {
            streaming: false,
            opened_at: None,
            episode: ReopenEpisode { faulted: true, ..self.episode },
            device_stops: (self.device_stops + 1) as u64,
            ..self
        }
    }

    /// Whether the running stream has been up long enough to count as
    /// recovered.
    pub open spec fn settles(self, now: Nanos) -> bool {
        self.opened_at matches Some(at) && elapsed(now, at) >= STREAM_SETTLED_AFTER
    }

    /// The keeper after a look at the stream.
    pub open spec fn checked(self, now: Nanos, errored: bool) -> StreamKeeper {
        let seen = if errored {
            self.stopped()
        } else {
            self
        };
        if seen.settles(now) {
            StreamKeeper { opened_at: None, episode: fresh_episode(), ..seen }
        } else {
            seen
        }
    }

    /// Whether an attempt is owed: there is no stream, the budget is not spent,
    /// and the wait since the last attempt is over.
    pub open spec fn owes_attempt(self, now: Nanos) -> bool {
        !self.streaming && self.episode.attempts < REOPEN_ATTEMPTS_MAX && (match self.last_reopen {
            Some(at) => elapsed(now, at) >= reopen_wait(self.episode.attempts as nat),
            None => true,
        })
    }

    /// What the stream is doing wrong. A budget that is spent while a stream
    /// runs is a stream that came back on the last attempt, so the stream
    /// decides first; and a reopen for a pick somebody just made is no fault.
    pub open spec fn faulty(self) -> Option<AudioFaultView> {
        if self.streaming {
            None
        } else if self.episode.attempts >= REOPEN_ATTEMPTS_MAX {
            Some(AudioFaultView::GaveUp { tries: self.episode.attempts })
        } else if self.episode.faulted {
            Some(AudioFaultView::Retrying)
        } else {
            None
        }
    }

    /// A keeper of a stream that has just opened.
    pub open spec fn fresh(now: Nanos) -> StreamKeeper {
        StreamKeeper {
            streaming: true,
            opened_at: Some(now),
            last_reopen: None,
            reopen_attempts: 0,
            episode: fresh_episode(),
            shut_at: None,
            device_stops: 0,
            cutting_out: EpisodeWatch {
                count: CUTTING_OUT_COUNT,
                window: CUTTING_OUT_WINDOW,
                prev: None,
                since: None,
                last: None,
                active: false,
            },
            was_cutting_out: false,
            fault: None,
        }
    }

    pub fn new(now: Nanos) -> (k: StreamKeeper)
        ensures
            k.wf(),
            k == StreamKeeper::fresh(now),
    {
        StreamKeeper {
            streaming: true,
            opened_at: Some(now),
            last_reopen: None,
            reopen_attempts: 0,
            episode: ReopenEpisode::default(),
            shut_at: None,
            device_stops: 0,
            cutting_out: EpisodeWatch::new(CUTTING_OUT_COUNT, CUTTING_OUT_WINDOW),
            was_cutting_out: false,
            fault: None,
        }
    }

    /// Looks at the stream: `errored` is whether it is dead, and then it has
    /// been closed. Says whether an attempt to open it is owed now.
    pub fn check_stream(&mut self, now: Nanos, errored: bool) -> (attempt: bool)
        requires
            old(self).wf(),
            old(self).device_stops < u64::MAX,
        ensures
            final(self).wf(),
            *final(self) == old(self).checked(now, errored),
            attempt == final(self).owes_attempt(now),
            errored ==> !final(self).streaming && final(self).opened_at is None && final(self).episode.faulted && final(self).episode.attempts == old(self).episode.attempts
                && final(self).device_stops == old(self).device_stops + 1,
            !errored ==> final(self).streaming == old(self).streaming && final(self).device_stops
                == old(self).device_stops,
            !errored && old(self).opened_at is Some && now - old(self).opened_at->0
                >= 5_000_000_000 ==> final(self).opened_at is None && final(self).episode.attempts
                == 0 && !final(self).episode.faulted,
            !errored && !(old(self).opened_at is Some && now - old(self).opened_at->0
                >= 5_000_000_000) ==> final(self).opened_at == old(self).opened_at && final(self).episode == old(self).episode,
            final(self).last_reopen == old(self).last_reopen,
            final(self).reopen_attempts == old(self).reopen_attempts,
            final(self).shut_at == old(self).shut_at,
            final(self).fault == old(self).fault,
            attempt <==> !final(self).streaming && final(self).episode.attempts < 6 && (old(self).last_reopen is None || elapsed(now, old(self).last_reopen->0) >= reopen_wait(
                final(self).episode.attempts as nat,
            )),
    {
        if errored {
            self.streaming = false;
            self.opened_at = None;
            self.episode.faulted = true;
            self.device_stops = self.device_stops + 1;
        }
        if let Some(at) = self.opened_at {
            if since(now, at) >= STREAM_SETTLED_AFTER {
                self.opened_at = None;
                self.episode = ReopenEpisode::default();
            }
        }
        if self.streaming || self.episode.spent() {
            return false;
        }
        match self.last_reopen {
            Some(at) => since(now, at) >= self.episode.backoff(),
            None => true,
        }
    }

    /// The keeper once an attempt is made.
    pub open spec fn trying(self, now: Nanos) -> StreamKeeper {
        StreamKeeper {
            last_reopen: Some(now),
            reopen_attempts: (self.reopen_attempts + 1) as u64,
            episode: ReopenEpisode { attempts: (self.episode.attempts + 1) as u32, ..self.episode },
            ..self
        }
    }

    /// One open attempt against the episode's budget. It sets the cadence
    /// clock whether it succeeds or not, so a device that opens and then dies
    /// before the next tick escalates exactly like one that refuses outright.
    pub fn attempt_open(&mut self, now: Nanos) -> (attempt: Attempt)
        requires
            old(self).wf(),
            old(self).episode.attempts < REOPEN_ATTEMPTS_MAX,
            old(self).reopen_attempts < u64::MAX,
        ensures
            final(self).wf(),
            *final(self) == old(self).trying(now),
            final(self).last_reopen == Some(now),
            final(self).reopen_attempts == old(self).reopen_attempts + 1,
            final(self).episode.attempts == old(self).episode.attempts + 1,
            final(self).episode.faulted == old(self).episode.faulted,
            final(self).streaming == old(self).streaming,
            final(self).opened_at == old(self).opened_at,
            final(self).shut_at == old(self).shut_at,
            final(self).device_stops == old(self).device_stops,
            final(self).fault == old(self).fault,
            attempt == (Attempt {
                attempt: final(self).reopen_attempts,
                in_episode: final(self).episode.attempts,
                asked_for: old(self).shut_at is Some && old(self).episode.attempts == 0,
            }),
    {
        self.last_reopen = Some(now);
        self.reopen_attempts = self.reopen_attempts + 1;
        self.episode.attempts = self.episode.attempts + 1;
        Attempt {
            attempt: self.reopen_attempts,
            in_episode: self.episode.attempts,
            asked_for: self.shut_at.is_some() && self.episode.attempts == 1,
        }
    }

    /// The keeper once an attempt has succeeded.
    pub open spec fn running(self, now: Nanos) -> StreamKeeper {
        StreamKeeper { streaming: true, opened_at: Some(now), shut_at: None, ..self }
    }

    /// How long the device was shut, where a settings change had shut it.
    pub open spec fn was_shut(self, now: Nanos) -> Option<Shut> {
        match self.shut_at {
            Some(at) => Some(
                Shut {
                    shut_ms: (elapsed(now, at) / MILLISECOND as int) as u64,
                    slow: elapsed(now, at) / MILLISECOND as int >= SLOW_REOPEN as int
                        / MILLISECOND as int,
                },
            ),
            None => None,
        }
    }

    /// The attempt succeeded. A device that a settings change had shut says how
    /// long nothing was captured.
    pub fn opened(&mut self, now: Nanos) -> (shut: Option<Shut>)
        requires
            old(self).wf(),
        ensures
            final(self).wf(),
            *final(self) == old(self).running(now),
            shut == old(self).was_shut(now),
            final(self).streaming && final(self).opened_at == Some(now) && final(self).shut_at is None,
            final(self).episode == old(self).episode,
            final(self).last_reopen == old(self).last_reopen,
            final(self).reopen_attempts == old(self).reopen_attempts,
            final(self).device_stops == old(self).device_stops,
            shut is Some <==> old(self).shut_at is Some,
            shut matches Some(s) ==> s.shut_ms == elapsed(now, old(self).shut_at->0) / 1_000_000
                && (s.slow <==> s.shut_ms >= 1_000),
    {
        self.streaming = true;
        self.opened_at = Some(now);
        match self.shut_at {
            Some(at) => {
                self.shut_at = None;
                let shut_ms: u64 = since(now, at) / MILLISECOND;
                Some(Shut { shut_ms, slow: shut_ms >= SLOW_REOPEN / MILLISECOND })
            },
            None => None,
        }
    }

    /// The keeper once the device was closed for new settings.
    pub open spec fn shut_down(self, now: Nanos) -> StreamKeeper {
        StreamKeeper {
            streaming: false,
            opened_at: None,
            shut_at: Some(now),
            episode: fresh_episode(),
            ..self
        }
    }

    /// The device was closed for new settings. A device the user just picked is
    /// a fresh start: the budget the last one spent, and the fault it was in,
    /// do not carry over.
    pub fn reconfigure(&mut self, now: Nanos)
        requires
            old(self).wf(),
        ensures
            final(self).wf(),
            *final(self) == old(self).shut_down(now),
            !final(self).streaming && final(self).opened_at is None && final(self).shut_at == Some(
                now,
            ),
            final(self).episode.attempts == 0 && !final(self).episode.faulted,
            final(self).last_reopen == old(self).last_reopen,
            final(self).reopen_attempts == old(self).reopen_attempts,
            final(self).device_stops == old(self).device_stops,
            final(self).fault == old(self).fault,
    {
        self.shut_at = Some(now);
        self.streaming = false;
        self.opened_at = None;
        self.episode = ReopenEpisode::default();
    }

    /// What the stream is doing wrong, as the status bar and the Audio tab read
    /// it.
    pub fn audio_fault(&self) -> (fault: Option<AudioFaultView>)
        ensures
            fault == self.faulty(),
            self.streaming ==> fault is None,
            !self.streaming && self.episode.attempts >= 6 ==> fault == Some(
                AudioFaultView::GaveUp { tries: self.episode.attempts },
            ),
            !self.streaming && self.episode.attempts < 6 && self.episode.faulted ==> fault == Some(
                AudioFaultView::Retrying,
            ),
            !self.streaming && self.episode.attempts < 6 && !self.episode.faulted ==> fault
                is None,
    {
        if self.streaming {
            return None;
        }
        if self.episode.spent() {
            return Some(AudioFaultView::GaveUp { tries: self.episode.attempts });
        }
        if self.episode.faulted {
            Some(AudioFaultView::Retrying)
        } else {
            None
        }
    }

    /// What changes about the fault as it was last published.
    pub open spec fn fault_change(self) -> FaultChange {
        if self.fault == self.faulty() {
            FaultChange::Unchanged
        } else {
            match self.faulty() {
                Some(AudioFaultView::GaveUp { tries }) => FaultChange::GaveUp { tries },
                Some(AudioFaultView::Retrying) => FaultChange::Retrying,
                None => FaultChange::Recovered,
            }
        }
    }

    /// Publishes the fault, and says what changed about it: at a tick every
    /// 2.5 ms, a line per tick would fill the log in seconds.
    pub fn publish_fault(&mut self) -> (change: FaultChange)
        requires
            old(self).wf(),
        ensures
            final(self).wf(),
            *final(self) == (StreamKeeper { fault: old(self).faulty(), ..*old(self) }),
            change == old(self).fault_change(),
            change is Unchanged <==> final(self).fault == old(self).fault,
            change matches FaultChange::GaveUp { tries } ==> final(self).fault == Some(
                AudioFaultView::GaveUp { tries },
            ),
            change is Retrying ==> final(self).fault == Some(AudioFaultView::Retrying),
            change is Recovered ==> final(self).fault is None,
    {
        let fault = self.audio_fault();
        let same = match (self.fault, fault) {
            (None, None) => true,
            (Some(a), Some(b)) => a == b,
            _ => false,
        };
        if same {
            return FaultChange::Unchanged;
        }
        self.fault = fault;
        match fault {
            Some(AudioFaultView::GaveUp { tries }) => FaultChange::GaveUp { tries },
            Some(AudioFaultView::Retrying) => FaultChange::Retrying,
            None => FaultChange::Recovered,
        }
    }

    /// Whether the device is failing rather than down: how many times it has
    /// stopped, while those stops are close together, and whether this is the
    /// tick that run began, which is the one that is warned about.
    pub fn publish_cutting_out(&mut self, now: Nanos) -> (r: (Option<u64>, bool))
        requires
            old(self).wf(),
        ensures
            final(self).wf(),
            ({
                let watch = old(self).cutting_out.after(now, old(self).device_stops);
                &&& *final(self) == (StreamKeeper {
                    cutting_out: watch,
                    was_cutting_out: watch.active,
                    ..*old(self)
                })
                &&& r.0 == (if watch.active {
                    Some(old(self).device_stops)
                } else {
                    None
                })
                &&& r.1 == (watch.active && !old(self).was_cutting_out)
            }),
    {
        let open = self.cutting_out.observe(now, self.device_stops);
        let begins = open && !self.was_cutting_out;
        self.was_cutting_out = open;
        let stops = if open {
            Some(self.device_stops)
        } else {
            None
        };
        (stops, begins)
    }
}

/// What a device does between two looks at it: the attempts that are owed are
/// made, and each either opens or does not.
pub struct Look {
    pub now: Nanos,
    /// Whether the stream is found dead.
    pub errored: bool,
    /// Whether an attempt that is owed now succeeds.
    pub opens: bool,
}

/// The keeper after an attempt.
pub open spec fn attempted(k: StreamKeeper, now: Nanos, opens: bool) -> StreamKeeper {
    if opens {
        k.trying(now).running(now)
    } else {
        k.trying(now)
    }
}

/// The keeper after a look and the attempt it owes.
pub open spec fn looked(k: StreamKeeper, look: Look) -> StreamKeeper {
    let seen = k.checked(look.now, look.errored);
    if seen.owes_attempt(look.now) {
        attempted(seen, look.now, look.opens)
    } else {
        seen
    }
}

/// The keeper after a run of looks.
pub open spec fn kept(k: StreamKeeper, looks: Seq<Look>) -> StreamKeeper
    decreases looks.len(),
{
    if looks.len() == 0 {
        k
    } else {
        looked(kept(k, looks.drop_last()), looks.last())
    }
}

/// Whether no look of the run finds a stream that has settled.
pub open spec fn never_settles(k: StreamKeeper, looks: Seq<Look>) -> bool
    decreases looks.len(),
{
    looks.len() == 0 || {
        let before = kept(k, looks.drop_last());
        let seen = if looks.last().errored {
            before.stopped()
        } else {
            before
        };
        never_settles(k, looks.drop_last()) && !seen.settles(looks.last().now)
    }
}

/// The loop gives up: however often a device dies or refuses, an episode in
/// which no stream stays up makes no more attempts than its budget, counted
/// from a fresh one.
pub proof fn an_episode_stays_inside_its_budget(k: StreamKeeper, looks: Seq<Look>)
    requires
        k.episode.attempts <= REOPEN_ATTEMPTS_MAX,
        k.reopen_attempts + REOPEN_ATTEMPTS_MAX <= u64::MAX,
        never_settles(k, looks),
    ensures
        kept(k, looks).reopen_attempts - k.reopen_attempts == kept(k, looks).episode.attempts
            - k.episode.attempts,
        kept(k, looks).episode.attempts <= REOPEN_ATTEMPTS_MAX,
    decreases looks.len(),
{
    if looks.len() > 0 {
        an_episode_stays_inside_its_budget(k, looks.drop_last());
    }
}

/// A budget that is spent stays spent until a stream has settled: no look owes
/// another attempt.
pub proof fn a_spent_budget_owes_nothing(k: StreamKeeper, now: Nanos, errored: bool)
    requires
        k.episode.attempts >= REOPEN_ATTEMPTS_MAX,
        !(if errored {
            k.stopped()
        } else {
            k
        }).settles(now),
    ensures
        !k.checked(now, errored).owes_attempt(now),
{
}

/// A stream that runs is no fault, whatever the episode went through to open
/// it, and a reopen for a pick somebody just made is none either.
pub proof fn a_running_stream_is_no_fault(k: StreamKeeper)
    ensures
        k.streaming ==> k.faulty() is None,
        !k.streaming && k.episode == fresh_episode() ==> k.faulty() is None,
        k.faulty() matches Some(AudioFaultView::GaveUp { tries }) ==> tries == k.episode.attempts,
{
}

/// A stream that dies on a fresh episode is reopened on that very look.
pub proof fn a_first_loss_is_reopened_at_once(k: StreamKeeper, now: Nanos)
    requires
        k.episode.attempts == 0,
    ensures
        k.checked(now, true).owes_attempt(now),
{
}

// --------------------------------------------------------------- offline pumping

/// What the offline pump does next.
#[derive(Debug, Clone, Copy, PartialEq, Eq, Structural)]
pub enum PumpStep {
    /// Wall time owes the stream nothing.
    Idle,
    /// The whole backlog is dropped: the count of pumped frames becomes what
    /// is due.
    Skip { pumped: u64 },
    /// This many frames are pumped.
    Pump { frames: u64 },
}

/// Advances an offline stream by at most one frame-sized bite when wall time
/// owes it one. `due` is the frames wall time has asked for since the stream
/// opened, at the device's own `rate`, and `pumped` those it has had.
///
/// Catch-up is all or nothing: short stalls replay sample for sample, longer
/// ones drop the whole backlog, a discontinuity big enough for the far side to
/// start over cleanly.
pub fn pump_one(due: u64, pumped: u64, rate: u32) -> (step: PumpStep)
    ensures
        step == (if due <= pumped {
            PumpStep::Idle
        } else if due - pumped > PUMP_REPLAY_MAX_SECS * rate {
            PumpStep::Skip { pumped: due }
        } else {
            PumpStep::Pump { frames: smaller(due - pumped, FRAME_FRAMES as int) as u64 }
        }),
{
    if due <= pumped {
        return PumpStep::Idle;
    }
    let backlog: u64 = due - pumped;
    if backlog > PUMP_REPLAY_MAX_SECS * rate as u64 {
        return PumpStep::Skip { pumped: due };
    }
    PumpStep::Pump {
        frames: if backlog <= FRAME_FRAMES as u64 {
            backlog
        } else {
            FRAME_FRAMES as u64
        },
    }
}

/// The count of pumped frames after a step.
pub open spec fn pumped_after(due: u64, pumped: u64, rate: u32) -> int {
    if due <= pumped {
        pumped as int
    } else if due - pumped > PUMP_REPLAY_MAX_SECS * rate {
        due as int
    } else {
        pumped + smaller(due - pumped, FRAME_FRAMES as int)
    }
}

/// The pump never runs ahead of the clock and never falls back, and while it
/// owes anything a step brings it nearer.
pub proof fn the_pump_closes_on_the_clock(due: u64, pumped: u64, rate: u32)
    ensures
        pumped <= due ==> pumped <= pumped_after(due, pumped, rate) <= due,
        pumped < due ==> pumped < pumped_after(due, pumped, rate),
{
}

// -------------------------------------------------------------- filling playout

/// Playout staged toward the ring: pulled from the session core but not yet
/// accepted, so a full ring never discards decoded audio.
#[derive(Debug, Clone, Copy, PartialEq, Eq, Structural)]
pub struct Carry {
    pub pos: usize,
    pub len: usize,
}

impl Carry {
    pub open spec fn wf(self) -> bool {
        self.pos <= self.len <= CHUNK_STEREO
    }

    pub fn new() -> (c: Carry)
        ensures
            c == (Carry { pos: 0, len: 0 }),
            c.wf(),
    {
        Carry { pos: 0, len: 0 }
    }

    /// Whether there is nothing left to push, so a frame is pulled.
    pub fn wants_frame(&self) -> (b: bool)
        requires
            self.wf(),
        ensures
            b == (self.pos == self.len),
    {
        self.pos >= self.len
    }

    /// A frame was pulled into the carry.
    pub fn pulled(&mut self)
        requires
            old(self).wf(),
        ensures
            final(self).wf(),
            *final(self) == (Carry { pos: 0, len: CHUNK_STEREO }),
    {
        self.pos = 0;
        self.len = CHUNK_STEREO;
    }

    /// The ring took `pushed` of what was left, and the answer is whether that
    /// was all of it. Where it was not, the ring is at its depth.
    pub fn pushed(&mut self, pushed: usize) -> (all: bool)
        requires
            old(self).wf(),
            pushed <= old(self).len - old(self).pos,
        ensures
            final(self).wf(),
            *final(self) == (Carry { pos: (old(self).pos + pushed) as usize, len: old(self).len }),
            all == (final(self).pos == final(self).len),
    {
        self.pos = self.pos + pushed;
        self.pos >= self.len
    }

    /// What the ring refused belongs to a position that has been walked past,
    /// or to a stream that is gone.
    pub fn forget(&mut self)
        ensures
            *final(self) == (Carry { pos: 0, len: 0 }),
            final(self).wf(),
    {
        self.pos = 0;
        self.len = 0;
    }
}

/// The playout path while the device is not taking audio.
#[derive(Debug, Clone, Copy, PartialEq, Eq, Structural)]
pub struct Drain {
    /// Frames to pull and drop, so the jitter buffer's playout position keeps
    /// moving.
    pub frames: u64,
    /// The frame clock the drain is paying from after that, and `None` where
    /// the device is taking audio and owes it nothing.
    pub from: Option<Nanos>,
}

/// Whether the device counts as taking audio: there is a stream, and its ring
/// took a sample recently enough.
pub open spec fn taking(streaming: bool, now: Nanos, ring_took: Nanos, device_frames: u32) -> bool {
    streaming && elapsed(now, ring_took) < smaller(
        larger(4 * period(device_frames), PLAYOUT_STALL_FLOOR as int),
        PLAYOUT_STALL_CEILING as int,
    )
}

/// Frames owed on a frame clock.
pub open spec fn frames_owed(now: Nanos, from: Nanos) -> int {
    (elapsed(now, from) / MICROSECOND as int) / (TICK as int / MICROSECOND as int)
}

proof fn lemma_owed(late: int)
    requires
        late >= 0,
    ensures
        ({
            let owed = (late / (MICROSECOND as int)) / (TICK as int / MICROSECOND as int);
            2_500_000 * owed <= late < 2_500_000 * owed + 2_501_000
        }),
{
    let micros = late / 1_000;
    let owed = micros / 2_500;
    assert(1_000 * micros <= late < 1_000 * micros + 1_000);
    assert(2_500 * owed <= micros < 2_500 * owed + 2_500);
}

/// Most frames one pass pays.
pub open spec fn drain_cap() -> int {
    PLAYOUT_DRAIN_MAX as int / TICK as int
}

/// What a stalled tick pays, and the clock it pays from after that.
pub open spec fn drained_from(now: Nanos, drain_from: Option<Nanos>) -> Drain {
    let from = match drain_from {
        Some(from) => from,
        None => now,
    };
    let owed = frames_owed(now, from);
    if owed > drain_cap() {
        Drain { frames: drain_cap() as u64, from: Some(now) }
    } else {
        Drain { frames: owed as u64, from: Some((from + TICK * owed) as u64) }
    }
}

/// What the stalled path does this tick. A debt longer than one pass may pay is
/// abandoned: the jitter buffer treats a hole that size as a restart anyway.
pub fn drain_stalled_playout(
    now: Nanos,
    streaming: bool,
    ring_took: Nanos,
    device_frames: u32,
    drain_from: Option<Nanos>,
) -> (drain: Drain)
    ensures
        drain == (if taking(streaming, now, ring_took, device_frames) {
            Drain { frames: 0, from: None }
        } else {
            drained_from(now, drain_from)
        }),
{
    if streaming && since(now, ring_took) < playout_stall_after(device_frames) {
        return Drain { frames: 0, from: None };
    }
    let from: u64 = match drain_from {
        Some(from) => from,
        None => now,
    };
    let owed: u64 = (since(now, from) / MICROSECOND) / (TICK / MICROSECOND);
    let cap: u64 = PLAYOUT_DRAIN_MAX / TICK;
    if owed > cap {
        Drain { frames: cap, from: Some(now) }
    } else {
        proof {
            lemma_owed(elapsed(now, from));
        }
        assert(TICK * owed == 2_500_000 * owed);
        Drain { frames: owed, from: Some(from + TICK * owed) }
    }
}

/// The frame clock never runs ahead of the wall, and what it is behind by is
/// less than a frame once a debt has been paid.
pub proof fn the_drain_keeps_to_the_frame_clock(now: Nanos, from: Nanos)
    requires
        from <= now,
        frames_owed(now, from) <= drain_cap(),
    ensures
        from + TICK * frames_owed(now, from) <= now,
        now - (from + TICK * frames_owed(now, from)) < TICK + MICROSECOND,
{
    let owed = frames_owed(now, from);
    lemma_owed(elapsed(now, from));
    assert(TICK * owed == 2_500_000 * owed);
}

// ------------------------------------------------------------------- the loop

/// How long to sleep before the tick at `next`.
pub fn sleep_for(next: Nanos, now: Nanos) -> (d: u64)
    ensures
        d == elapsed(next, now),
{
    since(next, now)
}

/// The tick after the one at `next`, read at `now`. After a long stall the
/// cadence resumes instead of spinning through the backlog.
pub fn tick_after(next: Nanos, now: Nanos) -> (tick: Nanos)
    requires
        next + TICK <= u64::MAX,
        now + TICK <= u64::MAX,
    ensures
        tick == (if next + TICK < now {
            now + TICK
        } else {
            next + TICK
        }),
{
    let planned: u64 = next + TICK;
    if planned < now {
        now + TICK
    } else {
        planned
    }
}

/// Initial connect only: a timeout on one invite address moves on to the next.
/// Once joined, timeouts are surfaced instead; the session lives on the address
/// that admitted us.
pub fn fail_over(ever_joined: bool, timed_out: bool, at: usize, addresses: usize) -> (next: Option<
    usize,
>)
    requires
        at < addresses,
    ensures
        next == (if !ever_joined && timed_out && at + 1 < addresses {
            Some((at + 1) as usize)
        } else {
            None
        }),
{
    if ever_joined || !timed_out || at + 1 >= addresses {
        None
    } else {
        Some(at + 1)
    }
}

/// Whether a count is one of 1, 2, 4, 8 and so on.
pub open spec fn power_of_two(n: nat) -> bool
    decreases n,
{
    n == 1 || (n > 1 && n % 2 == 0 && power_of_two(n / 2))
}

/// Counts a datagram the socket refused, and says whether this one is reported:
/// the first, and then each time the count has doubled.
pub fn count_refusal(send_errors: u64) -> (r: (u64, bool))
    ensures
        r.0 == (if send_errors < u64::MAX {
            (send_errors + 1) as u64
        } else {
            u64::MAX
        }),
        r.1 == power_of_two(r.0 as nat),
{
    let count: u64 = if send_errors < u64::MAX {
        send_errors + 1
    } else {
        u64::MAX
    };
    let mut n: u64 = count;
    while n > 1 && n % 2 == 0
        invariant
            power_of_two(count as nat) == power_of_two(n as nat),
            n >= 1,
        decreases n,
    {
        n = n / 2;
    }
    (count, n == 1)
}

// ---------------------------------------------------------- after a reopen

/// Uplink samples that pass before a reopen is judged: ten seconds of them. The
/// server's loss figure covers the second before it was sent, so a reading taken
/// right after a reopen can report the gap itself and read as permanent.
pub const JUDGED_AFTER_SECS: u64 = 10;
/// Loss the server may report and the uplink still counts as back: 5 percent,
/// as the pattern of 5.0 in single precision.
pub const RECOVERED_PCT_BITS: u32 = 0x40a0_0000;

/// What moved since a device was reopened, counted until the first report.
#[derive(Debug, Clone, Copy, PartialEq, Eq, Structural)]
pub struct SinceReopen {
    /// Capture samples that reached the core. Zero means the device came back
    /// and the microphone did not.
    pub moved: u64,
    /// Packets the uplink produced. Only this proves anything left the machine.
    pub sent: u64,
}

/// Adds captured samples to the count, and says whether ten seconds of them
/// have passed, which is when the reopen is judged and the count dropped.
pub fn count_moved(count: SinceReopen, samples: u64) -> (r: (SinceReopen, bool))
    requires
        count.moved + samples <= u64::MAX,
    ensures
        r.0 == (SinceReopen { moved: (count.moved + samples) as u64, sent: count.sent }),
        r.1 == (count.moved + samples >= SAMPLE_RATE * JUDGED_AFTER_SECS),
{
    let moved: u64 = count.moved + samples;
    (SinceReopen { moved, sent: count.sent }, moved >= SAMPLE_RATE as u64 * JUDGED_AFTER_SECS)
}

/// Whether the uplink has come back: the server reports little loss, something
/// was captured, and the socket refused nothing.
pub fn uplink_recovered(uplink_loss_pct: Option<Single>, moved: u64, send_errors: u64) -> (b: bool)
    ensures
        b == ((uplink_loss_pct matches Some(pct) && (Single {
            bits: RECOVERED_PCT_BITS,
        }).exceeds(pct)) && moved > 0 && send_errors == 0),
{
    let small = match uplink_loss_pct {
        Some(pct) => Single { bits: RECOVERED_PCT_BITS }.over(pct),
        None => false,
    };
    small && moved > 0 && send_errors == 0
}

// ----------------------------------------------------------------------- laws

/// What a device needs is the larger of what was asked for and what it calls
/// back with, and what was asked for where it has not said.
pub proof fn a_device_needs_the_larger(requested: u32, negotiated: Option<u32>)
    ensures
        needed(requested, negotiated) >= requested,
        negotiated matches Some(n) ==> needed(requested, negotiated) >= n && (needed(
            requested,
            negotiated,
        ) == n || needed(requested, negotiated) == requested),
        negotiated is None ==> needed(requested, negotiated) == requested,
{
}

/// A keeper of a stream that has just opened has it running and owes nothing.
pub proof fn a_fresh_keeper_owes_nothing(now: Nanos, later: Nanos)
    ensures
        ({
            let k = StreamKeeper::fresh(now);
            &&& k.streaming && k.opened_at == Some(now)
            &&& k.reopen_attempts == 0 && k.episode.attempts == 0 && !k.episode.faulted
            &&& k.device_stops == 0 && k.shut_at is None && k.last_reopen is None
            &&& k.fault is None && k.faulty() is None && !k.was_cutting_out
            &&& !k.checked(later, false).owes_attempt(later)
        }),
{
}

/// A device that dies over and over is retried after nothing, half a second,
/// one, two, four and four seconds, and then given up: an attempt is owed
/// exactly when the wait since the last one is over.
pub proof fn a_dead_device_is_retried_on_the_cadence(k: StreamKeeper, now: Nanos, at: Nanos)
    requires
        !k.streaming,
        k.last_reopen == Some(at),
        at <= now,
        k.opened_at is None,
    ensures
        ({
            let waited = now - at;
            let owed = k.checked(now, false).owes_attempt(now);
            &&& k.episode.attempts == 0 ==> owed
            &&& k.episode.attempts == 1 ==> (owed <==> waited >= 500_000_000)
            &&& k.episode.attempts == 2 ==> (owed <==> waited >= 1_000_000_000)
            &&& k.episode.attempts == 3 ==> (owed <==> waited >= 2_000_000_000)
            &&& k.episode.attempts == 4 ==> (owed <==> waited >= 4_000_000_000)
            &&& k.episode.attempts == 5 ==> (owed <==> waited >= 4_000_000_000)
            &&& k.episode.attempts >= 6 ==> !owed
        }),
{
    reveal_with_fuel(reopen_wait, 7);
}

/// Without a stream nothing takes audio, and with one it is taken as long as
/// the ring took some within four device periods, held between the floor and
/// the ceiling a stall is judged by.
pub proof fn audio_is_taken_while_the_ring_takes_it(
    streaming: bool,
    now: Nanos,
    ring_took: Nanos,
    device_frames: u32,
)
    ensures
        !streaming ==> !taking(streaming, now, ring_took, device_frames),
        streaming && now - ring_took >= PLAYOUT_STALL_CEILING ==> !taking(
            streaming,
            now,
            ring_took,
            device_frames,
        ),
        streaming && now - ring_took < PLAYOUT_STALL_FLOOR && PLAYOUT_STALL_FLOOR
            <= PLAYOUT_STALL_CEILING ==> taking(streaming, now, ring_took, device_frames),
        streaming && PLAYOUT_STALL_FLOOR <= now - ring_took < PLAYOUT_STALL_CEILING ==> (taking(
            streaming,
            now,
            ring_took,
            device_frames,
        ) <==> now - ring_took < 4 * period(device_frames)),
{
}

/// A stalled path pays a frame for each 2.5 ms since the clock it pays from and
/// moves that clock on by what it paid, so that less than a frame is left
/// owing. A debt past what one pass may pay is paid to that much and dropped.
pub proof fn the_drain_pays_what_is_owed(now: Nanos, drain_from: Option<Nanos>)
    ensures
        ({
            let d = drained_from(now, drain_from);
            &&& d.from is Some
            &&& drain_from is None ==> d.frames == 0 && d.from == Some(now)
            &&& drain_from matches Some(from) ==> (from <= now && now - from < 2_500_000
                ==> d.frames == 0 && d.from == Some(from))
            &&& d.frames <= drain_cap() == 64
            &&& drain_from matches Some(from) ==> (from <= now && d.from != Some(now)
                ==> d.from->0 == from + 2_500_000 * d.frames && d.from->0 <= now && now
                - d.from->0 < 2_501_000)
            &&& drain_from matches Some(from) ==> (from <= now && d.from == Some(now) && now != from
                + 2_500_000 * d.frames ==> d.frames == 64 && now - from >= 65 * 2_500_000)
        }),
{
    let from = match drain_from {
        Some(from) => from,
        None => now,
    };
    lemma_owed(elapsed(now, from));
    let owed = frames_owed(now, from);
    assert(TICK * owed == 2_500_000 * owed);
}

/// The counts that are reported are one and every double of one that is; no
/// odd count past one is, and none at all is not.
pub proof fn doubling_keeps_a_power_of_two(n: nat)
    ensures
        power_of_two(1),
        !power_of_two(0),
        n >= 1 ==> power_of_two(2 * n) == power_of_two(n),
        !power_of_two(2 * n + 3),
{
    if n >= 1 {
        assert((2 * n) / 2 == n);
    }
}

} // verus!
