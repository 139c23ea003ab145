//! The live runtime's watchers: the small stateful things that sample a
//! counter or a clock on a tick, hold a condition over a window, and hand the
//! answer to the log or to the snapshot.
//!
//! Each one owns the constants its window is cut from, so a threshold and the
//! state it governs are read together. Every one that has a clock is handed
//! it, which is what lets a test spend a ninety-second window in no time. What
//! a watcher has to say comes back as a value; writing it down is the
//! caller's.

use vstd::prelude::*;

use crate::live::{elapsed, since, CHANNELS, MILLISECOND, Nanos, SECOND};
use crate::runtime::MemberId;
use crate::single::Single;

verus! {

// ------------------------------------------------------------------ reopening

/// Base backoff between attempts to reopen a lost or misconfigured stream.
/// The first attempt of an episode is immediate; each one after it waits
/// twice as long as the last, to [`REOPEN_BACKOFF_MAX`].
pub const REOPEN_INTERVAL: u64 = 500 * MILLISECOND;
/// Longest the reopen loop waits between attempts.
pub const REOPEN_BACKOFF_MAX: u64 = 4 * SECOND;
/// Attempts one episode gets before the loop stops and says so. Six of them
/// span about twelve seconds, which is long enough for a driver to come back
/// and short enough that a musician is not left watching dead meters.
pub const REOPEN_ATTEMPTS_MAX: u32 = 6;
/// A stream that has run this long has recovered: the episode ends, so the
/// next loss is retried at once and announced again.
pub const STREAM_SETTLED_AFTER: u64 = 5 * SECOND;

/// One run of the reopen loop, from the first loss to the stream that stays
/// up for [`STREAM_SETTLED_AFTER`].
#[derive(Debug, Clone, Copy, PartialEq, Eq, Structural)]
pub struct ReopenEpisode {
    pub attempts: u32,
    /// Whether this episode began with a stream that stopped on its own.
    /// A reopen for a pick somebody just made is not a fault, and the
    /// interface tells them apart by this.
    pub faulted: bool,
}

/// The wait owed before attempt number `attempts + 1` of an episode: none
/// before the first, the base before the second, and twice the last one after
/// that, to the ceiling.
pub open spec fn reopen_wait(attempts: nat) -> int
    decreases attempts,
{
    if attempts == 0 {
        0
    } else if attempts == 1 {
        REOPEN_INTERVAL as int
    } else {
        let twice = 2 * reopen_wait((attempts - 1) as nat);
        if twice < REOPEN_BACKOFF_MAX {
            twice
        } else {
            REOPEN_BACKOFF_MAX as int
        }
    }
}

impl Default for ReopenEpisode {
    fn default() -> (e: ReopenEpisode)
        ensures
            e == (ReopenEpisode { attempts: 0, faulted: false }),
    {
        ReopenEpisode { attempts: 0, faulted: false }
    }
}

impl ReopenEpisode {
    /// The wait owed before the next attempt.
    pub fn backoff(&self) -> (wait: Nanos)
        ensures
            wait == reopen_wait(self.attempts as nat),
    {
        if self.attempts == 0 {
            return 0;
        }
        let mut wait: u64 = REOPEN_INTERVAL;
        let mut attempt: u32 = 1;
        while attempt < self.attempts && wait < REOPEN_BACKOFF_MAX
            invariant
                1 <= attempt <= self.attempts,
                wait == reopen_wait(attempt as nat),
                wait <= REOPEN_BACKOFF_MAX,
            decreases self.attempts - attempt,
        {
            wait = if wait * 2 < REOPEN_BACKOFF_MAX {
                wait * 2
            } else {
                REOPEN_BACKOFF_MAX
            };
            attempt += 1;
        }
        proof {
            lemma_wait_stays_at_the_ceiling(attempt as nat, self.attempts as nat);
        }
        wait
    }

    /// Whether the budget is spent and the loop should stop trying.
    pub fn spent(&self) -> (b: bool)
        ensures
            b == (self.attempts >= REOPEN_ATTEMPTS_MAX),
    {
        self.attempts >= REOPEN_ATTEMPTS_MAX
    }
}

proof fn lemma_wait_stays_at_the_ceiling(from: nat, to: nat)
    requires
        1 <= from <= to,
        from < to ==> reopen_wait(from) >= REOPEN_BACKOFF_MAX,
    ensures
        reopen_wait(to) == (if from == to { reopen_wait(from) } else { REOPEN_BACKOFF_MAX as int }),
    decreases to - from,
{
    if from + 1 < to {
        lemma_wait_stays_at_the_ceiling(from, (to - 1) as nat);
    }
}

/// The reopen cadence widens and stays under its ceiling: the first attempt
/// of an episode waits for nothing, a later one never waits less than the one
/// before it nor more than twice as long, and none waits past the ceiling.
pub proof fn the_cadence_widens_to_its_ceiling(attempts: nat)
    ensures
        reopen_wait(0) == 0,
        attempts >= 1 ==> REOPEN_INTERVAL <= reopen_wait(attempts) <= REOPEN_BACKOFF_MAX,
        reopen_wait(attempts) <= reopen_wait(attempts + 1),
        attempts >= 1 ==> reopen_wait(attempts + 1) <= 2 * reopen_wait(attempts),
    decreases attempts,
{
    if attempts >= 1 {
        the_cadence_widens_to_its_ceiling((attempts - 1) as nat);
    }
}

/// The wait before the second attempt is half a second, and each one after
/// that is twice the last until it is four seconds, where it stays.
pub proof fn each_wait_is_twice_the_last(attempts: nat)
    ensures
        reopen_wait(1) == 500_000_000,
        attempts >= 1 && reopen_wait(attempts) < 2_000_000_000 ==> reopen_wait(attempts + 1) == 2
            * reopen_wait(attempts),
        attempts >= 1 && reopen_wait(attempts) >= 2_000_000_000 ==> reopen_wait(attempts + 1)
            == 4_000_000_000,
{
}

// -------------------------------------------------------------------- playout

/// How long playout may hand out nothing but zeros on a joined session before
/// the log says so. The deepest legitimate refill of the jitter buffer is 24
/// frames, 60 ms, so a second of it is not the buffer filling: it is a member
/// hearing silence.
pub const SILENT_PLAYOUT_AFTER: u64 = SECOND;
/// How long every pull may conceal on a joined session before the log calls it
/// a dropout. The jitter buffer heals a playout position it cannot reconcile
/// inside 210 ms, and a warning there would name the cure as the disease.
/// Under it sits ordinary jitter, a frame or a few, which is what concealment
/// exists to hide.
pub const CONCEALED_GAP_AFTER: u64 = 250 * MILLISECOND;
/// Window the refused-frame rate is measured over, and the count inside it
/// that means the arriving stream disagrees with playout rather than the
/// network dropping the odd packet. Media arrives one frame per tick, 400 a
/// second, and reordering strands a few percent of them; half of a second's
/// frames refused cannot be that.
pub const REFUSED_WINDOW: u64 = SECOND;
pub const REFUSED_WINDOW_LIMIT: u64 = 200;

/// The jitter buffer's counters at one moment.
#[derive(Debug, Clone, Copy, PartialEq, Eq, Structural)]
pub struct JitterStats {
    /// Frames held now, and the depth the buffer is aiming for.
    pub depth_frames: usize,
    pub target_frames: usize,
    /// Pulls that moved playout on, concealed ones among them.
    pub pulled: u64,
    /// Pulls that concealed.
    pub lost: u64,
    /// Frames that arrived too late to play and were refused.
    pub late: u64,
    /// Pulls that had nothing to move on to and wrote zeros.
    pub waiting: u64,
    /// Times the playout position was given up and taken anew.
    pub reanchors: u64,
}

/// A run of ticks whose every pull concealed, from the first one seen and the
/// counters as they stood before it, so a report carries the run's own numbers
/// rather than the session's totals.
#[derive(Debug, Clone, Copy, PartialEq, Eq, Structural)]
pub struct Gap {
    pub since: Nanos,
    pub lost: u64,
    pub late: u64,
}

/// The refusal window now open: when it started, and the refused count then.
#[derive(Debug, Clone, Copy, PartialEq, Eq, Structural)]
pub struct RefusedWindow {
    pub from: Nanos,
    pub late: u64,
}

/// Playout is silence: the jitter buffer has not filled.
#[derive(Debug, Clone, Copy, PartialEq, Eq, Structural)]
pub struct SilenceReport {
    pub member: MemberId,
    pub depth_frames: usize,
    pub target_frames: usize,
    pub late: u64,
    pub reanchors: u64,
    pub silent_ms: u64,
}

/// Playout is concealing a gap: nothing arrived in time to play.
#[derive(Debug, Clone, Copy, PartialEq, Eq, Structural)]
pub struct GapReport {
    pub member: MemberId,
    pub gap_ms: u64,
    pub concealed: u64,
    pub refused: u64,
    pub reanchors: u64,
    pub depth_frames: usize,
    pub target_frames: usize,
}

/// Media is arriving and being refused: its timing and playout disagree.
#[derive(Debug, Clone, Copy, PartialEq, Eq, Structural)]
pub struct RefusedReport {
    pub member: MemberId,
    pub refused: u64,
    pub late: u64,
    pub depth_frames: usize,
    pub target_frames: usize,
    pub reanchors: u64,
}

/// What one tick gave the log to say about playout.
#[derive(Debug, Clone, Copy, PartialEq, Eq, Structural)]
pub struct PlayoutReports {
    pub silence: Option<SilenceReport>,
    pub gap: Option<GapReport>,
    pub refused: Option<RefusedReport>,
}

/// Watches the local jitter buffer for the three faults that leave a connected
/// session sounding broken and show up nowhere else: playout handing out zeros
/// because the buffer never filled, playout concealing a gap long enough to
/// hear, and frames arriving only to be refused.
///
/// Each is reported once per episode: at 2.5 ms a tick, a report per tick would
/// put hundreds of lines a second in a file people mail in.
#[derive(Debug, Clone, Copy, PartialEq, Eq, Structural)]
pub struct PlayoutWatch {
    /// Last tick's counters; the differences are what they mean here.
    pub prev: Option<JitterStats>,
    /// When the current run of silence began, and whether it has been said.
    pub silent_since: Option<Nanos>,
    pub silent_said: bool,
    /// The open run of concealed pulls, and whether it has been said.
    pub gap: Option<Gap>,
    pub gap_said: bool,
    pub refused_window: Option<RefusedWindow>,
    pub refused_said: bool,
}

/// A counter that went backward: a reconnect builds a fresh buffer, so this is
/// a new stream and not an event.
pub open spec fn restarted(prev: JitterStats, stats: JitterStats) -> bool {
    stats.pulled < prev.pulled || stats.late < prev.late || stats.lost < prev.lost || stats.waiting
        < prev.waiting
}

/// Zeros went out since the last tick and nothing playable did.
pub open spec fn silent_tick(prev: JitterStats, stats: JitterStats) -> bool {
    stats.waiting > prev.waiting && stats.pulled == prev.pulled
}

/// Playout moved on since the last tick, and every pull of it concealed.
pub open spec fn concealed_tick(prev: JitterStats, stats: JitterStats) -> bool {
    stats.pulled > prev.pulled && stats.lost - prev.lost == stats.pulled - prev.pulled
}

/// Playout moved on since the last tick, and some of it was real audio.
pub open spec fn played_tick(prev: JitterStats, stats: JitterStats) -> bool {
    stats.pulled > prev.pulled && stats.lost - prev.lost != stats.pulled - prev.pulled
}

impl PlayoutWatch {
    /// No open run reaches back past the counters last seen.
    pub open spec fn wf(self) -> bool {
        &&& self.gap matches Some(gap) ==> self.prev matches Some(prev) && gap.lost <= prev.lost
            && gap.late <= prev.late
        &&& self.refused_window matches Some(window) ==> self.prev matches Some(prev)
            && window.late <= prev.late
    }

    /// A watch that has seen nothing.
    pub open spec fn fresh() -> PlayoutWatch {
        PlayoutWatch {
            prev: None,
            silent_since: None,
            silent_said: false,
            gap: None,
            gap_said: false,
            refused_window: None,
            refused_said: false,
        }
    }

    /// The watch with every episode dropped.
    pub open spec fn forgotten(self) -> PlayoutWatch {
        PlayoutWatch {
            prev: self.prev,
            silent_since: None,
            silent_said: false,
            gap: None,
            gap_said: false,
            refused_window: None,
            refused_said: false,
        }
    }

    /// Whether this tick continues a stream that is being watched.
    pub open spec fn watching(self, joined_as: Option<MemberId>, stats: JitterStats) -> bool {
        joined_as is Some && (self.prev matches Some(prev) && !restarted(prev, stats))
    }

    pub open spec fn silent_from(self, now: Nanos, stats: JitterStats) -> Option<Nanos> {
        if !silent_tick(self.prev->0, stats) {
            None
        } else if self.silent_since is Some {
            self.silent_since
        } else {
            Some(now)
        }
    }

    /// The run of silence has lasted long enough to be said, and has not been.
    pub open spec fn silence_due(self, now: Nanos, stats: JitterStats) -> bool {
        !self.silent_said && (self.silent_from(now, stats) matches Some(from) && elapsed(now, from)
            >= SILENT_PLAYOUT_AFTER)
    }

    pub open spec fn gap_from(self, now: Nanos, stats: JitterStats) -> Option<Gap> {
        let prev = self.prev->0;
        if played_tick(prev, stats) {
            None
        } else if concealed_tick(prev, stats) && self.gap is None {
            Some(Gap { since: now, lost: prev.lost, late: prev.late })
        } else {
            self.gap
        }
    }

    /// The concealed run has lasted long enough to be said, and has not been.
    pub open spec fn gap_due(self, now: Nanos, stats: JitterStats) -> bool {
        !self.gap_said && (self.gap_from(now, stats) matches Some(gap) && elapsed(now, gap.since)
            >= CONCEALED_GAP_AFTER)
    }

    /// The refusal window has run its length.
    pub open spec fn window_over(self, now: Nanos) -> bool {
        self.refused_window matches Some(window) && elapsed(now, window.from) >= REFUSED_WINDOW
    }

    /// The window that is over refused more frames than a network drops.
    pub open spec fn refusing(self, stats: JitterStats) -> bool {
        stats.late - self.refused_window->0.late >= REFUSED_WINDOW_LIMIT
    }

    /// The watch after one tick.
    pub open spec fn after(
        self,
        now: Nanos,
        joined_as: Option<MemberId>,
        stats: JitterStats,
    ) -> PlayoutWatch {
        let seen = PlayoutWatch { prev: Some(stats), ..self };
        if joined_as is Some && self.prev is None {
            seen
        } else if !self.watching(joined_as, stats) {
            seen.forgotten()
        } else {
            PlayoutWatch {
                prev: Some(stats),
                silent_since: self.silent_from(now, stats),
                silent_said: silent_tick(self.prev->0, stats) && (self.silent_said
                    || self.silence_due(now, stats)),
                gap: self.gap_from(now, stats),
                gap_said: !played_tick(self.prev->0, stats) && (self.gap_said || self.gap_due(
                    now,
                    stats,
                )),
                refused_window: if self.refused_window is None || self.window_over(now) {
                    Some(RefusedWindow { from: now, late: stats.late })
                } else {
                    self.refused_window
                },
                refused_said: if self.window_over(now) {
                    self.refusing(stats)
                } else {
                    self.refused_said
                },
            }
        }
    }

    /// What one tick gives the log to say.
    pub open spec fn says(
        self,
        now: Nanos,
        joined_as: Option<MemberId>,
        stats: JitterStats,
    ) -> PlayoutReports {
        if !self.watching(joined_as, stats) {
            PlayoutReports { silence: None, gap: None, refused: None }
        } else {
            let member = joined_as->0;
            PlayoutReports {
                silence: if self.silence_due(now, stats) {
                    Some(
                        SilenceReport {
                            member,
                            depth_frames: stats.depth_frames,
                            target_frames: stats.target_frames,
                            late: stats.late,
                            reanchors: stats.reanchors,
                            silent_ms: (elapsed(now, self.silent_from(now, stats)->0)
                                / MILLISECOND as int) as u64,
                        },
                    )
                } else {
                    None
                },
                gap: if self.gap_due(now, stats) {
                    let gap = self.gap_from(now, stats)->0;
                    Some(
                        GapReport {
                            member,
                            gap_ms: (elapsed(now, gap.since) / MILLISECOND as int) as u64,
                            concealed: (stats.lost - gap.lost) as u64,
                            refused: (stats.late - gap.late) as u64,
                            reanchors: stats.reanchors,
                            depth_frames: stats.depth_frames,
                            target_frames: stats.target_frames,
                        },
                    )
                } else {
                    None
                },
                refused: if self.window_over(now) && self.refusing(stats) && !self.refused_said {
                    Some(
                        RefusedReport {
                            member,
                            refused: (stats.late - self.refused_window->0.late) as u64,
                            late: stats.late,
                            depth_frames: stats.depth_frames,
                            target_frames: stats.target_frames,
                            reanchors: stats.reanchors,
                        },
                    )
                } else {
                    None
                },
            }
        }
    }

    /// One tick's worth of observation. `joined_as` is the member this client
    /// is joined as, and `None` whenever it is not joined: before the session
    /// is up nothing is arriving yet, and silence then is the connection's
    /// story to tell.
    pub fn observe(
        &mut self,
        now: Nanos,
        joined_as: Option<MemberId>,
        stats: JitterStats,
    ) -> (reports: PlayoutReports)
        requires
            old(self).wf(),
        ensures
            final(self).wf(),
            *final(self) == old(self).after(now, joined_as, stats),
            reports == old(self).says(now, joined_as, stats),
            final(self).prev == Some(stats),
            reports.silence matches Some(r) ==> joined_as == Some(r.member) && r.depth_frames
                == stats.depth_frames && r.target_frames == stats.target_frames && r.late
                == stats.late && r.reanchors == stats.reanchors && final(self).silent_since is Some
                && r.silent_ms == elapsed(now, final(self).silent_since->0) / 1_000_000
                && r.silent_ms >= 1_000,
            reports.gap matches Some(r) ==> joined_as == Some(r.member) && r.depth_frames
                == stats.depth_frames && r.target_frames == stats.target_frames && r.reanchors
                == stats.reanchors && final(self).gap is Some && r.gap_ms == elapsed(
                now,
                final(self).gap->0.since,
            ) / 1_000_000 && r.gap_ms >= 250 && r.concealed == stats.lost - final(self).gap->0.lost && r.refused == stats.late - final(self).gap->0.late,
            reports.refused matches Some(r) ==> joined_as == Some(r.member) && r.depth_frames
                == stats.depth_frames && r.target_frames == stats.target_frames && r.reanchors
                == stats.reanchors && r.late == stats.late && old(self).refused_window is Some
                && r.refused == stats.late - old(self).refused_window->0.late && r.refused >= 200,
    {
        let mut reports = PlayoutReports { silence: None, gap: None, refused: None };
        let before = self.prev;
        self.prev = Some(stats);
        let member = match joined_as {
            Some(member) => member,
            None => {
                self.forget();
                return reports;
            },
        };
        let prev = match before {
            Some(prev) => prev,
            None => {
                return reports;
            },
        };
        if stats.pulled < prev.pulled || stats.late < prev.late || stats.lost < prev.lost
            || stats.waiting < prev.waiting {
            self.forget();
            return reports;
        }
        // Zeros went out and nothing playable did: the buffer has not filled.

        if stats.waiting > prev.waiting && stats.pulled == prev.pulled {
            let from: u64 = match self.silent_since {
                Some(from) => from,
                None => now,
            };
            self.silent_since = Some(from);
            let held: u64 = since(now, from);
            if !self.silent_said && held >= SILENT_PLAYOUT_AFTER {
                self.silent_said = true;
                reports.silence = Some(
                    SilenceReport {
                        member,
                        depth_frames: stats.depth_frames,
                        target_frames: stats.target_frames,
                        late: stats.late,
                        reanchors: stats.reanchors,
                        silent_ms: held / MILLISECOND,
                    },
                );
            }
        } else {
            self.silent_since = None;
            self.silent_said = false;
        }
        // Every pull since the last tick concealed, so what went out was the
        // decoder inventing audio the stream did not carry. A tick that pulled
        // nothing holds the run open rather than ending it: a growth hold
        // conceals too, and a re-anchored buffer plays nothing while it
        // refills.

        let pulled: u64 = stats.pulled - prev.pulled;
        if pulled > 0 {
            if stats.lost - prev.lost == pulled {
                if self.gap.is_none() {
                    self.gap = Some(Gap { since: now, lost: prev.lost, late: prev.late });
                }
            } else {
                self.gap = None;
                self.gap_said = false;
            }
        }
        if let Some(gap) = self.gap {
            let held: u64 = since(now, gap.since);
            if !self.gap_said && held >= CONCEALED_GAP_AFTER {
                self.gap_said = true;
                reports.gap = Some(
                    GapReport {
                        member,
                        gap_ms: held / MILLISECOND,
                        concealed: stats.lost - gap.lost,
                        refused: stats.late - gap.late,
                        reanchors: stats.reanchors,
                        depth_frames: stats.depth_frames,
                        target_frames: stats.target_frames,
                    },
                );
            }
        }
        match self.refused_window {
            None => {
                self.refused_window = Some(RefusedWindow { from: now, late: stats.late });
            },
            Some(window) => {
                if since(now, window.from) >= REFUSED_WINDOW {
                    let refused: u64 = stats.late - window.late;
                    if refused < REFUSED_WINDOW_LIMIT {
                        self.refused_said = false;
                    } else if !self.refused_said {
                        self.refused_said = true;
                        reports.refused = Some(
                            RefusedReport {
                                member,
                                refused,
                                late: stats.late,
                                depth_frames: stats.depth_frames,
                                target_frames: stats.target_frames,
                                reanchors: stats.reanchors,
                            },
                        );
                    }
                    self.refused_window = Some(RefusedWindow { from: now, late: stats.late });
                }
            },
        }
        reports
    }

    /// Drops every episode without saying anything: the stream this was
    /// watching is gone, and the next one starts its own.
    pub fn forget(&mut self)
        ensures
            *final(self) == old(self).forgotten(),
            final(self).prev == old(self).prev,
            final(self).silent_since is None && !final(self).silent_said,
            final(self).gap is None && !final(self).gap_said,
            final(self).refused_window is None && !final(self).refused_said,
    {
        self.silent_since = None;
        self.silent_said = false;
        self.gap = None;
        self.gap_said = false;
        self.refused_window = None;
        self.refused_said = false;
    }
}

impl Default for PlayoutWatch {
    fn default() -> (w: PlayoutWatch)
        ensures
            w.wf(),
            w == PlayoutWatch::fresh(),
            w.prev is None && w.silent_since is None && w.gap is None && w.refused_window is None,
            !w.silent_said && !w.gap_said && !w.refused_said,
    {
        PlayoutWatch {
            prev: None,
            silent_since: None,
            silent_said: false,
            gap: None,
            gap_said: false,
            refused_window: None,
            refused_said: false,
        }
    }
}

/// One tick of what [`PlayoutWatch`] is handed.
pub struct PlayoutTick {
    pub now: Nanos,
    pub joined_as: Option<MemberId>,
    pub stats: JitterStats,
}

/// The watch after a run of ticks.
pub open spec fn playout_run(w: PlayoutWatch, ticks: Seq<PlayoutTick>) -> PlayoutWatch
    decreases ticks.len(),
{
    if ticks.len() == 0 {
        w
    } else {
        let t = ticks.last();
        playout_run(w, ticks.drop_last()).after(t.now, t.joined_as, t.stats)
    }
}

/// What the last tick of a run gives the log to say.
pub open spec fn playout_says(w: PlayoutWatch, ticks: Seq<PlayoutTick>) -> PlayoutReports {
    let t = ticks.last();
    playout_run(w, ticks.drop_last()).says(t.now, t.joined_as, t.stats)
}

/// Whether every tick of a run hands out zeros and nothing else, on a stream
/// that carries on from the counters before it.
pub open spec fn silent_throughout(w: PlayoutWatch, ticks: Seq<PlayoutTick>) -> bool
    decreases ticks.len(),
{
    ticks.len() == 0 || {
        let before = playout_run(w, ticks.drop_last());
        &&& silent_throughout(w, ticks.drop_last())
        &&& before.watching(ticks.last().joined_as, ticks.last().stats)
        &&& silent_tick(before.prev->0, ticks.last().stats)
    }
}

/// Whether no tick of a run plays real audio, on a stream that carries on from
/// the counters before it.
pub open spec fn unplayed_throughout(w: PlayoutWatch, ticks: Seq<PlayoutTick>) -> bool
    decreases ticks.len(),
{
    ticks.len() == 0 || {
        let before = playout_run(w, ticks.drop_last());
        &&& unplayed_throughout(w, ticks.drop_last())
        &&& before.watching(ticks.last().joined_as, ticks.last().stats)
        &&& !played_tick(before.prev->0, ticks.last().stats)
    }
}

/// A client that is not joined has nothing said about it, and a counter that
/// went backward is a new stream rather than an event. Either way nothing of
/// the episodes before is left.
pub proof fn a_stream_that_is_not_watched_says_nothing(
    w: PlayoutWatch,
    now: Nanos,
    joined_as: Option<MemberId>,
    stats: JitterStats,
)
    requires
        joined_as is None || (w.prev matches Some(prev) && restarted(prev, stats)),
    ensures
        w.says(now, joined_as, stats) == (PlayoutReports { silence: None, gap: None, refused: None }),
        w.after(now, joined_as, stats) == (PlayoutWatch { prev: Some(stats), ..w.forgotten() }),
{
}

/// Silence is said once: after a report, no tick of the same unbroken run of
/// silence is reported again.
pub proof fn a_run_of_silence_is_said_once(w: PlayoutWatch, ticks: Seq<PlayoutTick>)
    requires
        w.silent_said,
        silent_throughout(w, ticks),
    ensures
        playout_run(w, ticks).silent_said,
        ticks.len() > 0 ==> playout_says(w, ticks).silence is None,
    decreases ticks.len(),
{
    if ticks.len() > 0 {
        a_run_of_silence_is_said_once(w, ticks.drop_last());
    }
}

/// A dropout is said once: after a report, nothing is reported again until
/// real audio has played.
pub proof fn a_dropout_is_said_once(w: PlayoutWatch, ticks: Seq<PlayoutTick>)
    requires
        w.gap_said,
        unplayed_throughout(w, ticks),
    ensures
        playout_run(w, ticks).gap_said,
        ticks.len() > 0 ==> playout_says(w, ticks).gap is None,
    decreases ticks.len(),
{
    if ticks.len() > 0 {
        a_dropout_is_said_once(w, ticks.drop_last());
    }
}

/// A tick that plays real audio ends a dropout, and a tick that plays anything
/// or writes no zeros ends a silence, so the next one is an episode of its own.
pub proof fn recovery_ends_the_episode(
    w: PlayoutWatch,
    now: Nanos,
    joined_as: Option<MemberId>,
    stats: JitterStats,
)
    requires
        w.watching(joined_as, stats),
    ensures
        played_tick(w.prev->0, stats) ==> !w.after(now, joined_as, stats).gap_said && w.after(
            now,
            joined_as,
            stats,
        ).gap is None,
        !silent_tick(w.prev->0, stats) ==> !w.after(now, joined_as, stats).silent_said && w.after(
            now,
            joined_as,
            stats,
        ).silent_since is None,
{
}

/// A stream that plays real audio on every tick and refuses fewer frames in
/// each window than the limit has nothing said about it.
pub proof fn a_healthy_tick_says_nothing(
    w: PlayoutWatch,
    now: Nanos,
    joined_as: Option<MemberId>,
    stats: JitterStats,
)
    requires
        w.watching(joined_as, stats),
        played_tick(w.prev->0, stats),
        w.refused_window is Some ==> !w.refusing(stats),
    ensures
        w.says(now, joined_as, stats) == (PlayoutReports { silence: None, gap: None, refused: None }),
{
}

/// Whether a tick carries a stream on: no counter of it has gone back.
pub open spec fn carries_on(before: JitterStats, now: JitterStats) -> bool {
    before.pulled <= now.pulled && before.lost <= now.lost && before.late <= now.late
        && before.waiting <= now.waiting
}

/// A tick on which zeros went out and nothing was played holds a silence open
/// from the first such tick, and it is said on the first tick that finds it a
/// second old; any other tick ends it.
pub proof fn silence_is_said_when_it_is_a_second_old(
    w: PlayoutWatch,
    now: Nanos,
    member: MemberId,
    before: JitterStats,
    stats: JitterStats,
)
    requires
        w.prev == Some(before),
        carries_on(before, stats),
    ensures
        ({
            let next = w.after(now, Some(member), stats);
            let said = w.says(now, Some(member), stats).silence;
            let silent = stats.waiting > before.waiting && stats.pulled == before.pulled;
            let from = if w.silent_since is Some {
                w.silent_since->0
            } else {
                now
            };
            let due = now - from >= 1_000_000_000;
            &&& silent ==> next.silent_since == Some(from)
            &&& silent ==> (said is Some <==> due && !w.silent_said)
            &&& silent ==> (next.silent_said <==> due || w.silent_said)
            &&& !silent ==> next.silent_since is None && !next.silent_said && said is None
        }),
{
}

/// A tick whose every pull concealed opens a dropout at the counters before
/// it, a tick that pulled nothing holds it open, and a tick that played
/// anything ends it. It is said on the first tick that finds it a quarter of a
/// second old.
pub proof fn a_dropout_is_said_when_it_is_a_quarter_second_old(
    w: PlayoutWatch,
    now: Nanos,
    member: MemberId,
    before: JitterStats,
    stats: JitterStats,
)
    requires
        w.prev == Some(before),
        carries_on(before, stats),
    ensures
        ({
            let next = w.after(now, Some(member), stats);
            let said = w.says(now, Some(member), stats).gap;
            let pulled = stats.pulled - before.pulled;
            let concealed = stats.lost - before.lost;
            &&& pulled > 0 && concealed != pulled ==> next.gap is None && !next.gap_said && said
                is None
            &&& pulled == 0 ==> next.gap == w.gap
            &&& pulled > 0 && concealed == pulled && w.gap is None ==> next.gap == Some(
                Gap { since: now, lost: before.lost, late: before.late },
            )
            &&& pulled > 0 && concealed == pulled && w.gap is Some ==> next.gap == w.gap
            &&& pulled == 0 || concealed == pulled ==> ({
                let due = next.gap is Some && now - next.gap->0.since >= 250_000_000;
                &&& said is Some <==> due && !w.gap_said
                &&& next.gap_said <==> due || w.gap_said
            })
        }),
{
}

/// Refused frames are counted a second at a time, from the tick that opens the
/// window. A window that closes on two hundred or more is said, once until one
/// closes on fewer.
pub proof fn refusals_are_said_once_until_they_stop(
    w: PlayoutWatch,
    now: Nanos,
    member: MemberId,
    before: JitterStats,
    stats: JitterStats,
)
    requires
        w.prev == Some(before),
        carries_on(before, stats),
    ensures
        ({
            let next = w.after(now, Some(member), stats);
            let said = w.says(now, Some(member), stats).refused;
            &&& w.refused_window is None ==> next.refused_window == Some(
                RefusedWindow { from: now, late: stats.late },
            ) && next.refused_said == w.refused_said && said is None
            &&& w.refused_window matches Some(window) ==> ({
                let over = now - window.from >= 1_000_000_000;
                let many = stats.late - window.late >= 200;
                &&& !over ==> next.refused_window == w.refused_window && next.refused_said
                    == w.refused_said && said is None
                &&& over ==> next.refused_window == Some(
                    RefusedWindow { from: now, late: stats.late },
                )
                &&& over ==> next.refused_said == many
                &&& over ==> (said is Some <==> many && !w.refused_said)
            })
        }),
{
}

/// A counter that went back is a new stream, whichever of them it was, and a
/// client that is not joined has none: every episode is dropped unsaid and the
/// counters are remembered.
pub proof fn a_counter_that_goes_back_is_a_new_stream(
    w: PlayoutWatch,
    now: Nanos,
    joined_as: Option<MemberId>,
    before: JitterStats,
    stats: JitterStats,
)
    requires
        w.prev == Some(before),
        joined_as is None || !carries_on(before, stats),
    ensures
        ({
            let next = w.after(now, joined_as, stats);
            let said = w.says(now, joined_as, stats);
            &&& said.silence is None && said.gap is None && said.refused is None
            &&& next.prev == Some(stats)
            &&& next.silent_since is None && !next.silent_said
            &&& next.gap is None && !next.gap_said
            &&& next.refused_window is None && !next.refused_said
        }),
{
}

/// The first tick of a joined client has nothing to be held against: it is
/// remembered, and nothing is said of it.
pub proof fn a_first_tick_is_only_remembered(
    w: PlayoutWatch,
    now: Nanos,
    member: MemberId,
    stats: JitterStats,
)
    requires
        w.prev is None,
    ensures
        w.says(now, Some(member), stats) == (PlayoutReports {
            silence: None,
            gap: None,
            refused: None,
        }),
        w.after(now, Some(member), stats) == (PlayoutWatch { prev: Some(stats), ..w }),
{
}

// ---------------------------------------------------------------- downlink

/// Window the downlink's loss rate is measured over: the server's own report
/// interval, because the bar shows the two directions side by side and rates
/// over unequal windows would not be comparable.
pub const DOWNLINK_LOSS_WINDOW: u64 = SECOND;

/// When the window now filling opened, and the counters as they stood.
#[derive(Debug, Clone, Copy, PartialEq, Eq, Structural)]
pub struct LossFrom {
    pub at: Nanos,
    pub stats: JitterStats,
}

/// The counters at both ends of a window that has just closed.
#[derive(Debug, Clone, Copy, PartialEq, Eq, Structural)]
pub struct LossSpan {
    pub from: JitterStats,
    pub to: JitterStats,
}

/// The downlink's loss as a rate over the last closed window, from the local
/// jitter buffer's counters: the audio this machine did not play, next to the
/// uplink figure the server sends for the audio the band did not hear.
///
/// A rate, not a ratio since joining. A lifetime ratio only comes down at the
/// frame clock, so one bad moment early keeps the readout high for the rest of
/// the session while the link is healthy.
#[derive(Debug, Clone, Copy, PartialEq, Eq, Structural)]
pub struct DownlinkLoss {
    pub from: Option<LossFrom>,
    /// The last closed window's rate. `None` until one closes, and again
    /// whenever the buffer is rebuilt, which reads as no figure rather than a
    /// figure for a window that never existed.
    pub pct: Option<Single>,
}

impl Default for DownlinkLoss {
    fn default() -> (d: DownlinkLoss)
        ensures
            d == (DownlinkLoss { from: None, pct: None }),
    {
        DownlinkLoss { from: None, pct: None }
    }
}

impl DownlinkLoss {
    /// Whether a tick closes the window now filling.
    pub open spec fn closes(self, now: Nanos, joined: bool) -> bool {
        joined && (self.from matches Some(from) && elapsed(now, from.at) >= DOWNLINK_LOSS_WINDOW)
    }

    /// The watcher after one tick, before the rate of a window that tick closed
    /// has been taken.
    pub open spec fn after(self, now: Nanos, joined: bool, stats: JitterStats) -> DownlinkLoss {
        DownlinkLoss {
            from: if !joined {
                None
            } else if self.from is None || self.closes(now, joined) {
                Some(LossFrom { at: now, stats })
            } else {
                self.from
            },
            pct: if joined {
                self.pct
            } else {
                None
            },
        }
    }

    /// One tick's worth of observation. Nothing is owed to a client that is not
    /// in a session, so there is no rate to report either. A window that closes
    /// here comes back to be measured, and [`DownlinkLoss::measured`] takes the
    /// rate; until then the rate standing is the one of the window before.
    pub fn observe(&mut self, now: Nanos, joined: bool, stats: JitterStats) -> (span: Option<
        LossSpan,
    >)
        ensures
            span == (if old(self).closes(now, joined) {
                Some(LossSpan { from: old(self).from->0.stats, to: stats })
            } else {
                None
            }),
            *final(self) == old(self).after(now, joined, stats),
            !joined ==> final(self).from is None && final(self).pct is None && span is None,
            joined ==> final(self).pct == old(self).pct,
            joined && old(self).from is None ==> final(self).from == Some(
                LossFrom { at: now, stats },
            ) && span is None,
            joined && old(self).from is Some ==> ({
                let from = old(self).from->0;
                if now - from.at >= 1_000_000_000 {
                    span == Some(LossSpan { from: from.stats, to: stats }) && final(self).from
                        == Some(LossFrom { at: now, stats })
                } else {
                    span is None && final(self).from == old(self).from
                }
            }),
    {
        if !joined {
            self.from = None;
            self.pct = None;
            return None;
        }
        match self.from {
            None => {
                self.from = Some(LossFrom { at: now, stats });
                None
            },
            Some(from) => {
                if since(now, from.at) >= DOWNLINK_LOSS_WINDOW {
                    self.from = Some(LossFrom { at: now, stats });
                    Some(LossSpan { from: from.stats, to: stats })
                } else {
                    None
                }
            },
        }
    }

    /// Takes the rate of the window that [`DownlinkLoss::observe`] closed.
    pub fn measured(&mut self, pct: Option<Single>)
        ensures
            *final(self) == (DownlinkLoss { from: old(self).from, pct }),
    {
        self.pct = pct;
    }

    /// The rate to publish: the last closed window's, for as long as the next
    /// one is filling.
    pub fn published(&self) -> (pct: Option<Single>)
        ensures
            pct == self.pct,
    {
        self.pct
    }
}

// -------------------------------------------------------------------- rings

/// Wait before the ring counters are reported again, and the ceiling that wait
/// doubles to. A burst at open is then one line, while a ring that keeps
/// dropping says so for as long as it does without filling the file.
pub const RING_REPORT_AGAIN: u64 = SECOND;
pub const RING_REPORT_MAX: u64 = 60 * SECOND;
/// Underruns inside this window that mark a run as crackling, and the window
/// a run of them has to hold inside. One underrun alone is what opening a
/// stream costs; a floor of three sits above that and below the five a
/// crackling run took in ninety seconds on real hardware. The same window
/// closes a run out again.
pub const CRACKLE_EPISODE_COUNT: u64 = 3;
pub const CRACKLE_EPISODE_WINDOW: u64 = 90 * SECOND;
/// Streams that stopped on their own inside this window for the device to read
/// as cutting out, and the window they have to bunch up inside. A machine
/// coming out of sleep or handing a device between apps spends two of them;
/// three inside three minutes is a hole a minute, which no device a band can
/// play through produces.
pub const CUTTING_OUT_COUNT: u64 = 3;
pub const CUTTING_OUT_WINDOW: u64 = 180 * SECOND;
/// Window the playout low water mark covers. The bridge tracks the minimum
/// since it was last read and reading resets it, so this is how often it is
/// read.
pub const PLAYOUT_LOW_WINDOW: u64 = SECOND;

/// A total as a report carried it, and when that report went out.
#[derive(Debug, Clone, Copy, PartialEq, Eq, Structural)]
pub struct Said {
    pub total: u64,
    pub at: Nanos,
}

/// One counter's reporting state: the first movement is reported at once, then
/// again on a doubling wait for as long as the count keeps climbing.
#[derive(Debug, Clone, Copy, PartialEq, Eq, Structural)]
pub struct CounterWatch {
    pub said: Option<Said>,
    /// The wait owed before this counter is reported again.
    pub wait: Nanos,
}

impl Default for CounterWatch {
    fn default() -> (w: CounterWatch)
        ensures
            w == (CounterWatch { said: None, wait: 0 }),
            w.wf(),
    {
        CounterWatch { said: None, wait: 0 }
    }
}

impl CounterWatch {
    pub open spec fn wf(self) -> bool {
        self.wait <= RING_REPORT_MAX
    }

    /// The total the reports so far add up to.
    pub open spec fn reported(self) -> int {
        match self.said {
            Some(said) => said.total as int,
            None => 0,
        }
    }

    /// Whether `total` earns a report at `now`.
    pub open spec fn earns(self, now: Nanos, total: u64) -> bool {
        match self.said {
            None => total > 0,
            Some(said) => total > 0 && total > said.total && elapsed(now, said.at) >= self.wait,
        }
    }

    /// The wait after a report: the base after the first, twice as long after
    /// each one that follows, to the ceiling.
    pub open spec fn next_wait(self) -> int {
        if self.said is None {
            RING_REPORT_AGAIN as int
        } else if 2 * self.wait < RING_REPORT_MAX {
            2 * self.wait
        } else {
            RING_REPORT_MAX as int
        }
    }

    /// The watch after it has been shown `total` at `now`.
    pub open spec fn after(self, now: Nanos, total: u64) -> CounterWatch {
        if self.earns(now, total) {
            CounterWatch { said: Some(Said { total, at: now }), wait: self.next_wait() as u64 }
        } else {
            self
        }
    }

    /// The count a report at `now` carries: what has been added since the last.
    pub open spec fn carries(self, now: Nanos, total: u64) -> Option<u64> {
        if self.earns(now, total) {
            Some((total - self.reported()) as u64)
        } else {
            None
        }
    }

    /// Whether `total` earns a report now, and the count it carries.
    pub fn due(&mut self, now: Nanos, total: u64) -> (count: Option<u64>)
        requires
            old(self).wf(),
        ensures
            final(self).wf(),
            *final(self) == old(self).after(now, total),
            count == old(self).carries(now, total),
    {
        if total == 0 {
            return None;
        }
        match self.said {
            None => {
                self.said = Some(Said { total, at: now });
                self.wait = RING_REPORT_AGAIN;
                Some(total)
            },
            Some(said) => {
                if total > said.total && since(now, said.at) >= self.wait {
                    self.said = Some(Said { total, at: now });
                    self.wait = if self.wait * 2 < RING_REPORT_MAX {
                        self.wait * 2
                    } else {
                        RING_REPORT_MAX
                    };
                    Some(total - said.total)
                } else {
                    None
                }
            },
        }
    }
}

/// A counter as it stood at one moment.
#[derive(Debug, Clone, Copy, PartialEq, Eq, Structural)]
pub struct Count {
    pub now: Nanos,
    pub total: u64,
}

/// The watch after a run of readings.
pub open spec fn counter_run(w: CounterWatch, counts: Seq<Count>) -> CounterWatch
    decreases counts.len(),
{
    if counts.len() == 0 {
        w
    } else {
        counter_run(w, counts.drop_last()).after(counts.last().now, counts.last().total)
    }
}

/// What the reports of a run of readings add up to.
pub open spec fn counts_reported(w: CounterWatch, counts: Seq<Count>) -> int
    decreases counts.len(),
{
    if counts.len() == 0 {
        0
    } else {
        let before = counter_run(w, counts.drop_last());
        counts_reported(w, counts.drop_last()) + match before.carries(
            counts.last().now,
            counts.last().total,
        ) {
            Some(count) => count as int,
            None => 0,
        }
    }
}

/// Every drop is accounted for across the reports and none is counted twice:
/// what a fresh watch has reported adds up to the total on its last report.
pub proof fn the_reports_add_up_to_the_total(counts: Seq<Count>)
    ensures
        counts_reported(CounterWatch { said: None, wait: 0 }, counts) == counter_run(
            CounterWatch { said: None, wait: 0 },
            counts,
        ).reported(),
    decreases counts.len(),
{
    if counts.len() > 0 {
        the_reports_add_up_to_the_total(counts.drop_last());
    }
}

/// A counter that has stopped moving is never reported again.
pub proof fn a_counter_that_stands_still_says_nothing(w: CounterWatch, now: Nanos, total: u64)
    requires
        w.said matches Some(said) && total <= said.total,
    ensures
        w.carries(now, total) is None,
        w.after(now, total) == w,
{
}

/// The first movement is reported at once and whole. After that a counter that
/// has climbed is reported when the wait is over, with what it climbed by; the
/// wait is a second after the first report and twice as long after each one
/// that follows, to a minute.
pub proof fn a_climbing_counter_is_reported_on_a_doubling_wait(
    w: CounterWatch,
    now: Nanos,
    total: u64,
)
    requires
        w.wf(),
    ensures
        ({
            let next = w.after(now, total);
            let count = w.carries(now, total);
            &&& w.said is None && total > 0 ==> count == Some(total) && next.wait == 1_000_000_000
            &&& total == 0 ==> count is None
            &&& w.said matches Some(said) ==> (count is Some <==> total > said.total && (now
                - said.at >= w.wait || w.wait == 0))
            &&& w.said matches Some(said) ==> (count matches Some(n) ==> n == total - said.total
                && next.wait == (if 2 * w.wait < 60_000_000_000 {
                2 * w.wait
            } else {
                60_000_000_000
            }))
            &&& count is Some ==> next.said == Some(Said { total, at: now })
            &&& count is None ==> next == w
        }),
{
}

/// When a run of increments began, and the total as it stood before it.
#[derive(Debug, Clone, Copy, PartialEq, Eq, Structural)]
pub struct Run {
    pub from: Nanos,
    pub base: u64,
}

/// Whether a counter is climbing densely enough for the person playing to
/// have noticed. A window that reaches `count` fresh increments turns the
/// state on; a window that runs out first without reaching it starts over, so
/// a slow drip that never bunches up inside one window never turns it on at
/// all. Once on, the same window without a fresh increment turns it back off,
/// so the state reads as "is this happening now" rather than "has it ever".
///
/// Two conditions ride on it: the playout ring's underruns, whose counter
/// belongs to a ring and starts again with each stream, and the device
/// streams that stopped on their own, whose counter runs for the session.
#[derive(Debug, Clone, Copy, PartialEq, Eq, Structural)]
pub struct EpisodeWatch {
    /// Fresh increments inside `window` that turn the state on.
    pub count: u64,
    /// Both the window a run has to bunch up inside and the quiet that ends
    /// one.
    pub window: Nanos,
    pub prev: Option<u64>,
    /// The run building toward the floor. `None` once the floor is reached;
    /// there is nothing left to build toward while the state is already on.
    pub since: Option<Run>,
    /// The last tick a fresh increment landed, which is what an active run
    /// measures its own quiet against to decide when it is over.
    pub last: Option<Nanos>,
    pub active: bool,
}

impl EpisodeWatch {
    pub open spec fn wf(self) -> bool {
        &&& self.since matches Some(run) ==> self.prev matches Some(prev) && run.base <= prev
        &&& self.active ==> self.since is None && self.last is Some
    }

    /// The counter moved backward: a fresh one, whose run starts empty rather
    /// than continuing the old one.
    pub open spec fn restarts(self, total: u64) -> bool {
        self.prev matches Some(prev) && total < prev
    }

    pub open spec fn fresh(self, total: u64) -> bool {
        self.prev matches Some(prev) && total > prev
    }

    /// The run building has outlasted the window without reaching the floor.
    pub open spec fn stale(self, now: Nanos) -> bool {
        self.since matches Some(run) && elapsed(now, run.from) > self.window
    }

    /// The run a fresh increment belongs to: the one building, or one of its
    /// own when none is building or the one that was has run out.
    pub open spec fn building(self, now: Nanos) -> Run {
        if self.since is None || self.stale(now) {
            Run { from: now, base: self.prev->0 }
        } else {
            self.since->0
        }
    }

    /// The state after the counter has been seen at `total`.
    pub open spec fn after(self, now: Nanos, total: u64) -> EpisodeWatch {
        if self.restarts(total) {
            EpisodeWatch { prev: Some(total), since: None, last: None, active: false, ..self }
        } else {
            let last = if self.fresh(total) {
                Some(now)
            } else {
                self.last
            };
            if self.active {
                EpisodeWatch {
                    prev: Some(total),
                    last,
                    active: elapsed(now, last->0) < self.window,
                    ..self
                }
            } else if !self.fresh(total) {
                EpisodeWatch {
                    prev: Some(total),
                    since: if self.stale(now) {
                        None
                    } else {
                        self.since
                    },
                    ..self
                }
            } else {
                let run = self.building(now);
                let reached = total - run.base >= self.count;
                EpisodeWatch {
                    prev: Some(total),
                    since: if reached {
                        None
                    } else {
                        Some(run)
                    },
                    last,
                    active: reached,
                    ..self
                }
            }
        }
    }

    pub fn new(count: u64, window: Nanos) -> (w: EpisodeWatch)
        ensures
            w == (EpisodeWatch { count, window, prev: None, since: None, last: None, active: false }),
            w.wf(),
    {
        EpisodeWatch { count, window, prev: None, since: None, last: None, active: false }
    }

    /// Whether the run is open as of this tick, against the counter's total
    /// now.
    pub fn observe(&mut self, now: Nanos, total: u64) -> (open: bool)
        requires
            old(self).wf(),
        ensures
            final(self).wf(),
            *final(self) == old(self).after(now, total),
            open == final(self).active,
    {
        let before = self.prev;
        self.prev = Some(total);
        let (behind, fresh) = match before {
            Some(prev) => (total < prev, total > prev),
            None => (false, false),
        };
        if behind {
            self.since = None;
            self.last = None;
            self.active = false;
            return false;
        }
        if fresh {
            self.last = Some(now);
        }
        if self.active {
            if let Some(last) = self.last {
                if since(now, last) >= self.window {
                    self.active = false;
                }
            }
            return self.active;
        }
        let stale = match self.since {
            Some(run) => since(now, run.from) > self.window,
            None => false,
        };
        if stale {
            // A window this old never reached the floor and is not worth
            // carrying forward.
            self.since = None;
        }
        if !fresh {
            return false;
        }
        if let Some(prev) = before {
            let run = match self.since {
                Some(run) => run,
                None => Run { from: now, base: prev },
            };
            if total - run.base >= self.count {
                self.active = true;
                self.since = None;
            } else {
                self.since = Some(run);
            }
        }
        self.active
    }
}

/// The watch after a run of readings.
pub open spec fn episode_run(w: EpisodeWatch, counts: Seq<Count>) -> EpisodeWatch
    decreases counts.len(),
{
    if counts.len() == 0 {
        w
    } else {
        episode_run(w, counts.drop_last()).after(counts.last().now, counts.last().total)
    }
}

/// Whether `count` increments or more fall between two readings that are no
/// more than `window` apart, counted from the reading before the first.
pub open spec fn bunched(counts: Seq<Count>, i: int, j: int, count: u64, window: Nanos) -> bool {
    elapsed(counts[j].now, counts[i].now) <= window && counts[j].total - counts[i - 1].total
        >= count
}

/// Whether no stretch the length of `window` holds `count` increments.
pub open spec fn never_bunched(counts: Seq<Count>, count: u64, window: Nanos) -> bool {
    forall|i: int, j: int|
        0 < i <= j < counts.len() ==> !#[trigger] bunched(counts, i, j, count, window)
}

/// Whether a run of increments began at the `i`th reading.
pub open spec fn begins(counts: Seq<Count>, i: int, run: Run) -> bool {
    0 < i < counts.len() && counts[i].now == run.from && counts[i - 1].total == run.base
}

/// A single increment never turns the state on where the floor is above one.
pub proof fn one_increment_is_no_episode(w: EpisodeWatch, now: Nanos, total: u64)
    requires
        !w.active,
        w.count > 1,
        w.since is None,
        w.prev matches Some(prev) && total <= prev + 1,
    ensures
        !w.after(now, total).active,
{
}

/// The state turns on exactly when a run reaches the floor inside one window,
/// the tick it does.
pub proof fn turning_on_takes_the_floor_inside_a_window(w: EpisodeWatch, now: Nanos, total: u64)
    requires
        w.wf(),
        !w.active,
        w.prev is Some,
    ensures
        w.after(now, total).active <==> w.fresh(total) && total - w.building(now).base >= w.count,
        elapsed(now, w.building(now).from) <= w.window,
{
}

/// An episode ends with a whole window without a fresh increment, and not
/// before.
pub proof fn an_episode_holds_until_a_quiet_window(w: EpisodeWatch, now: Nanos, total: u64)
    requires
        w.wf(),
        w.active,
        !w.restarts(total),
        w.window > 0,
    ensures
        w.fresh(total) ==> w.after(now, total).active,
        !w.fresh(total) ==> (w.after(now, total).active <==> elapsed(now, w.last->0) < w.window),
{
}

/// A slow drip never turns the state on: while no stretch the length of the
/// window holds `count` increments, a watch that starts fresh stays off.
pub proof fn a_slow_drip_is_no_episode(counts: Seq<Count>, count: u64, window: Nanos)
    requires
        count > 0,
        never_bunched(counts, count, window),
    ensures
        !episode_run(
            EpisodeWatch { count, window, prev: None, since: None, last: None, active: false },
            counts,
        ).active,
{
    lemma_a_run_begins_at_a_reading(counts, count, window);
}

proof fn lemma_a_run_begins_at_a_reading(counts: Seq<Count>, count: u64, window: Nanos)
    requires
        count > 0,
        never_bunched(counts, count, window),
    ensures
        ({
            let w = episode_run(
                EpisodeWatch { count, window, prev: None, since: None, last: None, active: false },
                counts,
            );
            &&& w.count == count
            &&& w.window == window
            &&& !w.active
            &&& w.wf()
            &&& w.prev == (if counts.len() == 0 {
                None
            } else {
                Some(counts.last().total)
            })
            &&& w.since matches Some(run) ==> exists|i: int| #[trigger] begins(counts, i, run)
        }),
    decreases counts.len(),
{
    if counts.len() > 0 {
        let head = counts.drop_last();
        assert(never_bunched(head, count, window)) by {
            assert forall|i: int, j: int| 0 < i <= j < head.len() implies !#[trigger] bunched(
                head,
                i,
                j,
                count,
                window,
            ) by {
                assert(!bunched(counts, i, j, count, window));
            }
        }
        lemma_a_run_begins_at_a_reading(head, count, window);
        let w = episode_run(
            EpisodeWatch { count, window, prev: None, since: None, last: None, active: false },
            head,
        );
        let now = counts.last().now;
        let total = counts.last().total;
        let last = counts.len() - 1;
        if w.since is Some {
            let i = choose|i: int| #[trigger] begins(head, i, w.since->0);
            assert(begins(counts, i, w.since->0));
            assert(!bunched(counts, i, last, count, window));
        }
        if w.fresh(total) {
            assert(!bunched(counts, last, last, count, window));
            assert(begins(counts, last, Run { from: now, base: w.prev->0 }));
        }
    }
}

/// A run is counted from the total before its first increment and from the
/// moment of it; one that is older than the window gives way to a new one.
pub proof fn a_run_is_counted_from_its_first_increment(
    w: EpisodeWatch,
    now: Nanos,
    total: u64,
    prev: u64,
)
    requires
        w.wf(),
        w.prev == Some(prev),
        !w.active,
    ensures
        ({
            let next = w.after(now, total);
            let standing = w.since is Some && !(now - w.since->0.from > w.window);
            let base = if standing {
                w.since->0.base
            } else {
                prev
            };
            let from = if standing {
                w.since->0.from
            } else {
                now
            };
            &&& next.prev == Some(total)
            &&& next.count == w.count && next.window == w.window
            &&& total > prev ==> next.last == Some(now)
            &&& total > prev ==> (next.active <==> total - base >= w.count)
            &&& total > prev && !next.active ==> next.since == Some(Run { from, base })
            &&& next.active ==> next.since is None
            &&& total == prev ==> !next.active && next.last == w.last && next.since == (
            if standing {
                w.since
            } else {
                None
            })
            &&& total < prev ==> !next.active && next.since is None && next.last is None
        }),
{
}

/// An open run remembers its last increment, holds through one and until a
/// whole window has passed without, and is dropped by a counter that starts
/// over.
pub proof fn an_open_run_is_held_by_its_last_increment(
    w: EpisodeWatch,
    now: Nanos,
    total: u64,
    prev: u64,
)
    requires
        w.wf(),
        w.prev == Some(prev),
        w.active,
        w.window > 0,
    ensures
        ({
            let next = w.after(now, total);
            &&& next.prev == Some(total)
            &&& next.count == w.count && next.window == w.window
            &&& next.since is None
            &&& total > prev ==> next.active && next.last == Some(now)
            &&& total == prev ==> next.last == w.last && (next.active <==> now - w.last->0
                < w.window)
            &&& total < prev ==> !next.active && next.last is None
        }),
{
}

/// The first reading a watch is shown opens nothing.
pub proof fn a_first_reading_is_only_remembered(w: EpisodeWatch, now: Nanos, total: u64)
    requires
        w.prev is None,
        w.since is None,
        !w.active,
    ensures
        w.after(now, total) == (EpisodeWatch { prev: Some(total), ..w }),
{
}

/// The capture ring overflowed; captured audio was dropped.
#[derive(Debug, Clone, Copy, PartialEq, Eq, Structural)]
pub struct DroppedCapture {
    pub dropped: u64,
    pub overruns: u64,
    pub ring_frames: u32,
    pub up_ms: u64,
}

/// The playout ring ran dry; the device padded silence.
#[derive(Debug, Clone, Copy, PartialEq, Eq, Structural)]
pub struct PaddedPlayout {
    pub padded: u64,
    pub underruns: u64,
    pub ring_frames: u32,
    pub up_ms: u64,
}

/// What one tick says of the rings.
#[derive(Debug, Clone, Copy, PartialEq, Eq, Structural)]
pub struct RingReports {
    /// Whether the playout ring is in a crackling run as of this tick.
    pub crackling: bool,
    pub dropped: Option<DroppedCapture>,
    pub padded: Option<PaddedPlayout>,
}

/// A ring's counters at one moment.
#[derive(Debug, Clone, Copy, PartialEq, Eq, Structural)]
pub struct RingCounters {
    pub overruns: u64,
    pub underruns: u64,
    /// The fewest interleaved samples the playout ring has held since it was
    /// last asked; asking starts the count over, so it is asked only where
    /// [`RingWatch::reads_low_water`] says so. `None` where nothing rendered.
    pub low_water_samples: Option<usize>,
}

/// Reports the bridge's dropped-capture and padded-playout counters as the log
/// sees them, and samples the playout low water mark, which is the same
/// question asked before the damage instead of after: the counters say the
/// ring ran out, the water mark says how close it came.
#[derive(Debug, Clone, Copy, PartialEq, Eq, Structural)]
pub struct RingWatch {
    /// When the stream this watches opened; every report is dated from it.
    pub opened: Nanos,
    pub overruns: CounterWatch,
    pub underruns: CounterWatch,
    pub crackling: EpisodeWatch,
    /// The last closed window's low water mark in frames. `None` means no
    /// render callback ran inside it.
    pub low_water_frames: Option<usize>,
    /// When the window now filling opened.
    pub low_water_from: Nanos,
}

impl RingWatch {
    pub open spec fn wf(self) -> bool {
        &&& self.overruns.wf()
        &&& self.underruns.wf()
        &&& self.crackling.wf()
        &&& self.crackling.count == CRACKLE_EPISODE_COUNT
        &&& self.crackling.window == CRACKLE_EPISODE_WINDOW
    }

    /// Whether the low water window is over, so the mark is read now.
    pub open spec fn low_water_due(self, now: Nanos) -> bool {
        elapsed(now, self.low_water_from) >= PLAYOUT_LOW_WINDOW
    }

    /// The watch after one tick.
    pub open spec fn after(self, now: Nanos, ring: RingCounters) -> RingWatch {
        RingWatch {
            opened: self.opened,
            overruns: self.overruns.after(now, ring.overruns),
            underruns: self.underruns.after(now, ring.underruns),
            crackling: self.crackling.after(now, ring.underruns),
            low_water_frames: if !self.low_water_due(now) {
                self.low_water_frames
            } else {
                match ring.low_water_samples {
                    Some(samples) => Some((samples / (CHANNELS as usize)) as usize),
                    None => None,
                }
            },
            low_water_from: if self.low_water_due(now) {
                now
            } else {
                self.low_water_from
            },
        }
    }

    /// What one tick says.
    pub open spec fn says(self, now: Nanos, ring: RingCounters, ring_frames: u32) -> RingReports {
        let up_ms = (elapsed(now, self.opened) / MILLISECOND as int) as u64;
        RingReports {
            crackling: self.crackling.after(now, ring.underruns).active,
            dropped: match self.overruns.carries(now, ring.overruns) {
                Some(dropped) => Some(
                    DroppedCapture { dropped, overruns: ring.overruns, ring_frames, up_ms },
                ),
                None => None,
            },
            padded: match self.underruns.carries(now, ring.underruns) {
                Some(padded) => Some(
                    PaddedPlayout { padded, underruns: ring.underruns, ring_frames, up_ms },
                ),
                None => None,
            },
        }
    }

    /// The watch over a stream that has just opened.
    pub open spec fn fresh(opened: Nanos) -> RingWatch {
        RingWatch {
            opened,
            overruns: CounterWatch { said: None, wait: 0 },
            underruns: CounterWatch { said: None, wait: 0 },
            crackling: EpisodeWatch {
                count: CRACKLE_EPISODE_COUNT,
                window: CRACKLE_EPISODE_WINDOW,
                prev: None,
                since: None,
                last: None,
                active: false,
            },
            low_water_frames: None,
            low_water_from: opened,
        }
    }

    pub fn new(opened: Nanos) -> (w: RingWatch)
        ensures
            w.wf(),
            w == RingWatch::fresh(opened),
    {
        RingWatch {
            opened,
            overruns: CounterWatch::default(),
            underruns: CounterWatch::default(),
            crackling: EpisodeWatch::new(CRACKLE_EPISODE_COUNT, CRACKLE_EPISODE_WINDOW),
            low_water_frames: None,
            low_water_from: opened,
        }
    }

    /// Whether the ring is to be asked for its low water mark on this tick.
    pub fn reads_low_water(&self, now: Nanos) -> (b: bool)
        ensures
            b == self.low_water_due(now),
            b <==> now - self.low_water_from >= 1_000_000_000,
    {
        since(now, self.low_water_from) >= PLAYOUT_LOW_WINDOW
    }

    /// One tick's worth of observation, against the ring the counters belong
    /// to.
    pub fn observe(&mut self, now: Nanos, ring: RingCounters, ring_frames: u32) -> (reports:
        RingReports)
        requires
            old(self).wf(),
        ensures
            final(self).wf(),
            *final(self) == old(self).after(now, ring),
            reports == old(self).says(now, ring, ring_frames),
            final(self).opened == old(self).opened,
            final(self).overruns == old(self).overruns.after(now, ring.overruns),
            final(self).underruns == old(self).underruns.after(now, ring.underruns),
            final(self).crackling == old(self).crackling.after(now, ring.underruns),
            reports.crackling == final(self).crackling.active,
            reports.dropped is Some <==> old(self).overruns.carries(now, ring.overruns) is Some,
            reports.dropped matches Some(r) ==> old(self).overruns.carries(now, ring.overruns)
                == Some(r.dropped) && r.overruns == ring.overruns && r.ring_frames == ring_frames
                && r.up_ms == elapsed(now, old(self).opened) / 1_000_000,
            reports.padded is Some <==> old(self).underruns.carries(now, ring.underruns) is Some,
            reports.padded matches Some(r) ==> old(self).underruns.carries(now, ring.underruns)
                == Some(r.padded) && r.underruns == ring.underruns && r.ring_frames == ring_frames
                && r.up_ms == elapsed(now, old(self).opened) / 1_000_000,
            now - old(self).low_water_from >= 1_000_000_000 ==> final(self).low_water_from == now
                && (ring.low_water_samples is None <==> final(self).low_water_frames is None) && (
            ring.low_water_samples matches Some(samples) ==> final(self).low_water_frames == Some(
                samples / 2,
            )),
            now - old(self).low_water_from < 1_000_000_000 ==> final(self).low_water_from == old(self).low_water_from && final(self).low_water_frames == old(self).low_water_frames,
    {
        if self.reads_low_water(now) {
            self.low_water_from = now;
            // The bridge counts interleaved samples; a frame is one per
            // channel.
            self.low_water_frames = match ring.low_water_samples {
                Some(samples) => Some(samples / (CHANNELS as usize)),
                None => None,
            };
        }
        let up_ms: u64 = since(now, self.opened) / MILLISECOND;
        let dropped = match self.overruns.due(now, ring.overruns) {
            Some(dropped) => Some(
                DroppedCapture { dropped, overruns: ring.overruns, ring_frames, up_ms },
            ),
            None => None,
        };
        let padded = match self.underruns.due(now, ring.underruns) {
            Some(padded) => Some(
                PaddedPlayout { padded, underruns: ring.underruns, ring_frames, up_ms },
            ),
            None => None,
        };
        let crackling = self.crackling.observe(now, ring.underruns);
        RingReports { crackling, dropped, padded }
    }

    /// The last closed window's low water mark, in frames.
    pub fn playout_low_frames(&self) -> (frames: Option<usize>)
        ensures
            frames == self.low_water_frames,
    {
        self.low_water_frames
    }

    /// When the low water window now filling opened.
    pub fn low_water_at(&self) -> (at: Nanos)
        ensures
            at == self.low_water_from,
    {
        self.low_water_from
    }

    /// Drops the water mark without waiting for a window to close: the ring it
    /// was measuring is gone, and the next stream's ring measures its own.
    pub fn forget(&mut self)
        ensures
            *final(self) == (RingWatch { low_water_frames: None, ..*old(self) }),
    {
        self.low_water_frames = None;
    }
}

/// A ring with room says nothing: while neither counter has moved off zero,
/// no tick has anything to report.
pub proof fn a_ring_with_room_says_nothing(w: RingWatch, now: Nanos, ring: RingCounters, frames: u32)
    requires
        w.wf(),
        ring.overruns == 0,
        ring.underruns == 0,
        !w.crackling.active,
    ensures
        w.says(now, ring, frames) == (RingReports { crackling: false, dropped: None, padded: None }),
{
}

} // verus!
