//! The worker between two ticks. The socket, the session core and the device
//! belong to the thread that runs it; each method here takes in one thing that
//! thread reports and says what it does next.

use vstd::prelude::*;

use crate::live::conn::{log_rate_changes, rate_changes, ClientState};
use crate::live::offer::HearSelfOffer;
use crate::live::ring::{cushion_time, fill_playout_to, larger, smaller};
use crate::live::state::{
    company, drained, published, shown_live, ClientEvent, ClientFigures, EventModel, LiveModel,
    LiveState,
};
use crate::live::wake::{no_counts, WakePacing, WakeReport, WakeWatch};
use crate::live::watch::{
    DownlinkLoss, JitterStats, LossSpan, PlayoutReports, PlayoutWatch, RingCounters, RingReports,
    RingWatch, REOPEN_ATTEMPTS_MAX,
};
use crate::live::worker::{
    count_moved, count_refusal, drain_stalled_playout, drained_from, fail_over, power_of_two,
    taking, uplink_recovered, Attempt, Carry, Drain, FaultChange, Shut, SinceReopen, StreamKeeper,
    JUDGED_AFTER_SECS, RECOVERED_PCT_BITS,
};
use crate::live::{AudioSettings, Nanos, CHANNELS, MICROSECOND, SAMPLE_RATE};
use crate::model::StatsModel;
use crate::runtime::{recording_or_on_air, MemberId, RateOutcomesView, Runtime, WakeView};
use crate::single::Single;

verus! {

// ----------------------------------------------------------------------- data

/// Everything the worker keeps from one tick to the next.
pub struct Worker {
    pub keeper: StreamKeeper,
    pub settings: AudioSettings,
    /// Frames the current rings were sized from.
    pub device_frames: u32,
    /// Whether something drains the playout ring on a clock of its own. An
    /// offline stream is pumped from the worker's thread, where a late wakeup
    /// delays playout instead of emptying it.
    pub own_clock: bool,
    pub rings: RingWatch,
    pub wake: WakeWatch,
    pub playout: PlayoutWatch,
    pub downlink: DownlinkLoss,
    pub offer: HearSelfOffer,
    pub carry: Carry,
    /// Last time the playout ring accepted a sample.
    pub ring_took: Nanos,
    /// Frame clock the stalled path is paying from.
    pub drain_from: Option<Nanos>,
    /// What moved since a settings change reopened the device, until that is
    /// judged.
    pub reopened: Option<SinceReopen>,
    /// Datagrams the socket refused.
    pub send_errors: u64,
    /// The rate paths last logged.
    pub announced_rate: Option<RateOutcomesView>,
    pub ever_joined: bool,
    /// Which of the invite's addresses is in use, and how many there are.
    pub at: usize,
    pub addresses: usize,
}

/// A stream that has opened.
pub struct Opened {
    /// Frames its rings were sized from.
    pub device_frames: u32,
    pub rate: Option<RateOutcomesView>,
    /// What a converter adds in each direction, in milliseconds to one decimal.
    pub capture_added: String,
    pub playback_added: String,
}

/// What the log is given of a stream that opened.
pub struct OpenReport {
    pub shut: Option<Shut>,
    pub capture_line: Option<String>,
    pub playback_line: Option<String>,
}

/// What the top-up loop does next.
#[derive(Debug, Clone, Copy, PartialEq, Eq, Structural)]
pub enum FillStep {
    /// Pull a frame from the session core into the carry.
    Pull,
    /// Push this part of the carry into the ring.
    Push { from: usize, to: usize },
    /// The ring is at its depth.
    Full,
}

/// Whether a run of events holds a join.
pub open spec fn joins(events: Seq<EventModel>) -> bool {
    exists|i: int| 0 <= i < events.len() && (#[trigger] events[i]) is Joined
}

/// A pacing reading as it is shown, in microseconds.
pub open spec fn pacing_shown(pacing: Option<WakePacing>) -> Option<WakeView> {
    match pacing {
        Some(pacing) => Some(
            WakeView { p99_us: pacing.p99 / MICROSECOND, max_us: pacing.max / MICROSECOND },
        ),
        None => None,
    }
}

fn show_pacing(pacing: Option<WakePacing>) -> (view: Option<WakeView>)
    ensures
        view == pacing_shown(pacing),
{
    match pacing {
        Some(pacing) => Some(
            WakeView { p99_us: pacing.p99 / MICROSECOND, max_us: pacing.max / MICROSECOND },
        ),
        None => None,
    }
}

impl Worker {
    pub open spec fn wf(self) -> bool {
        &&& self.keeper.wf()
        &&& self.rings.wf()
        &&& self.wake.wf()
        &&& self.playout.wf()
        &&& self.carry.wf()
        &&& self.at < self.addresses
    }

    /// The worker over a stream that has just opened.
    pub fn new(
        now: Nanos,
        settings: AudioSettings,
        device_frames: u32,
        own_clock: bool,
        rate: Option<RateOutcomesView>,
        addresses: usize,
    ) -> (w: Worker)
        requires
            addresses > 0,
        ensures
            w.wf(),
            w.wake.last is None,
            w.wake.from == now,
            w.wake.counts@ == no_counts(),
            w.wake.counted() == 0,
            w.wake.max == 0,
            w.wake.pacing is None,
            !w.wake.said,
            w == (Worker {
                keeper: StreamKeeper::fresh(now),
                settings,
                device_frames,
                own_clock,
                rings: RingWatch::fresh(now),
                wake: w.wake,
                playout: PlayoutWatch::fresh(),
                downlink: DownlinkLoss { from: None, pct: None },
                offer: HearSelfOffer { since: None, state: crate::live::offer::Offer::Watching },
                carry: Carry { pos: 0, len: 0 },
                ring_took: now,
                drain_from: None,
                reopened: None,
                send_errors: 0,
                announced_rate: rate,
                ever_joined: false,
                at: 0,
                addresses,
            }),
    {
        Worker {
            keeper: StreamKeeper::new(now),
            settings,
            device_frames,
            own_clock,
            rings: RingWatch::new(now),
            wake: WakeWatch::new(now),
            playout: PlayoutWatch::default(),
            downlink: DownlinkLoss::default(),
            offer: HearSelfOffer::default(),
            carry: Carry::new(),
            ring_took: now,
            drain_from: None,
            reopened: None,
            send_errors: 0,
            announced_rate: rate,
            ever_joined: false,
            at: 0,
            addresses,
        }
    }

    // ------------------------------------------------------------- the stream

    /// Looks at the stream, and says whether an attempt to open it is owed now.
    /// A dead stream has been closed, and has no rate path to show.
    pub fn check_stream(&mut self, now: Nanos, errored: bool, shared: &mut LiveState) -> (attempt:
        bool)
        requires
            old(self).wf(),
            old(self).keeper.device_stops < u64::MAX,
            old(shared).wf(),
        ensures
            final(self).wf(),
            final(shared).wf(),
            *final(self) == (Worker {
                keeper: old(self).keeper.checked(now, errored),
                ..*old(self)
            }),
            attempt == final(self).keeper.owes_attempt(now),
            final(shared).deep_view() == (if errored {
                LiveModel {
                    stats: StatsModel { rate: None, ..old(shared).deep_view().stats },
                    ..old(shared).deep_view()
                }
            } else {
                old(shared).deep_view()
            }),
    {
        let ghost m = shared.deep_view();
        if errored {
            shared.stats.rate = None;
            assert(shared.deep_view() =~= LiveModel {
                stats: StatsModel { rate: None, ..m.stats },
                ..m
            });
        }
        self.keeper.check_stream(now, errored)
    }

    /// Publishes what the stream is doing wrong, and says what changed about it
    /// and whether the device began cutting out on this tick.
    pub fn publish_fault(&mut self, now: Nanos, shared: &mut LiveState) -> (r: (FaultChange, bool))
        requires
            old(self).wf(),
            old(shared).wf(),
        ensures
            final(self).wf(),
            final(shared).wf(),
            ({
                let k = old(self).keeper;
                let watch = k.cutting_out.after(now, k.device_stops);
                &&& *final(self) == (Worker {
                    keeper: StreamKeeper {
                        fault: k.faulty(),
                        cutting_out: watch,
                        was_cutting_out: watch.active,
                        ..k
                    },
                    ..*old(self)
                })
                &&& r == (k.fault_change(), watch.active && !k.was_cutting_out)
                &&& final(shared).deep_view() == (LiveModel {
                    audio_fault: k.faulty(),
                    stats: StatsModel {
                        cutting_out: if watch.active {
                            Some(k.device_stops)
                        } else {
                            None
                        },
                        ..old(shared).deep_view().stats
                    },
                    ..old(shared).deep_view()
                })
            }),
    {
        let ghost m = shared.deep_view();
        let ghost k = self.keeper;
        let change = self.keeper.publish_fault();
        let (stops, begins) = self.keeper.publish_cutting_out(now);
        shared.audio_fault = self.keeper.fault;
        shared.stats.cutting_out = stops;
        assert(shared.deep_view() =~= LiveModel {
            audio_fault: k.faulty(),
            stats: StatsModel { cutting_out: stops, ..m.stats },
            ..m
        });
        (change, begins)
    }

    /// An attempt to open the stream is made now.
    pub fn attempt_open(&mut self, now: Nanos) -> (attempt: Attempt)
        requires
            old(self).wf(),
            old(self).keeper.episode.attempts < REOPEN_ATTEMPTS_MAX,
            old(self).keeper.reopen_attempts < u64::MAX,
        ensures
            final(self).wf(),
            *final(self) == (Worker { keeper: old(self).keeper.trying(now), ..*old(self) }),
            attempt == (Attempt {
                attempt: final(self).keeper.reopen_attempts,
                in_episode: final(self).keeper.episode.attempts,
                asked_for: old(self).keeper.shut_at is Some && old(self).keeper.episode.attempts
                    == 0,
            }),
    {
        self.keeper.attempt_open(now)
    }

    /// The device was closed for new settings; an attempt to open it with them
    /// is made at once. The user's selection is kept whatever comes of it.
    pub fn reconfigure(&mut self, now: Nanos, settings: AudioSettings) -> (attempt: Attempt)
        requires
            old(self).wf(),
            old(self).keeper.reopen_attempts < u64::MAX,
        ensures
            final(self).wf(),
            *final(self) == (Worker {
                keeper: old(self).keeper.shut_down(now).trying(now),
                settings,
                ..*old(self)
            }),
            attempt == (Attempt {
                attempt: final(self).keeper.reopen_attempts,
                in_episode: 1,
                asked_for: true,
            }),
    {
        self.keeper.reconfigure(now);
        self.settings = settings;
        self.keeper.attempt_open(now)
    }

    /// Frees the playout cushion to move itself, or pins it.
    pub fn set_auto_cushion(&mut self, auto: bool)
        requires
            old(self).wf(),
        ensures
            final(self).wf(),
            *final(self) == (Worker {
                settings: AudioSettings { auto_cushion: auto, ..old(self).settings },
                ..*old(self)
            }),
    {
        self.settings.auto_cushion = auto;
    }

    /// The stream opened. Its rings are fresh: what the last ones reported and
    /// what was staged for them says nothing about these, and they open at
    /// their depth of silence, so the device owes nothing yet.
    pub fn opened(&mut self, now: Nanos, opened: Opened, shared: &mut LiveState) -> (report:
        OpenReport)
        requires
            old(self).wf(),
            old(shared).wf(),
        ensures
            final(self).wf(),
            final(shared).wf(),
            *final(self) == old(self).over_fresh_rings(now, opened),
            report.shut == old(self).keeper.was_shut(now),
            (report.capture_line.deep_view(), report.playback_line.deep_view()) == rate_changes(
                old(self).announced_rate,
                opened.rate,
                opened.capture_added@,
                opened.playback_added@,
            ),
            final(shared).deep_view() == (LiveModel {
                stats: StatsModel { rate: opened.rate, ..old(shared).deep_view().stats },
                reopen_attempts: old(self).keeper.reopen_attempts,
                device_error: None,
                ..old(shared).deep_view()
            }),
    {
        self.device_frames = opened.device_frames;
        self.rings = RingWatch::new(now);
        self.carry.forget();
        self.ring_took = now;
        let shut = self.keeper.opened(now);
        if shut.is_some() {
            self.reopened = Some(SinceReopen { moved: 0, sent: 0 });
        }
        shared.stream_opened(self.keeper.reopen_attempts, opened.rate);
        let (capture_line, playback_line) = log_rate_changes(
            &mut self.announced_rate,
            opened.rate,
            opened.capture_added.as_str(),
            opened.playback_added.as_str(),
        );
        OpenReport { shut, capture_line, playback_line }
    }

    /// The worker once a stream has opened.
    pub open spec fn over_fresh_rings(self, now: Nanos, opened: Opened) -> Worker {
        Worker {
            keeper: self.keeper.running(now),
            device_frames: opened.device_frames,
            rings: RingWatch::fresh(now),
            carry: Carry { pos: 0, len: 0 },
            ring_took: now,
            reopened: if self.keeper.shut_at is Some {
                Some(SinceReopen { moved: 0, sent: 0 })
            } else {
                self.reopened
            },
            announced_rate: if opened.rate is Some {
                opened.rate
            } else {
                self.announced_rate
            },
            ..self
        }
    }

    // -------------------------------------------------------------- capture

    /// Captured samples reached the core. After a reopen somebody asked for,
    /// what moved comes back once, to be judged.
    pub fn captured(&mut self, samples: u64) -> (judged: Option<SinceReopen>)
        requires
            old(self).wf(),
            old(self).reopened matches Some(count) ==> count.moved + samples <= u64::MAX,
        ensures
            final(self).wf(),
            ({
                let after = match old(self).reopened {
                    Some(count) => Some(
                        SinceReopen { moved: (count.moved + samples) as u64, sent: count.sent },
                    ),
                    None => None,
                };
                let over = after matches Some(count) && count.moved >= SAMPLE_RATE
                    * JUDGED_AFTER_SECS;
                &&& judged == (if over {
                    after
                } else {
                    None
                })
                &&& *final(self) == (Worker {
                    reopened: if over {
                        None
                    } else {
                        after
                    },
                    ..*old(self)
                })
            }),
    {
        match self.reopened {
            None => None,
            Some(count) => {
                let (count, over) = count_moved(count, samples);
                if over {
                    self.reopened = None;
                    Some(count)
                } else {
                    self.reopened = Some(count);
                    None
                }
            },
        }
    }

    /// Whether the uplink has come back after a reopen.
    pub fn recovered(&self, count: SinceReopen, uplink_loss_pct: Option<Single>) -> (b: bool)
        ensures
            b == ((uplink_loss_pct matches Some(pct) && (Single {
                bits: RECOVERED_PCT_BITS,
            }).exceeds(pct)) && count.moved > 0 && self.send_errors == 0),
    {
        uplink_recovered(uplink_loss_pct, count.moved, self.send_errors)
    }

    /// The uplink produced a packet.
    pub fn packet_made(&mut self)
        requires
            old(self).wf(),
            old(self).reopened matches Some(count) ==> count.sent < u64::MAX,
        ensures
            final(self).wf(),
            *final(self) == (Worker {
                reopened: match old(self).reopened {
                    Some(count) => Some(
                        SinceReopen { moved: count.moved, sent: (count.sent + 1) as u64 },
                    ),
                    None => None,
                },
                ..*old(self)
            }),
    {
        if let Some(count) = self.reopened {
            self.reopened = Some(SinceReopen { moved: count.moved, sent: count.sent + 1 });
        }
    }

    /// The socket refused a datagram; the answer is whether that is reported.
    pub fn refused(&mut self) -> (report: bool)
        requires
            old(self).wf(),
        ensures
            final(self).wf(),
            *final(self) == (Worker {
                send_errors: if old(self).send_errors < u64::MAX {
                    (old(self).send_errors + 1) as u64
                } else {
                    u64::MAX
                },
                ..*old(self)
            }),
            report == power_of_two(final(self).send_errors as nat),
    {
        let (count, report) = count_refusal(self.send_errors);
        self.send_errors = count;
        report
    }

    // -------------------------------------------------------------- playout

    /// What the top-up loop does next against a ring that holds `banked` of the
    /// `target` it is held at.
    pub open spec fn next_fill(self, banked: usize, target: usize) -> FillStep {
        let left = self.carry.len - self.carry.pos;
        let room = larger(target - banked, 0);
        if left == 0 {
            FillStep::Pull
        } else if room == 0 {
            FillStep::Full
        } else {
            FillStep::Push {
                from: self.carry.pos,
                to: (self.carry.pos + smaller(room, left)) as usize,
            }
        }
    }

    /// One step of the loop that holds the playout ring at its depth.
    pub fn top_up_playout(&self, banked: usize, target: usize) -> (step: FillStep)
        requires
            self.wf(),
        ensures
            step == self.next_fill(banked, target),
    {
        if self.carry.wants_frame() {
            return FillStep::Pull;
        }
        let left: usize = self.carry.len - self.carry.pos;
        let take: usize = fill_playout_to(banked, left, target);
        if take == 0 {
            FillStep::Full
        } else {
            FillStep::Push { from: self.carry.pos, to: self.carry.pos + take }
        }
    }

    /// A frame was pulled into the carry.
    pub fn pulled(&mut self)
        requires
            old(self).wf(),
        ensures
            final(self).wf(),
            *final(self) == (Worker {
                carry: Carry { pos: 0, len: crate::live::CHUNK_STEREO },
                ..*old(self)
            }),
    {
        self.carry.pulled();
    }

    /// The ring took `taken` samples of the carry; the answer is whether the
    /// loop goes on. What the ring refused stays in the carry, so no decoded
    /// audio is dropped.
    pub fn pushed(&mut self, now: Nanos, taken: usize) -> (more: bool)
        requires
            old(self).wf(),
            taken <= old(self).carry.len - old(self).carry.pos,
        ensures
            final(self).wf(),
            *final(self) == (Worker {
                carry: Carry {
                    pos: (old(self).carry.pos + taken) as usize,
                    len: old(self).carry.len,
                },
                ring_took: if taken > 0 {
                    now
                } else {
                    old(self).ring_took
                },
                ..*old(self)
            }),
            more == (final(self).carry.pos == final(self).carry.len),
    {
        if taken > 0 {
            self.ring_took = now;
        }
        self.carry.pushed(taken)
    }

    /// How many frames are pulled and dropped because the device is not taking
    /// audio. What the ring refused then belongs to a position that has been
    /// walked past.
    pub fn drain_stalled_playout(&mut self, now: Nanos) -> (frames: u64)
        requires
            old(self).wf(),
        ensures
            final(self).wf(),
            ({
                let w = old(self);
                if taking(w.keeper.streaming, now, w.ring_took, w.device_frames) {
                    &&& frames == 0
                    &&& *final(self) == (Worker { drain_from: None, ..*w })
                } else {
                    let drain = drained_from(now, w.drain_from);
                    &&& frames == drain.frames
                    &&& *final(self) == (Worker {
                        drain_from: drain.from,
                        carry: Carry { pos: 0, len: 0 },
                        ..*w
                    })
                }
            }),
    {
        let drain: Drain = drain_stalled_playout(
            now,
            self.keeper.streaming,
            self.ring_took,
            self.device_frames,
            self.drain_from,
        );
        self.drain_from = drain.from;
        if drain.from.is_some() {
            self.carry.forget();
        }
        drain.frames
    }

    // ------------------------------------------------------------- watching

    /// This loop's pacing, timed where it wakes up, against the cushion of
    /// `target` samples it has to stay inside.
    pub fn watch_wakeup(&mut self, now: Nanos, target: usize) -> (report: Option<WakeReport>)
        requires
            old(self).wf(),
            old(self).wake.counted() < u32::MAX,
            (target / 2) * 1_000_000 <= u64::MAX,
        ensures
            final(self).wf(),
            *final(self) == (Worker { wake: final(self).wake, ..*old(self) }),
            final(self).wake.last == Some(now),
            final(self).wake.from == (if old(self).wake.closes(now) {
                now
            } else {
                old(self).wake.from
            }),
            final(self).wake.counts@ == (if old(self).wake.closes(now) {
                no_counts()
            } else {
                old(self).wake.counts_at(now)
            }),
            final(self).wake.max == (if old(self).wake.closes(now) {
                0
            } else {
                old(self).wake.max_at(now)
            }),
            final(self).wake.said == (!old(self).wake.in_time(now, old(self).deadline(target)) && (
            old(self).wake.said || old(self).wake.late(now, old(self).deadline(target)))),
            final(self).wake.pacing == (if old(self).wake.closes(now) {
                old(self).wake.closing(now)
            } else {
                old(self).wake.pacing
            }),
            report == (if old(self).wake.late(now, old(self).deadline(target)) && !old(
                self,
            ).wake.said {
                let pacing = old(self).wake.closing(now)->0;
                Some(
                    WakeReport {
                        p99: pacing.p99,
                        max: pacing.max,
                        cushion: old(self).deadline(target)->0,
                    },
                )
            } else {
                None
            }),
    {
        let cushion = if self.keeper.streaming && self.own_clock {
            Some(cushion_time(target))
        } else {
            None
        };
        self.wake.observe(now, cushion)
    }

    /// The audio the device drains while the worker is asleep, where something
    /// drains it on a clock of its own.
    pub open spec fn deadline(self, target: usize) -> Option<Nanos> {
        if self.keeper.streaming && self.own_clock {
            Some(
                ((target as int / CHANNELS as int) * 1_000_000 / SAMPLE_RATE as int
                    * MICROSECOND as int) as u64,
            )
        } else {
            None
        }
    }

    /// The rings' counters, while there are rings: what the log is given, and
    /// whether the cushion is held still because a take is running or somebody
    /// is watching. A ring that is gone is in no crackling run, and leaves no
    /// water mark behind.
    pub fn watch_ring_health(
        &mut self,
        now: Nanos,
        ring: RingCounters,
        shared: &mut LiveState,
    ) -> (r: (Option<RingReports>, bool))
        requires
            old(self).wf(),
            old(shared).wf(),
        ensures
            final(self).wf(),
            final(shared).wf(),
            ({
                let w = old(self);
                let says = w.rings.says(now, ring, w.device_frames);
                &&& *final(self) == (Worker {
                    rings: if w.keeper.streaming {
                        w.rings.after(now, ring)
                    } else {
                        RingWatch { low_water_frames: None, ..w.rings }
                    },
                    ..*w
                })
                &&& r.0 == (if w.keeper.streaming {
                    Some(says)
                } else {
                    None
                })
                &&& final(shared).deep_view() == (LiveModel {
                    stats: StatsModel {
                        crackling: w.keeper.streaming && says.crackling,
                        ..old(shared).deep_view().stats
                    },
                    ..old(shared).deep_view()
                })
                &&& r.1 == (old(shared).record.state is Recording || exists|i: int|
                    0 <= i < old(shared).stream@.len() && (
                    #[trigger] old(shared).stream@[i]).state is Live)
            }),
    {
        let ghost m = shared.deep_view();
        let reports = if self.keeper.streaming {
            Some(self.rings.observe(now, ring, self.device_frames))
        } else {
            self.rings.forget();
            None
        };
        let crackling = match reports {
            Some(reports) => reports.crackling,
            None => false,
        };
        shared.stats.crackling = crackling;
        assert(shared.deep_view() =~= LiveModel {
            stats: StatsModel { crackling, ..m.stats },
            ..m
        });
        let held = recording_or_on_air(&shared.record, &shared.stream);
        (reports, held)
    }

    /// This tick's jitter counters, with the member they belong to. Only a
    /// joined client is owed media.
    pub fn watch_playout(
        &mut self,
        now: Nanos,
        state: &ClientState,
        member_id: Option<MemberId>,
        stats: JitterStats,
    ) -> (reports: PlayoutReports)
        requires
            old(self).wf(),
        ensures
            final(self).wf(),
            ({
                let joined_as = if *state is Joined {
                    member_id
                } else {
                    None
                };
                &&& *final(self) == (Worker {
                    playout: old(self).playout.after(now, joined_as, stats),
                    ..*old(self)
                })
                &&& reports == old(self).playout.says(now, joined_as, stats)
            }),
    {
        let joined_as = match state {
            ClientState::Joined => member_id,
            _ => None,
        };
        self.playout.observe(now, joined_as, stats)
    }

    /// This tick's jitter counters for the downlink's loss rate: a window that
    /// closes comes back to be measured.
    pub fn watch_downlink(&mut self, now: Nanos, state: &ClientState, stats: JitterStats) -> (span:
        Option<LossSpan>)
        requires
            old(self).wf(),
        ensures
            final(self).wf(),
            *final(self) == (Worker {
                downlink: old(self).downlink.after(now, *state is Joined, stats),
                ..*old(self)
            }),
            span == (if old(self).downlink.closes(now, *state is Joined) {
                Some(LossSpan { from: old(self).downlink.from->0.stats, to: stats })
            } else {
                None
            }),
    {
        let joined = match state {
            ClientState::Joined => true,
            _ => false,
        };
        self.downlink.observe(now, joined, stats)
    }

    // ----------------------------------------------------------- publishing

    /// Takes in a tick's events, and hands back the pictures that arrived.
    pub fn drain_events(
        &mut self,
        events: Vec<ClientEvent>,
        now_ms: u64,
        member_id: Option<MemberId>,
        shared: &mut LiveState,
    ) -> (ready: Vec<(MemberId, [u8; 32])>)
        requires
            old(self).wf(),
            old(shared).wf(),
        ensures
            final(self).wf(),
            final(shared).wf(),
            *final(self) == (Worker {
                ever_joined: old(self).ever_joined || joins(events.deep_view()),
                ..*old(self)
            }),
            final(self).ever_joined <==> old(self).ever_joined || exists|i: int|
                0 <= i < events@.len() && (#[trigger] events.deep_view()[i]) is Joined,
            final(shared).deep_view() == drained(
                old(shared).deep_view(),
                events.deep_view(),
                now_ms,
                member_id,
            ),
            ready@.map_values(|r: (MemberId, [u8; 32])| (r.0, r.1@))
                == crate::live::state::arrived(events.deep_view()),
    {
        let ghost all = events.deep_view();
        let mut i: usize = 0;
        let mut joined = false;
        while i < events.len()
            invariant
                i <= events@.len(),
                all == events.deep_view(),
                joined == exists|j: int| 0 <= j < i && (#[trigger] all[j]) is Joined,
            decreases events.len() - i,
        {
            assert(all[i as int] == events@[i as int].deep_view());
            if let ClientEvent::Joined = events[i] {
                joined = true;
                assert(all[i as int] is Joined);
            }
            i += 1;
        }
        if joined {
            self.ever_joined = true;
        }
        shared.drain_events(events, now_ms, member_id)
    }

    /// A tick's figures, with what the watchers here have measured.
    pub open spec fn measured(self, figures: ClientFigures) -> ClientFigures {
        ClientFigures {
            downlink_loss_pct: self.downlink.pct,
            playout_low_frames: self.rings.low_water_frames,
            wake: pacing_shown(self.wake.pacing),
            ..figures
        }
    }

    /// Publishes a tick's figures.
    pub fn publish_stats(&mut self, figures: ClientFigures, shared: &mut LiveState)
        requires
            old(self).wf(),
            old(shared).wf(),
        ensures
            final(self).wf(),
            final(shared).wf(),
            *final(self) == (Worker {
                ever_joined: old(self).ever_joined || figures.state is Joined,
                ..*old(self)
            }),
            final(shared).deep_view() == published(
                old(shared).deep_view(),
                old(self).measured(figures),
            ),
    {
        let joined = match figures.state {
            ClientState::Joined => true,
            _ => false,
        };
        if joined {
            self.ever_joined = true;
        }
        let mut whole = figures;
        whole.downlink_loss_pct = self.downlink.published();
        whole.playout_low_frames = self.rings.playout_low_frames();
        whole.wake = show_pacing(self.wake.pacing());
        shared.publish_stats(whole);
    }

    /// Offers the other monitoring arrangement against the figure that is being
    /// shown, while there is anybody else to be out of time with.
    pub fn watch_hear_self_offer(&mut self, now: Nanos, shared: &mut LiveState)
        requires
            old(self).wf(),
            old(shared).wf(),
        ensures
            final(self).wf(),
            final(shared).wf(),
            ({
                let m = old(shared).deep_view();
                let offer = old(self).offer.after(
                    now,
                    m.stats.mouth_to_ear_ms,
                    m.hear_self,
                    company(m.roster, m.me),
                );
                &&& *final(self) == (Worker { offer, ..*old(self) })
                &&& final(shared).deep_view() == (LiveModel {
                    offer_hear_self: offer.state is Standing,
                    ..m
                })
            }),
    {
        let ghost m = shared.deep_view();
        let others = shared.playing_with_others();
        let stands = self.offer.observe(
            now,
            shared.stats.mouth_to_ear_ms,
            shared.hear_self,
            others,
        );
        shared.offer_hear_self = stands;
        assert(shared.deep_view() =~= LiveModel { offer_hear_self: stands, ..m });
    }

    /// Moves on to the invite's next address where this one timed out before
    /// anybody was let in.
    pub fn maybe_fail_over(&mut self, state: &ClientState) -> (next: Option<usize>)
        requires
            old(self).wf(),
        ensures
            final(self).wf(),
            next == (if !old(self).ever_joined && *state is TimedOut && old(self).at + 1 < old(
                self,
            ).addresses {
                Some((old(self).at + 1) as usize)
            } else {
                None
            }),
            *final(self) == (Worker {
                at: match next {
                    Some(at) => at,
                    None => old(self).at,
                },
                ..*old(self)
            }),
    {
        let timed_out = match state {
            ClientState::TimedOut => true,
            _ => false,
        };
        let next = fail_over(self.ever_joined, timed_out, self.at, self.addresses);
        if let Some(at) = next {
            self.at = at;
        }
        next
    }
}

// ----------------------------------------------------------------------- laws

/// A stream that has just opened owes nothing: the stalled path pulls no frame
/// on that tick, and what a top-up does first is pull one.
pub proof fn a_stream_that_opens_owes_nothing(
    w: Worker,
    now: Nanos,
    opened: Opened,
    banked: usize,
    target: usize,
)
    ensures
        ({
            let after = w.over_fresh_rings(now, opened);
            &&& taking(after.keeper.streaming, now, after.ring_took, after.device_frames)
            &&& after.next_fill(banked, target) == FillStep::Pull
            &&& after.keeper.faulty() is None
        }),
{
}

/// A top-up never fills the ring past the depth it is held at, never hands over
/// a sample twice, and hands over all that is left where there is room for it.
pub proof fn a_top_up_keeps_to_the_depth(w: Worker, banked: usize, target: usize)
    requires
        w.carry.wf(),
    ensures
        match w.next_fill(banked, target) {
            FillStep::Pull => w.carry.pos == w.carry.len,
            FillStep::Full => banked >= target,
            FillStep::Push { from, to } => {
                &&& from == w.carry.pos
                &&& from < to <= w.carry.len
                &&& banked + (to - from) <= target
                &&& to == w.carry.len || banked + (to - from) == target
            },
        },
{
}

/// The pacing a snapshot shows is the reading in whole microseconds, the 99th
/// percentile and the longest each as itself.
pub proof fn pacing_is_shown_in_microseconds(pacing: WakePacing)
    ensures
        pacing_shown(None) is None,
        pacing_shown(Some(pacing)) is Some,
        pacing_shown(Some(pacing))->0.p99_us == pacing.p99 as int / 1_000,
        pacing_shown(Some(pacing))->0.max_us == pacing.max as int / 1_000,
{
}

/// What the watchers have measured is shown as theirs, and every other figure
/// of the tick as it was handed in.
pub proof fn the_watchers_figures_are_shown(w: Worker, m: LiveModel, f: ClientFigures)
    ensures
        ({
            let stats = shown_live(published(m, w.measured(f))).stats;
            &&& stats.downlink_loss_pct == w.downlink.pct
            &&& stats.playout_low_frames == w.rings.low_water_frames
            &&& stats.wake is Some <==> w.wake.pacing is Some
            &&& w.wake.pacing matches Some(pacing) ==> stats.wake->0.p99_us == pacing.p99 as int
                / 1_000 && stats.wake->0.max_us == pacing.max as int / 1_000
            &&& stats.rtt_ms == f.rtt_ms
            &&& stats.jitter_depth == f.jitter_depth
            &&& stats.jitter_target == f.jitter_target
            &&& stats.uplink_loss_pct == f.uplink_loss_pct
            &&& stats.mouth_to_ear_ms == f.mouth_to_ear_ms
            &&& shown_live(published(m, w.measured(f))).levels == f.levels
            &&& shown_live(published(m, w.measured(f))).is_host == (f.member_id == Some(
                MemberId(0),
            ))
            &&& w.measured(f).state == f.state && w.measured(f).session_full == f.session_full
        }),
{
}

/// A stream that opens runs on rings of its own: they are watched from then,
/// nothing is staged for them, and they were cut for the frames the device
/// asked for. What was counted of a reopen starts over where one was asked
/// for, and nothing else of the worker changes.
pub proof fn a_stream_opens_on_rings_of_its_own(w: Worker, now: Nanos, opened: Opened)
    ensures
        ({
            let after = w.over_fresh_rings(now, opened);
            &&& after.device_frames == opened.device_frames
            &&& after.ring_took == now
            &&& after.carry.pos == 0 && after.carry.len == 0
            &&& after.rings.opened == now && after.rings.low_water_from == now
            &&& after.rings.low_water_frames is None
            &&& after.rings.overruns.said is None && after.rings.underruns.said is None
            &&& !after.rings.crackling.active && after.rings.crackling.prev is None
            &&& after.keeper.streaming && after.keeper.opened_at == Some(now)
            &&& after.keeper.shut_at is None
            &&& opened.rate is Some ==> after.announced_rate == opened.rate
            &&& opened.rate is None ==> after.announced_rate == w.announced_rate
            &&& w.keeper.shut_at is Some ==> after.reopened == Some(
                SinceReopen { moved: 0, sent: 0 },
            )
            &&& w.keeper.shut_at is None ==> after.reopened == w.reopened
            &&& after.settings == w.settings && after.own_clock == w.own_clock
            &&& after.wake == w.wake && after.playout == w.playout
            &&& after.downlink == w.downlink && after.offer == w.offer
            &&& after.drain_from == w.drain_from && after.send_errors == w.send_errors
            &&& after.ever_joined == w.ever_joined
            &&& after.at == w.at && after.addresses == w.addresses
        }),
{
}

/// There is a deadline to wake by only while a stream runs that drains its ring
/// on its own clock: the time its cushion plays for, in whole microseconds.
pub proof fn the_deadline_is_the_cushion(w: Worker, target: usize)
    requires
        (target / 2) * 1_000_000 <= u64::MAX,
    ensures
        w.deadline(target) is Some <==> w.keeper.streaming && w.own_clock,
        w.deadline(target) matches Some(time) ==> time % 1_000 == 0 && time as int / 1_000 * 48_000
            <= (target / 2) * 1_000_000 < (time as int / 1_000 + 1) * 48_000,
{
    let frames = target as int / 2;
    let micros = frames * 1_000_000 / 48_000;
    assert(micros * 48_000 <= frames * 1_000_000 < (micros + 1) * 48_000);
    assert(micros * 1_000 <= u64::MAX);
}

} // verus!
