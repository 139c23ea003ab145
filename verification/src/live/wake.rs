//! How the thread that fills the playout ring is being scheduled.

use vstd::prelude::*;

use crate::live::{elapsed, since, MICROSECOND, Nanos, SECOND, TICK};

verus! {

/// Window the worker's wakeup pacing is measured over. A second, so the 99th
/// percentile of it is a few wakeups a second: that is the drip of padded
/// silence a musician hears as crackling, rather than the one late wakeup any
/// machine produces.
pub const WAKE_WINDOW: u64 = SECOND;
/// Buckets [`WakeWatch`] counts wakeup intervals in: one tick wide each, with
/// a last one for everything past the ladder, which the window's maximum
/// reports exactly.
pub const WAKE_BUCKETS: usize = 33;

/// One window of the worker loop's wakeup pacing.
#[derive(Debug, Clone, Copy, PartialEq, Eq, Structural)]
pub struct WakePacing {
    /// The 99th percentile interval, as the top of the bucket it fell in.
    pub p99: Nanos,
    /// The window's longest interval, which is exact.
    pub max: Nanos,
}

/// The thread filling playout wakes later than the ring holds.
#[derive(Debug, Clone, Copy, PartialEq, Eq, Structural)]
pub struct WakeReport {
    pub p99: Nanos,
    pub max: Nanos,
    pub cushion: Nanos,
}

/// Times the worker loop's wakeups against the audio the playout ring holds.
///
/// The device side of playout runs on a clock of its own, so the interval
/// between two wakeups of the thread filling that ring is audio the device has
/// to have found there. An interval longer than the ring holds is silence the
/// device padded.
///
/// Counts per bucket rather than intervals: an exact 99th percentile needs
/// every interval a session ever produced. One report, on one condition: that
/// the p99 is longer than the cushion.
#[derive(Debug)]
pub struct WakeWatch {
    /// The previous wakeup, and `None` before the first one.
    pub last: Option<Nanos>,
    /// When the window now filling opened.
    pub from: Nanos,
    pub counts: Vec<u32>,
    pub max: Nanos,
    /// The last closed window's reading, and `None` until one closes.
    pub pacing: Option<WakePacing>,
    /// Whether the report has gone out for the episode now running, so a
    /// machine that stays late says so once and one that recovers can say it
    /// again.
    pub said: bool,
}

/// The bucket a wakeup interval belongs to: how many ticks of whole
/// microseconds it takes to cover it, the first tick being bucket zero, and
/// everything past the ladder in the last.
pub open spec fn bucket_of(gap: Nanos) -> int {
    let micros = gap as int / MICROSECOND as int;
    let tick = TICK as int / MICROSECOND as int;
    let ticks = (micros + tick - 1) / tick;
    if ticks <= 1 {
        0
    } else if ticks > WAKE_BUCKETS {
        WAKE_BUCKETS - 1
    } else {
        ticks - 1
    }
}

/// How many intervals are counted in the first `upto` buckets.
pub open spec fn seen(counts: Seq<u32>, upto: int) -> int
    decreases upto,
{
    if upto <= 0 {
        0
    } else {
        seen(counts, upto - 1) + counts[upto - 1]
    }
}

/// How many of `counted` intervals make up ninety-nine in a hundred of them,
/// rounded up.
pub open spec fn ninety_ninth(counted: int) -> int {
    (counted * 99 + 99) / 100
}

/// The first bucket from `b` on by which `wanted` intervals have been counted.
pub open spec fn reached_at(counts: Seq<u32>, wanted: int, b: int) -> int
    decreases WAKE_BUCKETS - b,
{
    if b + 1 >= WAKE_BUCKETS || seen(counts, b + 1) >= wanted {
        b
    } else {
        reached_at(counts, wanted, b + 1)
    }
}

/// The bucket the 99th percentile interval fell in.
pub open spec fn p99_bucket(counts: Seq<u32>) -> int {
    reached_at(counts, ninety_ninth(seen(counts, WAKE_BUCKETS as int)), 0)
}

/// What a window's counts and its longest interval read as. Past the ladder
/// the longest interval is the figure.
pub open spec fn reading(counts: Seq<u32>, max: Nanos) -> Option<WakePacing> {
    if seen(counts, WAKE_BUCKETS as int) == 0 {
        None
    } else {
        Some(
            WakePacing {
                p99: if p99_bucket(counts) == WAKE_BUCKETS - 1 {
                    max
                } else {
                    (TICK * (p99_bucket(counts) + 1)) as u64
                },
                max,
            },
        )
    }
}

/// Counts of nothing.
pub open spec fn no_counts() -> Seq<u32> {
    Seq::new(WAKE_BUCKETS as nat, |b: int| 0u32)
}

proof fn lemma_seen_of_none(upto: int)
    requires
        0 <= upto <= WAKE_BUCKETS,
    ensures
        seen(no_counts(), upto) == 0,
    decreases upto,
{
    if upto > 0 {
        lemma_seen_of_none(upto - 1);
    }
}

proof fn lemma_seen_grows(counts: Seq<u32>, a: int, b: int)
    requires
        0 <= a <= b,
    ensures
        0 <= seen(counts, a) <= seen(counts, b),
    decreases b,
{
    if a < b {
        lemma_seen_grows(counts, a, b - 1);
    } else if b > 0 {
        lemma_seen_grows(counts, a - 1, b - 1);
    }
}

proof fn lemma_seen_after_one_more(counts: Seq<u32>, at: int, upto: int)
    requires
        0 <= at < counts.len(),
        0 <= upto <= counts.len(),
        counts[at] < u32::MAX,
    ensures
        seen(counts.update(at, (counts[at] + 1) as u32), upto) == seen(counts, upto) + if at < upto {
            1int
        } else {
            0
        },
    decreases upto,
{
    if upto > 0 {
        lemma_seen_after_one_more(counts, at, upto - 1);
    }
}

proof fn lemma_one_is_no_more_than_all(counts: Seq<u32>, at: int, upto: int)
    requires
        0 <= at < upto,
    ensures
        counts[at] <= seen(counts, upto),
    decreases upto,
{
    lemma_seen_grows(counts, 0, upto - 1);
    if at < upto - 1 {
        lemma_one_is_no_more_than_all(counts, at, upto - 1);
    }
}

/// The bucket a wakeup interval belongs to. One tick wide each, with an
/// interval on a bucket's top edge inside it, so a loop waking exactly on the
/// tick reads as one tick rather than as two.
pub fn wake_bucket(gap: Nanos) -> (b: usize)
    ensures
        b == bucket_of(gap),
        b < WAKE_BUCKETS,
{
    let tick: u64 = TICK / MICROSECOND;
    let ticks: u64 = (gap / MICROSECOND + (tick - 1)) / tick;
    if ticks <= 1 {
        0
    } else if ticks > WAKE_BUCKETS as u64 {
        WAKE_BUCKETS - 1
    } else {
        (ticks - 1) as usize
    }
}

impl WakeWatch {
    /// How many intervals the window now filling holds.
    pub open spec fn counted(self) -> int {
        seen(self.counts@, WAKE_BUCKETS as int)
    }

    pub open spec fn wf(self) -> bool {
        self.counts@.len() == WAKE_BUCKETS && self.counted() <= u32::MAX
    }

    /// The counts once the interval up to `now` has been added.
    pub open spec fn counts_at(self, now: Nanos) -> Seq<u32> {
        match self.last {
            Some(last) => {
                let b = bucket_of(elapsed(now, last) as u64);
                self.counts@.update(b, (self.counts@[b] + 1) as u32)
            },
            None => self.counts@,
        }
    }

    /// The longest interval of the window, the one up to `now` among them.
    pub open spec fn max_at(self, now: Nanos) -> Nanos {
        match self.last {
            Some(last) if elapsed(now, last) > self.max => elapsed(now, last) as u64,
            _ => self.max,
        }
    }

    /// Whether a wakeup at `now` closes the window.
    pub open spec fn closes(self, now: Nanos) -> bool {
        elapsed(now, self.from) >= WAKE_WINDOW
    }

    /// The reading of the window a wakeup at `now` closes.
    pub open spec fn closing(self, now: Nanos) -> Option<WakePacing> {
        reading(self.counts_at(now), self.max_at(now))
    }

    /// A window that closes late against a ring something drains.
    pub open spec fn late(self, now: Nanos, cushion: Option<Nanos>) -> bool {
        self.closes(now) && (self.closing(now) matches Some(pacing) && (cushion matches Some(
            cushion,
        ) && pacing.p99 > cushion))
    }

    /// A window that closes in time against a ring something drains.
    pub open spec fn in_time(self, now: Nanos, cushion: Option<Nanos>) -> bool {
        self.closes(now) && (self.closing(now) matches Some(pacing) && (cushion matches Some(
            cushion,
        ) && pacing.p99 <= cushion))
    }

    pub fn new(from: Nanos) -> (w: WakeWatch)
        ensures
            w.wf(),
            w.last is None,
            w.from == from,
            w.counts@ == no_counts(),
            w.max == 0,
            w.pacing is None,
            !w.said,
            w.counted() == 0,
    {
        proof {
            lemma_seen_of_none(WAKE_BUCKETS as int);
        }
        let counts = empty_counts();
        WakeWatch { last: None, from, counts, max: 0, pacing: None, said: false }
    }

    /// One wakeup, against the cushion it has to stay inside. `None` for a ring
    /// nothing is draining on a clock of its own, which is measured all the
    /// same and never reported.
    pub fn observe(&mut self, now: Nanos, cushion: Option<Nanos>) -> (report: Option<WakeReport>)
        requires
            old(self).wf(),
            old(self).counted() < u32::MAX,
        ensures
            final(self).wf(),
            final(self).last == Some(now),
            final(self).from == (if old(self).closes(now) {
                now
            } else {
                old(self).from
            }),
            final(self).counts@ == (if old(self).closes(now) {
                no_counts()
            } else {
                old(self).counts_at(now)
            }),
            final(self).max == (if old(self).closes(now) {
                0
            } else {
                old(self).max_at(now)
            }),
            final(self).pacing == (if old(self).closes(now) {
                old(self).closing(now)
            } else {
                old(self).pacing
            }),
            final(self).said == (!old(self).in_time(now, cushion) && (old(self).said || old(
                self,
            ).late(now, cushion))),
            report == (if old(self).late(now, cushion) && !old(self).said {
                let pacing = old(self).closing(now)->0;
                Some(WakeReport { p99: pacing.p99, max: pacing.max, cushion: cushion->0 })
            } else {
                None
            }),
    {
        let before = self.last;
        self.last = Some(now);
        if let Some(last) = before {
            let gap: u64 = since(now, last);
            let bucket: usize = wake_bucket(gap);
            proof {
                lemma_one_is_no_more_than_all(self.counts@, bucket as int, WAKE_BUCKETS as int);
                lemma_seen_after_one_more(self.counts@, bucket as int, WAKE_BUCKETS as int);
            }
            let count: u32 = self.counts[bucket];
            self.counts.set(bucket, count + 1);
            if gap > self.max {
                self.max = gap;
            }
        }
        assert(self.counts@ == old(self).counts_at(now));
        if since(now, self.from) < WAKE_WINDOW {
            return None;
        }
        self.from = now;
        self.pacing = self.close();
        match (self.pacing, cushion) {
            (Some(pacing), Some(cushion)) => {
                if pacing.p99 <= cushion {
                    self.said = false;
                    None
                } else if !self.said {
                    self.said = true;
                    Some(WakeReport { p99: pacing.p99, max: pacing.max, cushion })
                } else {
                    None
                }
            },
            _ => None,
        }
    }

    /// The window's reading, with the counts it was taken from reset for the
    /// next one. `None` when no wakeup landed inside it.
    pub fn close(&mut self) -> (pacing: Option<WakePacing>)
        requires
            old(self).wf(),
        ensures
            final(self).wf(),
            pacing == reading(old(self).counts@, old(self).max),
            final(self).counts@ == no_counts(),
            final(self).max == 0,
            final(self).last == old(self).last,
            final(self).from == old(self).from,
            final(self).pacing == old(self).pacing,
            final(self).said == old(self).said,
    {
        let max: u64 = self.max;
        self.max = 0;
        let counted: u64 = self.tally(WAKE_BUCKETS);
        let mut pacing: Option<WakePacing> = None;
        if counted > 0 {
            let wanted: u64 = (counted * 99 + 99) / 100;
            let mut bucket: usize = 0;
            let mut reached: u64 = self.counts[0] as u64;
            assert(seen(self.counts@, 1) == self.counts@[0]) by {
                assert(seen(self.counts@, 0) == 0);
            }
            while bucket + 1 < WAKE_BUCKETS && reached < wanted
                invariant
                    bucket < WAKE_BUCKETS,
                    self.counts@ == old(self).counts@,
                    self.counts@.len() == WAKE_BUCKETS,
                    seen(self.counts@, WAKE_BUCKETS as int) <= u32::MAX,
                    reached == seen(self.counts@, bucket + 1),
                    reached_at(self.counts@, wanted as int, 0) == reached_at(
                        self.counts@,
                        wanted as int,
                        bucket as int,
                    ),
                decreases WAKE_BUCKETS - bucket,
            {
                bucket += 1;
                proof {
                    lemma_seen_grows(self.counts@, bucket + 1, WAKE_BUCKETS as int);
                }
                reached = reached + self.counts[bucket] as u64;
            }
            let p99: u64 = if bucket + 1 == WAKE_BUCKETS {
                max
            } else {
                TICK * (bucket as u64 + 1)
            };
            pacing = Some(WakePacing { p99, max });
        }
        self.counts = empty_counts();
        proof {
            lemma_seen_of_none(WAKE_BUCKETS as int);
        }
        pacing
    }

    /// How many intervals the first `upto` buckets hold.
    fn tally(&self, upto: usize) -> (n: u64)
        requires
            self.wf(),
            upto <= WAKE_BUCKETS,
        ensures
            n == seen(self.counts@, upto as int),
    {
        let mut n: u64 = 0;
        let mut b: usize = 0;
        while b < upto
            invariant
                b <= upto <= WAKE_BUCKETS,
                self.wf(),
                n == seen(self.counts@, b as int),
            decreases upto - b,
        {
            proof {
                lemma_seen_grows(self.counts@, b + 1, WAKE_BUCKETS as int);
            }
            n = n + self.counts[b] as u64;
            b += 1;
        }
        n
    }

    /// The last closed window's reading.
    pub fn pacing(&self) -> (pacing: Option<WakePacing>)
        ensures
            pacing == self.pacing,
    {
        self.pacing
    }
}

fn empty_counts() -> (counts: Vec<u32>)
    ensures
        counts@ == no_counts(),
{
    let mut counts: Vec<u32> = Vec::new();
    let mut b: usize = 0;
    while b < WAKE_BUCKETS
        invariant
            b <= WAKE_BUCKETS,
            counts@ == Seq::new(b as nat, |i: int| 0u32),
        decreases WAKE_BUCKETS - b,
    {
        counts.push(0);
        b += 1;
    }
    counts
}

// ------------------------------------------------------------------------ laws

/// How many of the intervals fall in a bucket up to and with `b`.
pub open spec fn within(gaps: Seq<Nanos>, b: int) -> int
    decreases gaps.len(),
{
    if gaps.len() == 0 {
        0
    } else {
        within(gaps.drop_last(), b) + if bucket_of(gaps.last()) <= b {
            1int
        } else {
            0
        }
    }
}

/// Whether the counts are the count of these intervals.
pub open spec fn tallies(counts: Seq<u32>, gaps: Seq<Nanos>) -> bool {
    &&& counts.len() == WAKE_BUCKETS
    &&& forall|b: int| 0 <= b < WAKE_BUCKETS ==> #[trigger] seen(counts, b + 1) == within(gaps, b)
}

proof fn lemma_all_are_within_the_ladder(gaps: Seq<Nanos>)
    ensures
        within(gaps, WAKE_BUCKETS - 1) == gaps.len(),
    decreases gaps.len(),
{
    if gaps.len() > 0 {
        lemma_all_are_within_the_ladder(gaps.drop_last());
    }
}

proof fn lemma_reached_at(counts: Seq<u32>, wanted: int, b: int)
    requires
        0 <= b < WAKE_BUCKETS,
        wanted <= seen(counts, WAKE_BUCKETS as int),
        b > 0 ==> seen(counts, b) < wanted,
    ensures
        b <= reached_at(counts, wanted, b) < WAKE_BUCKETS,
        seen(counts, reached_at(counts, wanted, b) + 1) >= wanted,
        reached_at(counts, wanted, b) > 0 ==> seen(counts, reached_at(counts, wanted, b)) < wanted,
    decreases WAKE_BUCKETS - b,
{
    if !(b + 1 >= WAKE_BUCKETS || seen(counts, b + 1) >= wanted) {
        lemma_reached_at(counts, wanted, b + 1);
    }
}

/// The p99 is the top of the bucket the ninety-ninth of a hundred fell in: at
/// least ninety-nine in a hundred of the window's intervals fall in that
/// bucket or one before it, and fewer do in the ones before it.
pub proof fn the_p99_covers_ninety_nine_in_a_hundred(counts: Seq<u32>, gaps: Seq<Nanos>)
    requires
        tallies(counts, gaps),
        gaps.len() > 0,
    ensures
        0 <= p99_bucket(counts) < WAKE_BUCKETS,
        100 * within(gaps, p99_bucket(counts)) >= 99 * gaps.len(),
        p99_bucket(counts) > 0 ==> 100 * within(gaps, p99_bucket(counts) - 1) < 99 * gaps.len(),
{
    lemma_all_are_within_the_ladder(gaps);
    assert(seen(counts, (WAKE_BUCKETS - 1) + 1) == within(gaps, WAKE_BUCKETS - 1));
    let counted = seen(counts, WAKE_BUCKETS as int);
    let wanted = ninety_ninth(counted);
    lemma_reached_at(counts, wanted, 0);
    let b = p99_bucket(counts);
    assert(seen(counts, b + 1) == within(gaps, b));
    if b > 0 {
        assert(seen(counts, (b - 1) + 1) == within(gaps, b - 1));
    }
}

/// Adding an interval to the counts keeps them the count of the intervals.
pub proof fn counting_an_interval_keeps_the_tally(counts: Seq<u32>, gaps: Seq<Nanos>, gap: Nanos)
    requires
        tallies(counts, gaps),
        seen(counts, WAKE_BUCKETS as int) < u32::MAX,
    ensures
        tallies(
            counts.update(bucket_of(gap), (counts[bucket_of(gap)] + 1) as u32),
            gaps.push(gap),
        ),
{
    let at = bucket_of(gap);
    let more = counts.update(at, (counts[at] + 1) as u32);
    lemma_one_is_no_more_than_all(counts, at, WAKE_BUCKETS as int);
    assert(gaps.push(gap).drop_last() =~= gaps);
    assert forall|b: int| 0 <= b < WAKE_BUCKETS implies #[trigger] seen(more, b + 1) == within(
        gaps.push(gap),
        b,
    ) by {
        lemma_seen_after_one_more(counts, at, b + 1);
        assert(seen(counts, b + 1) == within(gaps, b));
    }
}

/// An empty window counts no interval.
pub proof fn an_empty_window_tallies_nothing()
    ensures
        tallies(no_counts(), Seq::<Nanos>::empty()),
{
    assert forall|b: int| 0 <= b < WAKE_BUCKETS implies #[trigger] seen(no_counts(), b + 1)
        == within(Seq::<Nanos>::empty(), b) by {
        lemma_seen_of_none(b + 1);
    }
}

/// Each bucket is one tick wide and holds its own top edge: an interval of
/// whole microseconds is past the bucket before and not past its own, but for
/// the last, which holds everything longer.
pub proof fn a_bucket_is_one_tick_wide(gap: Nanos)
    ensures
        ({
            let b = bucket_of(gap);
            let micros = gap as int / 1_000;
            &&& 0 <= b < 33
            &&& b < 32 ==> micros <= 2_500 * (b + 1)
            &&& b > 0 ==> micros > 2_500 * b
        }),
{
    let micros = gap as int / 1_000;
    let ticks = (micros + 2_499) / 2_500;
    assert(TICK as int / MICROSECOND as int == 2_500);
    assert(2_500 * ticks <= micros + 2_499 < 2_500 * ticks + 2_500);
}

/// A window reads as nothing where nothing was counted in it. Otherwise its
/// longest interval is itself, and its 99th percentile is the top of the bucket
/// that fell in, or the longest where that is the last bucket.
pub proof fn a_reading_is_the_top_of_its_bucket(counts: Seq<u32>, gaps: Seq<Nanos>, max: Nanos)
    requires
        tallies(counts, gaps),
    ensures
        gaps.len() == 0 ==> reading(counts, max) is None,
        gaps.len() > 0 ==> reading(counts, max) is Some && reading(counts, max)->0.max == max,
        gaps.len() > 0 ==> ({
            let b = p99_bucket(counts);
            &&& b < 32 ==> reading(counts, max)->0.p99 == 2_500_000 * (b + 1)
            &&& b == 32 ==> reading(counts, max)->0.p99 == max
        }),
{
    lemma_all_are_within_the_ladder(gaps);
    assert(seen(counts, (WAKE_BUCKETS - 1) + 1) == within(gaps, WAKE_BUCKETS - 1));
    if gaps.len() > 0 {
        the_p99_covers_ninety_nine_in_a_hundred(counts, gaps);
    }
}

/// A wakeup counts the interval since the one before it, and the first wakeup
/// counts none; the longest interval is the longest of those counted.
pub proof fn a_wakeup_counts_the_interval_before_it(w: WakeWatch, gaps: Seq<Nanos>, now: Nanos)
    requires
        w.wf(),
        w.counted() < u32::MAX,
        tallies(w.counts@, gaps),
    ensures
        w.last is None ==> tallies(w.counts_at(now), gaps) && w.max_at(now) == w.max,
        w.last matches Some(last) ==> (now >= last ==> tallies(
            w.counts_at(now),
            gaps.push((now - last) as u64),
        ) && w.max_at(now) >= now - last && w.max_at(now) >= w.max && (w.max_at(now) == w.max
            || w.max_at(now) == now - last)),
{
    if let Some(last) = w.last {
        if now >= last {
            counting_an_interval_keeps_the_tally(w.counts@, gaps, (now - last) as u64);
        }
    }
}

/// A window closes a second after it opened. It closes late where its 99th
/// percentile is longer than the cushion there is and in time where it is not,
/// and where there is no cushion it is neither.
pub proof fn a_window_is_judged_by_the_cushion(w: WakeWatch, now: Nanos, cushion: Option<Nanos>)
    ensures
        w.closes(now) <==> now - w.from >= 1_000_000_000,
        cushion is None || !w.closes(now) || w.closing(now) is None ==> !w.late(now, cushion)
            && !w.in_time(now, cushion),
        cushion matches Some(held) ==> (w.closes(now) && w.closing(now) is Some ==> (w.late(
            now,
            cushion,
        ) <==> w.closing(now)->0.p99 > held) && (w.in_time(now, cushion)
            <==> w.closing(now)->0.p99 <= held)),
        w.closing(now) matches Some(pacing) ==> pacing.max == w.max_at(now),
{
}

} // verus!
