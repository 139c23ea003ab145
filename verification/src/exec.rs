//! Work handed to another thread, as the thread that handed it over sees it:
//! one look per frame, never a wait.

use vstd::prelude::*;

verus! {

/// What one look at the channel a result comes back on finds.
#[derive(Debug, PartialEq, Eq)]
pub enum Received<T> {
    Value(T),
    /// Nothing yet.
    Empty,
    /// The sending side is gone.
    Disconnected,
}

/// A pending result. A look yields the value when it has landed, exactly once;
/// callers replace the job with its output then.
#[derive(Debug, Clone, Copy, PartialEq, Eq, Structural)]
pub struct Job {
    /// The value has been handed over.
    pub done: bool,
    pub lost: bool,
}

impl Job {
    /// The job after one look.
    pub open spec fn after<T>(self, received: Received<T>) -> Job {
        Job {
            done: self.done || received is Value,
            lost: self.lost || (received is Disconnected && !self.done),
        }
    }

    /// What one look hands over: the first value that lands, and nothing after
    /// it.
    pub open spec fn yields<T>(self, received: Received<T>) -> Option<T> {
        match received {
            Received::Value(out) if !self.done => Some(out),
            _ => None,
        }
    }

    /// A job, which is lost from the start where nobody took it.
    pub fn new(submitted: bool) -> (job: Job)
        ensures
            job == (Job { done: false, lost: !submitted }),
    {
        Job { done: false, lost: !submitted }
    }

    /// Takes in one look. The task may have panicked, or the executor be gone:
    /// that reads as a permanently pending job, which `lost` tells apart. The
    /// sending side of a job that has handed its value over is gone too, and
    /// nothing is lost by that.
    pub fn poll<T>(&mut self, received: Received<T>) -> (out: Option<T>)
        ensures
            out == old(self).yields(received),
            *final(self) == old(self).after(received),
    {
        match received {
            Received::Value(out) => {
                if self.done {
                    None
                } else {
                    self.done = true;
                    Some(out)
                }
            },
            Received::Empty => None,
            Received::Disconnected => {
                if !self.done {
                    self.lost = true;
                }
                None
            },
        }
    }

    /// Whether the sending side is gone without a value.
    pub fn lost(&self) -> (b: bool)
        ensures
            b == self.lost,
    {
        self.lost
    }
}

/// The job after a run of looks.
pub open spec fn looked_at<T>(job: Job, looks: Seq<Received<T>>) -> Job
    decreases looks.len(),
{
    if looks.len() == 0 {
        job
    } else {
        looked_at(job, looks.drop_last()).after(looks.last())
    }
}

/// What a run of looks hands over, in order.
pub open spec fn handed_over<T>(job: Job, looks: Seq<Received<T>>) -> Seq<T>
    decreases looks.len(),
{
    if looks.len() == 0 {
        Seq::empty()
    } else {
        let front = looks.drop_last();
        match looked_at(job, front).yields(looks.last()) {
            Some(out) => handed_over(job, front).push(out),
            None => handed_over(job, front),
        }
    }
}

/// Whether a value lands within the first `upto` looks.
pub open spec fn landed_by<T>(looks: Seq<Received<T>>, upto: int) -> bool {
    exists|i: int| 0 <= i < upto && (#[trigger] looks[i]) is Value
}

proof fn lemma_done_once_landed<T>(job: Job, looks: Seq<Received<T>>)
    ensures
        looked_at(job, looks).done <==> job.done || landed_by(looks, looks.len() as int),
    decreases looks.len(),
{
    if looks.len() > 0 {
        let front = looks.drop_last();
        lemma_done_once_landed(job, front);
        lemma_landed_in_front(looks, front.len() as int);
        if looks.last() is Value {
            assert(looks[looks.len() - 1] is Value);
        }
    }
}

proof fn lemma_landed_in_front<T>(looks: Seq<Received<T>>, upto: int)
    requires
        upto < looks.len(),
    ensures
        landed_by(looks.drop_last(), upto) == landed_by(looks, upto),
{
    let front = looks.drop_last();
    if landed_by(looks, upto) {
        let i = choose|i: int| 0 <= i < upto && (#[trigger] looks[i]) is Value;
        assert(front[i] is Value);
    }
    if landed_by(front, upto) {
        let i = choose|i: int| 0 <= i < upto && (#[trigger] front[i]) is Value;
        assert(looks[i] is Value);
    }
}

/// A job hands its value over exactly once: nothing while none has landed, and
/// the first that lands and no other after that.
pub proof fn a_job_yields_once<T>(job: Job, looks: Seq<Received<T>>)
    requires
        !job.done,
    ensures
        handed_over(job, looks).len() == if landed_by(looks, looks.len() as int) {
            1nat
        } else {
            0
        },
        forall|i: int|
            0 <= i < looks.len() && !landed_by(looks, i) ==> ((#[trigger] looks[i]) matches
                Received::Value(out) ==> handed_over(job, looks) == seq![out]),
    decreases looks.len(),
{
    if looks.len() > 0 {
        let front = looks.drop_last();
        a_job_yields_once(job, front);
        lemma_done_once_landed(job, front);
        lemma_landed_in_front(looks, front.len() as int);
        if looks.last() is Value {
            assert(looks[looks.len() - 1] is Value);
        }
        assert forall|i: int|
            0 <= i < looks.len() && !landed_by(looks, i) implies ((#[trigger] looks[i]) matches
                Received::Value(out) ==> handed_over(job, looks) == seq![out]) by {
            if i < front.len() {
                lemma_landed_in_front(looks, i);
                assert(front[i] == looks[i]);
                if looks[i] is Value {
                    assert(landed_by(front, front.len() as int));
                }
            }
        }
    }
}

/// A job is lost from the moment a look finds the sending side gone without a
/// value, and stays lost; otherwise no look loses it.
pub proof fn a_job_is_lost_without_a_value<T>(job: Job, looks: Seq<Received<T>>)
    requires
        !job.done,
    ensures
        looked_at(job, looks).lost <==> job.lost || exists|i: int|
            0 <= i < looks.len() && (#[trigger] looks[i]) is Disconnected && !landed_by(looks, i),
    decreases looks.len(),
{
    if looks.len() > 0 {
        let front = looks.drop_last();
        a_job_is_lost_without_a_value(job, front);
        lemma_done_once_landed(job, front);
        lemma_landed_in_front(looks, front.len() as int);
        assert forall|i: int|
            0 <= i < looks.len() && (#[trigger] looks[i]) is Disconnected && !landed_by(
                looks,
                i,
            ) implies looked_at(job, looks).lost by {
            if i < front.len() {
                lemma_landed_in_front(looks, i);
                assert(front[i] is Disconnected);
            }
        }
        if looked_at(job, looks).lost && !job.lost {
            if looked_at(job, front).lost {
                let i = choose|i: int|
                    0 <= i < front.len() && (#[trigger] front[i]) is Disconnected && !landed_by(
                        front,
                        i,
                    );
                lemma_landed_in_front(looks, i);
                assert(looks[i] is Disconnected);
            } else {
                assert(looks[looks.len() - 1] is Disconnected);
            }
        }
    }
}

/// A job that has handed its value over is never lost after that.
pub proof fn a_delivered_job_is_not_lost<T>(job: Job, looks: Seq<Received<T>>)
    requires
        job.done,
    ensures
        looked_at(job, looks) == job,
        handed_over(job, looks).len() == 0,
    decreases looks.len(),
{
    if looks.len() > 0 {
        a_delivered_job_is_not_lost(job, looks.drop_last());
    }
}

} // verus!
