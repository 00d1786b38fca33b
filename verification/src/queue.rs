//! The asynchronous job queue for long-running video moderation: a
//! dedicated tracking set and a permit budget. Submitting an identifier
//! that is already tracked runs nothing; at no point do more jobs run
//! than the configured concurrency. The waiting itself — permits and
//! task spawning — is the application shell's runtime.

use vstd::prelude::*;

use crate::strings::str_eq;

verus! {

/// The queue: the set of tracked job identifiers, the permit budget, and
/// how many permits are out.
pub struct Queue {
    jobs: Vec<String>,
    concurrency: usize,
    running: usize,
}

impl Queue {
    /// The tracked identifiers, in admission order.
    pub closed spec fn ids(&self) -> Seq<Seq<char>> {
        self.jobs@.map_values(|s: String| s@)
    }

    pub closed spec fn concurrency_model(&self) -> usize {
        self.concurrency
    }

    pub closed spec fn running_model(&self) -> usize {
        self.running
    }

    /// Whether an identifier is tracked.
    pub open spec fn tracks(&self, id: Seq<char>) -> bool {
        exists|i: int| 0 <= i < self.ids().len() && self.ids()[i] == id
    }

    /// Well-formedness: identifiers are distinct and never more jobs run
    /// than the permit budget.
    pub closed spec fn wf(&self) -> bool {
        &&& forall|i: int, j: int|
            0 <= i < j < self.jobs@.len() ==> self.jobs@[i]@ != self.jobs@[j]@
        &&& self.running <= self.concurrency
    }

    /// At most `concurrency` jobs run at once, in every well-formed state.
    pub proof fn lemma_bounded_concurrency(&self)
        requires
            self.wf(),
        ensures
            self.running_model() <= self.concurrency_model(),
    {
    }

    /// An empty queue with the given permit budget.
    pub fn new(concurrency: usize) -> (r: Queue)
        ensures
            r.wf(),
            r.ids() =~= Seq::<Seq<char>>::empty(),
            r.concurrency_model() == concurrency,
            r.running_model() == 0,
    {
        Queue { jobs: Vec::new(), concurrency, running: 0 }
    }

    /// Whether a job with the identifier is tracked.
    pub fn job_exists(&self, id: &str) -> (r: bool)
        ensures
            r == self.tracks(id@),
    {
        let mut i: usize = 0;
        while i < self.jobs.len()
            invariant
                i <= self.jobs@.len(),
                forall|j: int| 0 <= j < i ==> self.jobs@[j]@ != id@,
            decreases self.jobs@.len() - i,
        {
            if str_eq(self.jobs[i].as_str(), id) {
                proof {
                    assert(self.ids()[i as int] == id@);
                }
                return true;
            }
            i = i + 1;
        }
        proof {
            assert(forall|j: int|
                0 <= j < self.ids().len() ==> #[trigger] self.ids()[j] != id@);
        }
        false
    }

    /// Admits a task: an identifier that is already tracked is dropped and
    /// nothing changes — the same submission never runs twice; a fresh one
    /// enters the tracking set.
    pub fn try_admit(&mut self, id: &str) -> (r: bool)
        requires
            old(self).wf(),
        ensures
            final(self).wf(),
            final(self).concurrency_model() == old(self).concurrency_model(),
            final(self).running_model() == old(self).running_model(),
            old(self).tracks(id@) ==> !r && *final(self) == *old(self),
            !old(self).tracks(id@) ==> r && final(self).ids() =~= old(self).ids().push(id@),
    {
        if self.job_exists(id) {
            return false;
        }
        let ghost pre = self.jobs@;
        self.jobs.push(id.to_owned());
        proof {
            assert(self.jobs@.drop_last() =~= pre);
            assert(forall|i: int| #![auto]
                0 <= i < pre.len() ==> self.jobs@[i] == pre[i]);
            assert forall|a: int, b: int|
                0 <= a < b < self.jobs@.len() implies self.jobs@[a]@ != self.jobs@[b]@ by {
                if b < self.jobs@.len() - 1 {
                    assert(self.jobs@[a] == pre[a] && self.jobs@[b] == pre[b]);
                } else {
                    assert(self.jobs@[b]@ == id@);
                    assert(self.jobs@[a] == pre[a]);
                    if pre[a]@ == id@ {
                        assert(old(self).ids()[a] == id@);
                        assert(old(self).tracks(id@));
                    }
                }
            }
            assert(self.ids() =~= old(self).ids().push(id@));
        }
        true
    }

    /// Whether a permit is free.
    pub fn can_start(&self) -> (r: bool)
        ensures
            r == (self.running_model() < self.concurrency_model()),
    {
        self.running < self.concurrency
    }

    /// Takes a permit; only when one is free.
    pub fn begin_job(&mut self)
        requires
            old(self).wf(),
            old(self).running_model() < old(self).concurrency_model(),
        ensures
            final(self).wf(),
            final(self).ids() == old(self).ids(),
            final(self).concurrency_model() == old(self).concurrency_model(),
            final(self).running_model() == old(self).running_model() + 1,
    {
        self.running = self.running + 1;
    }

    /// Releases a job's permit and stops tracking its identifier.
    pub fn finish_job(&mut self, id: &str)
        requires
            old(self).wf(),
        ensures
            final(self).wf(),
            final(self).concurrency_model() == old(self).concurrency_model(),
            final(self).running_model() == if old(self).running_model() > 0 {
                old(self).running_model() - 1
            } else {
                0
            },
            !final(self).tracks(id@),
            forall|x: Seq<char>|
                x != id@ ==> (#[trigger] final(self).tracks(x) <==> old(self).tracks(x)),
    {
        if self.running > 0 {
            self.running = self.running - 1;
        }
        let ghost run2 = self.running;
        let mut i: usize = 0;
        while i < self.jobs.len()
            invariant
                old(self).wf(),
                self.jobs@ == old(self).jobs@,
                self.running == run2,
                self.concurrency == old(self).concurrency,
                run2 <= old(self).concurrency,
                old(self).running > 0 ==> run2 == old(self).running - 1,
                old(self).running == 0 ==> run2 == 0,
                i <= self.jobs@.len(),
                forall|j: int| 0 <= j < i ==> self.jobs@[j]@ != id@,
            decreases self.jobs@.len() - i,
        {
            if str_eq(self.jobs[i].as_str(), id) {
                let ghost mid_pre = self.jobs@;
                self.jobs.remove(i);
                proof {
                    assert(mid_pre == old(self).jobs@);
                    assert(mid_pre[i as int]@ == id@);
                    assert(self.jobs@ =~= mid_pre.remove(i as int));
                    assert(forall|a: int| #![auto]
                        0 <= a < self.jobs@.len() ==> self.jobs@[a] == (if a < i as int {
                            mid_pre[a]
                        } else {
                            mid_pre[a + 1]
                        }));
                    assert forall|a: int, b: int|
                        0 <= a < b < self.jobs@.len() implies self.jobs@[a]@
                        != self.jobs@[b]@ by {
                        assert(old(self).jobs@[if a < i as int { a } else { a + 1 }]@
                            != old(self).jobs@[if b < i as int { b } else { b + 1 }]@);
                    }
                    assert(!self.tracks(id@)) by {
                        if self.tracks(id@) {
                            let k = choose|k: int|
                                0 <= k < self.ids().len() && self.ids()[k] == id@;
                            if k < i as int {
                                assert(self.jobs@[k] == mid_pre[k]);
                                assert(mid_pre[k]@ != id@);
                            } else {
                                assert(self.jobs@[k] == mid_pre[k + 1]);
                                assert(mid_pre[i as int]@ != mid_pre[k + 1]@);
                            }
                        }
                    }
                    assert forall|x: Seq<char>| x != id@ implies (self.tracks(x) <==> old(
                        self,
                    ).tracks(x)) by {
                        if self.tracks(x) {
                            let k = choose|k: int|
                                0 <= k < self.ids().len() && self.ids()[k] == x;
                            if k < i as int {
                                assert(self.jobs@[k] == mid_pre[k]);
                                assert(old(self).ids()[k] == x);
                            } else {
                                assert(self.jobs@[k] == mid_pre[k + 1]);
                                assert(old(self).ids()[k + 1] == x);
                            }
                            assert(old(self).tracks(x));
                        }
                        if old(self).tracks(x) {
                            let k = choose|k: int|
                                0 <= k < old(self).ids().len() && old(self).ids()[k] == x;
                            assert(mid_pre[k]@ == x);
                            if k < i as int {
                                assert(self.jobs@[k] == mid_pre[k]);
                                assert(self.ids()[k] == x);
                            } else {
                                assert(k != i as int);
                                assert(self.jobs@[k - 1] == mid_pre[k]);
                                assert(self.ids()[k - 1] == x);
                            }
                            assert(self.tracks(x));
                        }
                    }
                }
                return ;
            }
            i = i + 1;
        }
        proof {
            assert(self.ids() == old(self).ids());
            assert(forall|j: int|
                0 <= j < self.ids().len() ==> #[trigger] self.ids()[j] != id@);
        }
    }
}

/// One event of a queue schedule: some job starting or some job
/// completing.
#[derive(PartialEq, Eq, Structural, Clone, Copy, Debug)]
pub enum QueueEvent {
    Started(u64),
    Completed(u64),
}

/// How many jobs have started strictly before position `i`.
pub open spec fn starts_before(tr: Seq<QueueEvent>, i: int) -> int
    decreases i,
{
    if i <= 0 {
        0
    } else {
        starts_before(tr, i - 1) + if tr[i - 1] is Started {
            1int
        } else {
            0int
        }
    }
}

/// How many jobs have completed strictly before position `i`.
pub open spec fn completes_before(tr: Seq<QueueEvent>, i: int) -> int
    decreases i,
{
    if i <= 0 {
        0
    } else {
        completes_before(tr, i - 1) + if tr[i - 1] is Completed {
            1int
        } else {
            0int
        }
    }
}

/// A schedule the permit budget admits: at no point are more jobs started
/// than completed plus the budget.
pub open spec fn schedule_bounded(tr: Seq<QueueEvent>, c: int) -> bool {
    forall|i: int|
        0 <= i <= tr.len() ==> #[trigger] starts_before(tr, i) <= completes_before(tr, i) + c
}

pub proof fn lemma_starts_monotone(tr: Seq<QueueEvent>, i: int, j: int)
    requires
        i <= j,
    ensures
        starts_before(tr, i) <= starts_before(tr, j),
    decreases j - i,
{
    if i < j {
        lemma_starts_monotone(tr, i, j - 1);
    }
}

/// The provable half of the rank window: under a permit budget `c`, a
/// job's start rank exceeds its completion rank by less than `c`. The
/// other direction — a bound on how late a start can rank — depends on
/// how long jobs run, not on the queue, and is only observed by running
/// one.
pub proof fn lemma_start_rank_window(tr: Seq<QueueEvent>, c: int, x: u64, si: int, ci: int)
    requires
        schedule_bounded(tr, c),
        0 <= si < ci < tr.len(),
        tr[si] == QueueEvent::Started(x),
        tr[ci] == QueueEvent::Completed(x),
    ensures
        starts_before(tr, si) <= completes_before(tr, ci) + c - 1,
{
    assert(starts_before(tr, si + 1) == starts_before(tr, si) + 1);
    lemma_starts_monotone(tr, si + 1, ci);
    assert(starts_before(tr, ci) <= completes_before(tr, ci) + c);
}

} // verus!
