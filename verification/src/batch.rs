//! The batching engine: a bounded-concurrency set of download tasks, a chunk
//! that wraps a set with success/failure counters, and a queue that executes
//! heterogeneous downloaders member by member.
//!
//! Transfers themselves are network work and are performed by an unverified
//! driver. The driver obtains the tasks of a composite, runs them, and hands
//! the outcomes (one per task — a task whose outcome cannot be retrieved
//! yields a join error) to the `complete` functions below, which do all the
//! accounting: forwarding every outcome to the progress sink and updating
//! the per-chunk counters.

use vstd::prelude::*;
use crate::task::{DownloadResult, FileDownloader};
use crate::progress::{ProgressEvent, ProgressLog};

verus! {

/// How many of the outcomes are successes.
pub open spec fn count_ok(s: Seq<DownloadResult>) -> nat
    decreases s.len(),
{
    if s.len() == 0 {
        0
    } else {
        count_ok(s.drop_last()) + if s.last().spec_is_ok() {
            1nat
        } else {
            0nat
        }
    }
}

/// How many of the outcomes are failures.
pub open spec fn count_err(s: Seq<DownloadResult>) -> nat
    decreases s.len(),
{
    if s.len() == 0 {
        0
    } else {
        count_err(s.drop_last()) + if s.last().spec_is_ok() {
            0nat
        } else {
            1nat
        }
    }
}

/// The events that delivering these outcomes appends to the sink, in order.
pub open spec fn result_events(s: Seq<DownloadResult>) -> Seq<ProgressEvent> {
    Seq::new(s.len(), |i: int| ProgressEvent::Finished(s[i]))
}

proof fn lemma_count_split(s: Seq<DownloadResult>)
    ensures
        count_ok(s) + count_err(s) == s.len(),
    decreases s.len(),
{
    if s.len() > 0 {
        lemma_count_split(s.drop_last());
    }
}

/// A batch of download tasks dispatched concurrently up to a driver-chosen
/// bound. Owns its tasks until execution consumes them; result delivery
/// order is completion order, so the contracts below never depend on the
/// order of the outcomes.
#[derive(Debug)]
pub struct DownloadSet {
    tasks: Vec<FileDownloader>,
}

impl DownloadSet {
    pub closed spec fn spec_tasks(&self) -> Seq<FileDownloader> {
        self.tasks@
    }

    /// The progress denominator this set contributes: the exact count of
    /// tasks it will eventually attempt.
    pub open spec fn spec_total(&self) -> nat {
        self.spec_tasks().len()
    }

    pub fn new() -> (s: Self)
        ensures
            s.spec_tasks() == Seq::<FileDownloader>::empty(),
    {
        DownloadSet { tasks: Vec::new() }
    }

    pub fn from_vec(tasks: Vec<FileDownloader>) -> (s: Self)
        ensures
            s.spec_tasks() == tasks@,
    {
        DownloadSet { tasks }
    }

    pub fn add(&mut self, task: FileDownloader)
        ensures
            final(self).spec_tasks() == old(self).spec_tasks().push(task),
    {
        self.tasks.push(task);
    }

    pub fn total(&self) -> (t: u32)
        requires
            self.spec_total() <= u32::MAX,
        ensures
            t == self.spec_total(),
    {
        self.tasks.len() as u32
    }

    pub fn tasks(&self) -> (r: &Vec<FileDownloader>)
        ensures
            r@ == self.spec_tasks(),
    {
        &self.tasks
    }

    /// Consume the set, yielding its tasks for the driver to execute. A set,
    /// like a task, cannot be re-submitted once execution has taken it.
    pub fn into_tasks(self) -> (r: Vec<FileDownloader>)
        ensures
            r@ == self.spec_tasks(),
    {
        self.tasks
    }

    /// Deliver the outcomes of this set's tasks to the sink, one event per
    /// task, in the order the driver observed them complete.
    ///
    /// The set never aborts remaining work when one task fails: the driver
    /// supplies exactly one outcome per task, and every one of them reaches
    /// the sink — no event is lost and none is duplicated, so the number of
    /// delivered events equals `total()`.
    pub fn complete(self, outcomes: Vec<DownloadResult>, sink: &mut ProgressLog)
        requires
            outcomes@.len() == self.spec_total(),
        ensures
            final(sink).spec_events() == old(sink).spec_events() + result_events(outcomes@),
            final(sink).spec_events().len() == old(sink).spec_events().len()
                + self.spec_total(),
            final(sink).spec_total() == old(sink).spec_total(),
    {
        let ghost all = outcomes@;
        let mut outcomes = outcomes;
        let initial_len = outcomes.len();
        assert(all.len() == initial_len);
        let mut i: usize = 0;
        while outcomes.len() > 0
            invariant
                all.len() <= usize::MAX,
                i + outcomes@.len() == all.len(),
                outcomes@ == all.skip(i as int),
                sink.spec_events() == old(sink).spec_events() + result_events(
                    all.take(i as int),
                ),
                sink.spec_total() == old(sink).spec_total(),
            decreases outcomes@.len(),
        {
            let r = outcomes.remove(0);
            assert(r == all[i as int]);
            sink.send_result(r);
            proof {
                assert(result_events(all.take(i as int)).push(
                    ProgressEvent::Finished(all[i as int]),
                ) =~= result_events(all.take(i + 1 as int)));
                assert(all.skip(i as int).remove(0) =~= all.skip(i + 1 as int));
            }
            i = i + 1;
        }
        proof {
            assert(all.take(i as int) =~= all);
        }
    }
}

/// A download set together with success and failure counters, updated once
/// per observed result and never reset during the chunk's lifetime. A chunk
/// satisfies the same `total`/completion contract as a set, so queues can
/// compose chunks of sets recursively.
#[derive(Debug)]
pub struct Chunk {
    ok: usize,
    err: usize,
    set: DownloadSet,
}

impl Chunk {
    pub closed spec fn spec_ok(&self) -> nat {
        self.ok as nat
    }

    pub closed spec fn spec_err(&self) -> nat {
        self.err as nat
    }

    pub closed spec fn spec_tasks(&self) -> Seq<FileDownloader> {
        self.set.spec_tasks()
    }

    /// A chunk's denominator is that of the set it wraps.
    pub open spec fn spec_total(&self) -> nat {
        self.spec_tasks().len()
    }

    pub fn new(set: DownloadSet) -> (c: Self)
        ensures
            c.spec_ok() == 0,
            c.spec_err() == 0,
            c.spec_tasks() == set.spec_tasks(),
    {
        Chunk { ok: 0, err: 0, set }
    }

    pub fn total(&self) -> (t: u32)
        requires
            self.spec_total() <= u32::MAX,
        ensures
            t == self.spec_total(),
    {
        self.set.total()
    }

    pub fn ok_count(&self) -> (n: usize)
        ensures
            n == self.spec_ok(),
    {
        self.ok
    }

    pub fn err_count(&self) -> (n: usize)
        ensures
            n == self.spec_err(),
    {
        self.err
    }

    pub fn tasks(&self) -> (r: &Vec<FileDownloader>)
        ensures
            r@ == self.spec_tasks(),
    {
        self.set.tasks()
    }

    /// Drive the wrapped set to completion over the given outcomes while
    /// counting, as on the helper observer channel, how many succeeded and
    /// how many failed.
    ///
    /// After completion the counters partition the chunk's total: exactly
    /// `ok + err == total()`, with `ok` the number of successful outcomes.
    /// Every outcome is also forwarded to the primary sink, and the chunk's
    /// total is unchanged — the denominator never moves once work begins.
    pub fn complete(&mut self, outcomes: Vec<DownloadResult>, sink: &mut ProgressLog)
        requires
            old(self).spec_ok() == 0,
            old(self).spec_err() == 0,
            outcomes@.len() == old(self).spec_total(),
        ensures
            final(self).spec_ok() == count_ok(outcomes@),
            final(self).spec_err() == count_err(outcomes@),
            final(self).spec_ok() + final(self).spec_err() == final(self).spec_total(),
            final(self).spec_tasks() == old(self).spec_tasks(),
            final(sink).spec_events() == old(sink).spec_events() + result_events(outcomes@),
            final(sink).spec_events().len() == old(sink).spec_events().len()
                + old(self).spec_total(),
            final(sink).spec_total() == old(sink).spec_total(),
    {
        let ghost all = outcomes@;
        let mut outcomes = outcomes;
        let initial_len = outcomes.len();
        assert(all.len() == initial_len);
        let mut i: usize = 0;
        while outcomes.len() > 0
            invariant
                all.len() <= usize::MAX,
                i + outcomes@.len() == all.len(),
                outcomes@ == all.skip(i as int),
                self.spec_ok() + self.spec_err() == i,
                self.spec_ok() == count_ok(all.take(i as int)),
                self.spec_err() == count_err(all.take(i as int)),
                self.spec_tasks() == old(self).spec_tasks(),
                sink.spec_events() == old(sink).spec_events() + result_events(
                    all.take(i as int),
                ),
                sink.spec_total() == old(sink).spec_total(),
            decreases outcomes@.len(),
        {
            let r = outcomes.remove(0);
            assert(r == all[i as int]);
            proof {
                lemma_count_split(all.take(i as int));
                assert(all.take(i + 1 as int).drop_last() =~= all.take(i as int));
                assert(all.take(i + 1 as int).last() == all[i as int]);
            }
            if r.is_ok() {
                self.ok = self.ok + 1;
            } else {
                self.err = self.err + 1;
            }
            sink.send_result(r);
            proof {
                assert(result_events(all.take(i as int)).push(
                    ProgressEvent::Finished(all[i as int]),
                ) =~= result_events(all.take(i + 1 as int)));
                assert(all.skip(i as int).remove(0) =~= all.skip(i + 1 as int));
            }
            i = i + 1;
        }
        proof {
            assert(all.take(i as int) =~= all);
            lemma_count_split(all);
        }
    }
}

/// One member of a download queue: a closed union of the downloader shapes
/// the engine composes — a single task, a plain set, or a counted chunk.
#[derive(Debug)]
pub enum Downloader {
    Single(FileDownloader),
    Group(DownloadSet),
    Chunked(Chunk),
}

impl Downloader {
    pub open spec fn spec_total(&self) -> nat {
        match self {
            Downloader::Single(_) => 1,
            Downloader::Group(s) => s.spec_total(),
            Downloader::Chunked(c) => c.spec_total(),
        }
    }

    /// A member whose counters have not yet observed any result.
    pub open spec fn spec_fresh(&self) -> bool {
        match self {
            Downloader::Chunked(c) => c.spec_ok() == 0 && c.spec_err() == 0,
            _ => true,
        }
    }

    pub fn total(&self) -> (t: u32)
        requires
            self.spec_total() <= u32::MAX,
        ensures
            t == self.spec_total(),
    {
        match self {
            Downloader::Single(_) => 1,
            Downloader::Group(s) => s.total(),
            Downloader::Chunked(c) => c.total(),
        }
    }
}

/// The sum of the members' denominators.
pub open spec fn sum_totals(members: Seq<Downloader>) -> nat
    decreases members.len(),
{
    if members.len() == 0 {
        0
    } else {
        sum_totals(members.drop_last()) + members.last().spec_total()
    }
}

/// The events appended when each member's outcomes are delivered in member
/// order: all of member N's events precede every event of member N + 1.
pub open spec fn flat_events(outs: Seq<Seq<DownloadResult>>) -> Seq<ProgressEvent>
    decreases outs.len(),
{
    if outs.len() == 0 {
        Seq::empty()
    } else {
        flat_events(outs.drop_last()) + result_events(outs.last())
    }
}

/// An ordered sequence of heterogeneous downloaders, executed member by
/// member: each member is fully consumed before the next begins, all through
/// one shared sink, so progress aggregates transparently across the plan.
#[derive(Debug)]
pub struct DownloadQueue {
    members: Vec<Downloader>,
}

impl DownloadQueue {
    pub closed spec fn spec_members(&self) -> Seq<Downloader> {
        self.members@
    }

    /// The queue's denominator: the sum of its members' totals. It is a pure
    /// function of the plan, fixed before execution begins.
    pub open spec fn spec_total(&self) -> nat {
        sum_totals(self.spec_members())
    }

    pub open spec fn spec_fresh(&self) -> bool {
        forall|i: int|
            0 <= i < self.spec_members().len() ==> (#[trigger] self.spec_members()[i]).spec_fresh()
    }

    pub fn new() -> (q: Self)
        ensures
            q.spec_members() == Seq::<Downloader>::empty(),
    {
        DownloadQueue { members: Vec::new() }
    }

    pub fn add_downloader(&mut self, d: Downloader)
        ensures
            final(self).spec_members() == old(self).spec_members().push(d),
            final(self).spec_total() == old(self).spec_total() + d.spec_total(),
    {
        self.members.push(d);
        proof {
            assert(self.members@.drop_last() =~= old(self).spec_members());
        }
    }

    pub fn member_count(&self) -> (n: usize)
        ensures
            n == self.spec_members().len(),
    {
        self.members.len()
    }

    /// Consume the queue, yielding its members in execution order.
    pub fn into_members(self) -> (r: Vec<Downloader>)
        ensures
            r@ == self.spec_members(),
    {
        self.members
    }

    /// Execute the whole plan over the outcomes the driver gathered for
    /// each member: member N's outcomes are fully delivered before member
    /// N + 1 begins, all through the one shared sink, so progress
    /// aggregates transparently across the plan. Every outcome of every
    /// member reaches the sink — the number of delivered events equals the
    /// queue's total, which the execution never changes.
    pub fn complete(self, outcomes: Vec<Vec<DownloadResult>>, sink: &mut ProgressLog)
        requires
            self.spec_fresh(),
            outcomes@.len() == self.spec_members().len(),
            forall|i: int|
                0 <= i < outcomes@.len() ==> (#[trigger] outcomes@[i])@.len()
                    == self.spec_members()[i].spec_total(),
        ensures
            final(sink).spec_events() == old(sink).spec_events() + flat_events(
                outcomes@.map_values(|v: Vec<DownloadResult>| v@),
            ),
            final(sink).spec_events().len() == old(sink).spec_events().len()
                + self.spec_total(),
            final(sink).spec_total() == old(sink).spec_total(),
    {
        let ghost ms = self.members@;
        let ghost all = outcomes@;
        let ghost outs = outcomes@.map_values(|v: Vec<DownloadResult>| v@);
        let mut members = self.members;
        let mut outcomes = outcomes;
        let member_count = members.len();
        assert(ms.len() == member_count);
        let mut i: usize = 0;
        while members.len() > 0
            invariant
                ms.len() <= usize::MAX,
                i + members@.len() == ms.len(),
                all.len() == ms.len(),
                members@ == ms.skip(i as int),
                outcomes@ == all.skip(i as int),
                outs == all.map_values(|v: Vec<DownloadResult>| v@),
                forall|k: int| i <= k < ms.len() ==> (#[trigger] ms[k]).spec_fresh(),
                forall|k: int|
                    0 <= k < all.len() ==> (#[trigger] all[k])@.len() == ms[k].spec_total(),
                sink.spec_events() == old(sink).spec_events() + flat_events(
                    outs.take(i as int),
                ),
                sink.spec_total() == old(sink).spec_total(),
            decreases members@.len(),
        {
            let m = members.remove(0);
            let o = outcomes.remove(0);
            assert(m == ms[i as int]);
            assert(o == all[i as int]);
            assert(o@ == outs[i as int]);
            let ghost before = sink.spec_events();
            match m {
                Downloader::Single(_task) => {
                    let mut o = o;
                    let r = o.remove(0);
                    sink.send_result(r);
                    proof {
                        assert(result_events(outs[i as int]) =~= Seq::<
                            ProgressEvent,
                        >::empty().push(ProgressEvent::Finished(r)));
                        assert(sink.spec_events() =~= before + result_events(outs[i as int]));
                    }
                },
                Downloader::Group(set) => {
                    set.complete(o, sink);
                },
                Downloader::Chunked(mut chunk) => {
                    chunk.complete(o, sink);
                },
            }
            proof {
                assert(outs.take(i + 1 as int).drop_last() =~= outs.take(i as int));
                assert(outs.take(i + 1 as int).last() == outs[i as int]);
                assert(sink.spec_events() =~= old(sink).spec_events() + flat_events(
                    outs.take(i + 1 as int),
                ));
                assert(members@ =~= ms.skip(i + 1 as int));
                assert(outcomes@ =~= all.skip(i + 1 as int));
            }
            i = i + 1;
        }
        proof {
            assert(outs.take(i as int) =~= outs);
            lemma_flat_events_len(outs, ms);
        }
    }

    pub fn total(&self) -> (t: u32)
        requires
            self.spec_total() <= u32::MAX,
        ensures
            t == self.spec_total(),
    {
        let mut sum: u32 = 0;
        let ghost ms = self.members@;
        let mut i: usize = 0;
        while i < self.members.len()
            invariant
                0 <= i <= ms.len(),
                ms == self.members@,
                sum_totals(ms) <= u32::MAX,
                sum == sum_totals(ms.take(i as int)),
            decreases ms.len() - i,
        {
            proof {
                assert(ms.take(i + 1 as int).drop_last() =~= ms.take(i as int));
                assert(ms.take(i + 1 as int).last() == ms[i as int]);
                lemma_sum_totals_split(ms, i + 1);
                assert(sum_totals(ms.take(i + 1 as int)) <= sum_totals(ms));
            }
            sum = sum + self.members[i].total();
            i = i + 1;
        }
        proof {
            assert(ms.take(i as int) =~= ms);
        }
        sum
    }
}

/// Splitting a member sequence at any point splits its total.
proof fn lemma_sum_totals_split(ms: Seq<Downloader>, k: int)
    requires
        0 <= k <= ms.len(),
    ensures
        sum_totals(ms.take(k)) + sum_totals(ms.skip(k)) == sum_totals(ms),
    decreases ms.len() - k,
{
    if k == ms.len() {
        assert(ms.take(k) =~= ms);
        assert(ms.skip(k) =~= Seq::<Downloader>::empty());
    } else {
        lemma_sum_totals_split(ms, k + 1);
        assert(ms.take(k + 1).drop_last() =~= ms.take(k));
        assert(ms.take(k + 1).last() == ms[k]);
        assert(ms.skip(k).drop_first() =~= ms.skip(k + 1));
        lemma_sum_totals_first(ms.skip(k));
    }
}

proof fn lemma_sum_totals_first(ms: Seq<Downloader>)
    requires
        ms.len() > 0,
    ensures
        sum_totals(ms) == ms.first().spec_total() + sum_totals(ms.drop_first()),
    decreases ms.len(),
{
    if ms.len() == 1 {
        assert(ms.drop_last() =~= Seq::<Downloader>::empty());
        assert(ms.drop_first() =~= Seq::<Downloader>::empty());
    } else {
        lemma_sum_totals_first(ms.drop_last());
        assert(ms.drop_last().drop_first() =~= ms.drop_first().drop_last());
        assert(ms.drop_last().first() == ms.first());
        assert(ms.drop_first().last() == ms.last());
    }
}

/// Outcome sequences that match their members one for one deliver exactly
/// the summed total of events.
proof fn lemma_flat_events_len(outs: Seq<Seq<DownloadResult>>, ms: Seq<Downloader>)
    requires
        outs.len() == ms.len(),
        forall|k: int| 0 <= k < outs.len() ==> (#[trigger] outs[k]).len() == ms[k].spec_total(),
    ensures
        flat_events(outs).len() == sum_totals(ms),
    decreases outs.len(),
{
    if outs.len() > 0 {
        lemma_flat_events_len(outs.drop_last(), ms.drop_last());
    }
}

/// The tasks one member will attempt.
pub open spec fn member_tasks_of(m: Downloader) -> Seq<FileDownloader> {
    match m {
        Downloader::Single(t) => seq![t],
        Downloader::Group(s) => s.spec_tasks(),
        Downloader::Chunked(c) => c.spec_tasks(),
    }
}

/// The tasks of a member sequence, flattened in member order.
pub open spec fn member_tasks(members: Seq<Downloader>) -> Seq<FileDownloader>
    decreases members.len(),
{
    if members.len() == 0 {
        Seq::empty()
    } else {
        member_tasks(members.drop_last()) + member_tasks_of(members.last())
    }
}

/// A member sequence's summed denominator counts exactly its flattened
/// tasks.
pub proof fn lemma_member_tasks_total(members: Seq<Downloader>)
    ensures
        sum_totals(members) == member_tasks(members).len(),
    decreases members.len(),
{
    if members.len() > 0 {
        lemma_member_tasks_total(members.drop_last());
    }
}

/// A queue's denominator is exactly the sum of its members' denominators,
/// and — being a pure function of the members — it is fixed before any
/// member begins executing: no completion function changes a total.
pub proof fn lemma_queue_total_is_member_sum(q: &DownloadQueue)
    ensures
        q.spec_total() == sum_totals(q.spec_members()),
{
}

} // verus!
