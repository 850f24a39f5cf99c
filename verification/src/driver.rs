//! The batched fill driver, modelled as a step machine. Each step either
//! hands the surrounding harness one batch of generated pairs to write and
//! commit, asks for the one final explicit flush of a deferred-durability
//! run, or reports completion. The machine owns the remaining-item count,
//! the key pool and the generator; the harness owns the engine.

use vstd::prelude::*;

use crate::config::{FillOpts, COLD_SCALE};
use crate::keygen::{KeyGen, KeyPool, KEY_LEN};

verus! {

/// The sizes of the batches a fill of n items with the given batch bound
/// emits, in order: full batches of b items, then the remainder if any.
pub open spec fn batch_plan(n: nat, b: nat) -> Seq<nat>
    decreases n,
{
    if b == 0 || n == 0 {
        Seq::empty()
    } else if n <= b {
        seq![n]
    } else {
        seq![b] + batch_plan((n - b) as nat, b)
    }
}

/// Total number of items across a sequence of batch sizes.
pub open spec fn sum_sizes(s: Seq<nat>) -> nat
    decreases s.len(),
{
    if s.len() == 0 {
        0
    } else {
        s[0] + sum_sizes(s.drop_first())
    }
}

/// Law: the batch sizes of a fill of n items sum to exactly n — no item is
/// dropped and none is written twice.
pub proof fn lemma_batch_plan_sum(n: nat, b: nat)
    requires
        0 < b,
    ensures
        sum_sizes(batch_plan(n, b)) == n,
    decreases n,
{
    if n == 0 {
    } else if n <= b {
        let p = batch_plan(n, b);
        assert(p =~= seq![n]);
        assert(p[0] == n);
        assert(p.drop_first() =~= Seq::<nat>::empty());
        assert(sum_sizes(p) == n + sum_sizes(p.drop_first()));
    } else {
        let p = batch_plan(n, b);
        let rest = batch_plan((n - b) as nat, b);
        assert(p =~= seq![b] + rest);
        assert(p[0] == b);
        assert(p.drop_first() =~= rest);
        lemma_batch_plan_sum((n - b) as nat, b);
        assert(sum_sizes(p) == b + sum_sizes(rest));
    }
}

/// Law: every batch is non-empty and no batch exceeds the configured batch
/// size.
pub proof fn lemma_batch_plan_bounds(n: nat, b: nat)
    requires
        0 < b,
    ensures
        forall|i: int|
            0 <= i < batch_plan(n, b).len() ==> 0 < #[trigger] batch_plan(n, b)[i] <= b,
    decreases n,
{
    if n == 0 {
    } else if n <= b {
    } else {
        lemma_batch_plan_bounds((n - b) as nat, b);
        let rest = batch_plan((n - b) as nat, b);
        assert forall|i: int| 0 <= i < batch_plan(n, b).len() implies 0 < #[trigger] batch_plan(
            n,
            b,
        )[i] <= b by {
            if i > 0 {
                assert(batch_plan(n, b)[i] == rest[i - 1]);
            }
        }
    }
}

/// Law: a fill of n > 0 items ends with a batch of n mod b items, or a full
/// batch of b items when n is an exact multiple of b.
pub proof fn lemma_batch_plan_last(n: nat, b: nat)
    requires
        0 < b,
        0 < n,
    ensures
        batch_plan(n, b).len() > 0,
        n % b == 0 ==> batch_plan(n, b).last() == b,
        n % b != 0 ==> batch_plan(n, b).last() == n % b,
    decreases n,
{
    if n < b {
        vstd::arithmetic::div_mod::lemma_small_mod(n, b);
        assert(batch_plan(n, b).last() == n);
    } else if n == b {
        vstd::arithmetic::div_mod::lemma_mod_self_0(b as int);
        assert(batch_plan(n, b).last() == b);
    } else {
        lemma_batch_plan_last((n - b) as nat, b);
        let rest = batch_plan((n - b) as nat, b);
        assert(batch_plan(n, b).last() == rest.last());
        vstd::arithmetic::div_mod::lemma_mod_sub_multiples_vanish(n as int, b as int);
        assert((n as int - b as int) % (b as int) == (n as int) % (b as int));
    }
}

/// One step's instruction to the surrounding harness.
pub enum BatchStep {
    /// Write these pairs in one transaction and commit it.
    Commit(Vec<(Vec<u8>, Vec<u8>)>),
    /// Issue the one final explicit synchronous flush; only deferred-
    /// durability runs see this, once, after their last batch.
    Flush,
    /// The run is complete.
    Done,
}

/// The fill machine: remaining-item count, key pool, generator and the
/// durability mode, together with the ghost trace of batch sizes emitted
/// so far.
pub struct FillRun {
    opts: FillOpts,
    no_sync: bool,
    remaining: usize,
    flushed: bool,
    gen: KeyGen,
    pool: KeyPool,
    emitted: Ghost<Seq<nat>>,
}

impl FillRun {
    /// Total number of items this run inserts.
    pub closed spec fn total(&self) -> nat {
        self.opts.n as nat
    }

    /// Upper bound on items per batch.
    pub closed spec fn batch_bound(&self) -> nat {
        self.opts.batch_sz as nat
    }

    /// Length in bytes of every generated value.
    pub closed spec fn value_size(&self) -> nat {
        self.opts.value_sz as nat
    }

    /// Items still to be written.
    pub closed spec fn spec_remaining(&self) -> nat {
        self.remaining as nat
    }

    /// Whether per-commit durability is off, so one final flush is owed.
    pub closed spec fn is_no_sync(&self) -> bool {
        self.no_sync
    }

    /// Whether the final explicit flush has been emitted.
    pub closed spec fn has_flushed(&self) -> bool {
        self.flushed
    }

    /// Sizes of the batches emitted so far, in order.
    pub closed spec fn spec_emitted(&self) -> Seq<nat> {
        self.emitted@
    }

    /// Keys handed out so far.
    pub closed spec fn pool_view(&self) -> Seq<Seq<u8>> {
        self.pool@
    }

    /// Internal consistency: the batches already emitted followed by the
    /// plan for what remains form exactly the plan of the whole run; the
    /// flush flag only rises at the end of a deferred-durability run.
    pub closed spec fn wf(&self) -> bool {
        &&& self.opts.wf()
        &&& self.remaining <= self.opts.n
        &&& self.pool.wf()
        &&& self.emitted@ + batch_plan(self.remaining as nat, self.opts.batch_sz as nat)
            == batch_plan(self.opts.n as nat, self.opts.batch_sz as nat)
        &&& (self.flushed ==> self.remaining == 0 && self.no_sync)
    }

    /// A fresh run: nothing written, nothing flushed, an empty pool.
    pub fn new(opts: FillOpts, no_sync: bool) -> (r: FillRun)
        requires
            opts.wf(),
        ensures
            r.wf(),
            r.total() == opts.n,
            r.batch_bound() == opts.batch_sz,
            r.value_size() == opts.value_sz,
            r.spec_remaining() == opts.n,
            r.is_no_sync() == no_sync,
            !r.has_flushed(),
            r.spec_emitted() =~= Seq::<nat>::empty(),
            r.pool_view() =~= Seq::<Seq<u8>>::empty(),
    {
        let r = FillRun {
            opts,
            no_sync,
            remaining: opts.n,
            flushed: false,
            gen: KeyGen::new(),
            pool: KeyPool::new(),
            emitted: Ghost(Seq::empty()),
        };
        proof {
            assert(r.emitted@ + batch_plan(r.remaining as nat, r.opts.batch_sz as nat)
                =~= batch_plan(r.opts.n as nat, r.opts.batch_sz as nat));
        }
        r
    }

    /// One transition of the machine, as the contract of [`FillRun::step`]
    /// states it, over the machine's observable state.
    pub open spec fn step_rel(pre: FillRun, post: FillRun, out: BatchStep) -> bool {
        &&& post.total() == pre.total()
        &&& post.batch_bound() == pre.batch_bound()
        &&& post.value_size() == pre.value_size()
        &&& post.is_no_sync() == pre.is_no_sync()
        &&& post.spec_remaining() <= pre.spec_remaining()
        &&& pre.pool_view().is_prefix_of(post.pool_view())
        &&& post.has_flushed() == (pre.has_flushed() || out is Flush)
        &&& (out matches BatchStep::Commit(items) ==> {
            &&& pre.spec_remaining() > 0
            &&& items@.len() == if pre.batch_bound() < pre.spec_remaining() {
                pre.batch_bound()
            } else {
                pre.spec_remaining()
            }
            &&& post.spec_remaining() == pre.spec_remaining() - items@.len()
            &&& post.spec_emitted() == pre.spec_emitted().push(items@.len() as nat)
            &&& !pre.has_flushed() && !post.has_flushed()
        })
        &&& (out is Flush ==> {
            &&& pre.spec_remaining() == 0
            &&& pre.is_no_sync()
            &&& !pre.has_flushed()
            &&& post.spec_remaining() == 0
            &&& post.spec_emitted() == pre.spec_emitted()
        })
        &&& (out is Done ==> {
            &&& pre.spec_remaining() == 0
            &&& (pre.has_flushed() || !pre.is_no_sync())
            &&& post.spec_remaining() == 0
            &&& post.spec_emitted() == pre.spec_emitted()
            &&& post.has_flushed() == pre.has_flushed()
        })
    }

    /// Items still to be written.
    pub fn remaining(&self) -> (n: usize)
        ensures
            n == self.spec_remaining(),
    {
        self.remaining
    }

    /// Drives the run one step. With items remaining it draws one batch of
    /// generated pairs — the batch size bound, truncated to what remains —
    /// and instructs the harness to write and commit them. With nothing
    /// remaining, a deferred-durability run that has not yet flushed is
    /// told to flush, exactly once; every later step reports completion.
    pub fn step(&mut self) -> (out: BatchStep)
        requires
            old(self).wf(),
        ensures
            final(self).wf(),
            FillRun::step_rel(*old(self), *final(self), out),
            out matches BatchStep::Commit(items) ==> {
                &&& forall|i: int|
                    0 <= i < items@.len() ==> (#[trigger] items@[i]).0@.len() == KEY_LEN
                &&& forall|i: int|
                    0 <= i < items@.len() ==> (#[trigger] items@[i]).1@.len() == old(
                        self,
                    ).value_size()
            },
            old(self).spec_remaining() > 0 ==> out is Commit,
            old(self).spec_remaining() == 0 && old(self).is_no_sync() && !old(self).has_flushed()
                ==> out is Flush,
            old(self).spec_remaining() == 0 && (old(self).has_flushed() || !old(self).is_no_sync())
                ==> out is Done,
    {
        if self.remaining > 0 {
            let take: usize = if self.opts.batch_sz < self.remaining {
                self.opts.batch_sz
            } else {
                self.remaining
            };
            let ghost pre_remaining: nat = self.remaining as nat;
            let mut items: Vec<(Vec<u8>, Vec<u8>)> = Vec::new();
            let mut i: usize = 0;
            while i < take
                invariant
                    i <= take,
                    take <= self.remaining,
                    self.remaining == pre_remaining,
                    take as nat == if (self.opts.batch_sz as nat) < pre_remaining {
                        self.opts.batch_sz as nat
                    } else {
                        pre_remaining
                    },
                    self.opts == old(self).opts,
                    self.no_sync == old(self).no_sync,
                    self.flushed == old(self).flushed,
                    self.emitted == old(self).emitted,
                    items@.len() == i,
                    self.opts.wf(),
                    self.pool.wf(),
                    old(self).pool@.is_prefix_of(self.pool@),
                    forall|j: int|
                        0 <= j < items@.len() ==> (#[trigger] items@[j]).0@.len() == KEY_LEN,
                    forall|j: int|
                        0 <= j < items@.len() ==> (#[trigger] items@[j]).1@.len()
                            == self.opts.value_sz,
                decreases take - i,
            {
                let pair = self.gen.next(
                    &mut self.pool,
                    self.opts.value_sz,
                    self.opts.cold_num,
                    COLD_SCALE,
                );
                items.push(pair);
                i += 1;
            }
            self.remaining = self.remaining - take;
            proof {
                let b = self.opts.batch_sz as nat;
                let n = self.opts.n as nat;
                let old_emitted = self.emitted@;
                assert(batch_plan(pre_remaining, b) == seq![take as nat] + batch_plan(
                    (pre_remaining - take) as nat,
                    b,
                )) by {
                    if pre_remaining <= b {
                        assert(take as nat == pre_remaining);
                        assert(batch_plan((pre_remaining - take) as nat, b) =~= Seq::<
                            nat,
                        >::empty());
                        assert(batch_plan(pre_remaining, b) =~= seq![take as nat] + Seq::<
                            nat,
                        >::empty());
                    }
                }
                assert(old_emitted.push(take as nat) + batch_plan((pre_remaining - take) as nat, b)
                    =~= old_emitted + (seq![take as nat] + batch_plan(
                    (pre_remaining - take) as nat,
                    b,
                )));
            }
            self.emitted = Ghost(self.emitted@.push(take as nat));
            BatchStep::Commit(items)
        } else if self.no_sync && !self.flushed {
            self.flushed = true;
            BatchStep::Flush
        } else {
            BatchStep::Done
        }
    }
}

/// Law: a run that has written everything has emitted exactly the planned
/// batches, whose sizes sum to the total item count.
pub proof fn lemma_run_complete(r: FillRun)
    requires
        r.wf(),
        r.spec_remaining() == 0,
    ensures
        0 < r.batch_bound(),
        r.spec_emitted() == batch_plan(r.total(), r.batch_bound()),
        sum_sizes(r.spec_emitted()) == r.total(),
{
    assert(batch_plan(0, r.batch_bound()) =~= Seq::<nat>::empty());
    assert(r.spec_emitted() + Seq::<nat>::empty() =~= r.spec_emitted());
    lemma_batch_plan_sum(r.total(), r.batch_bound());
}

/// A run trace: consecutive states are related by one machine step, with
/// the instruction that step handed out.
pub open spec fn run_trace(states: Seq<FillRun>, outs: Seq<BatchStep>) -> bool {
    &&& states.len() == outs.len() + 1
    &&& forall|i: int|
        0 <= i < outs.len() ==> FillRun::step_rel(states[i], states[i + 1], #[trigger] outs[i])
}

/// Along a trace the flush flag never clears, the remaining count never
/// grows, and the durability mode never changes.
proof fn lemma_trace_monotone(states: Seq<FillRun>, outs: Seq<BatchStep>, k: int, l: int)
    requires
        run_trace(states, outs),
        0 <= k <= l < states.len(),
    ensures
        states[k].has_flushed() ==> states[l].has_flushed(),
        states[l].spec_remaining() <= states[k].spec_remaining(),
        states[l].is_no_sync() == states[k].is_no_sync(),
    decreases l - k,
{
    if k < l {
        lemma_trace_monotone(states, outs, k, l - 1);
        assert(FillRun::step_rel(states[l - 1], states[l], outs[l - 1]));
    }
}

/// A raised flush flag was raised by some earlier flush instruction.
proof fn lemma_flush_flag_has_flush(states: Seq<FillRun>, outs: Seq<BatchStep>, l: int)
    requires
        run_trace(states, outs),
        0 <= l < states.len(),
        !states[0].has_flushed(),
        states[l].has_flushed(),
    ensures
        exists|i: int| 0 <= i < l && (#[trigger] outs[i]) is Flush,
    decreases l,
{
    assert(l > 0);
    assert(FillRun::step_rel(states[l - 1], states[l], outs[l - 1]));
    if states[l - 1].has_flushed() {
        lemma_flush_flag_has_flush(states, outs, l - 1);
        let i = choose|i: int| 0 <= i < l - 1 && (#[trigger] outs[i]) is Flush;
        assert(0 <= i < l && outs[i] is Flush);
    } else {
        assert(outs[l - 1] is Flush);
    }
}

/// The sizes of the committed batches among a sequence of instructions, in
/// order.
pub open spec fn commit_sizes(outs: Seq<BatchStep>) -> Seq<nat>
    decreases outs.len(),
{
    if outs.len() == 0 {
        Seq::empty()
    } else {
        let rest = commit_sizes(outs.drop_last());
        match outs.last() {
            BatchStep::Commit(items) => rest.push(items@.len() as nat),
            _ => rest,
        }
    }
}

/// The machine's trace of emitted batch sizes is exactly the sizes of the
/// commit instructions it handed out.
proof fn lemma_trace_commit_sizes(states: Seq<FillRun>, outs: Seq<BatchStep>)
    requires
        run_trace(states, outs),
        states[0].spec_emitted() == Seq::<nat>::empty(),
    ensures
        states.last().spec_emitted() == commit_sizes(outs),
    decreases outs.len(),
{
    if outs.len() == 0 {
        assert(states.last() == states[0]);
        assert(commit_sizes(outs) =~= Seq::<nat>::empty());
    } else {
        let m = outs.len() - 1;
        let head_states = states.drop_last();
        let head_outs = outs.drop_last();
        assert(run_trace(head_states, head_outs)) by {
            assert forall|i: int|
                0 <= i < head_outs.len() implies FillRun::step_rel(
                head_states[i],
                head_states[i + 1],
                #[trigger] head_outs[i],
            ) by {
                assert(head_states[i] == states[i]);
                assert(head_states[i + 1] == states[i + 1]);
                assert(head_outs[i] == outs[i]);
                assert(FillRun::step_rel(states[i], states[i + 1], outs[i]));
            }
        }
        assert(head_states[0] == states[0]);
        lemma_trace_commit_sizes(head_states, head_outs);
        assert(head_states.last() == states[m]);
        assert(FillRun::step_rel(states[m], states[m + 1], outs[m]));
        assert(states.last() == states[m + 1]);
    }
}

/// Law: a run that starts fresh and finishes commits exactly the planned
/// batches — the committed sizes are the batch plan of the whole run and
/// sum to the total item count.
pub proof fn lemma_trace_batches_cover_total(states: Seq<FillRun>, outs: Seq<BatchStep>)
    requires
        run_trace(states, outs),
        states[0].spec_emitted() == Seq::<nat>::empty(),
        states.last().wf(),
        states.last().spec_remaining() == 0,
    ensures
        commit_sizes(outs) == batch_plan(states.last().total(), states.last().batch_bound()),
        sum_sizes(commit_sizes(outs)) == states.last().total(),
{
    lemma_trace_commit_sizes(states, outs);
    lemma_run_complete(states.last());
}

/// Law: along any run of the machine the final explicit flush is emitted at
/// most once, only after the remaining count has reached zero, and no batch
/// commit follows it — so the flush, when it comes, comes after the last
/// batch. A deferred-durability run that reaches its completion step has
/// emitted the flush exactly once, whatever the batch count.
pub proof fn lemma_flush_exactly_once(states: Seq<FillRun>, outs: Seq<BatchStep>)
    requires
        run_trace(states, outs),
        states.len() > 0,
        !states[0].has_flushed(),
    ensures
        forall|i: int, j: int|
            #![trigger outs[i], outs[j]]
            0 <= i < j < outs.len() && outs[i] is Flush ==> !(outs[j] is Flush),
        forall|i: int|
            0 <= i < outs.len() && (#[trigger] outs[i]) is Flush ==> states[i].spec_remaining()
                == 0,
        forall|i: int, j: int|
            #![trigger outs[i], outs[j]]
            0 <= i < j < outs.len() && outs[i] is Flush ==> !(outs[j] is Commit),
        outs.len() > 0 && outs.last() is Done && states[0].is_no_sync() ==> exists|i: int|
            0 <= i < outs.len() && (#[trigger] outs[i]) is Flush,
{
    assert forall|i: int|
        0 <= i < outs.len() && (#[trigger] outs[i]) is Flush implies states[i].spec_remaining()
        == 0 by {
        assert(FillRun::step_rel(states[i], states[i + 1], outs[i]));
    }
    assert forall|i: int, j: int|
        #![trigger outs[i], outs[j]]
        0 <= i < j < outs.len() && outs[i] is Flush implies !(outs[j] is Flush) && !(outs[j]
        is Commit) by {
        assert(FillRun::step_rel(states[i], states[i + 1], outs[i]));
        assert(states[i + 1].has_flushed());
        assert(states[i + 1].spec_remaining() == 0);
        lemma_trace_monotone(states, outs, i + 1, j);
        assert(FillRun::step_rel(states[j], states[j + 1], outs[j]));
    }
    if outs.len() > 0 && outs.last() is Done && states[0].is_no_sync() {
        let m = outs.len() - 1;
        assert(FillRun::step_rel(states[m], states[m + 1], outs[m]));
        lemma_trace_monotone(states, outs, 0, m);
        assert(states[m].has_flushed());
        lemma_flush_flag_has_flush(states, outs, m);
        let i = choose|i: int| 0 <= i < m && (#[trigger] outs[i]) is Flush;
        assert(0 <= i < outs.len() && outs[i] is Flush);
    }
}

} // verus!
