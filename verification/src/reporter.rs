//! Batching of incoming records by metadata key under a per-group size cap.
//!
//! One cooperative task owns all batching state; this module is that task's
//! state and decisions, as plain functions from state and event to new state
//! and action. The loop that races intake, timer, and shutdown, and the
//! transport calls the actions lead to, live outside the verified core and
//! only perform what these functions decide.

use vstd::prelude::*;
use crate::client::SlsClient;
use crate::proto::{Log, LogGroupMetadata, Message, MetaV, calc_log_group_encoded_len, len_delimited, log_group_wire, lemma_repeated_wire_push, metadata_eq, repeated_wire};

verus! {

/// Default capacity of each batch's record vector.
pub const LOG_VEC_DEFAULT_CAPACITY: usize = 1024;

/// Default capacity of the pool of reusable record vectors.
pub const VEC_POOL_DEFAULT_CAPACITY: usize = 1024;

/// Default capacity of the grouping map.
pub const LOG_GROUP_DEFAULT_CAPACITY: usize = 1024;

/// Default bound on one group's encoded payload size: ten megabytes.
pub const MAX_GROUP_DEFAULT_SIZE: usize = 10485760;

/// The encoded size of one group holding these records under this metadata.
pub open spec fn group_size(m: MetaV, logs: Seq<Log>) -> nat {
    log_group_wire(m, logs).len()
}

/// Position of the batch grouped under metadata `m`, or `-1` if none is
/// held.
pub open spec fn batch_index(bs: Seq<(MetaV, Seq<Log>)>, m: MetaV) -> int
    decreases bs.len(),
{
    if bs.len() == 0 {
        -1
    } else if bs[0].0 == m {
        0
    } else if batch_index(bs.drop_first(), m) < 0 {
        -1
    } else {
        1 + batch_index(bs.drop_first(), m)
    }
}

/// If metadata occurs at `i` and nowhere before, `batch_index` finds `i`.
pub proof fn lemma_batch_index_first(bs: Seq<(MetaV, Seq<Log>)>, m: MetaV, i: int)
    requires
        0 <= i < bs.len(),
        bs[i].0 == m,
        forall|j: int| 0 <= j < i ==> bs[j].0 != m,
    ensures
        batch_index(bs, m) == i,
    decreases i,
{
    if i > 0 {
        assert(forall|j: int| 0 <= j < i - 1 ==> bs.drop_first()[j].0 != m);
        lemma_batch_index_first(bs.drop_first(), m, i - 1);
    }
}

/// `batch_index` returns either a position grouped under the metadata, or
/// `-1` when no position is.
pub proof fn lemma_batch_index_props(bs: Seq<(MetaV, Seq<Log>)>, m: MetaV)
    ensures
        batch_index(bs, m) >= 0 ==> batch_index(bs, m) < bs.len() && bs[batch_index(bs, m)].0
            == m,
        batch_index(bs, m) < 0 ==> forall|i: int| 0 <= i < bs.len() ==> bs[i].0 != m,
    decreases bs.len(),
{
    if bs.len() > 0 {
        lemma_batch_index_props(bs.drop_first(), m);
        assert(forall|i: int| 1 <= i < bs.len() ==> bs[i] == bs.drop_first()[i - 1]);
    }
}

/// The records currently batched under metadata `m`: empty when no batch is
/// held for it.
pub open spec fn batched_logs(bs: Seq<(MetaV, Seq<Log>)>, m: MetaV) -> Seq<Log> {
    if batch_index(bs, m) >= 0 {
        bs[batch_index(bs, m)].1
    } else {
        Seq::empty()
    }
}

/// The grouping state after one record is handed in: the record joins its
/// key's batch (a fresh batch for a new key). If the grown batch would
/// exceed the cap, that batch leaves the state at once, and the held-back
/// record seeds a fresh batch under the same key, unless its own encoded
/// size already exceeds the cap, in which case it is dropped.
pub open spec fn spec_submit(bs: Seq<(MetaV, Seq<Log>)>, cap: nat, m: MetaV, log: Log) -> Seq<
    (MetaV, Seq<Log>),
> {
    let i = batch_index(bs, m);
    let cur = batched_logs(bs, m);
    if group_size(m, cur.push(log)) <= cap {
        if i >= 0 {
            bs.update(i, (m, cur.push(log)))
        } else {
            bs.push((m, cur.push(log)))
        }
    } else {
        let removed = if i >= 0 {
            bs.remove(i)
        } else {
            bs
        };
        if group_size(m, seq![log]) <= cap {
            removed.push((m, seq![log]))
        } else {
            removed
        }
    }
}

/// Well-formed grouping state: one batch per metadata key, every batch
/// non-empty and within the cap.
pub open spec fn batches_wf(bs: Seq<(MetaV, Seq<Log>)>, cap: nat) -> bool {
    &&& forall|i: int, j: int| 0 <= i < j < bs.len() ==> bs[i].0 != bs[j].0
    &&& forall|i: int| 0 <= i < bs.len() ==> group_size(bs[i].0, #[trigger] bs[i].1) <= cap
    &&& forall|i: int| 0 <= i < bs.len() ==> bs[i].1.len() > 0
}

/// Appending one record to a batch grows its encoded size by exactly that
/// record's length-delimited encoding; a singleton batch is at least that
/// large.
pub proof fn lemma_group_size_push(m: MetaV, logs: Seq<Log>, log: Log)
    ensures
        group_size(m, logs.push(log)) == group_size(m, logs) + len_delimited(1u32, log.wire()).len(),
        group_size(m, seq![log]) >= len_delimited(1u32, log.wire()).len(),
{
    lemma_repeated_wire_push(1u32, logs, log);
    let single = seq![log];
    assert(single.drop_first() =~= Seq::<Log>::empty());
    assert(repeated_wire(1u32, single) == len_delimited(1u32, single[0].wire()) + repeated_wire(
        1u32,
        single.drop_first(),
    ));
}

/// What the caller must do after handing one record to the batcher.
pub enum SubmitAction {
    /// The record was buffered; nothing to dispatch.
    Kept,
    /// The batch the record would have joined left the state: dispatch
    /// these records. The held-back record seeded a fresh batch.
    Dispatch(LogGroupMetadata, Vec<Log>),
    /// As `Dispatch`, but the held-back record's own encoded size exceeds
    /// the cap: it is handed back for diagnostics and never dispatched.
    DispatchAndDrop(LogGroupMetadata, Vec<Log>, Log),
    /// The record alone exceeds the cap and no batch was held for its key:
    /// it is handed back for diagnostics and never dispatched.
    Dropped(Log),
}

/// The grouping state owned by one reporting session: batches by metadata
/// key, and a bounded pool of cleared record vectors for reuse.
pub struct LogConsumer {
    batches: Vec<(LogGroupMetadata, Vec<Log>)>,
    vec_pool: Vec<Vec<Log>>,
    log_vec_capacity: usize,
    log_group_capacity: usize,
    vec_pool_capacity: usize,
    max_group_size: usize,
}

impl LogConsumer {
    /// The held batches: each metadata key with its records, in holding
    /// order.
    pub closed spec fn batches_view(&self) -> Seq<(MetaV, Seq<Log>)> {
        Seq::new(self.batches@.len(), |i: int| (self.batches@[i].0@, self.batches@[i].1@))
    }

    /// The bound on one group's encoded payload size.
    pub closed spec fn max_size(&self) -> nat {
        self.max_group_size as nat
    }

    /// The bound on the pool of reusable record vectors.
    pub closed spec fn pool_capacity(&self) -> nat {
        self.vec_pool_capacity as nat
    }

    /// How many cleared record vectors the pool holds.
    pub closed spec fn pool_len(&self) -> nat {
        self.vec_pool@.len()
    }

    /// Every pooled vector is empty.
    closed spec fn pool_entries_empty(&self) -> bool {
        forall|i: int| 0 <= i < self.vec_pool@.len() ==> #[trigger] self.vec_pool@[i]@.len() == 0
    }

    /// Well-formed session state.
    pub open spec fn wf(&self) -> bool {
        &&& batches_wf(self.batches_view(), self.max_size())
        &&& self.pool_wf()
    }

    /// Well-formed pool: within its bound, holding only cleared vectors.
    pub closed spec fn pool_wf(&self) -> bool {
        &&& self.pool_len() <= self.pool_capacity()
        &&& self.pool_entries_empty()
    }

    /// The configuration this session was started with, unchanged by every
    /// operation.
    pub closed spec fn config(&self) -> (nat, nat, nat, nat) {
        (
            self.log_vec_capacity as nat,
            self.log_group_capacity as nat,
            self.vec_pool_capacity as nat,
            self.max_group_size as nat,
        )
    }

    /// Pop a pooled vector, or allocate one at the configured capacity.
    fn take_vec(&mut self) -> (r: Vec<Log>)
        requires
            old(self).pool_wf(),
        ensures
            r@ == Seq::<Log>::empty(),
            final(self).batches == old(self).batches,
            final(self).config() == old(self).config(),
            final(self).pool_wf(),
            final(self).batches_view() == old(self).batches_view(),
    {
        match self.vec_pool.pop() {
            Some(v) => {
                proof {
                    assert(v@ =~= Seq::<Log>::empty());
                }
                v
            },
            None => Vec::with_capacity(self.log_vec_capacity),
        }
    }

    /// Hand one record in under its metadata key. The returned action is
    /// what the session must now dispatch or drop; the new state is exactly
    /// `spec_submit` of the old.
    #[verifier::rlimit(100)]
    pub fn submit(&mut self, metadata: LogGroupMetadata, log: Log) -> (r: SubmitAction)
        requires
            old(self).wf(),
            group_size(metadata@, seq![log]) + old(self).max_size() <= usize::MAX,
        ensures
            final(self).wf(),
            final(self).config() == old(self).config(),
            final(self).batches_view() == spec_submit(
                old(self).batches_view(),
                old(self).max_size(),
                metadata@,
                log,
            ),
            group_size(metadata@, batched_logs(old(self).batches_view(), metadata@).push(log))
                <= old(self).max_size() ==> r is Kept,
            ({
                let cur = batched_logs(old(self).batches_view(), metadata@);
                &&& group_size(metadata@, cur.push(log)) > old(self).max_size() && cur.len() > 0
                    && group_size(metadata@, seq![log]) <= old(self).max_size() ==> (r matches
                SubmitAction::Dispatch(dm, dl) && dm@ == metadata@ && dl@ == cur)
                &&& group_size(metadata@, cur.push(log)) > old(self).max_size() && cur.len() > 0
                    && group_size(metadata@, seq![log]) > old(self).max_size() ==> (r matches
                SubmitAction::DispatchAndDrop(dm, dl, dropped) && dm@ == metadata@ && dl@ == cur
                    && dropped == log)
                &&& group_size(metadata@, cur.push(log)) > old(self).max_size() && cur.len() == 0
                    ==> (r matches SubmitAction::Dropped(dropped) && dropped == log)
            }),
    {
        let ghost bs0 = self.batches_view();
        let ghost cap = self.max_size();
        let ghost m = metadata@;
        proof {
            lemma_batch_index_props(bs0, m);
        }
        let found = self.find_batch(&metadata);
        match found {
            Some(i) => {
                let ghost cur = bs0[i as int].1;
                let (stored_meta, mut logs) = self.batches.remove(i);
                logs.push(log);
                proof {
                    lemma_group_size_push(m, cur, log);
                    assert(logs@ =~= cur.push(log));
                }
                let size = calc_log_group_encoded_len(&stored_meta, logs.as_slice());
                if size <= self.max_group_size {
                    self.batches.insert(i, (stored_meta, logs));
                    proof {
                        assert(self.batches_view() =~= bs0.update(i as int, (m, cur.push(log))));
                        assert(self.batches_view() =~= spec_submit(bs0, cap, m, log));
                        assert(batches_wf(self.batches_view(), cap));
                    }
                    SubmitAction::Kept
                } else {
                    let held = logs.pop().unwrap();
                    proof {
                        assert(logs@ =~= cur);
                    }
                    let mut fresh = self.take_vec();
                    fresh.push(held);
                    proof {
                        assert(fresh@ =~= seq![log]);
                        lemma_group_size_push(m, Seq::<Log>::empty(), log);
                    }
                    let single_size = calc_log_group_encoded_len(&metadata, fresh.as_slice());
                    if single_size <= self.max_group_size {
                        self.batches.push((metadata, fresh));
                        proof {
                            assert(self.batches_view() =~= bs0.remove(i as int).push(
                                (m, seq![log]),
                            ));
                            assert(self.batches_view() =~= spec_submit(bs0, cap, m, log));
                            assert(batches_wf(self.batches_view(), cap)) by {
                                assert(forall|k: int|
                                    0 <= k < bs0.remove(i as int).len() ==> bs0.remove(i as int)[k]
                                        == (if k < i as int {
                                        bs0[k]
                                    } else {
                                        bs0[k + 1]
                                    }));
                            }
                        }
                        SubmitAction::Dispatch(stored_meta, logs)
                    } else {
                        let dropped = fresh.pop().unwrap();
                        self.recycle(fresh);
                        proof {
                            assert(self.batches_view() =~= bs0.remove(i as int));
                            assert(self.batches_view() =~= spec_submit(bs0, cap, m, log));
                            assert(batches_wf(self.batches_view(), cap)) by {
                                assert(forall|k: int|
                                    0 <= k < bs0.remove(i as int).len() ==> bs0.remove(i as int)[k]
                                        == (if k < i as int {
                                        bs0[k]
                                    } else {
                                        bs0[k + 1]
                                    }));
                            }
                        }
                        SubmitAction::DispatchAndDrop(stored_meta, logs, dropped)
                    }
                }
            },
            None => {
                let mut fresh = self.take_vec();
                fresh.push(log);
                proof {
                    assert(fresh@ =~= seq![log]);
                    assert(batched_logs(bs0, m) =~= Seq::<Log>::empty());
                    assert(Seq::<Log>::empty().push(log) =~= seq![log]);
                    lemma_group_size_push(m, Seq::<Log>::empty(), log);
                }
                let size = calc_log_group_encoded_len(&metadata, fresh.as_slice());
                if size <= self.max_group_size {
                    self.batches.push((metadata, fresh));
                    proof {
                        assert(self.batches_view() =~= bs0.push((m, seq![log])));
                        assert(self.batches_view() =~= spec_submit(bs0, cap, m, log));
                        assert(batches_wf(self.batches_view(), cap));
                    }
                    SubmitAction::Kept
                } else {
                    let dropped = fresh.pop().unwrap();
                    self.recycle(fresh);
                    proof {
                        assert(self.batches_view() =~= bs0);
                        assert(self.batches_view() =~= spec_submit(bs0, cap, m, log));
                    }
                    SubmitAction::Dropped(dropped)
                }
            },
        }
    }

    /// Find the position of the batch grouped under this metadata.
    fn find_batch(&self, metadata: &LogGroupMetadata) -> (r: Option<usize>)
        ensures
            match r {
                Some(i) => 0 <= i < self.batches_view().len() && i == batch_index(
                    self.batches_view(),
                    metadata@,
                ),
                None => batch_index(self.batches_view(), metadata@) < 0,
            },
    {
        let ghost bs = self.batches_view();
        let mut i: usize = 0;
        while i < self.batches.len()
            invariant
                i <= bs.len(),
                bs == self.batches_view(),
                bs.len() == self.batches@.len(),
                forall|j: int| 0 <= j < i ==> bs[j].0 != metadata@,
            decreases bs.len() - i,
        {
            let pair = &self.batches[i];
            if metadata_eq(&pair.0, metadata) {
                proof {
                    lemma_batch_index_first(bs, metadata@, i as int);
                }
                return Some(i);
            }
            i = i + 1;
        }
        proof {
            lemma_batch_index_props(bs, metadata@);
        }
        None
    }

    /// Take every held batch out for dispatch, in holding order, leaving
    /// the state empty. Each batch leaves exactly once.
    pub fn drain(&mut self) -> (r: Vec<(LogGroupMetadata, Vec<Log>)>)
        ensures
            final(self).config() == old(self).config(),
            old(self).wf() ==> final(self).wf(),
            Seq::new(r@.len(), |i: int| (r@[i].0@, r@[i].1@)) == old(self).batches_view(),
            final(self).batches_view() == Seq::<(MetaV, Seq<Log>)>::empty(),
            final(self).pool_len() == old(self).pool_len(),
    {
        let mut taken: Vec<(LogGroupMetadata, Vec<Log>)> = Vec::new();
        core::mem::swap(&mut taken, &mut self.batches);
        proof {
            assert(self.batches_view() =~= Seq::<(MetaV, Seq<Log>)>::empty());
            assert(Seq::new(taken@.len(), |i: int| (taken@[i].0@, taken@[i].1@)) =~= old(
                self,
            ).batches_view());
        }
        taken
    }

    /// Return a dispatched batch's record vector to the pool: it is
    /// cleared, then kept only while the pool is under its bound.
    pub fn recycle(&mut self, v: Vec<Log>)
        ensures
            final(self).config() == old(self).config(),
            final(self).batches_view() == old(self).batches_view(),
            old(self).pool_wf() ==> final(self).pool_wf(),
            old(self).wf() ==> final(self).wf(),
            final(self).pool_len() == if old(self).pool_len() < old(self).pool_capacity() {
                old(self).pool_len() + 1
            } else {
                old(self).pool_len()
            },
    {
        let mut v = v;
        if self.vec_pool.len() < self.vec_pool_capacity {
            v.clear();
            self.vec_pool.push(v);
        }
    }
}

/// The grouping state after a sequence of records is handed in one by one
/// under a single metadata key.
pub open spec fn spec_submit_all(
    bs: Seq<(MetaV, Seq<Log>)>,
    cap: nat,
    m: MetaV,
    logs: Seq<Log>,
) -> Seq<(MetaV, Seq<Log>)>
    decreases logs.len(),
{
    if logs.len() == 0 {
        bs
    } else {
        spec_submit_all(spec_submit(bs, cap, m, logs[0]), cap, m, logs.drop_first())
    }
}

proof fn lemma_same_key_accumulate(cap: nat, m: MetaV, pre: Seq<Log>, logs: Seq<Log>)
    requires
        pre.len() > 0,
        forall|i: int|
            0 <= i < logs.len() ==> group_size(m, pre + #[trigger] logs.take(i + 1)) <= cap,
    ensures
        spec_submit_all(seq![(m, pre)], cap, m, logs) == seq![(m, pre + logs)],
    decreases logs.len(),
{
    if logs.len() == 0 {
        assert(pre + logs =~= pre);
    } else {
        let l0 = logs[0];
        let s0 = seq![(m, pre)];
        assert(batch_index(s0, m) == 0);
        assert(batched_logs(s0, m) == pre);
        assert(pre + logs.take(1) =~= pre.push(l0));
        assert(group_size(m, pre.push(l0)) <= cap);
        assert(spec_submit(s0, cap, m, l0) =~= seq![(m, pre.push(l0))]);
        assert forall|i: int| 0 <= i < logs.drop_first().len() implies group_size(
            m,
            pre.push(l0) + #[trigger] logs.drop_first().take(i + 1),
        ) <= cap by {
            assert(pre.push(l0) + logs.drop_first().take(i + 1) =~= pre + logs.take(i + 2));
            assert(group_size(m, pre + logs.take((i + 1) + 1)) <= cap);
        }
        lemma_same_key_accumulate(cap, m, pre.push(l0), logs.drop_first());
        assert(pre.push(l0) + logs.drop_first() =~= pre + logs);
    }
}

/// Submitting any number of records under one identical metadata key into
/// an empty state, when every step stays within the cap, accumulates
/// exactly one batch holding all the records in submission order.
pub proof fn lemma_same_key_single_batch(cap: nat, m: MetaV, logs: Seq<Log>)
    requires
        logs.len() > 0,
        forall|i: int| 0 <= i < logs.len() ==> group_size(m, #[trigger] logs.take(i + 1)) <= cap,
    ensures
        spec_submit_all(Seq::empty(), cap, m, logs) == seq![(m, logs)],
{
    let l0 = logs[0];
    let empty = Seq::<(MetaV, Seq<Log>)>::empty();
    assert(batch_index(empty, m) == -1);
    assert(batched_logs(empty, m) =~= Seq::<Log>::empty());
    assert(Seq::<Log>::empty().push(l0) =~= seq![l0]);
    assert(seq![l0] =~= logs.take(1));
    assert(group_size(m, Seq::<Log>::empty().push(l0)) <= cap);
    assert(spec_submit(empty, cap, m, l0) =~= seq![(m, seq![l0])]);
    assert forall|i: int| 0 <= i < logs.drop_first().len() implies group_size(
        m,
        seq![l0] + #[trigger] logs.drop_first().take(i + 1),
    ) <= cap by {
        assert(seq![l0] + logs.drop_first().take(i + 1) =~= logs.take(i + 2));
        assert(logs.take((i + 1) + 1) =~= logs.take(i + 2));
        assert(group_size(m, logs.take((i + 1) + 1)) <= cap);
    }
    lemma_same_key_accumulate(cap, m, seq![l0], logs.drop_first());
    assert(seq![l0] + logs.drop_first() =~= logs);
}

/// Two records submitted under distinct metadata keys build two separate
/// batches, never merged.
pub proof fn lemma_distinct_keys_two_batches(cap: nat, m1: MetaV, m2: MetaV, l1: Log, l2: Log)
    requires
        m1 != m2,
        group_size(m1, seq![l1]) <= cap,
        group_size(m2, seq![l2]) <= cap,
    ensures
        spec_submit(spec_submit(Seq::empty(), cap, m1, l1), cap, m2, l2) == seq![
            (m1, seq![l1]),
            (m2, seq![l2]),
        ],
{
    let empty = Seq::<(MetaV, Seq<Log>)>::empty();
    assert(batch_index(empty, m1) == -1);
    assert(batched_logs(empty, m1) =~= Seq::<Log>::empty());
    assert(Seq::<Log>::empty().push(l1) =~= seq![l1]);
    let s1 = spec_submit(empty, cap, m1, l1);
    assert(s1 =~= seq![(m1, seq![l1])]);
    assert(s1.drop_first() =~= empty);
    assert(batch_index(s1.drop_first(), m2) == -1);
    assert(batch_index(s1, m2) == -1);
    assert(batched_logs(s1, m2) =~= Seq::<Log>::empty());
    assert(Seq::<Log>::empty().push(l2) =~= seq![l2]);
    assert(spec_submit(s1, cap, m2, l2) =~= seq![(m1, seq![l1]), (m2, seq![l2])]);
}

/// Lifecycle flags of one reporter: whether its one session was ever
/// activated, and whether intake is closed.
struct State {
    is_reporting: bool,
    is_closing: bool,
}

impl State {
    /// Mark the reporter as reporting; say whether it already was.
    fn set_reporting(&mut self) -> (r: bool)
        ensures
            r == old(self).is_reporting,
            final(self).is_reporting == true,
            final(self).is_closing == old(self).is_closing,
    {
        let was = self.is_reporting;
        self.is_reporting = true;
        was
    }

    /// Whether intake is refused.
    fn is_closing(&self) -> (r: bool)
        ensures
            r == self.is_closing,
    {
        self.is_closing
    }
}

/// A reporter: owns the lifecycle flags and the client its batches are
/// delivered through. Producers ask it whether intake is still accepted;
/// exactly one reporting session may ever be activated on it.
pub struct Reporter {
    state: State,
    /// The client this reporter's batches are delivered through.
    pub client: SlsClient,
}

impl Reporter {
    /// Whether the one reporting session was activated.
    pub closed spec fn spec_is_reporting(&self) -> bool {
        self.state.is_reporting
    }

    /// Whether intake is refused.
    pub closed spec fn spec_is_closing(&self) -> bool {
        self.state.is_closing
    }

    /// The client this reporter's batches are delivered through.
    pub closed spec fn spec_client(&self) -> SlsClient {
        self.client
    }

    /// Create an idle reporter around a client, accepting intake.
    pub fn from_client(client: SlsClient) -> (r: Reporter)
        ensures
            !r.spec_is_reporting(),
            !r.spec_is_closing(),
            r.spec_client() == client,
    {
        Reporter { state: State { is_reporting: false, is_closing: false }, client }
    }

    /// Activate the one reporting session, yielding its configuration with
    /// the documented defaults. A reporter whose session was already
    /// activated yields no session: the refusal is idempotent, not an
    /// error.
    pub fn reporting(&mut self) -> (r: Option<Reporting>)
        ensures
            final(self).spec_is_reporting(),
            final(self).spec_is_closing() == old(self).spec_is_closing(),
            final(self).spec_client() == old(self).spec_client(),
            old(self).spec_is_reporting() ==> r is None,
            !old(self).spec_is_reporting() ==> (r matches Some(cfg) && cfg == (Reporting {
                log_vec_capacity: LOG_VEC_DEFAULT_CAPACITY,
                log_group_capacity: LOG_GROUP_DEFAULT_CAPACITY,
                vec_pool_capacity: VEC_POOL_DEFAULT_CAPACITY,
                max_group_size: MAX_GROUP_DEFAULT_SIZE,
            })),
    {
        if self.state.set_reporting() {
            return None;
        }
        Some(
            Reporting {
                log_vec_capacity: LOG_VEC_DEFAULT_CAPACITY,
                log_group_capacity: LOG_GROUP_DEFAULT_CAPACITY,
                vec_pool_capacity: VEC_POOL_DEFAULT_CAPACITY,
                max_group_size: MAX_GROUP_DEFAULT_SIZE,
            },
        )
    }

    /// Whether a producer's record would still be taken in: false once the
    /// reporter is closing.
    pub fn is_accepting(&self) -> (r: bool)
        ensures
            r == !self.spec_is_closing(),
    {
        !self.state.is_closing()
    }

    /// Refuse all further intake: called when the session's final drain has
    /// completed.
    pub fn close(&mut self)
        ensures
            final(self).spec_is_closing(),
            final(self).spec_is_reporting() == old(self).spec_is_reporting(),
            final(self).spec_client() == old(self).spec_client(),
    {
        self.state.is_closing = true;
    }
}

/// Configuration of one reporting session, handed out by `reporting` with
/// its defaults set.
pub struct Reporting {
    /// Initial capacity of each batch's record vector.
    pub log_vec_capacity: usize,
    /// Initial capacity of the grouping map.
    pub log_group_capacity: usize,
    /// Bound on the pool of reusable record vectors.
    pub vec_pool_capacity: usize,
    /// Bound on one group's encoded payload size.
    pub max_group_size: usize,
}

impl Reporting {
    /// Set the initial capacity of each batch's record vector.
    pub fn with_log_vec_capacity(self, capacity: usize) -> (r: Reporting)
        ensures
            r == (Reporting { log_vec_capacity: capacity, ..self }),
    {
        Reporting { log_vec_capacity: capacity, ..self }
    }

    /// Set the initial capacity of the grouping map.
    pub fn with_log_group_capacity(self, capacity: usize) -> (r: Reporting)
        ensures
            r == (Reporting { log_group_capacity: capacity, ..self }),
    {
        Reporting { log_group_capacity: capacity, ..self }
    }

    /// Set the bound on the pool of reusable record vectors.
    pub fn with_vec_pool_capacity(self, capacity: usize) -> (r: Reporting)
        ensures
            r == (Reporting { vec_pool_capacity: capacity, ..self }),
    {
        Reporting { vec_pool_capacity: capacity, ..self }
    }

    /// Set the bound on one group's encoded payload size.
    pub fn with_max_group_size(self, max_group_size: usize) -> (r: Reporting)
        ensures
            r == (Reporting { max_group_size, ..self }),
    {
        Reporting { max_group_size, ..self }
    }

    /// Start the session: empty grouping state, the vector pool prefilled
    /// to its bound with cleared vectors.
    pub fn start(self) -> (r: LogConsumer)
        ensures
            r.wf(),
            r.batches_view() == Seq::<(MetaV, Seq<Log>)>::empty(),
            r.max_size() == self.max_group_size,
            r.pool_capacity() == self.vec_pool_capacity,
            r.pool_len() == self.vec_pool_capacity,
            r.config() == (
                self.log_vec_capacity as nat,
                self.log_group_capacity as nat,
                self.vec_pool_capacity as nat,
                self.max_group_size as nat,
            ),
    {
        let mut vec_pool: Vec<Vec<Log>> = Vec::with_capacity(self.vec_pool_capacity);
        let mut i: usize = 0;
        while i < self.vec_pool_capacity
            invariant
                i <= self.vec_pool_capacity,
                vec_pool@.len() == i,
                forall|j: int| 0 <= j < i ==> #[trigger] vec_pool@[j]@.len() == 0,
            decreases self.vec_pool_capacity - i,
        {
            vec_pool.push(Vec::with_capacity(self.log_vec_capacity));
            i = i + 1;
        }
        let r = LogConsumer {
            batches: Vec::new(),
            vec_pool,
            log_vec_capacity: self.log_vec_capacity,
            log_group_capacity: self.log_group_capacity,
            vec_pool_capacity: self.vec_pool_capacity,
            max_group_size: self.max_group_size,
        };
        proof {
            assert(r.batches_view() =~= Seq::<(MetaV, Seq<Log>)>::empty());
        }
        r
    }
}

} // verus!
