//! What holds of the committer as a whole: theorems that relate the parts.

use crate::committer::{committed, CommitterView};
use crate::dispatch::{dispatch_spec, CallView, ConfigView};
use crate::operation::{entry_of, BlockDataView, MetaView, OperationView, RecordView};
use crate::recovery::{aligned, first_corrupt_at, pending_from, recovers, replay, RecoveryError};
use vstd::prelude::*;

verus! {

/// The nonces of `records`, in their order.
pub open spec fn nonces(records: Seq<RecordView>) -> Seq<u32> {
    records.map_values(|r: RecordView| r.nonce)
}

/// The calls that the sender makes for `queue`, front first.
pub open spec fn calls(queue: Seq<(OperationView, MetaView)>, config: ConfigView) -> Seq<CallView> {
    queue.map_values(|e: (OperationView, MetaView)| dispatch_spec(e.0, config))
}

/// The payload of an operation.
pub open spec fn block_data_of(op: OperationView) -> BlockDataView {
    match op {
        OperationView::Commit { block_data, .. } => block_data,
        OperationView::Verify { block_data, .. } => block_data,
    }
}

/// Two operations are of one kind: both commit or both verify, and their
/// blocks are both transfers, both deposits or both exits.
pub open spec fn same_kind(a: OperationView, b: OperationView) -> bool {
    &&& a is Commit <==> b is Commit
    &&& block_data_of(a) is Transfer <==> block_data_of(b) is Transfer
    &&& block_data_of(a) is Deposit <==> block_data_of(b) is Deposit
}

/// The operations that one committer commits, from a counter at `start`,
/// get the nonces `start`, `start + 1`, and so on up to the number of
/// operations: each of these once and no other.
pub proof fn lemma_nonces_are_consecutive(addr: Seq<char>, start: u32, ops: Seq<OperationView>)
    requires
        start + ops.len() <= u32::MAX,
    ensures
        nonces(committed(addr, start, ops)) == Seq::new(ops.len(), |i: int| (start + i) as u32),
        nonces(committed(addr, start, ops)).no_duplicates(),
        nonces(committed(addr, start, ops)).to_set() == Set::new(
            |n: u32| start <= n < start + ops.len(),
        ),
{
    let ns = nonces(committed(addr, start, ops));
    assert(ns =~= Seq::new(ops.len(), |i: int| (start + i) as u32));
    assert forall|n: u32| ns.to_set().contains(n) <==> start <= n < start + ops.len() by {
        if start <= n < start + ops.len() {
            assert(ns[n - start] == n);
        }
    }
    assert(ns.to_set() =~= Set::new(|n: u32| start <= n < start + ops.len()));
}

/// Where every record has a nonce of at least `nonce`, all of them are
/// pending.
pub proof fn lemma_all_pending(records: Seq<RecordView>, nonce: u32)
    requires
        forall|i: int| 0 <= i < records.len() ==> records[i].nonce >= nonce,
    ensures
        pending_from(records, nonce) == records,
    decreases records.len(),
{
    reveal(Seq::filter);
    if records.len() > 0 {
        lemma_all_pending(records.drop_last(), nonce);
        assert(records.drop_last().push(records.last()) =~= records);
    }
}

/// For given records and a given chain nonce, recovery has one outcome:
/// run twice, it queues the same entries in the same order, or fails on
/// the same record.
pub proof fn lemma_recovery_repeats(
    records: Seq<RecordView>,
    nonce: u32,
    first: Result<Seq<(OperationView, MetaView)>, RecoveryError>,
    second: Result<Seq<(OperationView, MetaView)>, RecoveryError>,
)
    requires
        recovers(records, nonce, first),
        recovers(records, nonce, second),
    ensures
        first == second,
{
    match (first, second) {
        (Ok(a), Ok(b)) => {},
        (Err(RecoveryError::CorruptRecord { nonce: a }), Err(RecoveryError::CorruptRecord { nonce: b })) => {
            let i = choose|k: int| first_corrupt_at(records, nonce, k) && records[k].nonce == a;
            let j = choose|k: int| first_corrupt_at(records, nonce, k) && records[k].nonce == b;
            if i < j {
                assert(records.take(j)[i] == records[i]);
            }
            if j < i {
                assert(records.take(i)[j] == records[j]);
            }
        },
        (Ok(_), Err(RecoveryError::CorruptRecord { nonce: b })) => {
            let j = choose|k: int| first_corrupt_at(records, nonce, k) && records[k].nonce == b;
            assert(records[j].operation is None);
        },
        (Err(RecoveryError::CorruptRecord { nonce: a }), Ok(_)) => {
            let i = choose|k: int| first_corrupt_at(records, nonce, k) && records[k].nonce == a;
            assert(records[i].operation is None);
        },
    }
}

/// Recovery is idempotent. A committer that recovery has aligned with the
/// chain is left as it is by a second recovery at the same chain nonce, and
/// replaying what a replay selected selects the same records again.
pub proof fn lemma_recovery_is_idempotent(
    committer: CommitterView,
    records: Seq<RecordView>,
    nonce: u32,
)
    ensures
        aligned(aligned(committer, nonce), nonce) == aligned(committer, nonce),
        pending_from(pending_from(records, nonce), nonce) == pending_from(records, nonce),
        replay(pending_from(records, nonce), nonce) == replay(records, nonce),
{
    let selected = pending_from(records, nonce);
    assert forall|i: int| 0 <= i < selected.len() implies selected[i].nonce >= nonce by {
        records.lemma_filter_pred(|r: RecordView| r.nonce >= nonce, i);
    }
    lemma_all_pending(selected, nonce);
}

/// The nonces grow along `records`.
pub open spec fn nonce_ascending(records: Seq<RecordView>) -> bool {
    forall|i: int, j: int| 0 <= i < j < records.len() ==> records[i].nonce < records[j].nonce
}

/// Replay keeps the order of nonces: where the store lists its records by
/// ascending nonce, the queue entries come out by ascending nonce.
pub proof fn lemma_replay_keeps_nonce_order(records: Seq<RecordView>, nonce: u32)
    requires
        nonce_ascending(records),
    ensures
        nonce_ascending(pending_from(records, nonce)),
        forall|i: int, j: int|
            0 <= i < j < replay(records, nonce).len() ==> replay(records, nonce)[i].1.nonce
                < replay(records, nonce)[j].1.nonce,
    decreases records.len(),
{
    reveal(Seq::filter);
    if records.len() > 0 {
        let rest = records.drop_last();
        let kept = pending_from(rest, nonce);
        lemma_replay_keeps_nonce_order(rest, nonce);
        assert forall|i: int| 0 <= i < kept.len() implies kept[i].nonce < records.last().nonce by {
            assert(kept.contains(kept[i]));
            rest.lemma_filter_contains_rev(|r: RecordView| r.nonce >= nonce, kept[i]);
            let k = choose|k: int| 0 <= k < rest.len() && rest[k] == kept[i];
            assert(records[k] == rest[k]);
        }
    }
}

/// Order is kept from commit to dispatch. Operations committed in some
/// order are queued in that order, each under the nonce it was committed
/// with, whether their records are confirmed one by one or replayed by a
/// recovery at the nonce the first was given; and the sender's calls are
/// the calls of these operations in that order.
pub proof fn lemma_commit_order_is_dispatch_order(
    addr: Seq<char>,
    start: u32,
    ops: Seq<OperationView>,
    config: ConfigView,
)
    requires
        start + ops.len() <= u32::MAX,
    ensures
        committed(addr, start, ops).map_values(|r: RecordView| entry_of(r)) == replay(
            committed(addr, start, ops),
            start,
        ),
        recovers(committed(addr, start, ops), start, Ok(replay(committed(addr, start, ops), start))),
        replay(committed(addr, start, ops), start) == Seq::new(
            ops.len(),
            |i: int| (ops[i], MetaView { sender_address: addr, nonce: (start + i) as u32 }),
        ),
        calls(replay(committed(addr, start, ops), start), config) == ops.map_values(
            |op: OperationView| dispatch_spec(op, config),
        ),
{
    let records = committed(addr, start, ops);
    lemma_all_pending(records, start);
    let queue = replay(records, start);
    assert(queue =~= Seq::new(
        ops.len(),
        |i: int| (ops[i], MetaView { sender_address: addr, nonce: (start + i) as u32 }),
    ));
    assert(calls(queue, config) =~= ops.map_values(|op: OperationView| dispatch_spec(op, config)));
}

/// The dispatch table has a row of its own for every kind of operation:
/// two operations get the same call exactly where they are of one kind.
pub proof fn lemma_every_kind_has_its_call(a: OperationView, b: OperationView, config: ConfigView)
    ensures
        dispatch_spec(a, config).method == dispatch_spec(b, config).method <==> same_kind(a, b),
{
}

} // verus!
