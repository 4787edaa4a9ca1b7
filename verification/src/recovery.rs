//! The recovery loader: what to put back on the sender's queue when the
//! service starts, or when it is asked to look again.
//!
//! The chain's nonce for the sending account tells which records the chain
//! has taken: those below it. Recovery sets the committer's counter to that
//! nonce and replays every record from it on, in the order in which the
//! store lists them and under the nonce each was first given.

use crate::committer::{Committer, CommitterView};
use crate::errors::ErrorKind;
use crate::operation::{
    entry_of, queue_view, records_view, MetaView, OperationView, PersistedRecord, QueueEntry,
    RecordView, SubmissionMeta,
};
use crate::words::{fits_u32, low_u32, u256_as_u32, Word256};
use vstd::prelude::*;

verus! {

/// Why recovery stopped.
#[derive(Clone, Copy, Debug, PartialEq, Eq)]
pub enum RecoveryError {
    /// The record with this nonce is to be replayed and its stored
    /// operation does not decode.
    CorruptRecord { nonce: u32 },
}

impl RecoveryError {
    /// The kind of failure that this is.
    pub fn kind(&self) -> (kind: ErrorKind)
        ensures
            kind == ErrorKind::CorruptRecord,
    {
        ErrorKind::CorruptRecord
    }
}

/// The account that transactions are sent from where none is configured.
pub const DEFAULT_SENDER_ACCOUNT: &'static str = "e5d0efb4756bd5cdd4b5140d3d2e08ca7e6cf644";

/// The sending account: the configured one, or the default.
pub open spec fn sender_account_spec(configured: Option<Seq<char>>) -> Seq<char> {
    match configured {
        Some(addr) => addr,
        None => DEFAULT_SENDER_ACCOUNT@,
    }
}

/// The records that the chain has not taken yet: those whose nonce is at
/// least the chain's, in the order of `records`.
pub open spec fn pending_from(records: Seq<RecordView>, nonce: u32) -> Seq<RecordView> {
    records.filter(|r: RecordView| r.nonce >= nonce)
}

/// What recovery puts on the queue, front first.
pub open spec fn replay(records: Seq<RecordView>, nonce: u32) -> Seq<(OperationView, MetaView)> {
    pending_from(records, nonce).map_values(|r: RecordView| entry_of(r))
}

/// Every record to be replayed has an operation that decoded.
pub open spec fn all_decoded(records: Seq<RecordView>, nonce: u32) -> bool {
    forall|i: int|
        0 <= i < records.len() && records[i].nonce >= nonce ==> records[i].operation is Some
}

/// The record at `k` is the first to be replayed whose operation did not
/// decode.
pub open spec fn first_corrupt_at(records: Seq<RecordView>, nonce: u32, k: int) -> bool {
    &&& 0 <= k < records.len()
    &&& records[k].nonce >= nonce
    &&& records[k].operation is None
    &&& all_decoded(records.take(k), nonce)
}

/// What [`load_pendings_ops`] owes for `records` and the chain nonce
/// `nonce`: the replay where every record to be replayed decoded, and else
/// the nonce of the first that did not.
pub open spec fn recovers(
    records: Seq<RecordView>,
    nonce: u32,
    result: Result<Seq<(OperationView, MetaView)>, RecoveryError>,
) -> bool {
    match result {
        Ok(queue) => all_decoded(records, nonce) && queue == replay(records, nonce),
        Err(RecoveryError::CorruptRecord { nonce: bad }) => exists|k: int|
            first_corrupt_at(records, nonce, k) && records[k].nonce == bad,
    }
}

/// The sending account: the configured one, or the default.
pub fn sender_account(configured: Option<String>) -> (addr: String)
    ensures
        addr@ == sender_account_spec(
            match configured {
                Some(a) => Some(a@),
                None => None,
            },
        ),
{
    match configured {
        Some(addr) => addr,
        None => DEFAULT_SENDER_ACCOUNT.to_owned(),
    }
}

/// The queue entry that replays `record`, or the error that names it where
/// its operation did not decode.
pub fn queue_entry(record: PersistedRecord) -> (result: Result<QueueEntry, RecoveryError>)
    ensures
        match result {
            Ok(entry) => record@.operation is Some && (entry.0@, entry.1@) == entry_of(record@),
            Err(e) => record@.operation is None && e == (RecoveryError::CorruptRecord {
                nonce: record@.nonce,
            }),
        },
{
    let PersistedRecord { addr, nonce, operation, status: _ } = record;
    match operation {
        Some(op) => Ok((op, SubmissionMeta::new(addr, nonce))),
        None => Err(RecoveryError::CorruptRecord { nonce }),
    }
}

/// How the pending records grow as one more record is looked at.
proof fn lemma_pending_step(records: Seq<RecordView>, nonce: u32, i: int)
    requires
        0 <= i < records.len(),
    ensures
        pending_from(records.take(i + 1), nonce) == if records[i].nonce >= nonce {
            pending_from(records.take(i), nonce).push(records[i])
        } else {
            pending_from(records.take(i), nonce)
        },
{
    reveal(Seq::filter);
    assert(records.take(i + 1).drop_last() =~= records.take(i));
}

/// Where recovery leaves a committer: with its counter at the chain's
/// nonce, and else as it was.
pub open spec fn aligned(committer: CommitterView, nonce: u32) -> CommitterView {
    CommitterView { next_nonce: nonce, ..committer }
}

/// Reconciles the committer and the stored records with the chain. The
/// committer's counter is set to `current_nonce`. The records of `records`
/// whose nonce is at least `current_nonce` are replayed: each becomes the
/// queue entry that [`queue_entry`] gives it, in the order of `records`.
pub fn load_pendings_ops(
    committer: &mut Committer,
    current_nonce: &Word256,
    records: Vec<PersistedRecord>,
) -> (result: Result<Vec<QueueEntry>, RecoveryError>)
    requires
        fits_u32(current_nonce@),
    ensures
        final(committer)@ == aligned(old(committer)@, low_u32(current_nonce@)),
        recovers(
            records_view(records@),
            low_u32(current_nonce@),
            match result {
                Ok(queue) => Ok(queue_view(queue@)),
                Err(e) => Err(e),
            },
        ),
{
    let nonce = u256_as_u32(current_nonce);
    let addr = committer.addr().clone();
    committer.reset_op_config(addr, nonce);
    let ghost target = committer@;
    let ghost all = records_view(records@);
    let ghost raw = records@;
    let mut queue: Vec<QueueEntry> = Vec::new();
    assert(all.take(0) =~= Seq::<RecordView>::empty());
    assert(pending_from(all.take(0), nonce) =~= Seq::<RecordView>::empty()) by {
        reveal(Seq::filter);
    }
    for record in it: records.into_iter()
        invariant
            it.seq() == raw,
            all == records_view(raw),
            fits_u32(current_nonce@),
            nonce == low_u32(current_nonce@),
            committer@ == target,
            target == aligned(old(committer)@, nonce),
            all_decoded(all.take(it.index()), nonce),
            queue_view(queue@) == replay(all.take(it.index()), nonce),
    {
        let ghost i = it.index();
        proof {
            lemma_pending_step(all, nonce, i);
            assert(all[i] == record@);
        }
        if record.nonce >= nonce {
            match queue_entry(record) {
                Ok(entry) => {
                    let ghost before = queue@;
                    queue.push(entry);
                    proof {
                        assert(queue_view(queue@) =~= queue_view(before).push((entry.0@, entry.1@)));
                        assert(replay(all.take(i + 1), nonce) =~= replay(all.take(i), nonce).push(
                            entry_of(all[i]),
                        ));
                    }
                },
                Err(e) => {
                    assert(first_corrupt_at(all, nonce, i));
                    return Err(e);
                },
            }
        }
        assert(all_decoded(all.take(i + 1), nonce)) by {
            let now = all.take(i + 1);
            assert forall|j: int| 0 <= j < now.len() && now[j].nonce >= nonce implies now[j].operation is Some by {
                if j < i {
                    assert(all.take(i)[j] == now[j]);
                }
            }
        }
    }
    assert(all.take(all.len() as int) =~= all);
    Ok(queue)
}

/// What the sender starts from: the committer for the sending account,
/// with its counter at the chain's nonce, and the queue holding the replay
/// of the records that the chain has not taken.
pub fn start_eth_sender(
    current_nonce: &Word256,
    configured_account: Option<String>,
    records: Vec<PersistedRecord>,
) -> (result: Result<(Committer, Vec<QueueEntry>), RecoveryError>)
    requires
        fits_u32(current_nonce@),
    ensures
        recovers(
            records_view(records@),
            low_u32(current_nonce@),
            match result {
                Ok(started) => Ok(queue_view(started.1@)),
                Err(e) => Err(e),
            },
        ),
        result matches Ok(started) ==> started.0@ == (CommitterView {
            addr: sender_account_spec(
                match configured_account {
                    Some(a) => Some(a@),
                    None => None,
                },
            ),
            next_nonce: low_u32(current_nonce@),
            halted: false,
        }),
{
    let addr = sender_account(configured_account);
    let mut committer = Committer::new(addr, u256_as_u32(current_nonce));
    match load_pendings_ops(&mut committer, current_nonce, records) {
        Ok(queue) => Ok((committer, queue)),
        Err(e) => Err(e),
    }
}

} // verus!
