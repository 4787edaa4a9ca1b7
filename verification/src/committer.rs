//! The committer: it gives every operation the next nonce of the sending
//! account, in the order in which the operations arrive.
//!
//! The committer owns the nonce counter. Claiming a nonce takes the
//! committer by `&mut`, so two callers cannot claim at once. A commit has
//! two steps with the store's write between them: [`Committer::commit_op`]
//! claims the nonce and yields the record to write, and
//! [`Committer::confirm`] turns the record into a queue entry once the
//! store has answered. So nothing is queued that is not durable, and after
//! a write has failed the committer claims no further nonce.

use crate::errors::ErrorKind;
use crate::operation::{
    entry_of, records_view, LogicalOperation, OperationView, PersistedRecord, QueueEntry,
    RecordStatus, RecordView, SubmissionMeta,
};
use vstd::prelude::*;

verus! {

/// What the durable store answered when it was given a record to write.
#[derive(Clone, Copy, Debug, PartialEq, Eq)]
pub enum StoreReply {
    /// The record is durable.
    Persisted,
    /// The store could not be reached, or could not write.
    Unavailable,
}

/// Why a commit failed.
#[derive(Clone, Copy, Debug, PartialEq, Eq)]
pub enum CommitError {
    /// The store did not write the record.
    StoreUnavailable,
}

impl CommitError {
    /// The kind of failure that this is.
    pub fn kind(&self) -> (kind: ErrorKind)
        ensures
            kind == ErrorKind::StoreUnavailable,
    {
        ErrorKind::StoreUnavailable
    }
}

/// The nonce counter of one sending account.
#[derive(Debug, PartialEq, Eq)]
pub struct Committer {
    addr: String,
    next_nonce: u32,
    halted: bool,
}

/// Model of [`Committer`].
pub struct CommitterView {
    /// The sending account.
    pub addr: Seq<char>,
    /// The nonce that the next operation gets.
    pub next_nonce: u32,
    /// Whether a write has failed. A halted committer claims no nonce.
    pub halted: bool,
}

impl View for Committer {
    type V = CommitterView;

    closed spec fn view(&self) -> CommitterView {
        CommitterView { addr: self.addr@, next_nonce: self.next_nonce, halted: self.halted }
    }
}

/// The record of `op` under the nonce `nonce` of the account `addr`, as it
/// is when it has just been written.
pub open spec fn fresh_record(addr: Seq<char>, nonce: u32, op: OperationView) -> RecordView {
    RecordView { addr, nonce, operation: Some(op), status: RecordStatus::Pending }
}

/// The records of `ops`, committed in this order by a committer for `addr`
/// whose counter stands at `start`: the operation at position `i` has the
/// nonce `start + i`.
pub open spec fn committed(addr: Seq<char>, start: u32, ops: Seq<OperationView>) -> Seq<RecordView>
    recommends
        start + ops.len() <= u32::MAX,
{
    Seq::new(ops.len(), |i: int| fresh_record(addr, (start + i) as u32, ops[i]))
}

/// Model of a list of operations.
pub open spec fn ops_view(ops: Seq<LogicalOperation>) -> Seq<OperationView> {
    ops.map_values(|op: LogicalOperation| op@)
}

impl Committer {
    /// A committer for the account `addr` whose counter stands at `nonce`.
    pub fn new(addr: String, nonce: u32) -> (committer: Committer)
        ensures
            committer@ == (CommitterView { addr: addr@, next_nonce: nonce, halted: false }),
    {
        Committer { addr, next_nonce: nonce, halted: false }
    }

    /// The sending account.
    pub fn addr(&self) -> (addr: &String)
        ensures
            addr@ == self@.addr,
    {
        &self.addr
    }

    /// The nonce that the next operation gets.
    pub fn peek_current(&self) -> (nonce: u32)
        ensures
            nonce == self@.next_nonce,
    {
        self.next_nonce
    }

    /// Whether a write has failed.
    pub fn is_halted(&self) -> (halted: bool)
        ensures
            halted == self@.halted,
    {
        self.halted
    }

    /// Sets the sending account to `addr` and the counter to `nonce`.
    pub fn reset_op_config(&mut self, addr: String, nonce: u32)
        ensures
            final(self)@ == (CommitterView { addr: addr@, next_nonce: nonce, ..old(self)@ }),
    {
        self.addr = addr;
        self.next_nonce = nonce;
    }

    /// Claims the next nonce for `op` and returns the record to write. The
    /// counter moves on by one, so it must have a nonce to move on to, and
    /// no write may have failed before.
    pub fn commit_op(&mut self, op: LogicalOperation) -> (record: PersistedRecord)
        requires
            !old(self)@.halted,
            old(self)@.next_nonce < u32::MAX,
        ensures
            record@ == fresh_record(old(self)@.addr, old(self)@.next_nonce, op@),
            final(self)@ == (CommitterView {
                next_nonce: (old(self)@.next_nonce + 1) as u32,
                ..old(self)@
            }),
    {
        let nonce = self.next_nonce;
        self.next_nonce = nonce + 1;
        PersistedRecord {
            addr: self.addr.clone(),
            nonce,
            operation: Some(op),
            status: RecordStatus::Pending,
        }
    }

    /// Takes the store's answer on `record`. Where the record is durable,
    /// it becomes the queue entry for its operation and the committer is as
    /// it was. Where the store failed, nothing is queued and the committer
    /// halts.
    pub fn confirm(&mut self, record: PersistedRecord, reply: StoreReply) -> (result: Result<
        QueueEntry,
        CommitError,
    >)
        requires
            record@.operation is Some,
        ensures
            match reply {
                StoreReply::Persisted => {
                    &&& result matches Ok(entry)
                    &&& (entry.0@, entry.1@) == entry_of(record@)
                    &&& final(self)@ == old(self)@
                },
                StoreReply::Unavailable => {
                    &&& result == Err::<QueueEntry, CommitError>(CommitError::StoreUnavailable)
                    &&& final(self)@ == (CommitterView { halted: true, ..old(self)@ })
                },
            },
    {
        match reply {
            StoreReply::Persisted => {
                let PersistedRecord { addr, nonce, operation, status: _ } = record;
                Ok((operation.unwrap(), SubmissionMeta::new(addr, nonce)))
            },
            StoreReply::Unavailable => {
                self.halted = true;
                Err(CommitError::StoreUnavailable)
            },
        }
    }
}

/// Claims a nonce for each of `ops` in the order given and returns their
/// records in that order. The nonces are consecutive and start at the
/// committer's counter, which ends past the last of them.
pub fn run_committer(committer: &mut Committer, ops: Vec<LogicalOperation>) -> (records: Vec<
    PersistedRecord,
>)
    requires
        !old(committer)@.halted,
        old(committer)@.next_nonce + ops@.len() <= u32::MAX,
    ensures
        records_view(records@) == committed(
            old(committer)@.addr,
            old(committer)@.next_nonce,
            ops_view(ops@),
        ),
        final(committer)@ == (CommitterView {
            next_nonce: (old(committer)@.next_nonce + ops@.len()) as u32,
            ..old(committer)@
        }),
{
    let ghost all = ops@;
    let ghost addr = committer@.addr;
    let ghost start = committer@.next_nonce;
    let mut records: Vec<PersistedRecord> = Vec::new();
    for op in it: ops.into_iter()
        invariant
            it.seq() == all,
            start + all.len() <= u32::MAX,
            committer@.addr == addr,
            !committer@.halted,
            committer@.next_nonce == start + it.index(),
            records@.len() == it.index(),
            forall|i: int|
                0 <= i < records@.len() ==> (#[trigger] records@[i])@ == fresh_record(
                    addr,
                    (start + i) as u32,
                    all[i]@,
                ),
    {
        let record = committer.commit_op(op);
        records.push(record);
    }
    assert(records_view(records@) =~= committed(addr, start, ops_view(all)));
    records
}

} // verus!
