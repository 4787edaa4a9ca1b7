//! The data that flows through the committer: operations, the metadata a
//! submission carries, and the durable record of an operation.
//!
//! Every type has a view, its mathematical model, and contracts elsewhere in
//! the crate are stated over these views.

use crate::words::{Hash256, Word256};
use std::collections::HashMap;
use vstd::prelude::*;

verus! {

/// What an account looks like after a block was applied. The committer
/// carries it and never looks inside.
#[derive(Clone, Copy, Debug, PartialEq, Eq)]
pub struct AccountState {
    pub nonce: u32,
    pub balance: u128,
}

/// The accounts a block touched, by account identifier. The map has no
/// order of its own; the encoders in `encoding` give it one.
pub type AccountMap = HashMap<u32, AccountState>;

/// A proof in the form the settlement contract takes it: eight words.
#[derive(Clone, Copy, Debug, PartialEq, Eq)]
pub struct EncodedProof {
    pub words: [Word256; 8],
}

impl View for EncodedProof {
    type V = Seq<Seq<u64>>;

    open spec fn view(&self) -> Seq<Seq<u64>> {
        Seq::new(8, |i: int| self.words@[i]@)
    }
}

/// The payload of a block, by kind.
#[derive(Clone, Debug, PartialEq, Eq)]
pub enum BlockData {
    Transfer { total_fees: u128, public_data: Vec<u8> },
    Deposit { batch_number: u32, accounts_updated: AccountMap },
    Exit { batch_number: u32, accounts_updated: AccountMap },
}

/// Model of [`BlockData`].
pub enum BlockDataView {
    Transfer { total_fees: u128, public_data: Seq<u8> },
    Deposit { batch_number: u32, accounts_updated: Map<u32, AccountState> },
    Exit { batch_number: u32, accounts_updated: Map<u32, AccountState> },
}

impl View for BlockData {
    type V = BlockDataView;

    open spec fn view(&self) -> BlockDataView {
        match *self {
            BlockData::Transfer { total_fees, public_data } => BlockDataView::Transfer {
                total_fees,
                public_data: public_data@,
            },
            BlockData::Deposit { batch_number, accounts_updated } => BlockDataView::Deposit {
                batch_number,
                accounts_updated: accounts_updated@,
            },
            BlockData::Exit { batch_number, accounts_updated } => BlockDataView::Exit {
                batch_number,
                accounts_updated: accounts_updated@,
            },
        }
    }
}

/// One unit of settlement work: record a block on chain, or prove one that
/// was recorded.
#[derive(Clone, Debug, PartialEq, Eq)]
pub enum LogicalOperation {
    Commit { block_number: u32, new_root: Hash256, block_data: BlockData },
    Verify { block_number: u32, proof: EncodedProof, block_data: BlockData },
}

/// Model of [`LogicalOperation`].
pub enum OperationView {
    Commit { block_number: u32, new_root: Seq<u8>, block_data: BlockDataView },
    Verify { block_number: u32, proof: Seq<Seq<u64>>, block_data: BlockDataView },
}

impl View for LogicalOperation {
    type V = OperationView;

    open spec fn view(&self) -> OperationView {
        match *self {
            LogicalOperation::Commit { block_number, new_root, block_data } => OperationView::Commit {
                block_number,
                new_root: new_root@,
                block_data: block_data@,
            },
            LogicalOperation::Verify { block_number, proof, block_data } => OperationView::Verify {
                block_number,
                proof: proof@,
                block_data: block_data@,
            },
        }
    }
}

/// The account a transaction is sent from and the nonce it is sent with.
/// It is built once, from a durable record, and read through its getters.
#[derive(Clone, Debug, PartialEq, Eq)]
pub struct SubmissionMeta {
    sender_address: String,
    nonce: u32,
}

/// Model of [`SubmissionMeta`].
pub struct MetaView {
    pub sender_address: Seq<char>,
    pub nonce: u32,
}

impl View for SubmissionMeta {
    type V = MetaView;

    closed spec fn view(&self) -> MetaView {
        MetaView { sender_address: self.sender_address@, nonce: self.nonce }
    }
}

impl SubmissionMeta {
    pub fn new(sender_address: String, nonce: u32) -> (meta: SubmissionMeta)
        ensures
            meta@ == (MetaView { sender_address: sender_address@, nonce }),
    {
        SubmissionMeta { sender_address, nonce }
    }

    pub fn sender_address(&self) -> (addr: &String)
        ensures
            addr@ == self@.sender_address,
    {
        &self.sender_address
    }

    pub fn nonce(&self) -> (nonce: u32)
        ensures
            nonce == self@.nonce,
    {
        self.nonce
    }
}

/// How far a durable record has come.
#[derive(Clone, Copy, Debug, PartialEq, Eq)]
pub enum RecordStatus {
    Pending,
    Sent,
    Confirmed,
    Failed,
}

/// An operation as the durable store holds it. `operation` is the stored
/// payload after decoding; it is `None` where the stored bytes did not
/// decode.
#[derive(Clone, Debug, PartialEq, Eq)]
pub struct PersistedRecord {
    pub addr: String,
    pub nonce: u32,
    pub operation: Option<LogicalOperation>,
    pub status: RecordStatus,
}

/// Model of [`PersistedRecord`].
pub struct RecordView {
    pub addr: Seq<char>,
    pub nonce: u32,
    pub operation: Option<OperationView>,
    pub status: RecordStatus,
}

impl View for PersistedRecord {
    type V = RecordView;

    open spec fn view(&self) -> RecordView {
        RecordView {
            addr: self.addr@,
            nonce: self.nonce,
            operation: match self.operation {
                Some(op) => Some(op@),
                None => None,
            },
            status: self.status,
        }
    }
}

/// What the sender's queue holds: an operation and the metadata it is
/// submitted with.
pub type QueueEntry = (LogicalOperation, SubmissionMeta);

/// The queue entry made from the record `r`: its operation under the account
/// and nonce it was recorded with.
pub open spec fn entry_of(r: RecordView) -> (OperationView, MetaView)
    recommends
        r.operation is Some,
{
    (r.operation->0, MetaView { sender_address: r.addr, nonce: r.nonce })
}

/// Model of a queue: the entries' views, front first.
pub open spec fn queue_view(queue: Seq<QueueEntry>) -> Seq<(OperationView, MetaView)> {
    queue.map_values(|e: QueueEntry| (e.0@, e.1@))
}

/// Model of a list of records.
pub open spec fn records_view(records: Seq<PersistedRecord>) -> Seq<RecordView> {
    records.map_values(|r: PersistedRecord| r@)
}

} // verus!
