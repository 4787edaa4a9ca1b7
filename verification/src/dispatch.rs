//! The sender's dispatch table: which contract call settles an operation,
//! and with which arguments in which order.
//!
//! The table is closed over the kinds of operation. [`dispatch`] matches on
//! them exhaustively, so a new kind does not compile until it has a row.

use crate::encoding::{keys_sorted, padded_ids, sorted_and_padded_for_deposits, sorted_ids};
use crate::operation::{BlockData, BlockDataView, EncodedProof, LogicalOperation, OperationView};
use crate::words::{h256_zero, u256_from_u32, word_of_u32, zero_bytes, Hash256, Word256};
use vstd::prelude::*;

verus! {

/// The calls of the settlement contract that the sender makes.
#[derive(Clone, Copy, Debug, PartialEq, Eq)]
pub enum ContractMethod {
    CommitTransferBlock,
    CommitDepositBlock,
    CommitExitBlock,
    VerifyTransferBlock,
    VerifyDepositBlock,
    VerifyExitBlock,
}

impl ContractMethod {
    /// The name of the call, as the contract spells it.
    pub open spec fn spec_name(self) -> Seq<char> {
        match self {
            ContractMethod::CommitTransferBlock => "commitTransferBlock"@,
            ContractMethod::CommitDepositBlock => "commitDepositBlock"@,
            ContractMethod::CommitExitBlock => "commitExitBlock"@,
            ContractMethod::VerifyTransferBlock => "verifyTransferBlock"@,
            ContractMethod::VerifyDepositBlock => "verifyDepositBlock"@,
            ContractMethod::VerifyExitBlock => "verifyExitBlock"@,
        }
    }

    /// The name of the call, as the contract spells it.
    pub fn name(&self) -> (name: &'static str)
        ensures
            name@ == self.spec_name(),
    {
        match self {
            ContractMethod::CommitTransferBlock => "commitTransferBlock",
            ContractMethod::CommitDepositBlock => "commitDepositBlock",
            ContractMethod::CommitExitBlock => "commitExitBlock",
            ContractMethod::VerifyTransferBlock => "verifyTransferBlock",
            ContractMethod::VerifyDepositBlock => "verifyDepositBlock",
            ContractMethod::VerifyExitBlock => "verifyExitBlock",
        }
    }
}

/// One argument of a contract call.
#[derive(Clone, Debug, PartialEq, Eq)]
pub enum CallArg {
    /// An unsigned integer of up to 64 bits.
    Uint(u64),
    /// An unsigned integer of up to 128 bits.
    Amount(u128),
    /// A `uint256`.
    Word(Word256),
    /// A `bytes32`.
    Hash(Hash256),
    /// A byte string.
    Bytes(Vec<u8>),
    /// An array of account identifiers of the fixed width of a batch.
    Batch(Vec<u64>),
    /// An array of account identifiers of any length.
    Ids(Vec<u64>),
    /// A proof.
    Proof(EncodedProof),
}

/// Model of [`CallArg`].
pub enum ArgView {
    Uint(u64),
    Amount(u128),
    Word(Seq<u64>),
    Hash(Seq<u8>),
    Bytes(Seq<u8>),
    Batch(Seq<u64>),
    Ids(Seq<u64>),
    Proof(Seq<Seq<u64>>),
}

impl View for CallArg {
    type V = ArgView;

    open spec fn view(&self) -> ArgView {
        match *self {
            CallArg::Uint(v) => ArgView::Uint(v),
            CallArg::Amount(v) => ArgView::Amount(v),
            CallArg::Word(w) => ArgView::Word(w@),
            CallArg::Hash(h) => ArgView::Hash(h@),
            CallArg::Bytes(b) => ArgView::Bytes(b@),
            CallArg::Batch(ids) => ArgView::Batch(ids@),
            CallArg::Ids(ids) => ArgView::Ids(ids@),
            CallArg::Proof(p) => ArgView::Proof(p@),
        }
    }
}

/// A call of the settlement contract: the method and its arguments, first
/// argument first.
#[derive(Clone, Debug, PartialEq, Eq)]
pub struct ContractCall {
    pub method: ContractMethod,
    pub args: Vec<CallArg>,
}

/// Model of [`ContractCall`].
pub struct CallView {
    pub method: ContractMethod,
    pub args: Seq<ArgView>,
}

impl View for ContractCall {
    type V = CallView;

    open spec fn view(&self) -> CallView {
        CallView { method: self.method, args: self.args@.map_values(|a: CallArg| a@) }
    }
}

/// What the sender is configured with when it starts. The values are fixed
/// from then on: the fields are private and nothing changes them.
#[derive(Clone, Debug, PartialEq, Eq)]
pub struct SenderConfig {
    deposit_batch_size: usize,
    deposit_filler: u32,
    exit_precommitment: Hash256,
}

/// Model of [`SenderConfig`].
pub struct ConfigView {
    /// How many account identifiers a deposit batch holds on chain.
    pub deposit_batch_size: nat,
    /// The reserved identifier that fills the unused slots of a batch.
    pub deposit_filler: u32,
    /// The commitment sent with an exit block.
    pub exit_precommitment: Seq<u8>,
}

impl View for SenderConfig {
    type V = ConfigView;

    closed spec fn view(&self) -> ConfigView {
        ConfigView {
            deposit_batch_size: self.deposit_batch_size as nat,
            deposit_filler: self.deposit_filler,
            exit_precommitment: self.exit_precommitment@,
        }
    }
}

impl SenderConfig {
    /// A configuration with the given batch width and filler identifier.
    /// The commitment sent with an exit block is the zero hash until
    /// [`SenderConfig::with_exit_precommitment`] sets another.
    pub fn new(deposit_batch_size: usize, deposit_filler: u32) -> (config: SenderConfig)
        ensures
            config@ == (ConfigView {
                deposit_batch_size: deposit_batch_size as nat,
                deposit_filler,
                exit_precommitment: zero_bytes(),
            }),
    {
        SenderConfig { deposit_batch_size, deposit_filler, exit_precommitment: h256_zero() }
    }

    /// The same configuration with `commitment` sent with every exit block.
    pub fn with_exit_precommitment(self, commitment: Hash256) -> (config: SenderConfig)
        ensures
            config@ == (ConfigView { exit_precommitment: commitment@, ..self@ }),
    {
        SenderConfig {
            deposit_batch_size: self.deposit_batch_size,
            deposit_filler: self.deposit_filler,
            exit_precommitment: commitment,
        }
    }

    pub fn deposit_batch_size(&self) -> (width: usize)
        ensures
            width == self@.deposit_batch_size,
    {
        self.deposit_batch_size
    }

    pub fn deposit_filler(&self) -> (filler: u32)
        ensures
            filler == self@.deposit_filler,
    {
        self.deposit_filler
    }

    pub fn exit_precommitment(&self) -> (commitment: Hash256)
        ensures
            commitment@ == self@.exit_precommitment,
    {
        self.exit_precommitment
    }
}

/// Whether the accounts of `op` fit a deposit batch. Only a deposit can
/// fail to: no other kind is padded.
pub open spec fn fits_batch(op: OperationView, config: ConfigView) -> bool {
    let block_data = match op {
        OperationView::Commit { block_data, .. } => block_data,
        OperationView::Verify { block_data, .. } => block_data,
    };
    block_data matches BlockDataView::Deposit { accounts_updated, .. }
        ==> accounts_updated.dom().len() <= config.deposit_batch_size
}

/// The dispatch table: the call that settles `op`.
pub open spec fn dispatch_spec(op: OperationView, config: ConfigView) -> CallView {
    match op {
        OperationView::Commit { block_number, new_root, block_data } => match block_data {
            BlockDataView::Transfer { total_fees, public_data } => CallView {
                method: ContractMethod::CommitTransferBlock,
                args: seq![
                    ArgView::Uint(block_number as u64),
                    ArgView::Amount(total_fees),
                    ArgView::Bytes(public_data),
                    ArgView::Hash(new_root),
                ],
            },
            BlockDataView::Deposit { batch_number, accounts_updated } => CallView {
                method: ContractMethod::CommitDepositBlock,
                args: seq![
                    ArgView::Word(word_of_u32(batch_number)),
                    ArgView::Batch(
                        padded_ids(
                            accounts_updated.dom(),
                            config.deposit_batch_size,
                            config.deposit_filler as u64,
                        ),
                    ),
                    ArgView::Uint(block_number as u64),
                    ArgView::Hash(new_root),
                ],
            },
            BlockDataView::Exit { batch_number, .. } => CallView {
                method: ContractMethod::CommitExitBlock,
                args: seq![
                    ArgView::Word(word_of_u32(batch_number)),
                    ArgView::Uint(block_number as u64),
                    ArgView::Hash(config.exit_precommitment),
                    ArgView::Hash(new_root),
                ],
            },
        },
        OperationView::Verify { block_number, proof, block_data } => match block_data {
            BlockDataView::Transfer { .. } => CallView {
                method: ContractMethod::VerifyTransferBlock,
                args: seq![ArgView::Uint(block_number as u64), ArgView::Proof(proof)],
            },
            BlockDataView::Deposit { batch_number, accounts_updated } => CallView {
                method: ContractMethod::VerifyDepositBlock,
                args: seq![
                    ArgView::Word(word_of_u32(batch_number)),
                    ArgView::Batch(
                        padded_ids(
                            accounts_updated.dom(),
                            config.deposit_batch_size,
                            config.deposit_filler as u64,
                        ),
                    ),
                    ArgView::Uint(block_number as u64),
                    ArgView::Proof(proof),
                ],
            },
            BlockDataView::Exit { batch_number, accounts_updated } => CallView {
                method: ContractMethod::VerifyExitBlock,
                args: seq![
                    ArgView::Uint(block_number as u64),
                    ArgView::Uint(batch_number as u64),
                    ArgView::Ids(sorted_ids(accounts_updated.dom())),
                ],
            },
        },
    }
}

/// Whether the accounts of `op` fit a deposit batch, which [`dispatch`]
/// asks of its caller.
pub fn check_fits_batch(op: &LogicalOperation, config: &SenderConfig) -> (fits: bool)
    ensures
        fits == fits_batch(op@, config@),
{
    broadcast use vstd::std_specs::hash::group_hash_axioms;

    let block_data = match op {
        LogicalOperation::Commit { block_data, .. } => block_data,
        LogicalOperation::Verify { block_data, .. } => block_data,
    };
    match block_data {
        BlockData::Deposit { accounts_updated, .. } => accounts_updated.len()
            <= config.deposit_batch_size,
        _ => true,
    }
}

/// Shapes `op` into the contract call that settles it.
pub fn dispatch(op: LogicalOperation, config: &SenderConfig) -> (call: ContractCall)
    requires
        fits_batch(op@, config@),
    ensures
        call@ == dispatch_spec(op@, config@),
{
    let width = config.deposit_batch_size;
    let filler = config.deposit_filler as u64;
    let call = match op {
        LogicalOperation::Commit { block_number, new_root, block_data } => match block_data {
            BlockData::Transfer { total_fees, public_data } => ContractCall {
                method: ContractMethod::CommitTransferBlock,
                args: vec![
                    CallArg::Uint(block_number as u64),
                    CallArg::Amount(total_fees),
                    CallArg::Bytes(public_data),
                    CallArg::Hash(new_root),
                ],
            },
            BlockData::Deposit { batch_number, accounts_updated } => ContractCall {
                method: ContractMethod::CommitDepositBlock,
                args: vec![
                    CallArg::Word(u256_from_u32(batch_number)),
                    CallArg::Batch(sorted_and_padded_for_deposits(accounts_updated, width, filler)),
                    CallArg::Uint(block_number as u64),
                    CallArg::Hash(new_root),
                ],
            },
            BlockData::Exit { batch_number, .. } => ContractCall {
                method: ContractMethod::CommitExitBlock,
                args: vec![
                    CallArg::Word(u256_from_u32(batch_number)),
                    CallArg::Uint(block_number as u64),
                    CallArg::Hash(config.exit_precommitment),
                    CallArg::Hash(new_root),
                ],
            },
        },
        LogicalOperation::Verify { block_number, proof, block_data } => match block_data {
            BlockData::Transfer { .. } => ContractCall {
                method: ContractMethod::VerifyTransferBlock,
                args: vec![CallArg::Uint(block_number as u64), CallArg::Proof(proof)],
            },
            BlockData::Deposit { batch_number, accounts_updated } => ContractCall {
                method: ContractMethod::VerifyDepositBlock,
                args: vec![
                    CallArg::Word(u256_from_u32(batch_number)),
                    CallArg::Batch(sorted_and_padded_for_deposits(accounts_updated, width, filler)),
                    CallArg::Uint(block_number as u64),
                    CallArg::Proof(proof),
                ],
            },
            BlockData::Exit { batch_number, accounts_updated } => ContractCall {
                method: ContractMethod::VerifyExitBlock,
                args: vec![
                    CallArg::Uint(block_number as u64),
                    CallArg::Uint(batch_number as u64),
                    CallArg::Ids(keys_sorted(accounts_updated)),
                ],
            },
        },
    };
    assert(call@.args =~= dispatch_spec(op@, config@).args);
    call
}

} // verus!
