use committer::dispatch::{check_fits_batch, dispatch, CallArg, ContractCall, ContractMethod, SenderConfig};
use committer::operation::{AccountMap, AccountState, BlockData, EncodedProof, LogicalOperation};
use committer::words::{Hash256, Word256};
use web3::types::{H256, U256};

fn accounts(ids: &[u32]) -> AccountMap {
    let mut map = AccountMap::new();
    for id in ids {
        map.insert(*id, AccountState { nonce: 0, balance: 0 });
    }
    map
}

fn root() -> Hash256 {
    let mut bytes = [0u8; 32];
    for (i, b) in bytes.iter_mut().enumerate() {
        *b = 0xa0 + i as u8;
    }
    Hash256 { bytes }
}

fn sample_proof() -> EncodedProof {
    let mut words = [Word256 { limbs: [0; 4] }; 8];
    for (i, w) in words.iter_mut().enumerate() {
        *w = Word256 { limbs: [i as u64 + 1, 2, 3, u64::MAX] };
    }
    EncodedProof { words }
}

fn config() -> SenderConfig {
    SenderConfig::new(4, 1)
}

#[test]
fn commit_transfer_calls_commit_transfer_block() {
    let data = vec![0xde, 0xad, 0xbe, 0xef];
    let op = LogicalOperation::Commit {
        block_number: 5,
        new_root: root(),
        block_data: BlockData::Transfer { total_fees: 100, public_data: data.clone() },
    };
    let call = dispatch(op, &config());
    assert_eq!(call.method.name(), "commitTransferBlock");
    assert_eq!(
        call,
        ContractCall {
            method: ContractMethod::CommitTransferBlock,
            args: vec![CallArg::Uint(5), CallArg::Amount(100), CallArg::Bytes(data), CallArg::Hash(root())],
        }
    );
}

#[test]
fn commit_deposit_calls_commit_deposit_block() {
    let op = LogicalOperation::Commit {
        block_number: 9,
        new_root: root(),
        block_data: BlockData::Deposit { batch_number: 7, accounts_updated: accounts(&[12, 3]) },
    };
    let call = dispatch(op, &config());
    assert_eq!(call.method.name(), "commitDepositBlock");
    assert_eq!(
        call,
        ContractCall {
            method: ContractMethod::CommitDepositBlock,
            args: vec![
                CallArg::Word(Word256 { limbs: [7, 0, 0, 0] }),
                CallArg::Batch(vec![3, 12, 1, 1]),
                CallArg::Uint(9),
                CallArg::Hash(root()),
            ],
        }
    );
}

#[test]
fn commit_exit_calls_commit_exit_block() {
    let op = LogicalOperation::Commit {
        block_number: 11,
        new_root: root(),
        block_data: BlockData::Exit { batch_number: 2, accounts_updated: accounts(&[8, 6]) },
    };
    let call = dispatch(op, &config());
    assert_eq!(call.method.name(), "commitExitBlock");
    assert_eq!(
        call,
        ContractCall {
            method: ContractMethod::CommitExitBlock,
            args: vec![
                CallArg::Word(Word256 { limbs: [2, 0, 0, 0] }),
                CallArg::Uint(11),
                CallArg::Hash(Hash256 { bytes: [0; 32] }),
                CallArg::Hash(root()),
            ],
        }
    );
}

#[test]
fn verify_transfer_calls_verify_transfer_block() {
    let op = LogicalOperation::Verify {
        block_number: 5,
        proof: sample_proof(),
        block_data: BlockData::Transfer { total_fees: 100, public_data: vec![1, 2, 3] },
    };
    let call = dispatch(op, &config());
    assert_eq!(call.method.name(), "verifyTransferBlock");
    assert_eq!(
        call,
        ContractCall {
            method: ContractMethod::VerifyTransferBlock,
            args: vec![CallArg::Uint(5), CallArg::Proof(sample_proof())],
        }
    );
}

#[test]
fn verify_deposit_calls_verify_deposit_block() {
    let op = LogicalOperation::Verify {
        block_number: 6,
        proof: sample_proof(),
        block_data: BlockData::Deposit { batch_number: 300, accounts_updated: accounts(&[5, 4, 9, 1]) },
    };
    let call = dispatch(op, &config());
    assert_eq!(call.method.name(), "verifyDepositBlock");
    assert_eq!(
        call,
        ContractCall {
            method: ContractMethod::VerifyDepositBlock,
            args: vec![
                CallArg::Word(Word256 { limbs: [300, 0, 0, 0] }),
                CallArg::Batch(vec![1, 4, 5, 9]),
                CallArg::Uint(6),
                CallArg::Proof(sample_proof()),
            ],
        }
    );
}

#[test]
fn verify_exit_calls_verify_exit_block() {
    let op = LogicalOperation::Verify {
        block_number: 21,
        proof: sample_proof(),
        block_data: BlockData::Exit { batch_number: 4, accounts_updated: accounts(&[70, 60, 50, 40, 30]) },
    };
    let call = dispatch(op, &config());
    assert_eq!(call.method.name(), "verifyExitBlock");
    assert_eq!(
        call,
        ContractCall {
            method: ContractMethod::VerifyExitBlock,
            args: vec![CallArg::Uint(21), CallArg::Uint(4), CallArg::Ids(vec![30, 40, 50, 60, 70])],
        }
    );
}

#[test]
fn batch_number_becomes_the_word_that_the_chain_library_builds() {
    for batch_number in [0u32, 1, 0xdead_beef, u32::MAX] {
        let op = LogicalOperation::Commit {
            block_number: 1,
            new_root: root(),
            block_data: BlockData::Exit { batch_number, accounts_updated: accounts(&[]) },
        };
        let call = dispatch(op, &config());
        assert_eq!(call.args[0], CallArg::Word(Word256 { limbs: U256::from(batch_number).0 }));
        assert_eq!(call.args[0], CallArg::Word(Word256 { limbs: [batch_number as u64, 0, 0, 0] }));
    }
}

#[test]
fn exit_precommitment_is_the_zero_hash_unless_configured() {
    assert_eq!(config().exit_precommitment(), Hash256 { bytes: H256::zero().0 });
    assert_eq!(config().exit_precommitment(), Hash256 { bytes: [0u8; 32] });
    let configured = config().with_exit_precommitment(root());
    assert_eq!(configured.exit_precommitment(), root());
    assert_eq!(configured.deposit_batch_size(), 4);
    assert_eq!(configured.deposit_filler(), 1);
    let op = LogicalOperation::Commit {
        block_number: 11,
        new_root: Hash256 { bytes: [9; 32] },
        block_data: BlockData::Exit { batch_number: 2, accounts_updated: accounts(&[]) },
    };
    let call = dispatch(op, &configured);
    assert_eq!(call.args[2], CallArg::Hash(root()));
    assert_eq!(call.args[3], CallArg::Hash(Hash256 { bytes: [9; 32] }));
}

#[test]
fn deposit_filler_comes_from_the_configuration() {
    let op = LogicalOperation::Commit {
        block_number: 1,
        new_root: root(),
        block_data: BlockData::Deposit { batch_number: 1, accounts_updated: accounts(&[2]) },
    };
    let call = dispatch(op, &SenderConfig::new(3, u32::MAX));
    assert_eq!(call.args[1], CallArg::Batch(vec![2, 4294967295, 4294967295]));
}

#[test]
fn only_a_deposit_can_exceed_the_batch() {
    let narrow = SenderConfig::new(1, 1);
    let deposit = LogicalOperation::Verify {
        block_number: 1,
        proof: sample_proof(),
        block_data: BlockData::Deposit { batch_number: 1, accounts_updated: accounts(&[1, 2]) },
    };
    let exit = LogicalOperation::Verify {
        block_number: 1,
        proof: sample_proof(),
        block_data: BlockData::Exit { batch_number: 1, accounts_updated: accounts(&[1, 2]) },
    };
    let transfer = LogicalOperation::Commit {
        block_number: 1,
        new_root: root(),
        block_data: BlockData::Transfer { total_fees: 0, public_data: vec![] },
    };
    assert!(!check_fits_batch(&deposit, &narrow));
    assert!(check_fits_batch(&deposit, &SenderConfig::new(2, 1)));
    assert!(check_fits_batch(&exit, &narrow));
    assert!(check_fits_batch(&transfer, &narrow));
    assert_eq!(dispatch(exit, &narrow).args[2], CallArg::Ids(vec![1, 2]));
}

#[test]
fn every_kind_of_operation_has_a_call_of_its_own() {
    let ops = vec![
        LogicalOperation::Commit {
            block_number: 1,
            new_root: root(),
            block_data: BlockData::Transfer { total_fees: 0, public_data: vec![] },
        },
        LogicalOperation::Commit {
            block_number: 1,
            new_root: root(),
            block_data: BlockData::Deposit { batch_number: 0, accounts_updated: accounts(&[]) },
        },
        LogicalOperation::Commit {
            block_number: 1,
            new_root: root(),
            block_data: BlockData::Exit { batch_number: 0, accounts_updated: accounts(&[]) },
        },
        LogicalOperation::Verify {
            block_number: 1,
            proof: sample_proof(),
            block_data: BlockData::Transfer { total_fees: 0, public_data: vec![] },
        },
        LogicalOperation::Verify {
            block_number: 1,
            proof: sample_proof(),
            block_data: BlockData::Deposit { batch_number: 0, accounts_updated: accounts(&[]) },
        },
        LogicalOperation::Verify {
            block_number: 1,
            proof: sample_proof(),
            block_data: BlockData::Exit { batch_number: 0, accounts_updated: accounts(&[]) },
        },
    ];
    let names: Vec<&str> = ops.into_iter().map(|op| dispatch(op, &config()).method.name()).collect();
    assert_eq!(
        names,
        vec![
            "commitTransferBlock",
            "commitDepositBlock",
            "commitExitBlock",
            "verifyTransferBlock",
            "verifyDepositBlock",
            "verifyExitBlock",
        ]
    );
}
