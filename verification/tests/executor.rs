use opentron::chain::{IndexedBlock, IndexedBlockHeader, IndexedTransaction};
use opentron::contract::{
    Contract, ContractParameter, ContractType, FreezeBalanceContract, ProposalApproveContract,
    ProposalCreateContract, TransferContract, Vote, VoteWitnessContract, WitnessCreateContract,
};
use opentron::error::{ExecutionError, ValidationError};
use opentron::executor::TransactionExecutor;
use opentron::state::{ChainParameters, Manager};
use primitive_types::H256;

fn addr(tag: u8) -> Vec<u8> {
    let mut a = vec![0x41u8; 21];
    a[20] = tag;
    a
}

fn params() -> ChainParameters {
    ChainParameters {
        bandwidth_price: 2,
        base_cost: 1,
        create_account_fee: 50,
        witness_create_fee: 500,
    }
}

fn header(number: i64) -> IndexedBlockHeader {
    IndexedBlockHeader { hash: H256::repeat_byte(7), number, timestamp: 1_600_000_000_000 + number }
}

fn block(number: i64, transactions: Vec<IndexedTransaction>) -> IndexedBlock {
    IndexedBlock { header: header(number), transactions }
}

fn tx(kind: ContractType, parameter: ContractParameter, signer: u8, hash: u8) -> IndexedTransaction {
    IndexedTransaction {
        hash: H256::repeat_byte(hash),
        contract: Some(Contract { type_code: kind.code(), parameter: Some(parameter) }),
        recovered_owners: Some(vec![addr(signer)]),
        results: Vec::new(),
    }
}

fn transfer(from: u8, to: u8, amount: i64, signer: u8, hash: u8) -> IndexedTransaction {
    tx(
        ContractType::TransferContract,
        ContractParameter::Transfer(TransferContract {
            owner_address: addr(from),
            to_address: addr(to),
            amount,
        }),
        signer,
        hash,
    )
}

fn ledger() -> Manager {
    let mut manager = Manager::new(params());
    manager.register_cost(ContractType::TransferContract, 10);
    manager.register_cost(ContractType::WitnessCreateContract, 20);
    manager.register_cost(ContractType::FreezeBalanceContract, 5);
    manager.create_account(&addr(1), 1000);
    manager.create_account(&addr(2), 0);
    manager
}

fn set_credit(manager: &mut Manager, who: u8, credit: u64) {
    let i = manager.find_account(&addr(who)).unwrap();
    manager.set_bandwidth(i, credit);
}

fn run(manager: &mut Manager, t: &IndexedTransaction) -> Result<opentron::context::TransactionReceipt, ExecutionError> {
    let blk = block(1, Vec::new());
    let mut executor = TransactionExecutor::new(manager);
    executor.execute(t, &blk)
}

#[test]
fn transfer_with_no_credit_pays_a_fee() {
    let mut manager = ledger();
    assert_eq!(manager.bandwidth_of(&addr(1)), Some(0));
    let receipt = run(&mut manager, &transfer(1, 2, 100, 1, 9)).unwrap();
    assert!(receipt.success);
    assert_eq!(receipt.hash, vec![9u8; 32]);
    assert_eq!(receipt.block_number, 1);
    assert_eq!(receipt.block_timestamp, 1_600_000_000_001);
    let resources = receipt.resource_receipt.unwrap();
    assert_eq!(resources.bandwidth_usage, 0);
    assert_eq!(resources.bandwidth_fee, 20);
    assert!(resources.bandwidth_fee > 0);
    assert_eq!(resources.contract_fee, 0);
    assert_eq!(manager.balance_of(&addr(1)), Some(900 - 20));
    assert_eq!(manager.balance_of(&addr(2)), Some(100));
}

#[test]
fn transfer_to_unknown_recipient_with_no_credit() {
    let mut manager = ledger();
    let receipt = run(&mut manager, &transfer(1, 3, 100, 1, 9)).unwrap();
    assert!(receipt.success);
    let resources = receipt.resource_receipt.unwrap();
    assert!(resources.bandwidth_fee > 0);
    assert_eq!(manager.balance_of(&addr(1)), Some(900 - resources.bandwidth_fee));
    assert_eq!(manager.balance_of(&addr(3)), Some(100));
}

#[test]
fn transfer_with_credit_uses_bandwidth() {
    let mut manager = ledger();
    set_credit(&mut manager, 1, 10);
    let receipt = run(&mut manager, &transfer(1, 2, 100, 1, 9)).unwrap();
    let resources = receipt.resource_receipt.unwrap();
    assert_eq!(resources.bandwidth_usage, 10);
    assert_eq!(resources.bandwidth_fee, 0);
    assert_eq!(manager.balance_of(&addr(1)), Some(900));
    assert_eq!(manager.bandwidth_of(&addr(1)), Some(0));
    assert_eq!(manager.balance_of(&addr(2)), Some(100));
}

#[test]
fn transfer_with_more_credit_than_cost_keeps_the_rest() {
    let mut manager = ledger();
    set_credit(&mut manager, 1, 35);
    let receipt = run(&mut manager, &transfer(1, 2, 1, 1, 9)).unwrap();
    let resources = receipt.resource_receipt.unwrap();
    assert_eq!(resources.bandwidth_usage, 10);
    assert_eq!(resources.bandwidth_fee, 0);
    assert_eq!(manager.bandwidth_of(&addr(1)), Some(25));
}

#[test]
fn transfer_with_too_little_credit_pays_the_whole_fee() {
    let mut manager = ledger();
    set_credit(&mut manager, 1, 9);
    let receipt = run(&mut manager, &transfer(1, 2, 100, 1, 9)).unwrap();
    let resources = receipt.resource_receipt.unwrap();
    assert_eq!(resources.bandwidth_usage, 0);
    assert_eq!(resources.bandwidth_fee, 20);
    assert_eq!(manager.bandwidth_of(&addr(1)), Some(9));
    assert_eq!(manager.balance_of(&addr(1)), Some(880));
}

#[test]
fn new_account_fee_takes_the_place_of_the_bandwidth_fee() {
    let mut manager = ledger();
    set_credit(&mut manager, 1, 100);
    let receipt = run(&mut manager, &transfer(1, 3, 100, 1, 9)).unwrap();
    let resources = receipt.resource_receipt.unwrap();
    assert_eq!(resources.contract_fee, 50);
    assert_eq!(resources.bandwidth_fee, 50);
    assert_eq!(resources.bandwidth_usage, 0);
    assert_eq!(manager.balance_of(&addr(1)), Some(1000 - 100 - 50));
    assert_eq!(manager.bandwidth_of(&addr(1)), Some(100));
    assert_eq!(manager.balance_of(&addr(3)), Some(100));
    assert_eq!(manager.bandwidth_of(&addr(3)), Some(0));
    assert_eq!(manager.frozen_of(&addr(3)), Some(0));
    assert_eq!(manager.account_count(), 3);
}

#[test]
fn wrong_signer_is_an_auth_error() {
    let mut manager = ledger();
    let before = manager.clone();
    assert_eq!(run(&mut manager, &transfer(1, 2, 100, 3, 9)), Err(ExecutionError::AuthError));
    assert_eq!(manager, before);
}

#[test]
fn malformed_signature_is_an_auth_error() {
    let mut manager = ledger();
    let before = manager.clone();
    let mut t = transfer(1, 2, 100, 1, 9);
    t.recovered_owners = None;
    assert_eq!(run(&mut manager, &t), Err(ExecutionError::AuthError));
    t.recovered_owners = Some(Vec::new());
    assert_eq!(run(&mut manager, &t), Err(ExecutionError::AuthError));
    assert_eq!(manager, before);
}

#[test]
fn only_the_first_signer_counts() {
    let mut manager = ledger();
    let mut t = transfer(1, 2, 100, 1, 9);
    t.recovered_owners = Some(vec![addr(3), addr(1)]);
    assert_eq!(run(&mut manager, &t), Err(ExecutionError::AuthError));
    t.recovered_owners = Some(vec![addr(1), addr(3)]);
    assert!(run(&mut manager, &t).is_ok());
}

#[test]
fn missing_contract_is_a_decode_error() {
    let mut manager = ledger();
    let before = manager.clone();
    let mut t = transfer(1, 2, 100, 1, 9);
    t.contract = None;
    assert_eq!(run(&mut manager, &t), Err(ExecutionError::DecodeError));
    assert_eq!(manager, before);
}

#[test]
fn unknown_type_tag_is_a_decode_error() {
    let mut manager = ledger();
    let mut t = transfer(1, 2, 100, 1, 9);
    t.contract.as_mut().unwrap().type_code = 99;
    assert_eq!(run(&mut manager, &t), Err(ExecutionError::DecodeError));
    t.contract.as_mut().unwrap().type_code = -1;
    assert_eq!(run(&mut manager, &t), Err(ExecutionError::DecodeError));
}

#[test]
fn missing_or_foreign_parameter_is_a_decode_error() {
    let mut manager = ledger();
    let mut t = transfer(1, 2, 100, 1, 9);
    t.contract.as_mut().unwrap().parameter = None;
    assert_eq!(run(&mut manager, &t), Err(ExecutionError::DecodeError));
    let mut t = transfer(1, 2, 100, 1, 9);
    t.contract.as_mut().unwrap().type_code = ContractType::WitnessCreateContract.code();
    assert_eq!(run(&mut manager, &t), Err(ExecutionError::DecodeError));
}

#[test]
fn decode_comes_before_authentication() {
    let mut manager = ledger();
    let mut t = transfer(1, 2, 100, 3, 9);
    t.contract.as_mut().unwrap().type_code = 99;
    assert_eq!(run(&mut manager, &t), Err(ExecutionError::DecodeError));
}

#[test]
fn authentication_comes_before_validation() {
    let mut manager = ledger();
    assert_eq!(run(&mut manager, &transfer(1, 2, -5, 3, 9)), Err(ExecutionError::AuthError));
}

#[test]
fn vote_witness_is_unsupported() {
    let mut manager = ledger();
    let before = manager.clone();
    let t = tx(
        ContractType::VoteWitnessContract,
        ContractParameter::VoteWitness(VoteWitnessContract {
            owner_address: addr(1),
            votes: vec![Vote { vote_address: addr(2), vote_count: 3 }],
        }),
        1,
        9,
    );
    assert_eq!(
        run(&mut manager, &t),
        Err(ExecutionError::Unsupported(ContractType::VoteWitnessContract))
    );
    assert_eq!(manager, before);
}

#[test]
fn smart_contracts_are_unsupported() {
    let mut manager = ledger();
    let before = manager.clone();
    for kind in [ContractType::TriggerSmartContract, ContractType::CreateSmartContract] {
        let t = tx(kind, ContractParameter::SmartContract(vec![1, 2, 3]), 1, 9);
        assert_eq!(run(&mut manager, &t), Err(ExecutionError::Unsupported(kind)));
    }
    assert_eq!(manager, before);
}

#[test]
fn transfer_validation_errors() {
    let mut manager = ledger();
    let before = manager.clone();
    let cases = [
        (transfer(1, 2, 0, 1, 9), ValidationError::InvalidAmount),
        (transfer(1, 2, -1, 1, 9), ValidationError::InvalidAmount),
        (transfer(1, 1, 10, 1, 9), ValidationError::SelfTransfer),
        (transfer(5, 2, 10, 5, 9), ValidationError::AccountNotFound),
        (transfer(1, 2, 1001, 1, 9), ValidationError::InsufficientBalance),
        (transfer(1, 3, 951, 1, 9), ValidationError::InsufficientBalance),
    ];
    for (t, expected) in cases.iter() {
        assert_eq!(run(&mut manager, t), Err(ExecutionError::ValidationError(*expected)));
        assert_eq!(manager, before);
    }
    assert!(run(&mut manager, &transfer(1, 2, 1000, 1, 9)).is_err());
}

#[test]
fn transfer_of_the_whole_balance_to_a_new_account_needs_the_fee_too() {
    let mut manager = ledger();
    assert!(run(&mut manager, &transfer(1, 3, 950, 1, 9)).is_ok());
    assert_eq!(manager.balance_of(&addr(1)), Some(0));
    assert_eq!(manager.balance_of(&addr(3)), Some(950));
}

#[test]
fn overflowing_the_recipient_fails_execution_and_changes_nothing() {
    let mut manager = ledger();
    manager.create_account(&addr(4), i64::MAX - 5);
    let before = manager.clone();
    assert_eq!(run(&mut manager, &transfer(1, 4, 6, 1, 9)), Err(ExecutionError::ExecutionFailed));
    assert_eq!(manager, before);
    assert!(run(&mut manager, &transfer(1, 4, 5, 1, 9)).is_ok());
    assert_eq!(manager.balance_of(&addr(4)), Some(i64::MAX));
}

#[test]
fn unaffordable_bandwidth_is_a_resource_error_and_rolls_back() {
    let mut manager = ledger();
    let before = manager.clone();
    assert_eq!(run(&mut manager, &transfer(1, 2, 990, 1, 9)), Err(ExecutionError::ResourceError));
    assert_eq!(manager, before);
    assert_eq!(manager.balance_of(&addr(1)), Some(1000));
    assert_eq!(manager.balance_of(&addr(2)), Some(0));
    assert!(run(&mut manager, &transfer(1, 2, 980, 1, 9)).is_ok());
    assert_eq!(manager.balance_of(&addr(1)), Some(0));
    assert_eq!(manager.balance_of(&addr(2)), Some(980));
}

#[test]
fn a_kind_without_registered_cost_costs_the_base_cost() {
    let mut manager = Manager::new(params());
    manager.create_account(&addr(1), 1000);
    manager.create_account(&addr(2), 0);
    assert_eq!(
        run(&mut manager, &transfer(1, 2, 1000, 1, 9)),
        Err(ExecutionError::ResourceError)
    );
    let receipt = run(&mut manager, &transfer(1, 2, 998, 1, 9)).unwrap();
    let resources = receipt.resource_receipt.unwrap();
    assert_eq!(resources.bandwidth_usage, 0);
    assert_eq!(resources.bandwidth_fee, 2);
    assert_eq!(manager.balance_of(&addr(1)), Some(0));
    assert_eq!(manager.balance_of(&addr(2)), Some(998));
}

#[test]
fn a_transfer_without_credit_always_pays_a_fee() {
    for (price, base, create) in [(1u32, 1u32, 1u64), (3, 7, 2), (1, 900, 900), (900, 1, 5)] {
        for to in [2u8, 3u8] {
            let mut manager = Manager::new(ChainParameters {
                bandwidth_price: price,
                base_cost: base,
                create_account_fee: create,
                witness_create_fee: 0,
            });
            manager.create_account(&addr(1), 1000);
            manager.create_account(&addr(2), 0);
            let receipt = run(&mut manager, &transfer(1, to, 100, 1, 9)).unwrap();
            assert!(receipt.success);
            assert_eq!(receipt.hash.len(), 32);
            let resources = receipt.resource_receipt.unwrap();
            assert_eq!(resources.bandwidth_usage, 0);
            assert!(resources.bandwidth_fee > 0);
            let owner = manager.balance_of(&addr(1)).unwrap();
            assert_eq!(owner, 900 - resources.bandwidth_fee);
            assert!(owner < 900);
            assert_eq!(manager.balance_of(&addr(to)), Some(100));
            assert_eq!(owner + 100 + resources.bandwidth_fee, 1000);
        }
    }
}

#[test]
fn execution_is_repeatable() {
    let txs = vec![
        transfer(1, 2, 100, 1, 1),
        transfer(2, 3, 30, 2, 2),
        transfer(1, 2, 5000, 1, 3),
        transfer(3, 1, 10, 3, 4),
    ];
    let blk = block(7, txs);
    let mut first = ledger();
    let mut second = ledger();
    let receipts_first = TransactionExecutor::new(&mut first).execute_block(&blk);
    let receipts_second = TransactionExecutor::new(&mut second).execute_block(&blk);
    assert_eq!(receipts_first, receipts_second);
    assert_eq!(first, second);
    assert_eq!(receipts_first.len(), 4);
}

#[test]
fn order_of_transfers_matters() {
    let a = transfer(1, 2, 100, 1, 1);
    let b = transfer(2, 3, 40, 2, 2);
    let mut forward = ledger();
    assert!(run(&mut forward, &a).is_ok());
    assert!(run(&mut forward, &b).is_ok());
    let mut backward = ledger();
    assert_eq!(
        run(&mut backward, &b),
        Err(ExecutionError::ValidationError(ValidationError::InsufficientBalance))
    );
    assert!(run(&mut backward, &a).is_ok());
    assert_ne!(forward, backward);
    assert_eq!(forward.balance_of(&addr(3)), Some(40));
    assert_eq!(forward.balance_of(&addr(2)), Some(100 - 40 - 50));
    assert_eq!(backward.balance_of(&addr(3)), None);
    assert_eq!(backward.balance_of(&addr(2)), Some(100));
}

#[test]
fn block_runs_in_list_order_and_reports_failures() {
    let txs = vec![
        transfer(2, 3, 60, 2, 1),
        transfer(1, 2, 200, 1, 2),
        transfer(2, 3, 60, 2, 3),
    ];
    let blk = block(3, txs);
    let mut manager = ledger();
    let receipts = TransactionExecutor::new(&mut manager).execute_block(&blk);
    assert_eq!(receipts.len(), 3);
    assert!(!receipts[0].success);
    assert_eq!(receipts[0].hash, vec![1u8; 32]);
    assert_eq!(receipts[0].block_number, 3);
    assert_eq!(receipts[0].block_timestamp, 1_600_000_000_003);
    assert_eq!(receipts[0].resource_receipt, None);
    assert!(receipts[1].success);
    assert_eq!(receipts[1].hash, vec![2u8; 32]);
    assert!(receipts[2].success);
    assert_eq!(receipts[2].hash, vec![3u8; 32]);
    assert_eq!(receipts[2].resource_receipt.unwrap().contract_fee, 50);
    assert_eq!(manager.balance_of(&addr(1)), Some(1000 - 200 - 20));
    assert_eq!(manager.balance_of(&addr(2)), Some(200 - 60 - 50));
    assert_eq!(manager.balance_of(&addr(3)), Some(60));
}

#[test]
fn empty_block_changes_nothing() {
    let mut manager = ledger();
    let before = manager.clone();
    let receipts = TransactionExecutor::new(&mut manager).execute_block(&block(1, Vec::new()));
    assert!(receipts.is_empty());
    assert_eq!(manager, before);
}

fn witness_create(owner: u8, url: &[u8]) -> IndexedTransaction {
    tx(
        ContractType::WitnessCreateContract,
        ContractParameter::WitnessCreate(WitnessCreateContract {
            owner_address: addr(owner),
            url: url.to_vec(),
        }),
        owner,
        20,
    )
}

#[test]
fn witness_registration_charges_the_fee() {
    let mut manager = ledger();
    let receipt = run(&mut manager, &witness_create(1, b"http://w.example")).unwrap();
    let resources = receipt.resource_receipt.unwrap();
    assert_eq!(resources.contract_fee, 500);
    assert_eq!(resources.bandwidth_fee, 40);
    assert_eq!(resources.bandwidth_usage, 0);
    assert!(manager.is_witness(&addr(1)));
    assert_eq!(manager.witness_count(), 1);
    assert_eq!(manager.balance_of(&addr(1)), Some(1000 - 500 - 40));
}

#[test]
fn witness_validation_errors() {
    let mut manager = ledger();
    assert_eq!(
        run(&mut manager, &witness_create(1, b"")),
        Err(ExecutionError::ValidationError(ValidationError::InvalidUrl))
    );
    assert_eq!(
        run(&mut manager, &witness_create(9, b"u")),
        Err(ExecutionError::ValidationError(ValidationError::AccountNotFound))
    );
    assert_eq!(
        run(&mut manager, &witness_create(2, b"u")),
        Err(ExecutionError::ValidationError(ValidationError::InsufficientBalance))
    );
    assert!(run(&mut manager, &witness_create(1, b"u")).is_ok());
    let before = manager.clone();
    assert_eq!(
        run(&mut manager, &witness_create(1, b"u")),
        Err(ExecutionError::ValidationError(ValidationError::WitnessExists))
    );
    assert_eq!(manager, before);
}

fn proposal_create(owner: u8, parameters: Vec<(i64, i64)>) -> IndexedTransaction {
    tx(
        ContractType::ProposalCreateContract,
        ContractParameter::ProposalCreate(ProposalCreateContract {
            owner_address: addr(owner),
            parameters,
        }),
        owner,
        30,
    )
}

fn proposal_approve(owner: u8, proposal_id: i64, is_approval: bool) -> IndexedTransaction {
    tx(
        ContractType::ProposalApproveContract,
        ContractParameter::ProposalApprove(ProposalApproveContract {
            owner_address: addr(owner),
            proposal_id,
            is_approval,
        }),
        owner,
        31,
    )
}

#[test]
fn proposals_are_created_and_approved_by_witnesses() {
    let mut manager = ledger();
    assert_eq!(
        run(&mut manager, &proposal_create(1, vec![(3, 4)])),
        Err(ExecutionError::ValidationError(ValidationError::NotWitness))
    );
    assert_eq!(
        run(&mut manager, &proposal_create(9, vec![(3, 4)])),
        Err(ExecutionError::ValidationError(ValidationError::AccountNotFound))
    );
    manager.add_witness(&addr(1), &b"u".to_vec());
    assert_eq!(
        run(&mut manager, &proposal_create(1, Vec::new())),
        Err(ExecutionError::ValidationError(ValidationError::EmptyParameters))
    );
    assert!(run(&mut manager, &proposal_create(1, vec![(3, 4)])).is_ok());
    assert_eq!(manager.proposal_count(), 1);
    assert_eq!(manager.find_proposal(1), Some(0));
    assert_eq!(manager.find_proposal(2), None);

    assert_eq!(
        run(&mut manager, &proposal_approve(2, 1, true)),
        Err(ExecutionError::ValidationError(ValidationError::NotWitness))
    );
    assert_eq!(
        run(&mut manager, &proposal_approve(9, 1, true)),
        Err(ExecutionError::ValidationError(ValidationError::AccountNotFound))
    );
    assert_eq!(
        run(&mut manager, &proposal_approve(1, 2, true)),
        Err(ExecutionError::ValidationError(ValidationError::ProposalNotFound))
    );
    assert_eq!(
        run(&mut manager, &proposal_approve(1, 1, false)),
        Err(ExecutionError::ValidationError(ValidationError::NotApproved))
    );
    assert!(run(&mut manager, &proposal_approve(1, 1, true)).is_ok());
    assert_eq!(manager.find_approval(0, &addr(1)), Some(0));
    let before = manager.clone();
    assert_eq!(
        run(&mut manager, &proposal_approve(1, 1, true)),
        Err(ExecutionError::ValidationError(ValidationError::AlreadyApproved))
    );
    assert_eq!(manager, before);
    assert!(run(&mut manager, &proposal_approve(1, 1, false)).is_ok());
    assert_eq!(manager.find_approval(0, &addr(1)), None);
}

fn freeze(owner: u8, amount: i64, resource: i32) -> IndexedTransaction {
    tx(
        ContractType::FreezeBalanceContract,
        ContractParameter::FreezeBalance(FreezeBalanceContract {
            owner_address: addr(owner),
            frozen_balance: amount,
            frozen_duration: 3,
            resource,
        }),
        owner,
        40,
    )
}

#[test]
fn freezing_for_bandwidth_grants_credit() {
    let mut manager = ledger();
    let receipt = run(&mut manager, &freeze(1, 300, 0)).unwrap();
    let resources = receipt.resource_receipt.unwrap();
    assert_eq!(resources.bandwidth_usage, 5);
    assert_eq!(resources.bandwidth_fee, 0);
    assert_eq!(manager.balance_of(&addr(1)), Some(700));
    assert_eq!(manager.frozen_of(&addr(1)), Some(300));
    assert_eq!(manager.bandwidth_of(&addr(1)), Some(295));
}

#[test]
fn freezing_for_energy_grants_no_bandwidth() {
    let mut manager = ledger();
    let receipt = run(&mut manager, &freeze(1, 300, 1)).unwrap();
    let resources = receipt.resource_receipt.unwrap();
    assert_eq!(resources.bandwidth_usage, 0);
    assert_eq!(resources.bandwidth_fee, 10);
    assert_eq!(manager.balance_of(&addr(1)), Some(690));
    assert_eq!(manager.frozen_of(&addr(1)), Some(300));
    assert_eq!(manager.bandwidth_of(&addr(1)), Some(0));
}

#[test]
fn freeze_validation_errors() {
    let mut manager = ledger();
    let before = manager.clone();
    let cases = [
        (freeze(9, 10, 0), ValidationError::AccountNotFound),
        (freeze(1, 0, 0), ValidationError::InvalidAmount),
        (freeze(1, 10, 2), ValidationError::InvalidResource),
        (freeze(1, 1001, 0), ValidationError::InsufficientBalance),
    ];
    for (t, expected) in cases.iter() {
        assert_eq!(run(&mut manager, t), Err(ExecutionError::ValidationError(*expected)));
        assert_eq!(manager, before);
    }
}

#[test]
fn error_messages() {
    assert_eq!(ExecutionError::AuthError.message(), "invalid signature");
    assert_eq!(ExecutionError::DecodeError.message(), "invalid contract");
    assert_eq!(
        ExecutionError::Unsupported(ContractType::VoteWitnessContract).message(),
        "unsupported contract type"
    );
}
