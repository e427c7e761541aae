use opentron::chain::{ContractStatus, IndexedBlockHeader, IndexedTransaction};
use opentron::context::{ResourceReceipt, TransactionContext, TransactionReceipt};
use opentron::contract::{Contract, ContractParameter, ContractType, ResourceCode, TransferContract};
use opentron::error::ExecutionError;
use opentron::executor::{decode_contract, recover_signer, route, Route};
use opentron::state::{ChainParameters, CostEntry, GenesisAccount, Manager};
use primitive_types::H256;

fn params() -> ChainParameters {
    ChainParameters { bandwidth_price: 3, base_cost: 2, create_account_fee: 7, witness_create_fee: 11 }
}

#[test]
fn new_ledger_is_empty() {
    let m = Manager::new(params());
    assert_eq!(m.account_count(), 0);
    assert_eq!(m.witness_count(), 0);
    assert_eq!(m.proposal_count(), 0);
    assert_eq!(m.params(), params());
    assert!(m.params().is_valid());
    assert_eq!(m.cost_of(ContractType::TransferContract), 2);
    assert_eq!(m.find_account(&vec![1]), None);
    assert_eq!(m.balance_of(&vec![1]), None);
}

#[test]
fn genesis_ledger_holds_the_accounts_in_order() {
    let costs = vec![
        CostEntry { kind: ContractType::TransferContract, cost: 10 },
        CostEntry { kind: ContractType::TransferContract, cost: 99 },
        CostEntry { kind: ContractType::FreezeBalanceContract, cost: 3 },
    ];
    let accounts = vec![
        GenesisAccount { address: vec![1], balance: 100 },
        GenesisAccount { address: vec![2], balance: 200 },
    ];
    let m = Manager::from_genesis(params(), costs, &accounts).unwrap();
    assert_eq!(m.account_count(), 2);
    assert_eq!(m.find_account(&vec![2]), Some(1));
    assert_eq!(m.balance_of(&vec![1]), Some(100));
    assert_eq!(m.bandwidth_of(&vec![2]), Some(0));
    assert_eq!(m.frozen_of(&vec![2]), Some(0));
    assert_eq!(m.cost_of(ContractType::TransferContract), 10);
    assert_eq!(m.cost_of(ContractType::FreezeBalanceContract), 3);
    assert_eq!(m.params(), params());
    let mut same = Manager::new(params());
    same.register_cost(ContractType::FreezeBalanceContract, 3);
    same.register_cost(ContractType::TransferContract, 99);
    same.register_cost(ContractType::TransferContract, 10);
    same.create_account(&vec![1], 100);
    same.create_account(&vec![2], 200);
    assert_eq!(m, same);
}

#[test]
fn genesis_with_an_address_twice_is_turned_down() {
    let accounts = vec![
        GenesisAccount { address: vec![1], balance: 100 },
        GenesisAccount { address: vec![2], balance: 200 },
        GenesisAccount { address: vec![1], balance: 300 },
    ];
    assert_eq!(Manager::from_genesis(params(), Vec::new(), &accounts), None);
    assert!(Manager::from_genesis(params(), Vec::new(), &Vec::new()).is_some());
}

#[test]
fn accounts_are_found_by_address() {
    let mut m = Manager::new(params());
    m.create_account(&vec![1], 10);
    m.create_account(&vec![2], 20);
    m.create_account(&vec![1, 0], 30);
    assert_eq!(m.find_account(&vec![2]), Some(1));
    assert_eq!(m.find_account(&vec![1, 0]), Some(2));
    assert_eq!(m.find_account(&vec![]), None);
    assert_eq!(m.balance(1), 20);
    m.set_balance(1, 25);
    m.set_bandwidth(1, 5);
    m.set_frozen(1, 6);
    assert_eq!(m.balance_of(&vec![2]), Some(25));
    assert_eq!(m.bandwidth_of(&vec![2]), Some(5));
    assert_eq!(m.frozen_of(&vec![2]), Some(6));
    assert_eq!(m.bandwidth(1), 5);
    assert_eq!(m.frozen(1), 6);
    assert_eq!(m.balance_of(&vec![1]), Some(10));
}

#[test]
fn latest_registered_cost_counts() {
    let mut m = Manager::new(params());
    assert!(m.register_cost(ContractType::TransferContract, 10));
    assert!(m.register_cost(ContractType::FreezeBalanceContract, 4));
    assert_eq!(m.cost_of(ContractType::TransferContract), 10);
    assert!(m.register_cost(ContractType::TransferContract, 12));
    assert_eq!(m.cost_of(ContractType::TransferContract), 12);
    assert_eq!(m.cost_of(ContractType::FreezeBalanceContract), 4);
    assert_eq!(m.cost_of(ContractType::VoteWitnessContract), 2);
}

#[test]
fn a_cost_of_nothing_is_turned_down() {
    let mut m = Manager::new(params());
    assert!(m.register_cost(ContractType::TransferContract, 10));
    let before = m.clone();
    assert!(!m.register_cost(ContractType::TransferContract, 0));
    assert!(!m.register_cost(ContractType::FreezeBalanceContract, 0));
    assert_eq!(m, before);
    assert_eq!(m.cost_of(ContractType::TransferContract), 10);
    assert_eq!(m.cost_of(ContractType::FreezeBalanceContract), 2);
}

#[test]
fn prices_must_be_above_nothing() {
    assert!(params().is_valid());
    assert!(!ChainParameters { bandwidth_price: 0, ..params() }.is_valid());
    assert!(!ChainParameters { base_cost: 0, ..params() }.is_valid());
    assert!(!ChainParameters { create_account_fee: 0, ..params() }.is_valid());
    assert!(ChainParameters { witness_create_fee: 0, ..params() }.is_valid());
}

#[test]
fn genesis_with_invalid_prices_or_costs_is_turned_down() {
    let accounts = vec![GenesisAccount { address: vec![1], balance: 100 }];
    for bad in [
        ChainParameters { bandwidth_price: 0, ..params() },
        ChainParameters { base_cost: 0, ..params() },
        ChainParameters { create_account_fee: 0, ..params() },
    ] {
        assert_eq!(Manager::from_genesis(bad, Vec::new(), &accounts), None);
    }
    let costs = vec![
        CostEntry { kind: ContractType::TransferContract, cost: 10 },
        CostEntry { kind: ContractType::FreezeBalanceContract, cost: 0 },
    ];
    assert_eq!(Manager::from_genesis(params(), costs, &accounts), None);
    assert!(Manager::from_genesis(params(), Vec::new(), &accounts).is_some());
}

#[test]
fn checkpoint_is_an_equal_and_separate_copy() {
    let mut m = Manager::new(params());
    m.register_cost(ContractType::TransferContract, 10);
    m.create_account(&vec![1], 10);
    m.add_witness(&vec![1], &vec![b'u']);
    m.add_proposal(1, &vec![1], &vec![(1, 2), (3, 4)]);
    m.add_approval(0, &vec![1]);
    m.add_approval(0, &vec![2]);
    let copy = m.checkpoint();
    assert_eq!(copy, m);
    m.set_balance(0, 11);
    assert_ne!(copy, m);
    assert_eq!(copy.balance_of(&vec![1]), Some(10));
    assert_eq!(copy.find_approval(0, &vec![2]), Some(1));
    m.remove_approval(0, 0);
    assert_eq!(m.find_approval(0, &vec![2]), Some(0));
    assert_eq!(m.find_approval(0, &vec![1]), None);
}

#[test]
fn type_tags() {
    let kinds = [
        (ContractType::TransferContract, 1),
        (ContractType::VoteWitnessContract, 4),
        (ContractType::WitnessCreateContract, 5),
        (ContractType::FreezeBalanceContract, 11),
        (ContractType::ProposalCreateContract, 16),
        (ContractType::ProposalApproveContract, 17),
        (ContractType::CreateSmartContract, 30),
        (ContractType::TriggerSmartContract, 31),
    ];
    for (kind, code) in kinds.iter() {
        assert_eq!(kind.code(), *code);
        assert_eq!(ContractType::from_i32(*code), Some(*kind));
    }
    for code in [0, 2, 3, 6, 12, 18, 29, 32, -1, i32::MAX, i32::MIN] {
        assert_eq!(ContractType::from_i32(code), None);
    }
    assert!(ContractType::CreateSmartContract.is_smart_contract());
    assert!(ContractType::TriggerSmartContract.is_smart_contract());
    assert!(!ContractType::TransferContract.is_smart_contract());
    assert_eq!(ResourceCode::from_i32(0), Some(ResourceCode::Bandwidth));
    assert_eq!(ResourceCode::from_i32(1), Some(ResourceCode::Energy));
    assert_eq!(ResourceCode::from_i32(2), None);
}

fn plain_tx(results: Vec<i32>) -> IndexedTransaction {
    IndexedTransaction {
        hash: H256::repeat_byte(1),
        contract: Some(Contract {
            type_code: 31,
            parameter: Some(ContractParameter::SmartContract(vec![1])),
        }),
        recovered_owners: Some(vec![vec![1]]),
        results,
    }
}

#[test]
fn a_copied_transaction_keeps_its_hash() {
    let t = plain_tx(vec![1]);
    let copy = t.clone();
    assert_eq!(copy.hash, H256::repeat_byte(1));
    assert_eq!(copy.hash, t.hash);
    assert_eq!(copy.results, vec![1]);
}

#[test]
fn contract_status_is_read_from_the_first_result() {
    assert_eq!(plain_tx(Vec::new()).contract_status(), ContractStatus::Default);
    assert_eq!(plain_tx(vec![1]).contract_status(), ContractStatus::Success);
    assert_eq!(plain_tx(vec![2, 1]).contract_status(), ContractStatus::Revert);
    assert_eq!(plain_tx(vec![10]).contract_status(), ContractStatus::OutOfEnergy);
    assert_eq!(plain_tx(vec![14]).contract_status(), ContractStatus::TransferFailed);
    assert_eq!(plain_tx(vec![99]).contract_status(), ContractStatus::Default);
    assert_eq!(plain_tx(vec![-1, 1]).contract_status(), ContractStatus::Default);
    assert_eq!(ContractStatus::from_i32(13), Some(ContractStatus::Unknown));
    assert_eq!(ContractStatus::from_i32(15), None);
}

#[test]
fn smart_contracts_are_routed_to_the_virtual_machine() {
    assert_eq!(
        route(&plain_tx(vec![2])),
        Ok(Route::VirtualMachine(ContractType::TriggerSmartContract, ContractStatus::Revert))
    );
    let mut t = plain_tx(Vec::new());
    t.contract.as_mut().unwrap().type_code = 30;
    assert_eq!(
        route(&t),
        Ok(Route::VirtualMachine(ContractType::CreateSmartContract, ContractStatus::Default))
    );
    t.contract.as_mut().unwrap().type_code = 1;
    assert_eq!(route(&t), Err(ExecutionError::DecodeError));
    t.contract = Some(Contract {
        type_code: 1,
        parameter: Some(ContractParameter::Transfer(TransferContract {
            owner_address: vec![1],
            to_address: vec![2],
            amount: 1,
        })),
    });
    assert_eq!(route(&t), Ok(Route::Actuator(ContractType::TransferContract)));
    let (kind, parameter) = decode_contract(&t).unwrap();
    assert_eq!(kind, ContractType::TransferContract);
    assert_eq!(parameter.owner_address(), Some(&vec![1u8]));
    assert_eq!(recover_signer(&t), Ok(&vec![1u8]));
}

#[test]
fn context_starts_at_zero_and_turns_into_a_receipt() {
    let header = IndexedBlockHeader { hash: H256::repeat_byte(3), number: 77, timestamp: 123_456 };
    let mut raw = [0u8; 32];
    for (i, b) in raw.iter_mut().enumerate() {
        *b = i as u8;
    }
    let hash = H256::from_slice(&raw);
    let mut ctx = TransactionContext::new(&header, &hash);
    assert_eq!(ctx.bandwidth_usage, 0);
    assert_eq!(ctx.bandwidth_fee, 0);
    assert_eq!(ctx.contract_fee, 0);
    assert!(!ctx.new_account_created);
    ctx.bandwidth_usage = 4;
    ctx.bandwidth_fee = 5;
    ctx.contract_fee = 6;
    let receipt: TransactionReceipt = ctx.into();
    assert_eq!(receipt.hash.len(), 32);
    assert_eq!(
        receipt,
        TransactionReceipt {
            success: true,
            hash: raw.to_vec(),
            block_number: 77,
            block_timestamp: 123_456,
            resource_receipt: Some(ResourceReceipt {
                bandwidth_usage: 4,
                bandwidth_fee: 5,
                contract_fee: 6,
            }),
        }
    );
    let failed = TransactionReceipt::failed(&header, &hash);
    assert!(!failed.success);
    assert_eq!(failed.hash, raw.to_vec());
    assert_eq!(failed.block_number, header.number());
    assert_eq!(failed.block_timestamp, header.timestamp());
    assert_eq!(failed.resource_receipt, None);
}
