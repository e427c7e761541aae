//! Blocks and transactions as the ledger reads them.

use vstd::prelude::*;
use primitive_types::H256;
use crate::contract::Contract;

verus! {

#[verifier::external_type_specification]
#[verifier::external_body]
pub struct ExH256(primitive_types::H256);

/// The bytes that a 256-bit hash holds, first byte first.
pub uninterp spec fn hash_bytes(hash: H256) -> Seq<u8>;

/// `Clone::clone` of `H256`: the copy is the same hash.
pub assume_specification[ <primitive_types::H256 as core::clone::Clone>::clone ](
    hash: &primitive_types::H256,
) -> (copy: primitive_types::H256)
    ensures
        copy == *hash,
;

/// `H256::as_ref` and a copy of the slice it gives: the bytes that the hash
/// holds, in order. A hash of this type holds 32 bytes.
#[verifier::external_body]
pub(crate) fn hash_to_vec(hash: &H256) -> (bytes: Vec<u8>)
    ensures
        bytes@ == hash_bytes(*hash),
        bytes@.len() == 32,
{
    hash.as_ref().to_vec()
}

/// Header of a block, with the hash it is indexed by.
#[derive(Clone, Debug)]
pub struct IndexedBlockHeader {
    pub hash: H256,
    pub number: i64,
    pub timestamp: i64,
}

impl IndexedBlockHeader {
    /// Height of the block.
    pub fn number(&self) -> (number: i64)
        ensures
            number == self.number,
    {
        self.number
    }

    /// Time at which the block was produced, in milliseconds.
    pub fn timestamp(&self) -> (timestamp: i64)
        ensures
            timestamp == self.timestamp,
    {
        self.timestamp
    }
}

/// A signed transaction with the hash it is indexed by.
#[derive(Clone, Debug)]
pub struct IndexedTransaction {
    /// Canonical hash of the transaction.
    pub hash: H256,
    /// The contract it carries, if it carries one.
    pub contract: Option<Contract>,
    /// Addresses recovered from the signatures over the hash, in signature
    /// order; `None` where a signature is malformed.
    pub recovered_owners: Option<Vec<Vec<u8>>>,
    /// Status codes that came attached to the transaction, one per contract
    /// result.
    pub results: Vec<i32>,
}

/// A block: its header and its transactions in execution order.
#[derive(Clone, Debug)]
pub struct IndexedBlock {
    pub header: IndexedBlockHeader,
    pub transactions: Vec<IndexedTransaction>,
}

/// Outcome that a virtual machine run attached to a transaction.
#[derive(Clone, Copy, Debug, PartialEq, Eq, Structural)]
pub enum ContractStatus {
    Default,
    Success,
    Revert,
    BadJumpDestination,
    OutOfMemory,
    PrecompiledContract,
    StackTooSmall,
    StackTooLarge,
    IllegalOperation,
    StackOverflow,
    OutOfEnergy,
    OutOfTime,
    JvmStackOverFlow,
    Unknown,
    TransferFailed,
}

impl ContractStatus {
    /// The status that a wire code stands for, if any.
    pub open spec fn spec_from_i32(code: i32) -> Option<ContractStatus> {
        if code == 0 {
            Some(ContractStatus::Default)
        } else if code == 1 {
            Some(ContractStatus::Success)
        } else if code == 2 {
            Some(ContractStatus::Revert)
        } else if code == 3 {
            Some(ContractStatus::BadJumpDestination)
        } else if code == 4 {
            Some(ContractStatus::OutOfMemory)
        } else if code == 5 {
            Some(ContractStatus::PrecompiledContract)
        } else if code == 6 {
            Some(ContractStatus::StackTooSmall)
        } else if code == 7 {
            Some(ContractStatus::StackTooLarge)
        } else if code == 8 {
            Some(ContractStatus::IllegalOperation)
        } else if code == 9 {
            Some(ContractStatus::StackOverflow)
        } else if code == 10 {
            Some(ContractStatus::OutOfEnergy)
        } else if code == 11 {
            Some(ContractStatus::OutOfTime)
        } else if code == 12 {
            Some(ContractStatus::JvmStackOverFlow)
        } else if code == 13 {
            Some(ContractStatus::Unknown)
        } else if code == 14 {
            Some(ContractStatus::TransferFailed)
        } else {
            None
        }
    }

    /// Reads a wire status code; an unknown code gives `None`.
    pub fn from_i32(code: i32) -> (status: Option<ContractStatus>)
        ensures
            status == Self::spec_from_i32(code),
    {
        if code == 0 {
            Some(ContractStatus::Default)
        } else if code == 1 {
            Some(ContractStatus::Success)
        } else if code == 2 {
            Some(ContractStatus::Revert)
        } else if code == 3 {
            Some(ContractStatus::BadJumpDestination)
        } else if code == 4 {
            Some(ContractStatus::OutOfMemory)
        } else if code == 5 {
            Some(ContractStatus::PrecompiledContract)
        } else if code == 6 {
            Some(ContractStatus::StackTooSmall)
        } else if code == 7 {
            Some(ContractStatus::StackTooLarge)
        } else if code == 8 {
            Some(ContractStatus::IllegalOperation)
        } else if code == 9 {
            Some(ContractStatus::StackOverflow)
        } else if code == 10 {
            Some(ContractStatus::OutOfEnergy)
        } else if code == 11 {
            Some(ContractStatus::OutOfTime)
        } else if code == 12 {
            Some(ContractStatus::JvmStackOverFlow)
        } else if code == 13 {
            Some(ContractStatus::Unknown)
        } else if code == 14 {
            Some(ContractStatus::TransferFailed)
        } else {
            None
        }
    }
}

/// The status attached to a transaction: that of its first result, and
/// `Default` where it has no result or the code is unknown.
pub open spec fn spec_contract_status(results: Seq<i32>) -> ContractStatus {
    if results.len() == 0 {
        ContractStatus::Default
    } else {
        match ContractStatus::spec_from_i32(results[0]) {
            Some(status) => status,
            None => ContractStatus::Default,
        }
    }
}

impl IndexedTransaction {
    /// Decodes the contract status that came attached to the transaction, for
    /// the virtual machine that runs its smart contract.
    pub fn contract_status(&self) -> (status: ContractStatus)
        ensures
            status == spec_contract_status(self.results@),
    {
        if self.results.len() == 0 {
            ContractStatus::Default
        } else {
            match ContractStatus::from_i32(self.results[0]) {
                Some(status) => status,
                None => ContractStatus::Default,
            }
        }
    }
}

} // verus!
