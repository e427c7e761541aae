//! The scratch accumulator of one transaction and the receipt it turns into.

use vstd::prelude::*;
use primitive_types::H256;
use crate::chain::{hash_bytes, hash_to_vec, IndexedBlockHeader};

verus! {

/// What one transaction has consumed so far.
#[derive(Clone, Copy, Debug, PartialEq, Eq, Structural)]
pub struct Tally {
    /// Bandwidth paid from the payer's credit.
    pub bandwidth_usage: i64,
    /// Fee paid for bandwidth that no credit covered.
    pub bandwidth_fee: i64,
    /// Fee charged by the contract's actuator.
    pub contract_fee: i64,
    /// Whether executing the contract created an account.
    pub new_account_created: bool,
}

impl Tally {
    /// The tally of a transaction that has consumed nothing.
    pub open spec fn zero() -> Tally {
        Tally { bandwidth_usage: 0, bandwidth_fee: 0, contract_fee: 0, new_account_created: false }
    }
}

/// Per-transaction scratch state: the enclosing block header and the
/// transaction hash, both borrowed, and the tallies that execution fills in.
#[derive(Debug)]
pub struct TransactionContext<'a> {
    pub block_header: &'a IndexedBlockHeader,
    pub transaction_hash: &'a H256,
    pub bandwidth_usage: i64,
    pub bandwidth_fee: i64,
    pub contract_fee: i64,
    pub new_account_created: bool,
}

/// The resources a transaction consumed, as reported in its receipt.
#[derive(Clone, Copy, Debug, PartialEq, Eq, Structural)]
pub struct ResourceReceipt {
    pub bandwidth_usage: i64,
    pub bandwidth_fee: i64,
    pub contract_fee: i64,
}

/// The record of a transaction's effect and cost.
#[derive(Clone, Debug, PartialEq, Eq)]
pub struct TransactionReceipt {
    pub success: bool,
    pub hash: Vec<u8>,
    pub block_number: i64,
    pub block_timestamp: i64,
    pub resource_receipt: Option<ResourceReceipt>,
}

/// What a receipt is, as a mathematical value.
pub struct ReceiptState {
    pub success: bool,
    pub hash: Seq<u8>,
    pub block_number: i64,
    pub block_timestamp: i64,
    pub resource_receipt: Option<ResourceReceipt>,
}

impl View for TransactionReceipt {
    type V = ReceiptState;

    open spec fn view(&self) -> ReceiptState {
        ReceiptState {
            success: self.success,
            hash: self.hash@,
            block_number: self.block_number,
            block_timestamp: self.block_timestamp,
            resource_receipt: self.resource_receipt,
        }
    }
}

/// The receipt of a transaction that succeeded in the block with the given
/// header, having consumed `tally`.
pub open spec fn success_receipt(header: IndexedBlockHeader, hash: Seq<u8>, tally: Tally) -> ReceiptState {
    ReceiptState {
        success: true,
        hash,
        block_number: header.number,
        block_timestamp: header.timestamp,
        resource_receipt: Some(
            ResourceReceipt {
                bandwidth_usage: tally.bandwidth_usage,
                bandwidth_fee: tally.bandwidth_fee,
                contract_fee: tally.contract_fee,
            },
        ),
    }
}

/// The receipt of a transaction that failed in the block with the given
/// header: it reports no resource.
pub open spec fn failure_receipt(header: IndexedBlockHeader, hash: Seq<u8>) -> ReceiptState {
    ReceiptState {
        success: false,
        hash,
        block_number: header.number,
        block_timestamp: header.timestamp,
        resource_receipt: None,
    }
}

impl<'a> TransactionContext<'a> {
    /// The tallies held by this context.
    pub open spec fn tally(&self) -> Tally {
        Tally {
            bandwidth_usage: self.bandwidth_usage,
            bandwidth_fee: self.bandwidth_fee,
            contract_fee: self.contract_fee,
            new_account_created: self.new_account_created,
        }
    }

    /// A fresh context for one transaction of the block with the given header.
    pub fn new<'b>(block_header: &'b IndexedBlockHeader, transaction_hash: &'b H256) -> (ctx:
        TransactionContext<'b>)
        ensures
            ctx.block_header == block_header,
            ctx.transaction_hash == transaction_hash,
            ctx.tally() == Tally::zero(),
    {
        TransactionContext {
            block_header,
            transaction_hash,
            bandwidth_usage: 0,
            bandwidth_fee: 0,
            contract_fee: 0,
            new_account_created: false,
        }
    }

    /// Turns the context of a transaction that succeeded into its receipt. The
    /// block's number and timestamp and the hash are copied as they are.
    pub fn into_receipt(self) -> (receipt: TransactionReceipt)
        ensures
            receipt@ == success_receipt(
                *self.block_header,
                hash_bytes(*self.transaction_hash),
                self.tally(),
            ),
            receipt@.hash.len() == 32,
    {
        TransactionReceipt {
            success: true,
            hash: hash_to_vec(self.transaction_hash),
            block_number: self.block_header.number(),
            block_timestamp: self.block_header.timestamp(),
            resource_receipt: Some(
                ResourceReceipt {
                    bandwidth_usage: self.bandwidth_usage,
                    bandwidth_fee: self.bandwidth_fee,
                    contract_fee: self.contract_fee,
                },
            ),
        }
    }
}

impl TransactionReceipt {
    /// The receipt of a transaction that failed: `success` is false and no
    /// resource is reported.
    pub fn failed(block_header: &IndexedBlockHeader, transaction_hash: &H256) -> (receipt:
        TransactionReceipt)
        ensures
            receipt@ == failure_receipt(*block_header, hash_bytes(*transaction_hash)),
            receipt@.hash.len() == 32,
    {
        TransactionReceipt {
            success: false,
            hash: hash_to_vec(transaction_hash),
            block_number: block_header.number(),
            block_timestamp: block_header.timestamp(),
            resource_receipt: None,
        }
    }
}

impl<'a> vstd::std_specs::convert::FromSpecImpl<TransactionContext<'a>> for TransactionReceipt {
    /// The conversion copies the hash into a byte string of its own, and two
    /// byte strings that hold the same bytes need not be the same value: what
    /// `from` returns is stated over views, on `from` itself.
    open spec fn obeys_from_spec() -> bool {
        false
    }

    open spec fn from_spec(ctx: TransactionContext<'a>) -> TransactionReceipt {
        choose|receipt: TransactionReceipt|
            receipt@ == success_receipt(
                *ctx.block_header,
                hash_bytes(*ctx.transaction_hash),
                ctx.tally(),
            )
    }
}

impl<'a> From<TransactionContext<'a>> for TransactionReceipt {
    /// The receipt of a transaction that succeeded, from its context.
    fn from(ctx: TransactionContext<'a>) -> (receipt: TransactionReceipt)
        ensures
            receipt@ == success_receipt(
                *ctx.block_header,
                hash_bytes(*ctx.transaction_hash),
                ctx.tally(),
            ),
            receipt@.hash.len() == 32,
    {
        ctx.into_receipt()
    }
}

} // verus!
