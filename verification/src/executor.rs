//! The transaction executor: decode, authenticate, validate, execute, meter,
//! receipt, in that order and all or nothing.

use vstd::prelude::*;
use crate::bandwidth::{consume_bandwidth, spec_consume};
use crate::bytes::bytes_eq;
use crate::chain::{
    hash_bytes, spec_contract_status, ContractStatus, IndexedBlock, IndexedBlockHeader, IndexedTransaction,
};
use crate::context::{failure_receipt, success_receipt, ReceiptState, Tally, TransactionContext, TransactionReceipt};
use crate::contract::{Contract, ContractParameter, ContractType};
use crate::error::ExecutionError;
use crate::state::{LedgerState, Manager};

verus! {

/// The kind and the parameter of the contract that a transaction carries, or
/// `DecodeError` where it carries none, its type tag is unknown, or its
/// parameter is missing or belongs to another kind.
pub open spec fn spec_decode(tx: IndexedTransaction) -> Result<(ContractType, ContractParameter), ExecutionError> {
    match tx.contract {
        None => Err(ExecutionError::DecodeError),
        Some(contract) => match ContractType::spec_from_i32(contract.type_code) {
            None => Err(ExecutionError::DecodeError),
            Some(kind) => match contract.parameter {
                None => Err(ExecutionError::DecodeError),
                Some(parameter) => if parameter.spec_matches(kind) {
                    Ok((kind, parameter))
                } else {
                    Err(ExecutionError::DecodeError)
                },
            },
        },
    }
}

/// The address that signed the transaction: the first one recovered from its
/// signatures. `None` where a signature is malformed or there is none.
pub open spec fn spec_signer(tx: IndexedTransaction) -> Option<Seq<u8>> {
    match tx.recovered_owners {
        None => None,
        Some(owners) => if owners@.len() == 0 {
            None
        } else {
            Some(owners@[0]@)
        },
    }
}

/// What executing `tx` against the state `s` comes to: the state and the
/// tally after it, or the reason why it is turned down.
///
/// The stages come in a fixed order, and the first that fails decides: the
/// contract is decoded, the signer recovered and held against the declared
/// owner, the preconditions are checked, the effect is applied, and the
/// bandwidth is metered. A contract of a known kind for which the ledger has
/// no actuator is turned down as unsupported once it has passed the stages
/// before validation.
pub open spec fn spec_run(s: LedgerState, tx: IndexedTransaction) -> Result<(LedgerState, Tally), ExecutionError> {
    match spec_decode(tx) {
        Err(e) => Err(e),
        Ok((kind, parameter)) => match spec_signer(tx) {
            None => Err(ExecutionError::AuthError),
            Some(signer) => match parameter.spec_owner() {
                None => Err(ExecutionError::Unsupported(kind)),
                Some(owner) => if owner != signer {
                    Err(ExecutionError::AuthError)
                } else if !parameter.spec_has_actuator() {
                    Err(ExecutionError::Unsupported(kind))
                } else {
                    match parameter.spec_validate(s) {
                        Some(e) => Err(ExecutionError::ValidationError(e)),
                        None => match parameter.spec_execute(s, Tally::zero()) {
                            None => Err(ExecutionError::ExecutionFailed),
                            Some((s1, t1)) => match spec_consume(s1, kind, owner, t1) {
                                None => Err(ExecutionError::ResourceError),
                                Some(done) => Ok(done),
                            },
                        },
                    }
                },
            },
        },
    }
}

/// The state after executing `tx` against `s`: that of `spec_run` where the
/// transaction succeeds, and `s` itself where it fails.
pub open spec fn spec_state_after(s: LedgerState, tx: IndexedTransaction) -> LedgerState {
    match spec_run(s, tx) {
        Ok((s1, _)) => s1,
        Err(_) => s,
    }
}

/// The receipt of executing `tx` against `s` in the block with the given
/// header, a failure being reported as a receipt too.
pub open spec fn spec_receipt(s: LedgerState, tx: IndexedTransaction, header: IndexedBlockHeader) -> ReceiptState {
    match spec_run(s, tx) {
        Ok((_, t)) => success_receipt(header, hash_bytes(tx.hash), t),
        Err(_) => failure_receipt(header, hash_bytes(tx.hash)),
    }
}

/// Executing a transaction changes neither the prices nor the costs, so it
/// takes a valid state to a valid state.
pub proof fn lemma_run_keeps_economy(s: LedgerState, tx: IndexedTransaction)
    ensures
        spec_state_after(s, tx).params == s.params,
        spec_state_after(s, tx).costs == s.costs,
        s.valid() ==> spec_state_after(s, tx).valid(),
{
}

/// The state after executing the first `n` transactions of `txs` in list
/// order, each against the state that the one before it left.
pub open spec fn spec_state_after_first(s: LedgerState, txs: Seq<IndexedTransaction>, n: int) -> LedgerState
    decreases n,
{
    if n <= 0 {
        s
    } else {
        spec_state_after(spec_state_after_first(s, txs, n - 1), txs[n - 1])
    }
}

/// The receipts of executing `txs` in list order from the state `s`, one per
/// transaction and in the same order.
pub open spec fn spec_block_receipts(s: LedgerState, txs: Seq<IndexedTransaction>, header: IndexedBlockHeader) -> Seq<
    ReceiptState,
> {
    Seq::new(
        txs.len(),
        |i: int| spec_receipt(spec_state_after_first(s, txs, i), txs[i], header),
    )
}

/// Who is to run a transaction's contract.
#[derive(Clone, Copy, Debug, PartialEq, Eq, Structural)]
pub enum Route {
    /// The ledger's actuator for the kind.
    Actuator(ContractType),
    /// The virtual machine, which is handed the contract status that came
    /// attached to the transaction.
    VirtualMachine(ContractType, ContractStatus),
    /// Nobody: the kind is known, but nothing can run it.
    Nowhere(ContractType),
}

/// Where the contract of `tx` is to be run, or `DecodeError` where `tx` does
/// not decode.
pub open spec fn spec_route(tx: IndexedTransaction) -> Result<Route, ExecutionError> {
    match spec_decode(tx) {
        Err(e) => Err(e),
        Ok((kind, parameter)) => if kind.spec_is_smart_contract() {
            Ok(Route::VirtualMachine(kind, spec_contract_status(tx.results@)))
        } else if parameter.spec_has_actuator() {
            Ok(Route::Actuator(kind))
        } else {
            Ok(Route::Nowhere(kind))
        },
    }
}

/// Decides who is to run the contract of a transaction. For a smart contract
/// it decodes the contract status for the virtual machine, which the caller
/// then invokes.
pub fn route(txn: &IndexedTransaction) -> (routed: Result<Route, ExecutionError>)
    ensures
        routed == spec_route(*txn),
{
    match decode_contract(txn) {
        Err(e) => Err(e),
        Ok((kind, parameter)) => {
            if kind.is_smart_contract() {
                Ok(Route::VirtualMachine(kind, txn.contract_status()))
            } else if parameter.has_actuator() {
                Ok(Route::Actuator(kind))
            } else {
                Ok(Route::Nowhere(kind))
            }
        },
    }
}

/// Extracts the contract of a transaction: its kind and its parameter.
pub fn decode_contract(txn: &IndexedTransaction) -> (decoded: Result<
    (ContractType, &ContractParameter),
    ExecutionError,
>)
    ensures
        decoded is Ok <==> spec_decode(*txn) is Ok,
        decoded is Ok ==> decoded->Ok_0.0 == spec_decode(*txn)->Ok_0.0 && *decoded->Ok_0.1
            == spec_decode(*txn)->Ok_0.1,
        decoded is Err ==> decoded->Err_0 == ExecutionError::DecodeError,
{
    let contract: &Contract = match &txn.contract {
        Some(contract) => contract,
        None => {
            return Err(ExecutionError::DecodeError);
        },
    };
    let kind = match ContractType::from_i32(contract.type_code) {
        Some(kind) => kind,
        None => {
            return Err(ExecutionError::DecodeError);
        },
    };
    match &contract.parameter {
        Some(parameter) => {
            if parameter.matches(kind) {
                Ok((kind, parameter))
            } else {
                Err(ExecutionError::DecodeError)
            }
        },
        None => Err(ExecutionError::DecodeError),
    }
}

/// The address that signed the transaction, or `AuthError` where no signer
/// could be recovered.
pub fn recover_signer(txn: &IndexedTransaction) -> (signer: Result<&Vec<u8>, ExecutionError>)
    ensures
        signer is Ok <==> spec_signer(*txn) is Some,
        signer is Ok ==> signer->Ok_0@ == spec_signer(*txn)->Some_0,
        signer is Err ==> signer->Err_0 == ExecutionError::AuthError,
{
    match &txn.recovered_owners {
        Some(owners) => {
            if owners.len() == 0 {
                Err(ExecutionError::AuthError)
            } else {
                Ok(&owners[0])
            }
        },
        None => Err(ExecutionError::AuthError),
    }
}

/// Runs the stages of one transaction against `manager`, filling in `ctx`.
/// The state is checkpointed before the contract's effect is applied and put
/// back when a later stage fails, so that a failure leaves no trace.
fn run_transaction(manager: &mut Manager, txn: &IndexedTransaction, ctx: &mut TransactionContext) -> (outcome:
    Result<(), ExecutionError>)
    requires
        old(ctx).tally() == Tally::zero(),
    ensures
        final(ctx).block_header == old(ctx).block_header,
        final(ctx).transaction_hash == old(ctx).transaction_hash,
        outcome is Ok <==> spec_run(old(manager)@, *txn) is Ok,
        outcome is Ok ==> (final(manager)@, final(ctx).tally()) == spec_run(old(manager)@, *txn)->Ok_0,
        outcome is Err ==> outcome->Err_0 == spec_run(old(manager)@, *txn)->Err_0,
        outcome is Err ==> final(manager)@ == old(manager)@,
{
    let (kind, parameter) = match decode_contract(txn) {
        Ok(decoded) => decoded,
        Err(e) => {
            return Err(e);
        },
    };
    let signer = match recover_signer(txn) {
        Ok(signer) => signer,
        Err(e) => {
            return Err(e);
        },
    };
    let owner = match parameter.owner_address() {
        Some(owner) => owner,
        None => {
            return Err(ExecutionError::Unsupported(kind));
        },
    };
    if !bytes_eq(owner, signer) {
        return Err(ExecutionError::AuthError);
    }
    if !parameter.has_actuator() {
        return Err(ExecutionError::Unsupported(kind));
    }
    match parameter.validate(manager, ctx) {
        Ok(()) => {},
        Err(e) => {
            return Err(ExecutionError::ValidationError(e));
        },
    }
    let checkpoint = manager.checkpoint();
    if parameter.execute(manager, ctx).is_err() {
        return Err(ExecutionError::ExecutionFailed);
    }
    if consume_bandwidth(manager, kind, owner, ctx).is_err() {
        *manager = checkpoint;
        return Err(ExecutionError::ResourceError);
    }
    Ok(())
}

/// Executes transactions against the chain state it has exclusive access to.
pub struct TransactionExecutor<'m> {
    pub manager: &'m mut Manager,
}

impl<'m> TransactionExecutor<'m> {
    /// The state that this executor works on.
    pub open spec fn state(&self) -> LedgerState {
        self.manager@
    }

    /// An executor over the given chain state.
    pub fn new<'a>(manager: &'a mut Manager) -> (executor: TransactionExecutor<'a>)
        ensures
            executor.state() == old(manager)@,
            executor.state().valid(),
            *final(manager) == *final(executor.manager),
    {
        // a look at the prices brings the validity of the state into view
        let _ = manager.params();
        TransactionExecutor { manager }
    }

    /// Executes one transaction of `block`. On success the state is the one
    /// that the stages lead to and the receipt reports what was consumed, with
    /// the block's number and timestamp and the transaction's hash copied as
    /// they are. On failure the error names the stage that failed and the
    /// state is as it was before the call.
    pub fn execute(&mut self, txn: &IndexedTransaction, block: &IndexedBlock) -> (outcome: Result<
        TransactionReceipt,
        ExecutionError,
    >)
        ensures
            outcome is Ok <==> spec_run(old(self).state(), *txn) is Ok,
            outcome is Ok ==> outcome->Ok_0@ == success_receipt(
                block.header,
                hash_bytes(txn.hash),
                spec_run(old(self).state(), *txn)->Ok_0.1,
            ),
            outcome is Ok ==> outcome->Ok_0@ == spec_receipt(old(self).state(), *txn, block.header),
            outcome is Ok ==> outcome->Ok_0@.hash.len() == 32,
            outcome is Err ==> outcome->Err_0 == spec_run(old(self).state(), *txn)->Err_0,
            outcome is Err ==> final(self).state() == old(self).state(),
            final(self).state() == spec_state_after(old(self).state(), *txn),
            old(self).state().valid(),
            final(self).state().valid(),
            *final(final(self).manager) == *final(old(self).manager),
    {
        // a look at the prices brings the validity of the state into view
        let _ = self.manager.params();
        proof {
            lemma_run_keeps_economy(old(self).state(), *txn);
        }
        let mut ctx = TransactionContext::new(&block.header, &txn.hash);
        match run_transaction(self.manager, txn, &mut ctx) {
            Ok(()) => Ok(ctx.into_receipt()),
            Err(e) => Err(e),
        }
    }

    /// Executes the transactions of `block` strictly in list order, each
    /// against the state that the one before it left, and gives one receipt per
    /// transaction in the same order. A transaction that fails leaves the
    /// state as it found it and is reported by a receipt without success.
    pub fn execute_block(&mut self, block: &IndexedBlock) -> (receipts: Vec<TransactionReceipt>)
        ensures
            receipts@.len() == block.transactions@.len(),
            forall|i: int|
                0 <= i < receipts@.len() ==> (#[trigger] receipts@[i])@ == spec_block_receipts(
                    old(self).state(),
                    block.transactions@,
                    block.header,
                )[i],
            forall|i: int| 0 <= i < receipts@.len() ==> (#[trigger] receipts@[i])@.hash.len() == 32,
            final(self).state() == spec_state_after_first(
                old(self).state(),
                block.transactions@,
                block.transactions@.len() as int,
            ),
            old(self).state().valid(),
            final(self).state().valid(),
            *final(final(self).manager) == *final(old(self).manager),
    {
        // a look at the prices brings the validity of the state into view
        let _ = self.manager.params();
        let mut receipts: Vec<TransactionReceipt> = Vec::new();
        let mut i: usize = 0;
        while i < block.transactions.len()
            invariant
                i <= block.transactions@.len(),
                receipts@.len() == i,
                forall|k: int|
                    0 <= k < i ==> (#[trigger] receipts@[k])@ == spec_block_receipts(
                        old(self).state(),
                        block.transactions@,
                        block.header,
                    )[k],
                forall|k: int| 0 <= k < i ==> (#[trigger] receipts@[k])@.hash.len() == 32,
                self.state() == spec_state_after_first(
                    old(self).state(),
                    block.transactions@,
                    i as int,
                ),
                self.state().valid(),
                *final(self.manager) == *final(old(self).manager),
            decreases block.transactions@.len() - i,
        {
            let txn = &block.transactions[i];
            let receipt = match self.execute(txn, block) {
                Ok(receipt) => receipt,
                Err(_) => TransactionReceipt::failed(&block.header, &txn.hash),
            };
            receipts.push(receipt);
            i += 1;
        }
        receipts
    }
}

} // verus!
