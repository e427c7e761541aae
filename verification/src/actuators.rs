//! The actuators: for each kind of contract, the check of its preconditions
//! and its effect on chain state.

use vstd::prelude::*;
use crate::bytes::{bytes_eq, index_of, lemma_index_of};
use crate::context::{Tally, TransactionContext};
use crate::contract::{
    ContractParameter, FreezeBalanceContract, ProposalApproveContract, ProposalCreateContract,
    ResourceCode, TransferContract, WitnessCreateContract,
};
use crate::error::{ExecuteFailure, ValidationError};
use crate::state::{AccountState, LedgerState, Manager, ProposalState, WitnessState};

verus! {

/// Two addresses with the same account record are the same address.
pub proof fn lemma_account_index_injective(s: LedgerState, a: Seq<u8>, b: Seq<u8>)
    requires
        s.has_account(a),
        s.account_index(a) == s.account_index(b),
    ensures
        a == b,
{
    lemma_index_of(s.account_addresses(), a);
    lemma_index_of(s.account_addresses(), b);
}

/// The position that a lookup gives is that of a record with the address.
pub proof fn lemma_account_index_in_range(s: LedgerState, a: Seq<u8>)
    ensures
        s.has_account(a) ==> 0 <= s.account_index(a) < s.accounts.len() && s.accounts[s.account_index(
            a,
        )].address == a,
        !s.has_account(a) ==> s.account_index(a) == -1,
{
    lemma_index_of(s.account_addresses(), a);
}

impl TransferContract {
    /// What the owner's balance must cover: the amount, and the fee for
    /// creating the recipient's account where there is none yet.
    pub open spec fn spec_charge(&self, s: LedgerState) -> int {
        if s.has_account(self.to_address@) {
            self.amount as int
        } else {
            self.amount + s.params.create_account_fee
        }
    }

    /// The precondition that fails first, if any does.
    pub open spec fn spec_validate(&self, s: LedgerState) -> Option<ValidationError> {
        if self.amount <= 0 {
            Some(ValidationError::InvalidAmount)
        } else if self.owner_address@ == self.to_address@ {
            Some(ValidationError::SelfTransfer)
        } else if !s.has_account(self.owner_address@) {
            Some(ValidationError::AccountNotFound)
        } else if s.account(self.owner_address@).balance < self.spec_charge(s) {
            Some(ValidationError::InsufficientBalance)
        } else {
            None
        }
    }

    /// State and tally after the transfer; `None` where it cannot be applied.
    pub open spec fn spec_execute(&self, s: LedgerState, t: Tally) -> Option<(LedgerState, Tally)> {
        let o = s.account_index(self.owner_address@);
        let r = s.account_index(self.to_address@);
        if self.spec_validate(s) is Some {
            None
        } else if r < 0 {
            let fee = s.params.create_account_fee;
            let rest = s.accounts[o].balance - self.amount - fee;
            Some(
                (
                    s.set_balance(o, rest as i64).with_new_account(
                        AccountState {
                            address: self.to_address@,
                            balance: self.amount,
                            bandwidth: 0,
                            frozen: 0,
                        },
                    ),
                    Tally { contract_fee: fee as i64, new_account_created: true, ..t },
                ),
            )
        } else if s.accounts[r].balance + self.amount > i64::MAX {
            None
        } else {
            Some(
                (
                    s.set_balance(o, (s.accounts[o].balance - self.amount) as i64).set_balance(
                        r,
                        (s.accounts[r].balance + self.amount) as i64,
                    ),
                    t,
                ),
            )
        }
    }

    /// Checks the preconditions of the transfer against the state, which it
    /// leaves as it is.
    pub fn validate(&self, manager: &Manager, ctx: &TransactionContext) -> (outcome: Result<
        (),
        ValidationError,
    >)
        ensures
            outcome is Ok <==> self.spec_validate(manager@) is None,
            outcome is Err ==> self.spec_validate(manager@) == Some(outcome->Err_0),
    {
        if self.amount <= 0 {
            return Err(ValidationError::InvalidAmount);
        }
        if bytes_eq(&self.owner_address, &self.to_address) {
            return Err(ValidationError::SelfTransfer);
        }
        let owner = match manager.find_account(&self.owner_address) {
            Some(i) => i,
            None => {
                return Err(ValidationError::AccountNotFound);
            },
        };
        let charge: i128 = match manager.find_account(&self.to_address) {
            Some(_) => self.amount as i128,
            None => self.amount as i128 + manager.params().create_account_fee as i128,
        };
        if (manager.balance(owner) as i128) < charge {
            return Err(ValidationError::InsufficientBalance);
        }
        Ok(())
    }

    /// Moves the amount from the owner to the recipient. A recipient without
    /// an account gets one, at the owner's expense: the fee is recorded as the
    /// contract fee, and the context is flagged. On failure nothing changes.
    pub fn execute(&self, manager: &mut Manager, ctx: &mut TransactionContext) -> (outcome: Result<
        (),
        ExecuteFailure,
    >)
        ensures
            final(ctx).block_header == old(ctx).block_header,
            final(ctx).transaction_hash == old(ctx).transaction_hash,
            outcome is Ok <==> self.spec_execute(old(manager)@, old(ctx).tally()) is Some,
            outcome is Ok ==> (final(manager)@, final(ctx).tally()) == self.spec_execute(
                old(manager)@,
                old(ctx).tally(),
            )->Some_0,
            outcome is Err ==> final(manager)@ == old(manager)@ && final(ctx).tally() == old(
                ctx,
            ).tally(),
    {
        if self.validate(manager, ctx).is_err() {
            return Err(ExecuteFailure);
        }
        proof {
            lemma_account_index_in_range(manager@, self.owner_address@);
            lemma_account_index_in_range(manager@, self.to_address@);
        }
        let owner = match manager.find_account(&self.owner_address) {
            Some(i) => i,
            None => {
                return Err(ExecuteFailure);
            },
        };
        match manager.find_account(&self.to_address) {
            None => {
                let fee: u64 = manager.params().create_account_fee;
                let rest: i128 = manager.balance(owner) as i128 - self.amount as i128 - fee as i128;
                manager.set_balance(owner, rest as i64);
                manager.create_account(&self.to_address, self.amount);
                ctx.contract_fee = fee as i64;
                ctx.new_account_created = true;
                Ok(())
            },
            Some(recipient) => {
                let credited: i128 = manager.balance(recipient) as i128 + self.amount as i128;
                if credited > i64::MAX as i128 {
                    return Err(ExecuteFailure);
                }
                let rest: i64 = manager.balance(owner) - self.amount;
                manager.set_balance(owner, rest);
                manager.set_balance(recipient, credited as i64);
                Ok(())
            },
        }
    }
}

impl WitnessCreateContract {
    /// The precondition that fails first, if any does.
    pub open spec fn spec_validate(&self, s: LedgerState) -> Option<ValidationError> {
        if self.url@.len() == 0 {
            Some(ValidationError::InvalidUrl)
        } else if !s.has_account(self.owner_address@) {
            Some(ValidationError::AccountNotFound)
        } else if s.is_witness(self.owner_address@) {
            Some(ValidationError::WitnessExists)
        } else if s.account(self.owner_address@).balance < s.params.witness_create_fee {
            Some(ValidationError::InsufficientBalance)
        } else {
            None
        }
    }

    /// State and tally after the registration; `None` where it cannot be
    /// applied.
    pub open spec fn spec_execute(&self, s: LedgerState, t: Tally) -> Option<(LedgerState, Tally)> {
        let o = s.account_index(self.owner_address@);
        let fee = s.params.witness_create_fee;
        if self.spec_validate(s) is Some {
            None
        } else {
            Some(
                (
                    s.set_balance(o, (s.accounts[o].balance - fee) as i64).with_new_witness(
                        WitnessState { address: self.owner_address@, url: self.url@ },
                    ),
                    Tally { contract_fee: fee as i64, ..t },
                ),
            )
        }
    }

    /// Checks the preconditions of the registration against the state, which
    /// it leaves as it is.
    pub fn validate(&self, manager: &Manager, ctx: &TransactionContext) -> (outcome: Result<
        (),
        ValidationError,
    >)
        ensures
            outcome is Ok <==> self.spec_validate(manager@) is None,
            outcome is Err ==> self.spec_validate(manager@) == Some(outcome->Err_0),
    {
        if self.url.len() == 0 {
            return Err(ValidationError::InvalidUrl);
        }
        let owner = match manager.find_account(&self.owner_address) {
            Some(i) => i,
            None => {
                return Err(ValidationError::AccountNotFound);
            },
        };
        if manager.is_witness(&self.owner_address) {
            return Err(ValidationError::WitnessExists);
        }
        if (manager.balance(owner) as i128) < manager.params().witness_create_fee as i128 {
            return Err(ValidationError::InsufficientBalance);
        }
        Ok(())
    }

    /// Registers the owner as a witness and takes the registration fee from
    /// the owner's balance; the fee is recorded as the contract fee. On
    /// failure nothing changes.
    pub fn execute(&self, manager: &mut Manager, ctx: &mut TransactionContext) -> (outcome: Result<
        (),
        ExecuteFailure,
    >)
        ensures
            final(ctx).block_header == old(ctx).block_header,
            final(ctx).transaction_hash == old(ctx).transaction_hash,
            outcome is Ok <==> self.spec_execute(old(manager)@, old(ctx).tally()) is Some,
            outcome is Ok ==> (final(manager)@, final(ctx).tally()) == self.spec_execute(
                old(manager)@,
                old(ctx).tally(),
            )->Some_0,
            outcome is Err ==> final(manager)@ == old(manager)@ && final(ctx).tally() == old(
                ctx,
            ).tally(),
    {
        if self.validate(manager, ctx).is_err() {
            return Err(ExecuteFailure);
        }
        proof {
            lemma_account_index_in_range(manager@, self.owner_address@);
        }
        let owner = match manager.find_account(&self.owner_address) {
            Some(i) => i,
            None => {
                return Err(ExecuteFailure);
            },
        };
        let fee: u64 = manager.params().witness_create_fee;
        let rest: i128 = manager.balance(owner) as i128 - fee as i128;
        manager.set_balance(owner, rest as i64);
        manager.add_witness(&self.owner_address, &self.url);
        ctx.contract_fee = fee as i64;
        Ok(())
    }
}

impl ProposalCreateContract {
    /// The precondition that fails first, if any does.
    pub open spec fn spec_validate(&self, s: LedgerState) -> Option<ValidationError> {
        if !s.has_account(self.owner_address@) {
            Some(ValidationError::AccountNotFound)
        } else if !s.is_witness(self.owner_address@) {
            Some(ValidationError::NotWitness)
        } else if self.parameters@.len() == 0 {
            Some(ValidationError::EmptyParameters)
        } else {
            None
        }
    }

    /// State and tally after the proposal is recorded; `None` where it cannot
    /// be. The new proposal's identifier is one more than the number of
    /// proposals before it.
    pub open spec fn spec_execute(&self, s: LedgerState, t: Tally) -> Option<(LedgerState, Tally)> {
        if self.spec_validate(s) is Some || s.proposals.len() >= i64::MAX {
            None
        } else {
            Some(
                (
                    s.with_new_proposal(
                        ProposalState {
                            id: (s.proposals.len() + 1) as i64,
                            proposer: self.owner_address@,
                            parameters: self.parameters@,
                            approvals: Seq::empty(),
                        },
                    ),
                    t,
                ),
            )
        }
    }

    /// Checks the preconditions of the proposal against the state, which it
    /// leaves as it is.
    pub fn validate(&self, manager: &Manager, ctx: &TransactionContext) -> (outcome: Result<
        (),
        ValidationError,
    >)
        ensures
            outcome is Ok <==> self.spec_validate(manager@) is None,
            outcome is Err ==> self.spec_validate(manager@) == Some(outcome->Err_0),
    {
        if manager.find_account(&self.owner_address).is_none() {
            return Err(ValidationError::AccountNotFound);
        }
        if !manager.is_witness(&self.owner_address) {
            return Err(ValidationError::NotWitness);
        }
        if self.parameters.len() == 0 {
            return Err(ValidationError::EmptyParameters);
        }
        Ok(())
    }

    /// Records the proposal, approved by nobody yet. On failure nothing
    /// changes.
    pub fn execute(&self, manager: &mut Manager, ctx: &mut TransactionContext) -> (outcome: Result<
        (),
        ExecuteFailure,
    >)
        ensures
            final(ctx).block_header == old(ctx).block_header,
            final(ctx).transaction_hash == old(ctx).transaction_hash,
            outcome is Ok <==> self.spec_execute(old(manager)@, old(ctx).tally()) is Some,
            outcome is Ok ==> (final(manager)@, final(ctx).tally()) == self.spec_execute(
                old(manager)@,
                old(ctx).tally(),
            )->Some_0,
            outcome is Err ==> final(manager)@ == old(manager)@ && final(ctx).tally() == old(
                ctx,
            ).tally(),
    {
        if self.validate(manager, ctx).is_err() {
            return Err(ExecuteFailure);
        }
        let count: usize = manager.proposal_count();
        if count as u128 >= i64::MAX as u128 {
            return Err(ExecuteFailure);
        }
        let id: i64 = (count as u128 + 1) as i64;
        manager.add_proposal(id, &self.owner_address, &self.parameters);
        Ok(())
    }
}

impl ProposalApproveContract {
    /// The precondition that fails first, if any does.
    pub open spec fn spec_validate(&self, s: LedgerState) -> Option<ValidationError> {
        let p = s.proposal_index(self.proposal_id);
        if !s.has_account(self.owner_address@) {
            Some(ValidationError::AccountNotFound)
        } else if !s.is_witness(self.owner_address@) {
            Some(ValidationError::NotWitness)
        } else if p < 0 {
            Some(ValidationError::ProposalNotFound)
        } else if self.is_approval && index_of(s.proposals[p].approvals, self.owner_address@) >= 0 {
            Some(ValidationError::AlreadyApproved)
        } else if !self.is_approval && index_of(s.proposals[p].approvals, self.owner_address@) < 0 {
            Some(ValidationError::NotApproved)
        } else {
            None
        }
    }

    /// State and tally after the approval is given or withdrawn; `None` where
    /// that cannot be done.
    pub open spec fn spec_execute(&self, s: LedgerState, t: Tally) -> Option<(LedgerState, Tally)> {
        let p = s.proposal_index(self.proposal_id);
        if self.spec_validate(s) is Some {
            None
        } else if self.is_approval {
            Some((s.with_approvals(p, s.proposals[p].approvals.push(self.owner_address@)), t))
        } else {
            Some(
                (
                    s.with_approvals(
                        p,
                        s.proposals[p].approvals.remove(
                            index_of(s.proposals[p].approvals, self.owner_address@),
                        ),
                    ),
                    t,
                ),
            )
        }
    }

    /// Checks the preconditions of the approval against the state, which it
    /// leaves as it is.
    pub fn validate(&self, manager: &Manager, ctx: &TransactionContext) -> (outcome: Result<
        (),
        ValidationError,
    >)
        ensures
            outcome is Ok <==> self.spec_validate(manager@) is None,
            outcome is Err ==> self.spec_validate(manager@) == Some(outcome->Err_0),
    {
        if manager.find_account(&self.owner_address).is_none() {
            return Err(ValidationError::AccountNotFound);
        }
        if !manager.is_witness(&self.owner_address) {
            return Err(ValidationError::NotWitness);
        }
        let p = match manager.find_proposal(self.proposal_id) {
            Some(p) => p,
            None => {
                return Err(ValidationError::ProposalNotFound);
            },
        };
        let approved = manager.find_approval(p, &self.owner_address).is_some();
        if self.is_approval && approved {
            return Err(ValidationError::AlreadyApproved);
        }
        if !self.is_approval && !approved {
            return Err(ValidationError::NotApproved);
        }
        Ok(())
    }

    /// Adds the owner to the proposal's approvals, or takes the owner out of
    /// them. On failure nothing changes.
    pub fn execute(&self, manager: &mut Manager, ctx: &mut TransactionContext) -> (outcome: Result<
        (),
        ExecuteFailure,
    >)
        ensures
            final(ctx).block_header == old(ctx).block_header,
            final(ctx).transaction_hash == old(ctx).transaction_hash,
            outcome is Ok <==> self.spec_execute(old(manager)@, old(ctx).tally()) is Some,
            outcome is Ok ==> (final(manager)@, final(ctx).tally()) == self.spec_execute(
                old(manager)@,
                old(ctx).tally(),
            )->Some_0,
            outcome is Err ==> final(manager)@ == old(manager)@ && final(ctx).tally() == old(
                ctx,
            ).tally(),
    {
        if self.validate(manager, ctx).is_err() {
            return Err(ExecuteFailure);
        }
        let p = match manager.find_proposal(self.proposal_id) {
            Some(p) => p,
            None => {
                return Err(ExecuteFailure);
            },
        };
        if self.is_approval {
            manager.add_approval(p, &self.owner_address);
            Ok(())
        } else {
            match manager.find_approval(p, &self.owner_address) {
                Some(k) => {
                    manager.remove_approval(p, k);
                    Ok(())
                },
                None => Err(ExecuteFailure),
            }
        }
    }
}

impl FreezeBalanceContract {
    /// The precondition that fails first, if any does.
    pub open spec fn spec_validate(&self, s: LedgerState) -> Option<ValidationError> {
        if !s.has_account(self.owner_address@) {
            Some(ValidationError::AccountNotFound)
        } else if self.frozen_balance <= 0 {
            Some(ValidationError::InvalidAmount)
        } else if ResourceCode::spec_from_i32(self.resource) is None {
            Some(ValidationError::InvalidResource)
        } else if s.account(self.owner_address@).balance < self.frozen_balance {
            Some(ValidationError::InsufficientBalance)
        } else {
            None
        }
    }

    /// State and tally after the balance is frozen; `None` where it cannot
    /// be. Freezing for bandwidth adds the frozen amount to the owner's
    /// bandwidth credit.
    pub open spec fn spec_execute(&self, s: LedgerState, t: Tally) -> Option<(LedgerState, Tally)> {
        let o = s.account_index(self.owner_address@);
        if self.spec_validate(s) is Some {
            None
        } else if s.accounts[o].frozen + self.frozen_balance > i64::MAX {
            None
        } else if ResourceCode::spec_from_i32(self.resource) == Some(ResourceCode::Bandwidth) {
            if s.accounts[o].bandwidth + self.frozen_balance > u64::MAX {
                None
            } else {
                Some(
                    (
                        s.with_account(
                            o,
                            AccountState {
                                address: s.accounts[o].address,
                                balance: (s.accounts[o].balance - self.frozen_balance) as i64,
                                bandwidth: (s.accounts[o].bandwidth + self.frozen_balance) as u64,
                                frozen: (s.accounts[o].frozen + self.frozen_balance) as i64,
                            },
                        ),
                        t,
                    ),
                )
            }
        } else {
            Some(
                (
                    s.with_account(
                        o,
                        AccountState {
                            address: s.accounts[o].address,
                            balance: (s.accounts[o].balance - self.frozen_balance) as i64,
                            bandwidth: s.accounts[o].bandwidth,
                            frozen: (s.accounts[o].frozen + self.frozen_balance) as i64,
                        },
                    ),
                    t,
                ),
            )
        }
    }

    /// Checks the preconditions of the freeze against the state, which it
    /// leaves as it is.
    pub fn validate(&self, manager: &Manager, ctx: &TransactionContext) -> (outcome: Result<
        (),
        ValidationError,
    >)
        ensures
            outcome is Ok <==> self.spec_validate(manager@) is None,
            outcome is Err ==> self.spec_validate(manager@) == Some(outcome->Err_0),
    {
        let owner = match manager.find_account(&self.owner_address) {
            Some(i) => i,
            None => {
                return Err(ValidationError::AccountNotFound);
            },
        };
        if self.frozen_balance <= 0 {
            return Err(ValidationError::InvalidAmount);
        }
        if ResourceCode::from_i32(self.resource).is_none() {
            return Err(ValidationError::InvalidResource);
        }
        if manager.balance(owner) < self.frozen_balance {
            return Err(ValidationError::InsufficientBalance);
        }
        Ok(())
    }

    /// Moves the amount from the owner's balance to the owner's frozen
    /// balance and, when frozen for bandwidth, grants as much bandwidth
    /// credit. On failure nothing changes.
    pub fn execute(&self, manager: &mut Manager, ctx: &mut TransactionContext) -> (outcome: Result<
        (),
        ExecuteFailure,
    >)
        ensures
            final(ctx).block_header == old(ctx).block_header,
            final(ctx).transaction_hash == old(ctx).transaction_hash,
            outcome is Ok <==> self.spec_execute(old(manager)@, old(ctx).tally()) is Some,
            outcome is Ok ==> (final(manager)@, final(ctx).tally()) == self.spec_execute(
                old(manager)@,
                old(ctx).tally(),
            )->Some_0,
            outcome is Err ==> final(manager)@ == old(manager)@ && final(ctx).tally() == old(
                ctx,
            ).tally(),
    {
        if self.validate(manager, ctx).is_err() {
            return Err(ExecuteFailure);
        }
        proof {
            lemma_account_index_in_range(manager@, self.owner_address@);
        }
        let owner = match manager.find_account(&self.owner_address) {
            Some(i) => i,
            None => {
                return Err(ExecuteFailure);
            },
        };
        let frozen: i128 = manager.frozen(owner) as i128 + self.frozen_balance as i128;
        if frozen > i64::MAX as i128 {
            return Err(ExecuteFailure);
        }
        let for_bandwidth = match ResourceCode::from_i32(self.resource) {
            Some(ResourceCode::Bandwidth) => true,
            _ => false,
        };
        let credit: u128 = if for_bandwidth {
            manager.bandwidth(owner) as u128 + self.frozen_balance as u128
        } else {
            manager.bandwidth(owner) as u128
        };
        if credit > u64::MAX as u128 {
            return Err(ExecuteFailure);
        }
        let rest: i64 = manager.balance(owner) - self.frozen_balance;
        manager.set_balance(owner, rest);
        manager.set_bandwidth(owner, credit as u64);
        manager.set_frozen(owner, frozen as i64);
        assert(manager@.accounts =~= self.spec_execute(
            old(manager)@,
            old(ctx).tally(),
        )->Some_0.0.accounts);
        Ok(())
    }
}

impl ContractParameter {
    /// Whether the ledger has an actuator for this parameter.
    pub open spec fn spec_has_actuator(self) -> bool {
        !(self is VoteWitness) && !(self is SmartContract)
    }

    /// The precondition of the contract that fails first, if any does. A
    /// contract without an actuator has no precondition to fail.
    pub open spec fn spec_validate(self, s: LedgerState) -> Option<ValidationError> {
        match self {
            ContractParameter::Transfer(c) => c.spec_validate(s),
            ContractParameter::WitnessCreate(c) => c.spec_validate(s),
            ContractParameter::FreezeBalance(c) => c.spec_validate(s),
            ContractParameter::ProposalCreate(c) => c.spec_validate(s),
            ContractParameter::ProposalApprove(c) => c.spec_validate(s),
            ContractParameter::VoteWitness(_) => None,
            ContractParameter::SmartContract(_) => None,
        }
    }

    /// State and tally after the contract's effect; `None` where it cannot be
    /// applied, as is the case of every contract without an actuator.
    pub open spec fn spec_execute(self, s: LedgerState, t: Tally) -> Option<(LedgerState, Tally)> {
        match self {
            ContractParameter::Transfer(c) => c.spec_execute(s, t),
            ContractParameter::WitnessCreate(c) => c.spec_execute(s, t),
            ContractParameter::FreezeBalance(c) => c.spec_execute(s, t),
            ContractParameter::ProposalCreate(c) => c.spec_execute(s, t),
            ContractParameter::ProposalApprove(c) => c.spec_execute(s, t),
            ContractParameter::VoteWitness(_) => None,
            ContractParameter::SmartContract(_) => None,
        }
    }

    /// Tells whether the ledger has an actuator for this parameter.
    pub fn has_actuator(&self) -> (has: bool)
        ensures
            has == self.spec_has_actuator(),
    {
        match self {
            ContractParameter::VoteWitness(_) => false,
            ContractParameter::SmartContract(_) => false,
            _ => true,
        }
    }

    /// Checks the contract's preconditions with the actuator of its kind. The
    /// state stays as it is.
    pub fn validate(&self, manager: &Manager, ctx: &TransactionContext) -> (outcome: Result<
        (),
        ValidationError,
    >)
        ensures
            outcome is Ok <==> self.spec_validate(manager@) is None,
            outcome is Err ==> self.spec_validate(manager@) == Some(outcome->Err_0),
    {
        match self {
            ContractParameter::Transfer(c) => c.validate(manager, ctx),
            ContractParameter::WitnessCreate(c) => c.validate(manager, ctx),
            ContractParameter::FreezeBalance(c) => c.validate(manager, ctx),
            ContractParameter::ProposalCreate(c) => c.validate(manager, ctx),
            ContractParameter::ProposalApprove(c) => c.validate(manager, ctx),
            ContractParameter::VoteWitness(_) => Ok(()),
            ContractParameter::SmartContract(_) => Ok(()),
        }
    }

    /// Applies the contract's effect with the actuator of its kind. On
    /// failure nothing changes.
    pub fn execute(&self, manager: &mut Manager, ctx: &mut TransactionContext) -> (outcome: Result<
        (),
        ExecuteFailure,
    >)
        ensures
            final(ctx).block_header == old(ctx).block_header,
            final(ctx).transaction_hash == old(ctx).transaction_hash,
            outcome is Ok <==> self.spec_execute(old(manager)@, old(ctx).tally()) is Some,
            outcome is Ok ==> (final(manager)@, final(ctx).tally()) == self.spec_execute(
                old(manager)@,
                old(ctx).tally(),
            )->Some_0,
            outcome is Err ==> final(manager)@ == old(manager)@ && final(ctx).tally() == old(
                ctx,
            ).tally(),
    {
        match self {
            ContractParameter::Transfer(c) => c.execute(manager, ctx),
            ContractParameter::WitnessCreate(c) => c.execute(manager, ctx),
            ContractParameter::FreezeBalance(c) => c.execute(manager, ctx),
            ContractParameter::ProposalCreate(c) => c.execute(manager, ctx),
            ContractParameter::ProposalApprove(c) => c.execute(manager, ctx),
            ContractParameter::VoteWitness(_) => Err(ExecuteFailure),
            ContractParameter::SmartContract(_) => Err(ExecuteFailure),
        }
    }
}

} // verus!
