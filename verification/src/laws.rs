//! What holds of transaction execution whatever the state and the
//! transaction: the laws that independent nodes rely on to converge.

use vstd::prelude::*;
use crate::actuators::lemma_account_index_in_range;
use crate::bandwidth::{bandwidth_fee, spec_consume};
use crate::bytes::lemma_index_of;
use crate::chain::{IndexedBlock, IndexedTransaction};
use crate::context::Tally;
use crate::contract::{ContractParameter, ContractType, TransferContract};
use crate::error::ExecutionError;
use crate::executor::{
    spec_block_receipts, spec_decode, spec_run, spec_signer, spec_state_after,
    spec_state_after_first,
};
use crate::state::{AccountState, LedgerState, Manager};

verus! {

/// Replacing an account record by one with the same address changes no
/// lookup.
pub proof fn lemma_update_keeps_index(s: LedgerState, i: int, account: AccountState, a: Seq<u8>)
    requires
        0 <= i < s.accounts.len(),
        account.address == s.accounts[i].address,
    ensures
        s.with_account(i, account).account_index(a) == s.account_index(a),
{
    assert(s.with_account(i, account).account_addresses() =~= s.account_addresses());
}

/// A record added at the end shadows no account that was there before.
pub proof fn lemma_push_keeps_index(s: LedgerState, account: AccountState, a: Seq<u8>)
    requires
        s.has_account(a),
    ensures
        s.with_new_account(account).account_index(a) == s.account_index(a),
{
    let before = s.account_addresses();
    let after = s.with_new_account(account).account_addresses();
    assert(after =~= before.push(account.address));
    lemma_index_of(before, a);
    lemma_index_of(after, a);
    let r = s.account_index(a);
    assert(after[r] == a);
}

/// An account added for an address that had none is found at the end.
pub proof fn lemma_push_adds_account(s: LedgerState, account: AccountState)
    requires
        !s.has_account(account.address),
    ensures
        s.with_new_account(account).account_index(account.address) == s.accounts.len(),
{
    let before = s.account_addresses();
    let after = s.with_new_account(account).account_addresses();
    assert(after =~= before.push(account.address));
    lemma_index_of(before, account.address);
    lemma_index_of(after, account.address);
    assert(after[s.accounts.len() as int] == account.address);
    assert(forall|j: int| 0 <= j < before.len() ==> after[j] == before[j]);
}

/// Whether `tx` carries the transfer `c`, signed by the owner that `c`
/// declares.
pub open spec fn carries_transfer(tx: IndexedTransaction, c: TransferContract) -> bool {
    &&& spec_decode(tx) is Ok
    &&& spec_decode(tx)->Ok_0.0 == ContractType::TransferContract
    &&& spec_decode(tx)->Ok_0.1 == ContractParameter::Transfer(c)
    &&& spec_signer(tx) == Some(c.owner_address@)
}

/// The outcome of executing a block depends on nothing but the state as a
/// value, the transactions and the header: two managers that hold the same
/// state give the same receipts and end in the same state.
pub proof fn lemma_execution_is_deterministic(a: Manager, b: Manager, block: IndexedBlock)
    requires
        a@ == b@,
    ensures
        spec_block_receipts(a@, block.transactions@, block.header) == spec_block_receipts(
            b@,
            block.transactions@,
            block.header,
        ),
        spec_state_after_first(a@, block.transactions@, block.transactions@.len() as int)
            == spec_state_after_first(b@, block.transactions@, block.transactions@.len() as int),
{
}

/// Executing a list of transactions is executing its first part and then,
/// from the state that leaves, the rest: every transaction sees the full
/// effect of those before it.
pub proof fn lemma_execution_composes(
    s: LedgerState,
    first: Seq<IndexedTransaction>,
    rest: Seq<IndexedTransaction>,
    n: int,
)
    requires
        0 <= n <= rest.len(),
    ensures
        spec_state_after_first(s, first + rest, first.len() + n) == spec_state_after_first(
            spec_state_after_first(s, first, first.len() as int),
            rest,
            n,
        ),
    decreases n,
{
    if n == 0 {
        lemma_prefix_is_enough(s, first, first + rest, first.len() as int);
    } else {
        lemma_execution_composes(s, first, rest, n - 1);
        assert((first + rest)[first.len() + n - 1] == rest[n - 1]);
    }
}

/// The state after the first `n` transactions depends on those `n` alone.
pub proof fn lemma_prefix_is_enough(
    s: LedgerState,
    a: Seq<IndexedTransaction>,
    b: Seq<IndexedTransaction>,
    n: int,
)
    requires
        0 <= n <= a.len(),
        n <= b.len(),
        forall|i: int| 0 <= i < n ==> a[i] == b[i],
    ensures
        spec_state_after_first(s, a, n) == spec_state_after_first(s, b, n),
    decreases n,
{
    if n > 0 {
        lemma_prefix_is_enough(s, a, b, n - 1);
    }
}

/// A transaction that declares an owner other than its signer, or whose
/// signer cannot be recovered, fails with `AuthError`, and the state stays as
/// it was.
pub proof fn lemma_signer_must_be_owner(s: LedgerState, tx: IndexedTransaction)
    requires
        spec_decode(tx) is Ok,
        spec_decode(tx)->Ok_0.1.spec_owner() is Some,
        spec_signer(tx) != spec_decode(tx)->Ok_0.1.spec_owner(),
    ensures
        spec_run(s, tx) is Err,
        spec_run(s, tx)->Err_0 == ExecutionError::AuthError,
        spec_state_after(s, tx) == s,
{
}

/// A transaction that fails, at whatever stage and whatever its contract,
/// leaves the state exactly as it was.
pub proof fn lemma_failure_changes_nothing(s: LedgerState, tx: IndexedTransaction)
    requires
        spec_run(s, tx) is Err,
    ensures
        spec_state_after(s, tx) == s,
{
}

/// In a block, a transaction that fails hands the next one the state that it
/// was handed itself.
pub proof fn lemma_failure_in_block_changes_nothing(
    s: LedgerState,
    txs: Seq<IndexedTransaction>,
    i: int,
)
    requires
        0 <= i < txs.len(),
        spec_run(spec_state_after_first(s, txs, i), txs[i]) is Err,
    ensures
        spec_state_after_first(s, txs, i + 1) == spec_state_after_first(s, txs, i),
{
}

/// A transfer to an address that has no account creates the account, flags
/// the context, and reports the account creation fee, which is above 0, both
/// as the contract fee and in place of the bandwidth fee; no bandwidth is
/// used. The owner pays the amount and that fee, once.
pub proof fn lemma_transfer_to_new_account(s: LedgerState, tx: IndexedTransaction, c: TransferContract)
    requires
        s.valid(),
        carries_transfer(tx, c),
        c.spec_validate(s) is None,
        !s.has_account(c.to_address@),
    ensures
        spec_run(s, tx) is Ok,
        ({
            let (after, tally) = spec_run(s, tx)->Ok_0;
            &&& tally.new_account_created
            &&& tally.contract_fee == s.params.create_account_fee
            &&& tally.bandwidth_fee == tally.contract_fee
            &&& tally.bandwidth_fee > 0
            &&& tally.bandwidth_usage == 0
            &&& after.has_account(c.to_address@)
            &&& after.account(c.to_address@).balance == c.amount
            &&& after.has_account(c.owner_address@)
            &&& after.account(c.owner_address@).balance == s.account(c.owner_address@).balance
                - c.amount - s.params.create_account_fee
        }),
{
    let owner = c.owner_address@;
    let o = s.account_index(owner);
    lemma_account_index_in_range(s, owner);
    lemma_account_index_in_range(s, c.to_address@);
    let fee = s.params.create_account_fee;
    let rest = (s.accounts[o].balance - c.amount - fee) as i64;
    let debited = s.set_balance(o, rest);
    let created = AccountState { address: c.to_address@, balance: c.amount, bandwidth: 0, frozen: 0 };
    lemma_update_keeps_index(s, o, AccountState { balance: rest, ..s.accounts[o] }, owner);
    lemma_update_keeps_index(s, o, AccountState { balance: rest, ..s.accounts[o] }, c.to_address@);
    lemma_push_keeps_index(debited, created, owner);
    lemma_push_adds_account(debited, created);
    assert(c.spec_execute(s, Tally::zero()) is Some);
}

/// A transfer between existing accounts whose owner has bandwidth credit for
/// its cost uses that much credit and pays no bandwidth fee.
pub proof fn lemma_transfer_paid_from_credit(s: LedgerState, tx: IndexedTransaction, c: TransferContract)
    requires
        carries_transfer(tx, c),
        c.spec_execute(s, Tally::zero()) is Some,
        s.has_account(c.to_address@),
        s.account(c.owner_address@).bandwidth >= s.cost_of(ContractType::TransferContract),
    ensures
        spec_run(s, tx) is Ok,
        ({
            let (after, tally) = spec_run(s, tx)->Ok_0;
            &&& tally.bandwidth_usage == s.cost_of(ContractType::TransferContract)
            &&& tally.bandwidth_fee == 0
            &&& after.account(c.owner_address@).bandwidth == s.account(c.owner_address@).bandwidth
                - s.cost_of(ContractType::TransferContract)
            &&& after.account(c.owner_address@).balance == s.account(c.owner_address@).balance
                - c.amount
        }),
{
    lemma_transfer_between_accounts(s, c);
    let s1 = c.spec_execute(s, Tally::zero())->Some_0.0;
    let o = s.account_index(c.owner_address@);
    let cost = s.cost_of(ContractType::TransferContract);
    lemma_update_keeps_index(
        s1,
        o,
        AccountState { bandwidth: (s1.accounts[o].bandwidth - cost) as u64, ..s1.accounts[o] },
        c.owner_address@,
    );
}

/// A transfer between existing accounts whose owner lacks the bandwidth
/// credit for its cost, but has the balance for the fee, uses no credit and
/// pays the fee: the cost times the price of bandwidth, which is more than
/// nothing.
pub proof fn lemma_transfer_paid_by_fee(s: LedgerState, tx: IndexedTransaction, c: TransferContract)
    requires
        s.valid(),
        carries_transfer(tx, c),
        c.spec_execute(s, Tally::zero()) is Some,
        s.has_account(c.to_address@),
        s.account(c.owner_address@).bandwidth < s.cost_of(ContractType::TransferContract),
        s.account(c.owner_address@).balance - c.amount >= bandwidth_fee(
            s,
            s.cost_of(ContractType::TransferContract),
        ),
    ensures
        spec_run(s, tx) is Ok,
        ({
            let (after, tally) = spec_run(s, tx)->Ok_0;
            &&& tally.bandwidth_usage == 0
            &&& tally.bandwidth_fee == bandwidth_fee(s, s.cost_of(ContractType::TransferContract))
            &&& tally.bandwidth_fee > 0
            &&& after.account(c.owner_address@).bandwidth == s.account(c.owner_address@).bandwidth
            &&& after.account(c.owner_address@).balance == s.account(c.owner_address@).balance
                - c.amount - tally.bandwidth_fee
        }),
{
    lemma_transfer_between_accounts(s, c);
    let s1 = c.spec_execute(s, Tally::zero())->Some_0.0;
    let o = s.account_index(c.owner_address@);
    let cost = s.cost_of(ContractType::TransferContract);
    let fee = bandwidth_fee(s, cost);
    let price = s.params.bandwidth_price;
    assert(cost * price > 0) by (nonlinear_arith)
        requires
            cost > 0,
            price > 0,
    ;
    lemma_update_keeps_index(
        s1,
        o,
        AccountState { balance: (s1.accounts[o].balance - fee) as i64, ..s1.accounts[o] },
        c.owner_address@,
    );
}

/// After a transfer between two existing accounts, and before metering, the
/// owner is found where it was, with the amount taken from its balance and
/// its bandwidth credit untouched; prices and costs are untouched too.
pub proof fn lemma_transfer_between_accounts(s: LedgerState, c: TransferContract)
    requires
        c.spec_execute(s, Tally::zero()) is Some,
        s.has_account(c.to_address@),
    ensures
        ({
            let (s1, t1) = c.spec_execute(s, Tally::zero())->Some_0;
            let o = s.account_index(c.owner_address@);
            &&& t1 == Tally::zero()
            &&& 0 <= o < s.accounts.len()
            &&& s1.accounts.len() == s.accounts.len()
            &&& s1.account_index(c.owner_address@) == o
            &&& s1.accounts[o].balance == s.accounts[o].balance - c.amount
            &&& s1.accounts[o].bandwidth == s.accounts[o].bandwidth
            &&& s1.accounts[o].address == c.owner_address@
            &&& s1.params == s.params
            &&& s1.costs == s.costs
        }),
{
    let owner = c.owner_address@;
    let to = c.to_address@;
    let o = s.account_index(owner);
    let r = s.account_index(to);
    lemma_account_index_in_range(s, owner);
    lemma_account_index_in_range(s, to);
    let rest = (s.accounts[o].balance - c.amount) as i64;
    let debited = s.set_balance(o, rest);
    lemma_update_keeps_index(s, o, AccountState { balance: rest, ..s.accounts[o] }, owner);
    let credited = (s.accounts[r].balance + c.amount) as i64;
    lemma_update_keeps_index(
        debited,
        r,
        AccountState { balance: credited, ..debited.accounts[r] },
        owner,
    );
}

/// A transfer that succeeds leaves its owner with a smaller balance than
/// before, so it never leaves the state as it was.
pub proof fn lemma_transfer_changes_state(s: LedgerState, tx: IndexedTransaction, c: TransferContract)
    requires
        carries_transfer(tx, c),
        spec_run(s, tx) is Ok,
    ensures
        ({
            let o = s.account_index(c.owner_address@);
            &&& 0 <= o < s.accounts.len()
            &&& o < spec_state_after(s, tx).accounts.len()
            &&& spec_state_after(s, tx).accounts[o].balance < s.accounts[o].balance
        }),
        spec_state_after(s, tx) != s,
{
    let owner = c.owner_address@;
    let o = s.account_index(owner);
    lemma_account_index_in_range(s, owner);
    lemma_account_index_in_range(s, c.to_address@);
    let (s1, t1) = c.spec_execute(s, Tally::zero())->Some_0;
    assert(0 <= o < s1.accounts.len());
    assert(s1.accounts[o].balance < s.accounts[o].balance);
    let (s2, t2) = spec_consume(s1, ContractType::TransferContract, owner, t1)->Some_0;
    lemma_account_index_in_range(s1, owner);
    assert(s2.accounts.len() == s1.accounts.len());
    assert(s2.accounts[o].balance <= s1.accounts[o].balance);
}

/// The order of two transactions matters: where a transfer would fail on the
/// state as it is, for want of balance or for any other reason, but succeeds
/// once another transaction has run, running the two in one order and in the
/// other ends in different states.
pub proof fn lemma_order_matters(
    s: LedgerState,
    first: IndexedTransaction,
    second: IndexedTransaction,
    c: TransferContract,
)
    requires
        carries_transfer(second, c),
        spec_run(s, second) is Err,
        spec_run(spec_state_after(s, first), second) is Ok,
    ensures
        spec_state_after(spec_state_after(s, first), second) != spec_state_after(
            spec_state_after(s, second),
            first,
        ),
{
    lemma_transfer_changes_state(spec_state_after(s, first), second, c);
}

/// A transfer by an owner who has no bandwidth credit, where it succeeds,
/// uses no bandwidth and is paid for by a fee above 0. The owner ends with
/// the amount and that fee less, debited once, and the recipient with the
/// amount more, whether or not the recipient had an account before.
pub proof fn lemma_transfer_without_credit(s: LedgerState, tx: IndexedTransaction, c: TransferContract)
    requires
        s.valid(),
        carries_transfer(tx, c),
        s.account(c.owner_address@).bandwidth == 0,
        spec_run(s, tx) is Ok,
    ensures
        ({
            let (after, tally) = spec_run(s, tx)->Ok_0;
            &&& tally.bandwidth_usage == 0
            &&& tally.bandwidth_fee > 0
            &&& after.has_account(c.owner_address@)
            &&& after.account(c.owner_address@).balance == s.account(c.owner_address@).balance
                - c.amount - tally.bandwidth_fee
            &&& after.has_account(c.to_address@)
            &&& after.account(c.to_address@).balance == (if s.has_account(c.to_address@) {
                s.account(c.to_address@).balance + c.amount
            } else {
                c.amount as int
            })
        }),
{
    let owner = c.owner_address@;
    let to = c.to_address@;
    if !s.has_account(to) {
        lemma_transfer_to_new_account(s, tx, c);
    } else {
        let o = s.account_index(owner);
        let r = s.account_index(to);
        let cost = s.cost_of(ContractType::TransferContract);
        s.lemma_cost_positive(ContractType::TransferContract);
        lemma_account_index_in_range(s, owner);
        lemma_account_index_in_range(s, to);
        lemma_transfer_between_accounts(s, c);
        lemma_transfer_paid_by_fee(s, tx, c);
        let (s1, t1) = c.spec_execute(s, Tally::zero())->Some_0;
        let fee = bandwidth_fee(s, cost);
        let debited = s.set_balance(o, (s.accounts[o].balance - c.amount) as i64);
        lemma_update_keeps_index(
            s,
            o,
            AccountState { balance: (s.accounts[o].balance - c.amount) as i64, ..s.accounts[o] },
            to,
        );
        lemma_update_keeps_index(
            debited,
            r,
            AccountState {
                balance: (s.accounts[r].balance + c.amount) as i64,
                ..debited.accounts[r]
            },
            to,
        );
        assert(s1.account_index(to) == r);
        assert(s1.accounts[r].balance == s.accounts[r].balance + c.amount);
        lemma_update_keeps_index(
            s1,
            o,
            AccountState { balance: (s1.accounts[o].balance - fee) as i64, ..s1.accounts[o] },
            to,
        );
        lemma_update_keeps_index(
            s1,
            o,
            AccountState { balance: (s1.accounts[o].balance - fee) as i64, ..s1.accounts[o] },
            owner,
        );
        let (after, tally) = spec_run(s, tx)->Ok_0;
        assert(after == s1.set_balance(o, (s1.accounts[o].balance - fee) as i64));
        assert(tally.bandwidth_usage == 0);
        assert(tally.bandwidth_fee > 0);
        assert(after.account_index(owner) == o);
        assert(after.has_account(owner));
        assert(after.account_index(to) == r);
        assert(o != r);
        assert(after.accounts[r].balance == s.accounts[r].balance + c.amount);
    }
}

} // verus!
