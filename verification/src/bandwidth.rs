//! Resource metering: what a transaction costs in bandwidth, and who pays.

use vstd::prelude::*;
use crate::actuators::lemma_account_index_in_range;
use crate::context::{Tally, TransactionContext};
use crate::contract::ContractType;
use crate::error::ResourceError;
use crate::state::{LedgerState, Manager};

verus! {

/// Fee that replaces `cost` units of bandwidth which no credit covers.
pub open spec fn bandwidth_fee(s: LedgerState, cost: u32) -> int {
    cost * s.params.bandwidth_price
}

/// State and tally after metering a contract of `kind` paid by `payer`;
/// `None` where neither the payer's credit nor the payer's balance covers
/// the cost.
///
/// Where executing the contract created an account, the contract fee takes
/// the place of the bandwidth fee and nothing more is charged. Otherwise the
/// cost registered for the kind is taken from the payer's bandwidth credit if
/// that covers it, and else paid as a fee from the payer's balance.
pub open spec fn spec_consume(s: LedgerState, kind: ContractType, payer: Seq<u8>, t: Tally) -> Option<
    (LedgerState, Tally),
> {
    let cost = s.cost_of(kind);
    let p = s.account_index(payer);
    let fee = bandwidth_fee(s, cost);
    if t.new_account_created {
        Some((s, Tally { bandwidth_usage: 0, bandwidth_fee: t.contract_fee, ..t }))
    } else if p < 0 {
        None
    } else if s.accounts[p].bandwidth >= cost {
        Some(
            (
                s.set_bandwidth(p, (s.accounts[p].bandwidth - cost) as u64),
                Tally { bandwidth_usage: cost as i64, bandwidth_fee: 0, ..t },
            ),
        )
    } else if s.accounts[p].balance >= fee {
        Some(
            (
                s.set_balance(p, (s.accounts[p].balance - fee) as i64),
                Tally { bandwidth_usage: 0, bandwidth_fee: fee as i64, ..t },
            ),
        )
    } else {
        None
    }
}

/// Meters transactions against the chain state it has exclusive access to.
pub struct BandwidthProcessor<'m> {
    pub manager: &'m mut Manager,
}

impl<'m> BandwidthProcessor<'m> {
    /// The state that this processor debits.
    pub open spec fn state(&self) -> LedgerState {
        self.manager@
    }

    /// A processor over the given chain state.
    pub fn new<'a>(manager: &'a mut Manager) -> (processor: BandwidthProcessor<'a>)
        ensures
            processor.state() == old(manager)@,
            *final(manager) == *final(processor.manager),
    {
        BandwidthProcessor { manager }
    }

    /// Charges the payer for a contract of `kind` and records in the context
    /// what was paid. On failure neither the state nor the context changes.
    pub fn consume(&mut self, kind: ContractType, payer: &Vec<u8>, ctx: &mut TransactionContext) -> (outcome:
        Result<(), ResourceError>)
        ensures
            final(ctx).block_header == old(ctx).block_header,
            final(ctx).transaction_hash == old(ctx).transaction_hash,
            outcome is Ok <==> spec_consume(old(self).state(), kind, payer@, old(ctx).tally()) is Some,
            outcome is Ok ==> (final(self).state(), final(ctx).tally()) == spec_consume(
                old(self).state(),
                kind,
                payer@,
                old(ctx).tally(),
            )->Some_0,
            outcome is Err ==> final(self).state() == old(self).state() && final(ctx).tally() == old(
                ctx,
            ).tally(),
            *final(final(self).manager) == *final(old(self).manager),
    {
        consume_bandwidth(self.manager, kind, payer, ctx)
    }
}

/// Charges the payer for a contract of `kind` against `manager` and records
/// in the context what was paid. On failure neither changes.
pub fn consume_bandwidth(
    manager: &mut Manager,
    kind: ContractType,
    payer: &Vec<u8>,
    ctx: &mut TransactionContext,
) -> (outcome: Result<(), ResourceError>)
    ensures
        final(ctx).block_header == old(ctx).block_header,
        final(ctx).transaction_hash == old(ctx).transaction_hash,
        outcome is Ok <==> spec_consume(old(manager)@, kind, payer@, old(ctx).tally()) is Some,
        outcome is Ok ==> (final(manager)@, final(ctx).tally()) == spec_consume(
            old(manager)@,
            kind,
            payer@,
            old(ctx).tally(),
        )->Some_0,
        outcome is Err ==> final(manager)@ == old(manager)@ && final(ctx).tally() == old(ctx).tally(),
{
    if ctx.new_account_created {
        ctx.bandwidth_usage = 0;
        ctx.bandwidth_fee = ctx.contract_fee;
        return Ok(());
    }
    proof {
        lemma_account_index_in_range(manager@, payer@);
    }
    let p = match manager.find_account(payer) {
        Some(p) => p,
        None => {
            return Err(ResourceError);
        },
    };
    let cost: u32 = manager.cost_of(kind);
    let credit: u64 = manager.bandwidth(p);
    if credit >= cost as u64 {
        manager.set_bandwidth(p, credit - cost as u64);
        ctx.bandwidth_usage = cost as i64;
        ctx.bandwidth_fee = 0;
        return Ok(());
    }
    let price: u32 = manager.params().bandwidth_price;
    assert(cost * price <= u32::MAX * u32::MAX) by (nonlinear_arith)
        requires
            0 <= cost <= u32::MAX,
            0 <= price <= u32::MAX,
    ;
    let fee: i128 = cost as i128 * price as i128;
    let balance: i64 = manager.balance(p);
    if balance as i128 >= fee {
        manager.set_balance(p, (balance as i128 - fee) as i64);
        ctx.bandwidth_usage = 0;
        ctx.bandwidth_fee = fee as i64;
        return Ok(());
    }
    Err(ResourceError)
}

} // verus!
