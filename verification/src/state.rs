//! Chain state: accounts, witnesses, proposals and the parameters of the
//! resource economy, behind the accessors that transaction execution uses.

use vstd::prelude::*;
use crate::bytes::{bytes_clone, bytes_eq, index_of, index_of_from, lemma_index_of};
use crate::contract::ContractType;

verus! {

/// Prices of the resource economy.
#[derive(Clone, Copy, Debug, PartialEq, Eq, Structural)]
pub struct ChainParameters {
    /// Fee charged per unit of bandwidth that is not covered by credit.
    pub bandwidth_price: u32,
    /// Bandwidth cost of a contract whose kind has no cost registered.
    pub base_cost: u32,
    /// Fee charged to the sender whose transfer creates the recipient.
    pub create_account_fee: u64,
    /// Fee charged for registering as a witness.
    pub witness_create_fee: u64,
}

impl ChainParameters {
    /// Whether these are prices a ledger can run on: bandwidth has a price,
    /// every contract costs bandwidth, and creating an account costs a fee.
    pub open spec fn spec_valid(self) -> bool {
        self.bandwidth_price > 0 && self.base_cost > 0 && self.create_account_fee > 0
    }

    /// Tells whether a ledger can run on these prices.
    pub fn is_valid(&self) -> (valid: bool)
        ensures
            valid == self.spec_valid(),
    {
        self.bandwidth_price > 0 && self.base_cost > 0 && self.create_account_fee > 0
    }
}

/// Bandwidth cost registered for one kind of contract.
#[derive(Clone, Copy, Debug, PartialEq, Eq, Structural)]
pub struct CostEntry {
    pub kind: ContractType,
    pub cost: u32,
}

/// One account of the ledger.
#[derive(Clone, Debug, PartialEq, Eq)]
pub struct Account {
    pub address: Vec<u8>,
    pub balance: i64,
    pub bandwidth: u64,
    pub frozen: i64,
}

/// One registered witness.
#[derive(Clone, Debug, PartialEq, Eq)]
pub struct Witness {
    pub address: Vec<u8>,
    pub url: Vec<u8>,
}

/// One proposal with the witnesses that approve of it.
#[derive(Clone, Debug, PartialEq, Eq)]
pub struct Proposal {
    pub id: i64,
    pub proposer: Vec<u8>,
    pub parameters: Vec<(i64, i64)>,
    pub approvals: Vec<Vec<u8>>,
}

/// What an account is, as a mathematical value.
pub struct AccountState {
    pub address: Seq<u8>,
    pub balance: i64,
    pub bandwidth: u64,
    pub frozen: i64,
}

/// What a witness record is, as a mathematical value.
pub struct WitnessState {
    pub address: Seq<u8>,
    pub url: Seq<u8>,
}

/// What a proposal is, as a mathematical value.
pub struct ProposalState {
    pub id: i64,
    pub proposer: Seq<u8>,
    pub parameters: Seq<(i64, i64)>,
    pub approvals: Seq<Seq<u8>>,
}

/// The whole chain state as a mathematical value. Records keep the order in
/// which they were made; an address or identifier is looked up by its first
/// record.
pub struct LedgerState {
    pub accounts: Seq<AccountState>,
    pub witnesses: Seq<WitnessState>,
    pub proposals: Seq<ProposalState>,
    pub costs: Seq<CostEntry>,
    pub params: ChainParameters,
}

impl View for Account {
    type V = AccountState;

    open spec fn view(&self) -> AccountState {
        AccountState {
            address: self.address@,
            balance: self.balance,
            bandwidth: self.bandwidth,
            frozen: self.frozen,
        }
    }
}

impl View for Witness {
    type V = WitnessState;

    open spec fn view(&self) -> WitnessState {
        WitnessState { address: self.address@, url: self.url@ }
    }
}

impl View for Proposal {
    type V = ProposalState;

    open spec fn view(&self) -> ProposalState {
        ProposalState {
            id: self.id,
            proposer: self.proposer@,
            parameters: self.parameters@,
            approvals: Seq::new(self.approvals@.len(), |k: int| self.approvals@[k]@),
        }
    }
}

/// Position of the first proposal of `proposals`, at or after `from`, with
/// identifier `id`; `-1` where there is none.
pub open spec fn proposal_index_from(proposals: Seq<ProposalState>, id: i64, from: int) -> int
    decreases proposals.len() - from,
{
    if from < 0 || from >= proposals.len() {
        -1
    } else if proposals[from].id == id {
        from
    } else {
        proposal_index_from(proposals, id, from + 1)
    }
}

/// Bandwidth cost of `kind` in a cost table, looking at the entries from
/// `from` on: that of its first entry, and `base` where it has none.
pub open spec fn cost_from(costs: Seq<CostEntry>, kind: ContractType, from: int, base: u32) -> u32
    decreases costs.len() - from,
{
    if from < 0 || from >= costs.len() {
        base
    } else if costs[from].kind == kind {
        costs[from].cost
    } else {
        cost_from(costs, kind, from + 1, base)
    }
}

/// Whether every entry of a cost table, from `from` on, is above 0.
pub open spec fn costs_positive(costs: Seq<CostEntry>) -> bool {
    forall|i: int| 0 <= i < costs.len() ==> (#[trigger] costs[i]).cost > 0
}

/// A table of positive costs with a positive base cost gives every kind a
/// positive cost.
pub proof fn lemma_cost_from_positive(costs: Seq<CostEntry>, kind: ContractType, from: int, base: u32)
    requires
        costs_positive(costs),
        base > 0,
        0 <= from,
    ensures
        cost_from(costs, kind, from, base) > 0,
    decreases costs.len() - from,
{
    if from < costs.len() && costs[from].kind != kind {
        lemma_cost_from_positive(costs, kind, from + 1, base);
    }
}

impl LedgerState {
    /// The state of a ledger that holds no record and no registered cost.
    pub open spec fn empty(params: ChainParameters) -> LedgerState {
        LedgerState {
            accounts: Seq::empty(),
            witnesses: Seq::empty(),
            proposals: Seq::empty(),
            costs: Seq::empty(),
            params,
        }
    }

    /// Addresses of the accounts, in record order.
    pub open spec fn account_addresses(self) -> Seq<Seq<u8>> {
        Seq::new(self.accounts.len(), |k: int| self.accounts[k].address)
    }

    /// Addresses of the witnesses, in record order.
    pub open spec fn witness_addresses(self) -> Seq<Seq<u8>> {
        Seq::new(self.witnesses.len(), |k: int| self.witnesses[k].address)
    }

    /// Position of the account with address `a`; `-1` where there is none.
    pub open spec fn account_index(self, a: Seq<u8>) -> int {
        index_of(self.account_addresses(), a)
    }

    /// Whether an account with address `a` exists.
    pub open spec fn has_account(self, a: Seq<u8>) -> bool {
        self.account_index(a) >= 0
    }

    /// The account with address `a`; meaningful where it exists.
    pub open spec fn account(self, a: Seq<u8>) -> AccountState {
        self.accounts[self.account_index(a)]
    }

    /// Whether `a` is registered as a witness.
    pub open spec fn is_witness(self, a: Seq<u8>) -> bool {
        index_of(self.witness_addresses(), a) >= 0
    }

    /// Position of the proposal with identifier `id`; `-1` where there is none.
    pub open spec fn proposal_index(self, id: i64) -> int {
        proposal_index_from(self.proposals, id, 0)
    }

    /// Bandwidth cost of a contract of `kind`: the cost registered for the
    /// kind, and the base cost where none is.
    pub open spec fn cost_of(self, kind: ContractType) -> u32 {
        cost_from(self.costs, kind, 0, self.params.base_cost)
    }

    /// Whether the state is one that a ledger can be in: its prices are
    /// valid and every registered cost is above 0. Every `Manager` holds such
    /// a state at all times.
    pub open spec fn valid(self) -> bool {
        self.params.spec_valid() && costs_positive(self.costs)
    }

    /// In a valid state every kind of contract costs bandwidth.
    pub proof fn lemma_cost_positive(self, kind: ContractType)
        requires
            self.valid(),
        ensures
            self.cost_of(kind) > 0,
    {
        lemma_cost_from_positive(self.costs, kind, 0, self.params.base_cost);
    }

    /// This state with the account at position `i` replaced by `account`.
    pub open spec fn with_account(self, i: int, account: AccountState) -> LedgerState {
        LedgerState { accounts: self.accounts.update(i, account), ..self }
    }

    /// This state with the balance of the account at position `i` set.
    pub open spec fn set_balance(self, i: int, balance: i64) -> LedgerState {
        self.with_account(i, AccountState { balance, ..self.accounts[i] })
    }

    /// This state with the bandwidth credit of the account at position `i` set.
    pub open spec fn set_bandwidth(self, i: int, bandwidth: u64) -> LedgerState {
        self.with_account(i, AccountState { bandwidth, ..self.accounts[i] })
    }

    /// This state with the frozen balance of the account at position `i` set.
    pub open spec fn set_frozen(self, i: int, frozen: i64) -> LedgerState {
        self.with_account(i, AccountState { frozen, ..self.accounts[i] })
    }

    /// This state with one more account at the end.
    pub open spec fn with_new_account(self, account: AccountState) -> LedgerState {
        LedgerState { accounts: self.accounts.push(account), ..self }
    }

    /// This state with one more witness at the end.
    pub open spec fn with_new_witness(self, witness: WitnessState) -> LedgerState {
        LedgerState { witnesses: self.witnesses.push(witness), ..self }
    }

    /// This state with one more proposal at the end.
    pub open spec fn with_new_proposal(self, proposal: ProposalState) -> LedgerState {
        LedgerState { proposals: self.proposals.push(proposal), ..self }
    }

    /// This state with the approvals of the proposal at position `p` replaced.
    pub open spec fn with_approvals(self, p: int, approvals: Seq<Seq<u8>>) -> LedgerState {
        LedgerState {
            proposals: self.proposals.update(
                p,
                ProposalState { approvals, ..self.proposals[p] },
            ),
            ..self
        }
    }

    /// This state with the cost entry `(kind, cost)` put before all others, so
    /// that it is the one that counts for `kind`.
    pub open spec fn with_cost(self, kind: ContractType, cost: u32) -> LedgerState {
        LedgerState { costs: seq![CostEntry { kind, cost }] + self.costs, ..self }
    }
}

/// The single-writer owner of chain state.
#[derive(Debug, PartialEq, Eq)]
pub struct Manager {
    accounts: Vec<Account>,
    witnesses: Vec<Witness>,
    proposals: Vec<Proposal>,
    economy: Economy,
}

/// The prices and the cost table of a ledger. The prices are valid and every
/// cost in the table is above 0, at all times.
#[derive(Debug, PartialEq, Eq)]
struct Economy {
    costs: Vec<CostEntry>,
    params: ChainParameters,
}

impl Economy {
    #[verifier::type_invariant]
    spec fn well_formed(self) -> bool {
        self.params.spec_valid() && costs_positive(self.costs@)
    }
}

impl View for Manager {
    type V = LedgerState;

    closed spec fn view(&self) -> LedgerState {
        LedgerState {
            accounts: Seq::new(self.accounts@.len(), |k: int| self.accounts@[k]@),
            witnesses: Seq::new(self.witnesses@.len(), |k: int| self.witnesses@[k]@),
            proposals: Seq::new(self.proposals@.len(), |k: int| self.proposals@[k]@),
            costs: self.economy.costs@,
            params: self.economy.params,
        }
    }
}

impl Manager {
    /// A ledger with the given prices, no record and no registered cost.
    pub fn new(params: ChainParameters) -> (manager: Manager)
        requires
            params.spec_valid(),
        ensures
            manager@ == LedgerState::empty(params),
            manager@.valid(),
    {
        let manager = Manager {
            accounts: Vec::new(),
            witnesses: Vec::new(),
            proposals: Vec::new(),
            economy: Economy { costs: Vec::new(), params },
        };
        assert(manager@.accounts =~= Seq::empty());
        assert(manager@.witnesses =~= Seq::empty());
        assert(manager@.proposals =~= Seq::empty());
        assert(manager@.costs =~= Seq::empty());
        manager
    }

    /// The prices of the resource economy. The state of a ledger is valid
    /// whenever it is looked at.
    pub fn params(&self) -> (params: ChainParameters)
        ensures
            params == self@.params,
            self@.valid(),
    {
        proof {
            use_type_invariant(&self.economy);
        }
        self.economy.params
    }

    /// Number of account records.
    pub fn account_count(&self) -> (n: usize)
        ensures
            n == self@.accounts.len(),
    {
        self.accounts.len()
    }

    /// Position of the account with the given address.
    pub fn find_account(&self, address: &Vec<u8>) -> (found: Option<usize>)
        ensures
            found is Some <==> self@.has_account(address@),
            found is Some ==> found->Some_0 == self@.account_index(address@),
            found is Some ==> found->Some_0 < self@.accounts.len(),
            found is Some ==> self@.accounts[found->Some_0 as int].address == address@,
    {
        let mut i: usize = 0;
        while i < self.accounts.len()
            invariant
                i <= self.accounts.len(),
                self@.account_index(address@) == index_of_from(
                    self@.account_addresses(),
                    address@,
                    i as int,
                ),
            decreases self.accounts.len() - i,
        {
            if bytes_eq(&self.accounts[i].address, address) {
                return Some(i);
            }
            i += 1;
        }
        None
    }

    /// Balance of the account at position `i`.
    pub fn balance(&self, i: usize) -> (balance: i64)
        requires
            i < self@.accounts.len(),
        ensures
            balance == self@.accounts[i as int].balance,
    {
        self.accounts[i].balance
    }

    /// Bandwidth credit of the account at position `i`.
    pub fn bandwidth(&self, i: usize) -> (credit: u64)
        requires
            i < self@.accounts.len(),
        ensures
            credit == self@.accounts[i as int].bandwidth,
    {
        self.accounts[i].bandwidth
    }

    /// Frozen balance of the account at position `i`.
    pub fn frozen(&self, i: usize) -> (frozen: i64)
        requires
            i < self@.accounts.len(),
        ensures
            frozen == self@.accounts[i as int].frozen,
    {
        self.accounts[i].frozen
    }

    /// Balance of the account with the given address, if it exists.
    pub fn balance_of(&self, address: &Vec<u8>) -> (balance: Option<i64>)
        ensures
            balance is Some <==> self@.has_account(address@),
            balance is Some ==> balance->Some_0 == self@.account(address@).balance,
    {
        match self.find_account(address) {
            Some(i) => Some(self.accounts[i].balance),
            None => None,
        }
    }

    /// Bandwidth credit of the account with the given address, if it exists.
    pub fn bandwidth_of(&self, address: &Vec<u8>) -> (credit: Option<u64>)
        ensures
            credit is Some <==> self@.has_account(address@),
            credit is Some ==> credit->Some_0 == self@.account(address@).bandwidth,
    {
        match self.find_account(address) {
            Some(i) => Some(self.accounts[i].bandwidth),
            None => None,
        }
    }

    /// Frozen balance of the account with the given address, if it exists.
    pub fn frozen_of(&self, address: &Vec<u8>) -> (frozen: Option<i64>)
        ensures
            frozen is Some <==> self@.has_account(address@),
            frozen is Some ==> frozen->Some_0 == self@.account(address@).frozen,
    {
        match self.find_account(address) {
            Some(i) => Some(self.accounts[i].frozen),
            None => None,
        }
    }

    /// Sets the balance of the account at position `i`.
    pub fn set_balance(&mut self, i: usize, balance: i64)
        requires
            i < old(self)@.accounts.len(),
        ensures
            final(self)@ == old(self)@.with_account(
                i as int,
                AccountState { balance, ..old(self)@.accounts[i as int] },
            ),
    {
        self.accounts[i].balance = balance;
        assert(self@.accounts =~= old(self)@.accounts.update(
            i as int,
            AccountState { balance, ..old(self)@.accounts[i as int] },
        ));
    }

    /// Sets the bandwidth credit of the account at position `i`.
    pub fn set_bandwidth(&mut self, i: usize, credit: u64)
        requires
            i < old(self)@.accounts.len(),
        ensures
            final(self)@ == old(self)@.with_account(
                i as int,
                AccountState { bandwidth: credit, ..old(self)@.accounts[i as int] },
            ),
    {
        self.accounts[i].bandwidth = credit;
        assert(self@.accounts =~= old(self)@.accounts.update(
            i as int,
            AccountState { bandwidth: credit, ..old(self)@.accounts[i as int] },
        ));
    }

    /// Sets the frozen balance of the account at position `i`.
    pub fn set_frozen(&mut self, i: usize, frozen: i64)
        requires
            i < old(self)@.accounts.len(),
        ensures
            final(self)@ == old(self)@.with_account(
                i as int,
                AccountState { frozen, ..old(self)@.accounts[i as int] },
            ),
    {
        self.accounts[i].frozen = frozen;
        assert(self@.accounts =~= old(self)@.accounts.update(
            i as int,
            AccountState { frozen, ..old(self)@.accounts[i as int] },
        ));
    }

    /// Appends an account record with the given address and balance, and with
    /// neither bandwidth credit nor frozen balance.
    pub fn create_account(&mut self, address: &Vec<u8>, balance: i64)
        ensures
            final(self)@ == old(self)@.with_new_account(
                AccountState { address: address@, balance, bandwidth: 0, frozen: 0 },
            ),
    {
        let account = Account { address: bytes_clone(address), balance, bandwidth: 0, frozen: 0 };
        self.accounts.push(account);
        assert(self@.accounts =~= old(self)@.accounts.push(
            AccountState { address: address@, balance, bandwidth: 0, frozen: 0 },
        ));
    }

    /// Tells whether the address is registered as a witness.
    pub fn is_witness(&self, address: &Vec<u8>) -> (registered: bool)
        ensures
            registered == self@.is_witness(address@),
    {
        let mut i: usize = 0;
        while i < self.witnesses.len()
            invariant
                i <= self.witnesses.len(),
                index_of(self@.witness_addresses(), address@) == index_of_from(
                    self@.witness_addresses(),
                    address@,
                    i as int,
                ),
            decreases self.witnesses.len() - i,
        {
            if bytes_eq(&self.witnesses[i].address, address) {
                return true;
            }
            i += 1;
        }
        false
    }

    /// Number of witness records.
    pub fn witness_count(&self) -> (n: usize)
        ensures
            n == self@.witnesses.len(),
    {
        self.witnesses.len()
    }

    /// Appends a witness record.
    pub fn add_witness(&mut self, address: &Vec<u8>, url: &Vec<u8>)
        ensures
            final(self)@ == old(self)@.with_new_witness(
                WitnessState { address: address@, url: url@ },
            ),
    {
        let witness = Witness { address: bytes_clone(address), url: bytes_clone(url) };
        self.witnesses.push(witness);
        assert(self@.witnesses =~= old(self)@.witnesses.push(
            WitnessState { address: address@, url: url@ },
        ));
    }

    /// Number of proposal records.
    pub fn proposal_count(&self) -> (n: usize)
        ensures
            n == self@.proposals.len(),
    {
        self.proposals.len()
    }

    /// Position of the proposal with the given identifier.
    pub fn find_proposal(&self, id: i64) -> (found: Option<usize>)
        ensures
            found is Some <==> self@.proposal_index(id) >= 0,
            found is Some ==> found->Some_0 == self@.proposal_index(id),
            found is Some ==> found->Some_0 < self@.proposals.len(),
    {
        let mut i: usize = 0;
        while i < self.proposals.len()
            invariant
                i <= self.proposals.len(),
                self@.proposal_index(id) == proposal_index_from(
                    self@.proposals,
                    id,
                    i as int,
                ),
            decreases self.proposals.len() - i,
        {
            if self.proposals[i].id == id {
                return Some(i);
            }
            i += 1;
        }
        None
    }

    /// Appends a proposal that nobody has approved yet.
    pub fn add_proposal(&mut self, id: i64, proposer: &Vec<u8>, parameters: &Vec<(i64, i64)>)
        ensures
            final(self)@ == old(self)@.with_new_proposal(
                ProposalState {
                    id,
                    proposer: proposer@,
                    parameters: parameters@,
                    approvals: Seq::empty(),
                },
            ),
    {
        let proposal = Proposal {
            id,
            proposer: bytes_clone(proposer),
            parameters: pairs_clone(parameters),
            approvals: Vec::new(),
        };
        assert(proposal@.approvals =~= Seq::empty());
        self.proposals.push(proposal);
        assert(self@.proposals =~= old(self)@.proposals.push(
            ProposalState {
                id,
                proposer: proposer@,
                parameters: parameters@,
                approvals: Seq::empty(),
            },
        ));
    }

    /// Position of `address` among the approvals of the proposal at position
    /// `p`.
    pub fn find_approval(&self, p: usize, address: &Vec<u8>) -> (found: Option<usize>)
        requires
            p < self@.proposals.len(),
        ensures
            found is Some <==> index_of(self@.proposals[p as int].approvals, address@) >= 0,
            found is Some ==> found->Some_0 == index_of(
                self@.proposals[p as int].approvals,
                address@,
            ),
            found is Some ==> found->Some_0 < self@.proposals[p as int].approvals.len(),
    {
        let approvals = &self.proposals[p].approvals;
        let mut i: usize = 0;
        while i < approvals.len()
            invariant
                p < self@.proposals.len(),
                approvals == &self.proposals@[p as int].approvals,
                i <= approvals.len(),
                index_of(self@.proposals[p as int].approvals, address@) == index_of_from(
                    self@.proposals[p as int].approvals,
                    address@,
                    i as int,
                ),
            decreases approvals.len() - i,
        {
            if bytes_eq(&approvals[i], address) {
                return Some(i);
            }
            i += 1;
        }
        None
    }

    /// Appends `address` to the approvals of the proposal at position `p`.
    pub fn add_approval(&mut self, p: usize, address: &Vec<u8>)
        requires
            p < old(self)@.proposals.len(),
        ensures
            final(self)@ == old(self)@.with_approvals(
                p as int,
                old(self)@.proposals[p as int].approvals.push(address@),
            ),
    {
        self.proposals[p].approvals.push(bytes_clone(address));
        assert(self@.proposals[p as int].approvals =~= old(self)@.proposals[p as int].approvals.push(
            address@,
        ));
        assert(self@.proposals =~= old(self)@.with_approvals(
            p as int,
            old(self)@.proposals[p as int].approvals.push(address@),
        ).proposals);
    }

    /// Removes the approval at position `k` from the proposal at position `p`.
    pub fn remove_approval(&mut self, p: usize, k: usize)
        requires
            p < old(self)@.proposals.len(),
            k < old(self)@.proposals[p as int].approvals.len(),
        ensures
            final(self)@ == old(self)@.with_approvals(
                p as int,
                old(self)@.proposals[p as int].approvals.remove(k as int),
            ),
    {
        self.proposals[p].approvals.remove(k);
        assert(self@.proposals[p as int].approvals =~= old(self)@.proposals[p as int].approvals.remove(
            k as int,
        ));
        assert(self@.proposals =~= old(self)@.with_approvals(
            p as int,
            old(self)@.proposals[p as int].approvals.remove(k as int),
        ).proposals);
    }

    /// Bandwidth cost of contracts of `kind`: the cost registered for the
    /// kind, and the base cost where none is. It is never 0.
    pub fn cost_of(&self, kind: ContractType) -> (cost: u32)
        ensures
            cost == self@.cost_of(kind),
            cost > 0,
    {
        proof {
            use_type_invariant(&self.economy);
            self@.lemma_cost_positive(kind);
        }
        let mut i: usize = 0;
        while i < self.economy.costs.len()
            invariant
                i <= self.economy.costs.len(),
                self@.cost_of(kind) == cost_from(
                    self@.costs,
                    kind,
                    i as int,
                    self@.params.base_cost,
                ),
                self@.cost_of(kind) > 0,
            decreases self.economy.costs.len() - i,
        {
            if self.economy.costs[i].kind == kind {
                return self.economy.costs[i].cost;
            }
            i += 1;
        }
        self.economy.params.base_cost
    }

    /// Registers the bandwidth cost of contracts of `kind`, in place of any
    /// cost registered for it before. A cost of 0 is turned down, and the
    /// table stays as it is.
    pub fn register_cost(&mut self, kind: ContractType, cost: u32) -> (registered: bool)
        ensures
            registered == (cost > 0),
            registered ==> final(self)@ == old(self)@.with_cost(kind, cost),
            registered ==> final(self)@.cost_of(kind) == cost,
            !registered ==> final(self)@ == old(self)@,
    {
        if cost == 0 {
            return false;
        }
        proof {
            use_type_invariant(&self.economy);
        }
        let mut costs: Vec<CostEntry> = Vec::new();
        costs.push(CostEntry { kind, cost });
        let mut i: usize = 0;
        while i < self.economy.costs.len()
            invariant
                i <= self.economy.costs.len(),
                costs@ == seq![CostEntry { kind, cost }] + self.economy.costs@.take(i as int),
            decreases self.economy.costs.len() - i,
        {
            let entry: CostEntry = self.economy.costs[i];
            costs.push(entry);
            assert(self.economy.costs@.take(i as int).push(self.economy.costs@[i as int]) =~= self.economy.costs@.take(
                i + 1,
            ));
            assert(costs@ =~= seq![CostEntry { kind, cost }] + self.economy.costs@.take(i + 1));
            i += 1;
        }
        assert(self.economy.costs@.take(self.economy.costs.len() as int) =~= self.economy.costs@);
        assert(costs_positive(costs@)) by {
            assert forall|k: int| 0 <= k < costs@.len() implies (#[trigger] costs@[k]).cost > 0 by {
                if k > 0 {
                    assert(costs@[k] == self.economy.costs@[k - 1]);
                }
            }
        }
        self.economy.costs = costs;
        true
    }
}

/// An account that exists from the first block on.
#[derive(Clone, Debug, PartialEq, Eq)]
pub struct GenesisAccount {
    pub address: Vec<u8>,
    pub balance: i64,
}

/// The state that a chain starts from, with the first `n` genesis accounts
/// in it: the given prices and costs, and each account with its balance and
/// with neither bandwidth credit nor frozen balance.
pub open spec fn genesis_state(
    params: ChainParameters,
    costs: Seq<CostEntry>,
    accounts: Seq<GenesisAccount>,
    n: int,
) -> LedgerState
    decreases n,
{
    if n <= 0 {
        LedgerState { costs, ..LedgerState::empty(params) }
    } else {
        genesis_state(params, costs, accounts, n - 1).with_new_account(
            AccountState {
                address: accounts[n - 1].address@,
                balance: accounts[n - 1].balance,
                bandwidth: 0,
                frozen: 0,
            },
        )
    }
}

/// Whether no two of the first `n` genesis accounts have the same address.
pub open spec fn distinct_addresses(accounts: Seq<GenesisAccount>, n: int) -> bool {
    forall|i: int, j: int| 0 <= i < j < n ==> accounts[i].address@ != accounts[j].address@
}

impl Manager {
    /// The ledger that a chain starts from. Of several costs given for one
    /// kind of contract the first counts. There is no such ledger where the
    /// prices are not valid, where a cost is 0, or where two genesis accounts
    /// share an address.
    pub fn from_genesis(params: ChainParameters, costs: Vec<CostEntry>, accounts: &Vec<GenesisAccount>) -> (manager:
        Option<Manager>)
        ensures
            manager is Some <==> params.spec_valid() && costs_positive(costs@) && distinct_addresses(
                accounts@,
                accounts@.len() as int,
            ),
            manager is Some ==> manager->Some_0@ == genesis_state(
                params,
                costs@,
                accounts@,
                accounts@.len() as int,
            ),
            manager is Some ==> manager->Some_0@.valid(),
    {
        if !params.is_valid() {
            return None;
        }
        let mut c: usize = 0;
        while c < costs.len()
            invariant
                c <= costs@.len(),
                forall|k: int| 0 <= k < c ==> (#[trigger] costs@[k]).cost > 0,
            decreases costs@.len() - c,
        {
            if costs[c].cost == 0 {
                return None;
            }
            c += 1;
        }
        let mut manager = Manager {
            accounts: Vec::new(),
            witnesses: Vec::new(),
            proposals: Vec::new(),
            economy: Economy { costs, params },
        };
        assert(manager@.accounts =~= Seq::empty());
        assert(manager@.witnesses =~= Seq::empty());
        assert(manager@.proposals =~= Seq::empty());
        let mut i: usize = 0;
        while i < accounts.len()
            invariant
                i <= accounts@.len(),
                manager@ == genesis_state(params, costs@, accounts@, i as int),
                manager@.accounts.len() == i,
                forall|k: int| 0 <= k < i ==> manager@.accounts[k].address == accounts@[k].address@,
                distinct_addresses(accounts@, i as int),
            decreases accounts@.len() - i,
        {
            let account = &accounts[i];
            proof {
                lemma_index_of(manager@.account_addresses(), account.address@);
            }
            match manager.find_account(&account.address) {
                Some(k) => {
                    assert(accounts@[k as int].address@ == accounts@[i as int].address@);
                    return None;
                },
                None => {
                    assert forall|k: int| 0 <= k < i implies accounts@[k].address@
                        != accounts@[i as int].address@ by {
                        assert(manager@.account_addresses()[k] == accounts@[k].address@);
                    }
                },
            }
            manager.create_account(&account.address, account.balance);
            i += 1;
        }
        proof {
            use_type_invariant(&manager.economy);
        }
        Some(manager)
    }
}

/// A fresh list holding copies of the byte strings of `list`.
pub fn addresses_clone(list: &Vec<Vec<u8>>) -> (copy: Vec<Vec<u8>>)
    ensures
        copy@.len() == list@.len(),
        forall|k: int| 0 <= k < list@.len() ==> copy@[k]@ == list@[k]@,
{
    let mut out: Vec<Vec<u8>> = Vec::new();
    let mut i: usize = 0;
    while i < list.len()
        invariant
            i <= list.len(),
            out@.len() == i,
            forall|k: int| 0 <= k < i ==> out@[k]@ == list@[k]@,
        decreases list.len() - i,
    {
        out.push(bytes_clone(&list[i]));
        i += 1;
    }
    out
}

impl Manager {
    /// A copy of the whole state, to go back to when a transaction fails.
    pub fn checkpoint(&self) -> (copy: Manager)
        ensures
            copy@ == self@,
    {
        let mut accounts: Vec<Account> = Vec::new();
        let mut i: usize = 0;
        while i < self.accounts.len()
            invariant
                i <= self.accounts.len(),
                accounts@.len() == i,
                forall|k: int| 0 <= k < i ==> accounts@[k]@ == self.accounts@[k]@,
            decreases self.accounts.len() - i,
        {
            let a = &self.accounts[i];
            accounts.push(
                Account {
                    address: bytes_clone(&a.address),
                    balance: a.balance,
                    bandwidth: a.bandwidth,
                    frozen: a.frozen,
                },
            );
            i += 1;
        }
        let mut witnesses: Vec<Witness> = Vec::new();
        let mut i: usize = 0;
        while i < self.witnesses.len()
            invariant
                i <= self.witnesses.len(),
                witnesses@.len() == i,
                forall|k: int| 0 <= k < i ==> witnesses@[k]@ == self.witnesses@[k]@,
            decreases self.witnesses.len() - i,
        {
            let w = &self.witnesses[i];
            witnesses.push(Witness { address: bytes_clone(&w.address), url: bytes_clone(&w.url) });
            i += 1;
        }
        let mut proposals: Vec<Proposal> = Vec::new();
        let mut i: usize = 0;
        while i < self.proposals.len()
            invariant
                i <= self.proposals.len(),
                proposals@.len() == i,
                forall|k: int| 0 <= k < i ==> proposals@[k]@ == self.proposals@[k]@,
            decreases self.proposals.len() - i,
        {
            let p = &self.proposals[i];
            let copy = Proposal {
                id: p.id,
                proposer: bytes_clone(&p.proposer),
                parameters: pairs_clone(&p.parameters),
                approvals: addresses_clone(&p.approvals),
            };
            assert(copy@.approvals =~= p@.approvals);
            proposals.push(copy);
            i += 1;
        }
        let mut costs: Vec<CostEntry> = Vec::new();
        let mut i: usize = 0;
        while i < self.economy.costs.len()
            invariant
                i <= self.economy.costs.len(),
                costs@ == self.economy.costs@.take(i as int),
            decreases self.economy.costs.len() - i,
        {
            let entry: CostEntry = self.economy.costs[i];
            costs.push(entry);
            assert(self.economy.costs@.take(i as int).push(self.economy.costs@[i as int]) =~= self.economy.costs@.take(
                i + 1,
            ));
            i += 1;
        }
        assert(self.economy.costs@.take(self.economy.costs.len() as int) =~= self.economy.costs@);
        proof {
            use_type_invariant(&self.economy);
        }
        let copy = Manager {
            accounts,
            witnesses,
            proposals,
            economy: Economy { costs, params: self.economy.params },
        };
        assert(copy@.accounts =~= self@.accounts);
        assert(copy@.witnesses =~= self@.witnesses);
        assert(copy@.proposals =~= self@.proposals);
        copy
    }
}

impl Clone for Manager {
    /// A copy of the whole state.
    fn clone(&self) -> (copy: Manager)
        ensures
            copy@ == self@,
    {
        self.checkpoint()
    }
}

/// A fresh list holding the pairs of `pairs`.
pub fn pairs_clone(pairs: &Vec<(i64, i64)>) -> (copy: Vec<(i64, i64)>)
    ensures
        copy@ == pairs@,
{
    let mut out: Vec<(i64, i64)> = Vec::new();
    let mut i: usize = 0;
    while i < pairs.len()
        invariant
            i <= pairs.len(),
            out@ == pairs@.take(i as int),
        decreases pairs.len() - i,
    {
        let pair: (i64, i64) = pairs[i];
        out.push(pair);
        assert(pairs@.take(i as int).push(pairs@[i as int]) =~= pairs@.take(i + 1));
        i += 1;
    }
    assert(pairs@.take(pairs.len() as int) =~= pairs@);
    out
}

} // verus!
