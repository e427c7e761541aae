//! The closed set of contract kinds a transaction can carry, and the typed
//! parameters of each.

use vstd::prelude::*;

verus! {

/// Kind of instruction carried by a transaction.
#[derive(Clone, Copy, Debug, PartialEq, Eq, Structural)]
pub enum ContractType {
    TransferContract,
    VoteWitnessContract,
    WitnessCreateContract,
    FreezeBalanceContract,
    ProposalCreateContract,
    ProposalApproveContract,
    CreateSmartContract,
    TriggerSmartContract,
}

impl ContractType {
    /// The kind that a wire type tag stands for, if it stands for any.
    pub open spec fn spec_from_i32(code: i32) -> Option<ContractType> {
        if code == 1 {
            Some(ContractType::TransferContract)
        } else if code == 4 {
            Some(ContractType::VoteWitnessContract)
        } else if code == 5 {
            Some(ContractType::WitnessCreateContract)
        } else if code == 11 {
            Some(ContractType::FreezeBalanceContract)
        } else if code == 16 {
            Some(ContractType::ProposalCreateContract)
        } else if code == 17 {
            Some(ContractType::ProposalApproveContract)
        } else if code == 30 {
            Some(ContractType::CreateSmartContract)
        } else if code == 31 {
            Some(ContractType::TriggerSmartContract)
        } else {
            None
        }
    }

    /// The wire type tag of a kind.
    pub open spec fn spec_code(self) -> i32 {
        match self {
            ContractType::TransferContract => 1,
            ContractType::VoteWitnessContract => 4,
            ContractType::WitnessCreateContract => 5,
            ContractType::FreezeBalanceContract => 11,
            ContractType::ProposalCreateContract => 16,
            ContractType::ProposalApproveContract => 17,
            ContractType::CreateSmartContract => 30,
            ContractType::TriggerSmartContract => 31,
        }
    }

    /// Whether the kind is run by the virtual machine rather than by an
    /// actuator of the ledger.
    pub open spec fn spec_is_smart_contract(self) -> bool {
        self == ContractType::CreateSmartContract || self == ContractType::TriggerSmartContract
    }

    /// Reads a wire type tag; an unknown tag gives `None`.
    pub fn from_i32(code: i32) -> (kind: Option<ContractType>)
        ensures
            kind == Self::spec_from_i32(code),
    {
        if code == 1 {
            Some(ContractType::TransferContract)
        } else if code == 4 {
            Some(ContractType::VoteWitnessContract)
        } else if code == 5 {
            Some(ContractType::WitnessCreateContract)
        } else if code == 11 {
            Some(ContractType::FreezeBalanceContract)
        } else if code == 16 {
            Some(ContractType::ProposalCreateContract)
        } else if code == 17 {
            Some(ContractType::ProposalApproveContract)
        } else if code == 30 {
            Some(ContractType::CreateSmartContract)
        } else if code == 31 {
            Some(ContractType::TriggerSmartContract)
        } else {
            None
        }
    }

    /// The wire type tag of this kind.
    pub fn code(self) -> (code: i32)
        ensures
            code == self.spec_code(),
    {
        match self {
            ContractType::TransferContract => 1,
            ContractType::VoteWitnessContract => 4,
            ContractType::WitnessCreateContract => 5,
            ContractType::FreezeBalanceContract => 11,
            ContractType::ProposalCreateContract => 16,
            ContractType::ProposalApproveContract => 17,
            ContractType::CreateSmartContract => 30,
            ContractType::TriggerSmartContract => 31,
        }
    }

    /// Whether this kind is routed to the virtual machine.
    pub fn is_smart_contract(self) -> (vm: bool)
        ensures
            vm == self.spec_is_smart_contract(),
    {
        match self {
            ContractType::CreateSmartContract => true,
            ContractType::TriggerSmartContract => true,
            _ => false,
        }
    }
}

/// Reading a kind's tag gives the kind back, and a tag that reads as a kind
/// is that kind's tag.
pub proof fn lemma_type_tag_round_trip(kind: ContractType, code: i32)
    ensures
        ContractType::spec_from_i32(kind.spec_code()) == Some(kind),
        ContractType::spec_from_i32(code) == Some(kind) ==> kind.spec_code() == code,
{
}

/// Resource that a balance can be frozen for.
#[derive(Clone, Copy, Debug, PartialEq, Eq, Structural)]
pub enum ResourceCode {
    Bandwidth,
    Energy,
}

impl ResourceCode {
    /// The resource that a wire code stands for, if any.
    pub open spec fn spec_from_i32(code: i32) -> Option<ResourceCode> {
        if code == 0 {
            Some(ResourceCode::Bandwidth)
        } else if code == 1 {
            Some(ResourceCode::Energy)
        } else {
            None
        }
    }

    /// Reads a wire resource code; an unknown code gives `None`.
    pub fn from_i32(code: i32) -> (resource: Option<ResourceCode>)
        ensures
            resource == Self::spec_from_i32(code),
    {
        if code == 0 {
            Some(ResourceCode::Bandwidth)
        } else if code == 1 {
            Some(ResourceCode::Energy)
        } else {
            None
        }
    }
}

/// Moves `amount` from the owner's balance to another address.
#[derive(Clone, Debug)]
pub struct TransferContract {
    pub owner_address: Vec<u8>,
    pub to_address: Vec<u8>,
    pub amount: i64,
}

/// Registers the owner as a witness reachable at `url`.
#[derive(Clone, Debug)]
pub struct WitnessCreateContract {
    pub owner_address: Vec<u8>,
    pub url: Vec<u8>,
}

/// Proposes new values for chain parameters, as pairs of key and value.
#[derive(Clone, Debug)]
pub struct ProposalCreateContract {
    pub owner_address: Vec<u8>,
    pub parameters: Vec<(i64, i64)>,
}

/// Gives or withdraws the owner's approval of a proposal.
#[derive(Clone, Debug)]
pub struct ProposalApproveContract {
    pub owner_address: Vec<u8>,
    pub proposal_id: i64,
    pub is_approval: bool,
}

/// Freezes part of the owner's balance in exchange for a resource.
#[derive(Clone, Debug)]
pub struct FreezeBalanceContract {
    pub owner_address: Vec<u8>,
    pub frozen_balance: i64,
    pub frozen_duration: i64,
    pub resource: i32,
}

/// One vote of a vote-witness contract.
#[derive(Clone, Debug)]
pub struct Vote {
    pub vote_address: Vec<u8>,
    pub vote_count: i64,
}

/// Casts the owner's votes for witnesses.
#[derive(Clone, Debug)]
pub struct VoteWitnessContract {
    pub owner_address: Vec<u8>,
    pub votes: Vec<Vote>,
}

/// The decoded parameter of a contract, one variant per kind that the ledger
/// decodes itself; a smart contract's parameter stays a byte string for the
/// virtual machine.
#[derive(Clone, Debug)]
pub enum ContractParameter {
    Transfer(TransferContract),
    VoteWitness(VoteWitnessContract),
    WitnessCreate(WitnessCreateContract),
    FreezeBalance(FreezeBalanceContract),
    ProposalCreate(ProposalCreateContract),
    ProposalApprove(ProposalApproveContract),
    SmartContract(Vec<u8>),
}

impl ContractParameter {
    /// Whether this parameter is the one that contracts of `kind` carry.
    pub open spec fn spec_matches(self, kind: ContractType) -> bool {
        match self {
            ContractParameter::Transfer(_) => kind == ContractType::TransferContract,
            ContractParameter::VoteWitness(_) => kind == ContractType::VoteWitnessContract,
            ContractParameter::WitnessCreate(_) => kind == ContractType::WitnessCreateContract,
            ContractParameter::FreezeBalance(_) => kind == ContractType::FreezeBalanceContract,
            ContractParameter::ProposalCreate(_) => kind == ContractType::ProposalCreateContract,
            ContractParameter::ProposalApprove(_) => kind == ContractType::ProposalApproveContract,
            ContractParameter::SmartContract(_) => kind.spec_is_smart_contract(),
        }
    }

    /// The address that declares itself owner of the contract; a smart
    /// contract's parameter names none to the ledger.
    pub open spec fn spec_owner(self) -> Option<Seq<u8>> {
        match self {
            ContractParameter::Transfer(c) => Some(c.owner_address@),
            ContractParameter::VoteWitness(c) => Some(c.owner_address@),
            ContractParameter::WitnessCreate(c) => Some(c.owner_address@),
            ContractParameter::FreezeBalance(c) => Some(c.owner_address@),
            ContractParameter::ProposalCreate(c) => Some(c.owner_address@),
            ContractParameter::ProposalApprove(c) => Some(c.owner_address@),
            ContractParameter::SmartContract(_) => None,
        }
    }

    /// Tells whether this parameter belongs to contracts of `kind`.
    pub fn matches(&self, kind: ContractType) -> (fits: bool)
        ensures
            fits == self.spec_matches(kind),
    {
        match self {
            ContractParameter::Transfer(_) => kind == ContractType::TransferContract,
            ContractParameter::VoteWitness(_) => kind == ContractType::VoteWitnessContract,
            ContractParameter::WitnessCreate(_) => kind == ContractType::WitnessCreateContract,
            ContractParameter::FreezeBalance(_) => kind == ContractType::FreezeBalanceContract,
            ContractParameter::ProposalCreate(_) => kind == ContractType::ProposalCreateContract,
            ContractParameter::ProposalApprove(_) => kind == ContractType::ProposalApproveContract,
            ContractParameter::SmartContract(_) => kind.is_smart_contract(),
        }
    }

    /// The declared owner's address, where the parameter names one.
    pub fn owner_address(&self) -> (owner: Option<&Vec<u8>>)
        ensures
            owner is Some == self.spec_owner() is Some,
            owner is Some ==> owner->Some_0@ == self.spec_owner()->Some_0,
    {
        match self {
            ContractParameter::Transfer(c) => Some(&c.owner_address),
            ContractParameter::VoteWitness(c) => Some(&c.owner_address),
            ContractParameter::WitnessCreate(c) => Some(&c.owner_address),
            ContractParameter::FreezeBalance(c) => Some(&c.owner_address),
            ContractParameter::ProposalCreate(c) => Some(&c.owner_address),
            ContractParameter::ProposalApprove(c) => Some(&c.owner_address),
            ContractParameter::SmartContract(_) => None,
        }
    }
}

/// The envelope that a transaction wraps its contract in: a type tag and the
/// parameter, which may be missing.
#[derive(Clone, Debug)]
pub struct Contract {
    pub type_code: i32,
    pub parameter: Option<ContractParameter>,
}

} // verus!
