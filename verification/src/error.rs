//! Errors of the system layer and the metadata it keeps about contracts.
use vstd::prelude::*;

verus! {

/// Errors likely to happen while a VM is executing.
#[derive(Clone, PartialEq, Eq, Debug)]
pub enum SystemError {
    UnsupportedMessage,
    FailedToSerialize,
    ContractExecutionFailure(String),
    ImmutableCantMigrate,
    MustBeAdmin,
    ReservedEventPrefixIsUsed,
    EmptyEventKey,
    EmptyEventValue,
    EventTypeIsTooShort,
}

/// The identifier of uploaded contract code.
pub type CosmwasmCodeId = u64;

/// Minimum metadata associated to contracts.
#[derive(Clone, PartialEq, Eq, Debug)]
pub struct CosmwasmContractMeta<Account> {
    pub code_id: CosmwasmCodeId,
    pub admin: Option<Account>,
    pub label: String,
}

} // verus!
