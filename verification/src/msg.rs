//! Messages of the factory surface.
//!
//! The factory owns tenant creation and the shared configuration that the
//! deployment protocol reads. These types are plain data carriers; the
//! handlers live in `factory`.

use vstd::prelude::*;

verus! {

/// How a tenant is governed. Validated by an external governance module
/// before tenant creation; carried here as data only.
#[derive(Clone, Debug, PartialEq)]
pub enum GovernanceDetails {
    Monarchy { monarch: String },
    External { governance_address: String, governance_type: String },
}

pub struct InstantiateMsg {
    /// Version control contract used to get code ids and register tenants.
    pub version_control_contract: String,
    /// Memory (name registry) contract.
    pub memory_contract: String,
    /// Creation fee, in some denomination.
    pub creation_fee: u32,
}

pub enum ExecuteMsg {
    /// Update the factory configuration.
    UpdateConfig {
        admin: Option<String>,
        memory_contract: Option<String>,
        version_control_contract: Option<String>,
        creation_fee: Option<u32>,
    },
    /// Create the core contracts for a tenant.
    CreateOs { governance: GovernanceDetails },
}

pub enum QueryMsg {
    Config {},
}

/// The answer to a `Config {}` query.
#[derive(Clone, Debug, PartialEq)]
pub struct ConfigResponse {
    pub owner: String,
    pub memory_contract: String,
    pub version_control_contract: String,
    pub creation_fee: u32,
    pub os_id_sequence: u32,
}

/// Migrations currently take no arguments.
pub struct MigrateMsg {}

} // verus!
