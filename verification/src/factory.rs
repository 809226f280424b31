//! The factory: holds the shared configuration and the tenant id sequence.

use vstd::prelude::*;
use crate::address::{valid_address, check_address};
use crate::error::HostError;
use crate::msg::{InstantiateMsg, ExecuteMsg, QueryMsg, ConfigResponse, MigrateMsg};

verus! {

/// The factory configuration, stored at instantiation.
pub struct FactoryConfig {
    pub owner: String,
    pub memory_contract: String,
    pub version_control_contract: String,
    pub creation_fee: u32,
}

/// The whole factory state.
pub struct FactoryState {
    pub config: FactoryConfig,
    /// Monotonically increasing tenant sequence id; tenant creation itself is
    /// bookkeeping outside this core.
    pub os_id_sequence: u32,
}

impl FactoryState {
    /// Every stored address is well-formed.
    pub open spec fn wf(self) -> bool {
        valid_address(self.config.owner@)
            && valid_address(self.config.memory_contract@)
            && valid_address(self.config.version_control_contract@)
    }

    /// The answer a `Config {}` query owes on this state.
    pub open spec fn config_response(self) -> ConfigResponse {
        ConfigResponse {
            owner: self.config.owner,
            memory_contract: self.config.memory_contract,
            version_control_contract: self.config.version_control_contract,
            creation_fee: self.config.creation_fee,
            os_id_sequence: self.os_id_sequence,
        }
    }

    /// Validates and stores the configuration; runs once per contract
    /// lifetime, with the instantiating sender as owner.
    pub fn instantiate(sender: String, msg: InstantiateMsg) -> (r: Result<FactoryState, HostError>)
        ensures
            r is Ok <==> valid_address(sender@)
                && valid_address(msg.memory_contract@)
                && valid_address(msg.version_control_contract@),
            r matches Ok(s) ==> s == (FactoryState {
                config: FactoryConfig {
                    owner: sender,
                    memory_contract: msg.memory_contract,
                    version_control_contract: msg.version_control_contract,
                    creation_fee: msg.creation_fee,
                },
                os_id_sequence: 0u32,
            }),
            r is Err ==> r == Err::<FactoryState, HostError>(HostError::ConfigError),
    {
        if !check_address(sender.as_str())
            || !check_address(msg.memory_contract.as_str())
            || !check_address(msg.version_control_contract.as_str()) {
            return Err(HostError::ConfigError);
        }
        Ok(FactoryState {
            config: FactoryConfig {
                owner: sender,
                memory_contract: msg.memory_contract,
                version_control_contract: msg.version_control_contract,
                creation_fee: msg.creation_fee,
            },
            os_id_sequence: 0,
        })
    }

    /// Whether an `UpdateConfig` request carries only well-formed addresses.
    pub open spec fn update_addresses_ok(
        admin: Option<String>,
        memory_contract: Option<String>,
        version_control_contract: Option<String>,
    ) -> bool {
        (admin matches Some(a) ==> valid_address(a@))
            && (memory_contract matches Some(m) ==> valid_address(m@))
            && (version_control_contract matches Some(v) ==> valid_address(v@))
    }

    /// Handles an execute request. Only the owner may update the
    /// configuration; tenant creation is bookkeeping outside this core and is
    /// refused here.
    pub fn execute(&mut self, sender: &String, msg: ExecuteMsg) -> (r: Result<(), HostError>)
        ensures
            match msg {
                ExecuteMsg::CreateOs { .. } =>
                    r == Err::<(), HostError>(HostError::UnsupportedAction) && *final(self) == *old(self),
                ExecuteMsg::UpdateConfig { admin, memory_contract, version_control_contract, creation_fee } => {
                    if sender@ != old(self).config.owner@ {
                        r == Err::<(), HostError>(HostError::ConfigError) && *final(self) == *old(self)
                    } else if !Self::update_addresses_ok(admin, memory_contract, version_control_contract) {
                        r == Err::<(), HostError>(HostError::ConfigError) && *final(self) == *old(self)
                    } else {
                        r is Ok
                            && final(self).config.owner == (if admin is Some { admin.unwrap() } else { old(self).config.owner })
                            && final(self).config.memory_contract == (if memory_contract is Some { memory_contract.unwrap() } else { old(self).config.memory_contract })
                            && final(self).config.version_control_contract == (if version_control_contract is Some { version_control_contract.unwrap() } else { old(self).config.version_control_contract })
                            && final(self).config.creation_fee == (if creation_fee is Some { creation_fee.unwrap() } else { old(self).config.creation_fee })
                            && final(self).os_id_sequence == old(self).os_id_sequence
                    }
                },
            },
            old(self).wf() && r is Ok ==> final(self).wf(),
    {
        match msg {
            ExecuteMsg::CreateOs { governance: _ } => Err(HostError::UnsupportedAction),
            ExecuteMsg::UpdateConfig { admin, memory_contract, version_control_contract, creation_fee } => {
                if !sender.eq(&self.config.owner) {
                    return Err(HostError::ConfigError);
                }
                match &admin {
                    Some(a) => {
                        if !check_address(a.as_str()) {
                            return Err(HostError::ConfigError);
                        }
                    }
                    None => {}
                }
                match &memory_contract {
                    Some(m) => {
                        if !check_address(m.as_str()) {
                            return Err(HostError::ConfigError);
                        }
                    }
                    None => {}
                }
                match &version_control_contract {
                    Some(v) => {
                        if !check_address(v.as_str()) {
                            return Err(HostError::ConfigError);
                        }
                    }
                    None => {}
                }
                match admin {
                    Some(a) => { self.config.owner = a; }
                    None => {}
                }
                match memory_contract {
                    Some(m) => { self.config.memory_contract = m; }
                    None => {}
                }
                match version_control_contract {
                    Some(v) => { self.config.version_control_contract = v; }
                    None => {}
                }
                match creation_fee {
                    Some(f) => { self.config.creation_fee = f; }
                    None => {}
                }
                Ok(())
            }
        }
    }

    /// Answers a read-only query; the state is untouched by the borrow.
    pub fn query(&self, msg: &QueryMsg) -> (r: ConfigResponse)
        ensures
            r == self.config_response(),
    {
        match msg {
            QueryMsg::Config {} => ConfigResponse {
                owner: self.config.owner.clone(),
                memory_contract: self.config.memory_contract.clone(),
                version_control_contract: self.config.version_control_contract.clone(),
                creation_fee: self.config.creation_fee,
                os_id_sequence: self.os_id_sequence,
            },
        }
    }

    /// Migrations are a version-gated no-op: nothing to carry over yet.
    pub fn migrate(&mut self, _msg: &MigrateMsg) -> (r: Result<(), HostError>)
        ensures
            r is Ok,
            *final(self) == *old(self),
    {
        Ok(())
    }
}

/// Repeated `Config {}` queries with no intervening update return identical
/// results: the answer is a function of the state alone.
pub proof fn lemma_query_idempotent(s: FactoryState, r1: ConfigResponse, r2: ConfigResponse)
    requires
        r1 == s.config_response(),
        r2 == s.config_response(),
    ensures
        r1 == r2,
{
}

} // verus!
