//! The host runtime: configuration, the proxy table, and the pending
//! correlation records of dispatched sub-calls.

use vstd::prelude::*;
use crate::action::Action;
use crate::address::{valid_address, check_address};
use crate::error::HostError;
use crate::msg::MigrateMsg;

verus! {

/// The host configuration, created once at instantiation.
pub struct HostConfig {
    pub admin: String,
    pub name_registry: String,
    pub version_control: String,
    /// The chain this host is deployed for.
    pub chain_tag: String,
    /// The host's own version string.
    pub version: String,
}

/// One tenant's proxy on this host.
pub struct ProxyEntry {
    pub os_id: u32,
    pub proxy: String,
}

/// The context kept for one dispatched sub-call until its reply arrives.
pub struct PendingRecord {
    pub correlation_id: u64,
    pub os_id: u32,
    pub proxy: String,
    pub channel_id: String,
    pub sequence: u64,
}

/// The whole host state.
pub struct HostState {
    pub config: HostConfig,
    pub proxies: Vec<ProxyEntry>,
    /// Outstanding correlation records. The execution environment owes one
    /// reply per dispatched sub-call, and each reply consumes its record, so
    /// the outstanding entries are bounded by the sub-calls whose replies
    /// have not yet arrived.
    pub pending: Vec<PendingRecord>,
    /// The correlation id the next dispatched sub-call will carry.
    pub next_correlation_id: u64,
}

/// The host-specific instantiate message.
pub struct HostInstantiateMsg {
    pub name_registry_address: String,
    pub version_control_address: String,
}

/// The host execute surface: base requests, or an action forwarded to an
/// installed handler.
pub enum HostExecuteMsg {
    UpdateConfig {
        admin: Option<String>,
        name_registry: Option<String>,
        version_control: Option<String>,
    },
    App { action: Action },
}

/// The host query surface.
pub enum HostQueryMsg {
    Config {},
}

/// The answer to a host `Config {}` query.
#[derive(Clone, Debug, PartialEq)]
pub struct HostConfigResponse {
    pub admin: String,
    pub name_registry: String,
    pub version_control: String,
    pub chain_tag: String,
    pub version: String,
}

impl HostState {
    /// Whether a tenant has a proxy registered on this host.
    pub open spec fn has_proxy(self, os_id: u32) -> bool {
        exists|i: int| 0 <= i < self.proxies@.len() && self.proxies@[i].os_id == os_id
    }

    /// The index of a tenant's proxy entry.
    pub open spec fn proxy_index(self, os_id: u32) -> int {
        choose|i: int| 0 <= i < self.proxies@.len() && self.proxies@[i].os_id == os_id
    }

    /// The proxy registered for a tenant.
    pub open spec fn proxy_string(self, os_id: u32) -> String {
        self.proxies@[self.proxy_index(os_id)].proxy
    }

    /// Whether a dispatched sub-call is still awaiting its reply.
    pub open spec fn has_pending(self, correlation_id: u64) -> bool {
        exists|i: int| 0 <= i < self.pending@.len() && self.pending@[i].correlation_id == correlation_id
    }

    /// The index of a pending correlation record.
    pub open spec fn pending_index(self, correlation_id: u64) -> int {
        choose|i: int| 0 <= i < self.pending@.len() && self.pending@[i].correlation_id == correlation_id
    }

    /// The pending record kept for a correlation id.
    pub open spec fn pending_record(self, correlation_id: u64) -> PendingRecord {
        self.pending@[self.pending_index(correlation_id)]
    }

    /// Well-formedness: each tenant has at most one proxy, each dispatched
    /// sub-call has exactly one correlation id, and every outstanding id is
    /// below the next one to be assigned.
    pub open spec fn wf(self) -> bool {
        (forall|i: int, j: int| 0 <= i < j < self.proxies@.len()
            ==> self.proxies@[i].os_id != self.proxies@[j].os_id)
        && (forall|i: int, j: int| 0 <= i < j < self.pending@.len()
            ==> self.pending@[i].correlation_id != self.pending@[j].correlation_id)
        && (forall|i: int| 0 <= i < self.pending@.len()
            ==> self.pending@[i].correlation_id < self.next_correlation_id)
    }

    /// The answer a host `Config {}` query owes on this state.
    pub open spec fn config_response(self) -> HostConfigResponse {
        HostConfigResponse {
            admin: self.config.admin,
            name_registry: self.config.name_registry,
            version_control: self.config.version_control,
            chain_tag: self.config.chain_tag,
            version: self.config.version,
        }
    }

    /// Validates and stores the host configuration; the chain tag and the
    /// version string are fixed per deployment target at this point.
    pub fn instantiate(
        admin: String,
        msg: HostInstantiateMsg,
        chain_tag: String,
        version: String,
    ) -> (r: Result<HostState, HostError>)
        ensures
            r is Ok <==> valid_address(admin@)
                && valid_address(msg.name_registry_address@)
                && valid_address(msg.version_control_address@),
            r matches Ok(s) ==> s.config == (HostConfig {
                admin,
                name_registry: msg.name_registry_address,
                version_control: msg.version_control_address,
                chain_tag,
                version,
            }) && s.proxies@.len() == 0 && s.pending@.len() == 0
                && s.next_correlation_id == 0 && s.wf(),
            r is Err ==> r == Err::<HostState, HostError>(HostError::ConfigError),
    {
        if !check_address(admin.as_str())
            || !check_address(msg.name_registry_address.as_str())
            || !check_address(msg.version_control_address.as_str()) {
            return Err(HostError::ConfigError);
        }
        Ok(HostState {
            config: HostConfig {
                admin,
                name_registry: msg.name_registry_address,
                version_control: msg.version_control_address,
                chain_tag,
                version,
            },
            proxies: Vec::new(),
            pending: Vec::new(),
            next_correlation_id: 0,
        })
    }

    /// Whether an `UpdateConfig` request carries only well-formed addresses.
    pub open spec fn update_addresses_ok(
        admin: Option<String>,
        name_registry: Option<String>,
        version_control: Option<String>,
    ) -> bool {
        (admin matches Some(a) ==> valid_address(a@))
            && (name_registry matches Some(m) ==> valid_address(m@))
            && (version_control matches Some(v) ==> valid_address(v@))
    }

    /// Handles an execute request. Only base requests are processed: no
    /// action handler is installed on this host, so action requests are
    /// refused.
    pub fn execute(&mut self, sender: &String, msg: HostExecuteMsg) -> (r: Result<(), HostError>)
        requires
            old(self).wf(),
        ensures
            final(self).wf(),
            match msg {
                HostExecuteMsg::App { .. } =>
                    r == Err::<(), HostError>(HostError::UnsupportedAction) && *final(self) == *old(self),
                HostExecuteMsg::UpdateConfig { admin, name_registry, version_control } => {
                    if sender@ != old(self).config.admin@ {
                        r == Err::<(), HostError>(HostError::ConfigError) && *final(self) == *old(self)
                    } else if !Self::update_addresses_ok(admin, name_registry, version_control) {
                        r == Err::<(), HostError>(HostError::ConfigError) && *final(self) == *old(self)
                    } else {
                        r is Ok
                            && final(self).config.admin == (if admin is Some { admin.unwrap() } else { old(self).config.admin })
                            && final(self).config.name_registry == (if name_registry is Some { name_registry.unwrap() } else { old(self).config.name_registry })
                            && final(self).config.version_control == (if version_control is Some { version_control.unwrap() } else { old(self).config.version_control })
                            && final(self).config.chain_tag == old(self).config.chain_tag
                            && final(self).config.version == old(self).config.version
                            && final(self).proxies == old(self).proxies
                            && final(self).pending == old(self).pending
                            && final(self).next_correlation_id == old(self).next_correlation_id
                    }
                },
            },
    {
        match msg {
            HostExecuteMsg::App { action: _ } => Err(HostError::UnsupportedAction),
            HostExecuteMsg::UpdateConfig { admin, name_registry, version_control } => {
                if !sender.eq(&self.config.admin) {
                    return Err(HostError::ConfigError);
                }
                match &admin {
                    Some(a) => {
                        if !check_address(a.as_str()) {
                            return Err(HostError::ConfigError);
                        }
                    }
                    None => {}
                }
                match &name_registry {
                    Some(m) => {
                        if !check_address(m.as_str()) {
                            return Err(HostError::ConfigError);
                        }
                    }
                    None => {}
                }
                match &version_control {
                    Some(v) => {
                        if !check_address(v.as_str()) {
                            return Err(HostError::ConfigError);
                        }
                    }
                    None => {}
                }
                match admin {
                    Some(a) => { self.config.admin = a; }
                    None => {}
                }
                match name_registry {
                    Some(m) => { self.config.name_registry = m; }
                    None => {}
                }
                match version_control {
                    Some(v) => { self.config.version_control = v; }
                    None => {}
                }
                Ok(())
            }
        }
    }

    /// Registers a tenant's proxy; only the admin may, a proxy must be a
    /// well-formed address, and a tenant's proxy is registered at most once.
    pub fn register_proxy(&mut self, sender: &String, os_id: u32, proxy: String) -> (r: Result<(), HostError>)
        requires
            old(self).wf(),
        ensures
            final(self).wf(),
            r is Ok <==> sender@ == old(self).config.admin@
                && valid_address(proxy@)
                && !old(self).has_proxy(os_id),
            r is Ok ==> final(self).proxies@ == old(self).proxies@.push(ProxyEntry { os_id, proxy })
                && final(self).config == old(self).config
                && final(self).pending == old(self).pending
                && final(self).next_correlation_id == old(self).next_correlation_id,
            r is Err ==> *final(self) == *old(self)
                && r == Err::<(), HostError>(HostError::ConfigError),
    {
        if !sender.eq(&self.config.admin) {
            return Err(HostError::ConfigError);
        }
        if !check_address(proxy.as_str()) {
            return Err(HostError::ConfigError);
        }
        let mut i: usize = 0;
        while i < self.proxies.len()
            invariant
                *self == *old(self),
                self.wf(),
                i <= self.proxies@.len(),
                forall|j: int| 0 <= j < i ==> self.proxies@[j].os_id != os_id,
            decreases self.proxies@.len() - i,
        {
            if self.proxies[i].os_id == os_id {
                return Err(HostError::ConfigError);
            }
            i += 1;
        }
        self.proxies.push(ProxyEntry { os_id, proxy });
        Ok(())
    }

    /// Resolves a tenant's proxy on this host.
    pub fn lookup_proxy(&self, os_id: u32) -> (r: Option<String>)
        requires
            self.wf(),
        ensures
            r is Some <==> self.has_proxy(os_id),
            r matches Some(p) ==> p == self.proxy_string(os_id),
    {
        let mut i: usize = 0;
        while i < self.proxies.len()
            invariant
                self.wf(),
                i <= self.proxies@.len(),
                forall|j: int| 0 <= j < i ==> self.proxies@[j].os_id != os_id,
            decreases self.proxies@.len() - i,
        {
            if self.proxies[i].os_id == os_id {
                proof {
                    let c = self.proxy_index(os_id);
                    if c < i as int {
                        assert(self.proxies@[c].os_id != self.proxies@[i as int].os_id);
                    }
                    if c > i as int {
                        assert(self.proxies@[i as int].os_id != self.proxies@[c].os_id);
                    }
                }
                return Some(self.proxies[i].proxy.clone());
            }
            i += 1;
        }
        None
    }

    /// Answers a read-only query; the state is untouched by the borrow.
    pub fn query(&self, msg: &HostQueryMsg) -> (r: HostConfigResponse)
        ensures
            r == self.config_response(),
    {
        match msg {
            HostQueryMsg::Config {} => HostConfigResponse {
                admin: self.config.admin.clone(),
                name_registry: self.config.name_registry.clone(),
                version_control: self.config.version_control.clone(),
                chain_tag: self.config.chain_tag.clone(),
                version: self.config.version.clone(),
            },
        }
    }

    /// Migrations are a version-gated no-op: nothing to carry over yet.
    pub fn migrate(&mut self, _msg: &MigrateMsg) -> (r: Result<(), HostError>)
        ensures
            r is Ok,
            *final(self) == *old(self),
    {
        Ok(())
    }
}

/// Repeated host `Config {}` queries with no intervening update return
/// identical results: the answer is a function of the state alone.
pub proof fn lemma_host_query_idempotent(s: HostState, r1: HostConfigResponse, r2: HostConfigResponse)
    requires
        r1 == s.config_response(),
        r2 == s.config_response(),
    ensures
        r1 == r2,
{
}

} // verus!
