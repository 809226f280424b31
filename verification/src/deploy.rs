//! The versioned module deployment protocol.
//!
//! A deployment context carries the registry and the shared addresses that
//! every module instantiation receives. Deploying uploads an artifact,
//! instantiates it where the module kind asks for it, and registers the
//! (module id, version) pair — at most once: an existing registration is
//! refused before any upload happens, and no overwrite path exists.

use vstd::prelude::*;
use crate::address::{valid_address, check_address};
use crate::error::HostError;
use crate::version::ModuleVersion;

verus! {

/// What a deploy produced: the uploaded code, and the instance address for
/// module kinds that are instantiated.
#[derive(Clone, Copy, Debug, PartialEq, Eq)]
pub struct ArtifactRef {
    pub code_id: u64,
    pub instance: Option<u64>,
}

/// One registration: the pair (module id, version) and its artifact.
pub struct ModuleRecord {
    pub module_id: String,
    pub version: ModuleVersion,
    pub artifact: ArtifactRef,
}

/// The shared base every instantiated module receives.
pub struct BaseInstantiateMsg {
    pub ans_host_address: String,
    pub version_control_address: String,
}

/// The composed instantiation message of an API-kind module: the caller's
/// own arguments, opaque here, merged with the shared base.
pub struct ApiInstantiateMsg {
    pub app: Vec<u8>,
    pub base: BaseInstantiateMsg,
}

/// The deployment context: registry contents, shared addresses, and the ids
/// the next upload and instantiation will receive.
pub struct Deployment {
    pub registry: Vec<ModuleRecord>,
    pub ans_host: String,
    pub version_control: String,
    pub next_code_id: u64,
    pub next_instance_id: u64,
}

impl Deployment {
    /// Whether a (module id, version) pair is already registered.
    pub open spec fn registered(self, module_id: Seq<char>, version: ModuleVersion) -> bool {
        exists|i: int| 0 <= i < self.registry@.len()
            && self.registry@[i].module_id@ == module_id
            && self.registry@[i].version == version
    }

    /// The index of a registration.
    pub open spec fn record_index(self, module_id: Seq<char>, version: ModuleVersion) -> int {
        choose|i: int| 0 <= i < self.registry@.len()
            && self.registry@[i].module_id@ == module_id
            && self.registry@[i].version == version
    }

    /// The artifact registered for a pair.
    pub open spec fn artifact_for(self, module_id: Seq<char>, version: ModuleVersion) -> ArtifactRef {
        self.registry@[self.record_index(module_id, version)].artifact
    }

    /// Well-formedness: the pair (module id, version) is unique across the
    /// registry.
    pub open spec fn wf(self) -> bool {
        forall|i: int, j: int| 0 <= i < j < self.registry@.len()
            ==> !(self.registry@[i].module_id@ == self.registry@[j].module_id@
                && self.registry@[i].version == self.registry@[j].version)
    }

    /// Opens a deployment context over well-formed shared addresses, with an
    /// empty registry.
    pub fn new(ans_host: String, version_control: String) -> (r: Result<Deployment, HostError>)
        ensures
            r is Ok <==> valid_address(ans_host@) && valid_address(version_control@),
            r matches Ok(d) ==> d.registry@.len() == 0
                && d.ans_host == ans_host
                && d.version_control == version_control
                && d.next_code_id == 0
                && d.next_instance_id == 0
                && d.wf(),
            r is Err ==> r == Err::<Deployment, HostError>(HostError::ConfigError),
    {
        if !check_address(ans_host.as_str()) || !check_address(version_control.as_str()) {
            return Err(HostError::ConfigError);
        }
        Ok(Deployment {
            registry: Vec::new(),
            ans_host,
            version_control,
            next_code_id: 0,
            next_instance_id: 0,
        })
    }

    /// Looks a pair up in the registry.
    pub fn lookup(&self, module_id: &String, version: ModuleVersion) -> (r: Option<ArtifactRef>)
        requires
            self.wf(),
        ensures
            r is Some <==> self.registered(module_id@, version),
            r matches Some(a) ==> a == self.artifact_for(module_id@, version),
    {
        let mut i: usize = 0;
        while i < self.registry.len()
            invariant
                self.wf(),
                i <= self.registry@.len(),
                forall|j: int| 0 <= j < i
                    ==> !(self.registry@[j].module_id@ == module_id@
                        && self.registry@[j].version == version),
            decreases self.registry@.len() - i,
        {
            if self.registry[i].module_id.eq(module_id) && self.registry[i].version == version {
                proof {
                    let c = self.record_index(module_id@, version);
                    if c < i as int {
                        assert(!(self.registry@[c].module_id@ == self.registry@[i as int].module_id@
                            && self.registry@[c].version == self.registry@[i as int].version));
                    }
                    if c > i as int {
                        assert(!(self.registry@[i as int].module_id@ == self.registry@[c].module_id@
                            && self.registry@[i as int].version == self.registry@[c].version));
                    }
                }
                return Some(self.registry[i].artifact);
            }
            i += 1;
        }
        None
    }

    /// Uploads one artifact: the registry side hands out the next code id.
    /// An upload alone registers nothing — a deploy that stops after this
    /// step leaves a duplicate, unreferenced artifact, and a later retry
    /// still passes the registration check.
    pub fn upload(&mut self) -> (code_id: u64)
        requires
            old(self).next_code_id < u64::MAX,
        ensures
            code_id == old(self).next_code_id,
            final(self).next_code_id == old(self).next_code_id + 1,
            final(self).registry == old(self).registry,
            final(self).ans_host == old(self).ans_host,
            final(self).version_control == old(self).version_control,
            final(self).next_instance_id == old(self).next_instance_id,
    {
        let code_id = self.next_code_id;
        self.next_code_id = code_id + 1;
        code_id
    }

    /// Registers a pair with its artifact. The registry refuses a pair that
    /// is already held: no overwrite path exists.
    pub fn register_module(&mut self, module_id: String, version: ModuleVersion, artifact: ArtifactRef)
        -> (r: Result<(), HostError>)
        requires
            old(self).wf(),
        ensures
            final(self).wf(),
            r is Err <==> old(self).registered(module_id@, version),
            r is Err ==> *final(self) == *old(self)
                && r == Err::<(), HostError>(HostError::RegistrationError),
            r is Ok ==> final(self).registry@ == old(self).registry@.push(ModuleRecord {
                module_id, version, artifact,
            })
                && final(self).registered(module_id@, version)
                && final(self).ans_host == old(self).ans_host
                && final(self).version_control == old(self).version_control
                && final(self).next_code_id == old(self).next_code_id
                && final(self).next_instance_id == old(self).next_instance_id,
    {
        if self.lookup(&module_id, version).is_some() {
            return Err(HostError::RegistrationError);
        }
        let ghost pre = self.registry@;
        self.registry.push(ModuleRecord { module_id, version, artifact });
        proof {
            assert forall|a: int, b: int| 0 <= a < b < self.registry@.len()
                implies !(self.registry@[a].module_id@ == self.registry@[b].module_id@
                    && self.registry@[a].version == self.registry@[b].version) by {
                if b < pre.len() {
                    assert(self.registry@[a] == pre[a]);
                    assert(self.registry@[b] == pre[b]);
                } else {
                    assert(self.registry@[a] == pre[a]);
                }
            }
            assert(self.registry@[pre.len() as int].module_id@ == module_id@);
            assert(self.registered(module_id@, version));
        }
        Ok(())
    }

    /// Deploys an API-kind module: refuses an already-registered pair before
    /// any upload, otherwise uploads, instantiates with the caller's
    /// arguments merged with the shared base, and registers the pair. The
    /// composed instantiation message is returned beside the artifact.
    pub fn deploy_api(&mut self, module_id: String, version: ModuleVersion, custom_init: Vec<u8>)
        -> (r: Result<(ArtifactRef, ApiInstantiateMsg), HostError>)
        requires
            old(self).wf(),
            old(self).next_code_id < u64::MAX,
            old(self).next_instance_id < u64::MAX,
        ensures
            final(self).wf(),
            r is Err <==> old(self).registered(module_id@, version),
            r is Err ==> *final(self) == *old(self)
                && r == Err::<(ArtifactRef, ApiInstantiateMsg), HostError>(HostError::AlreadyDeployed),
            r matches Ok((artifact, init)) ==> {
                &&& artifact == (ArtifactRef {
                    code_id: old(self).next_code_id,
                    instance: Some(old(self).next_instance_id),
                })
                &&& init.app == custom_init
                &&& init.base.ans_host_address == old(self).ans_host
                &&& init.base.version_control_address == old(self).version_control
                &&& final(self).registry@ == old(self).registry@.push(ModuleRecord {
                    module_id, version, artifact,
                })
                &&& final(self).registered(module_id@, version)
                &&& final(self).next_code_id == old(self).next_code_id + 1
                &&& final(self).next_instance_id == old(self).next_instance_id + 1
                &&& final(self).ans_host == old(self).ans_host
                &&& final(self).version_control == old(self).version_control
            },
    {
        if self.lookup(&module_id, version).is_some() {
            return Err(HostError::AlreadyDeployed);
        }
        let code_id = self.upload();
        let init = ApiInstantiateMsg {
            app: custom_init,
            base: BaseInstantiateMsg {
                ans_host_address: self.ans_host.clone(),
                version_control_address: self.version_control.clone(),
            },
        };
        let instance_id = self.next_instance_id;
        self.next_instance_id = instance_id + 1;
        let artifact = ArtifactRef { code_id, instance: Some(instance_id) };
        match self.register_module(module_id, version, artifact) {
            Ok(()) => Ok((artifact, init)),
            Err(e) => Err(e),
        }
    }

    /// Deploys an APP-kind module: as `deploy_api`, but the module is not
    /// instantiated, only uploaded and registered.
    pub fn deploy_app(&mut self, module_id: String, version: ModuleVersion)
        -> (r: Result<ArtifactRef, HostError>)
        requires
            old(self).wf(),
            old(self).next_code_id < u64::MAX,
        ensures
            final(self).wf(),
            r is Err <==> old(self).registered(module_id@, version),
            r is Err ==> *final(self) == *old(self)
                && r == Err::<ArtifactRef, HostError>(HostError::AlreadyDeployed),
            r matches Ok(artifact) ==> {
                &&& artifact == (ArtifactRef { code_id: old(self).next_code_id, instance: None })
                &&& final(self).registry@ == old(self).registry@.push(ModuleRecord {
                    module_id, version, artifact,
                })
                &&& final(self).registered(module_id@, version)
                &&& final(self).next_code_id == old(self).next_code_id + 1
                &&& final(self).next_instance_id == old(self).next_instance_id
                &&& final(self).ans_host == old(self).ans_host
                &&& final(self).version_control == old(self).version_control
            },
    {
        if self.lookup(&module_id, version).is_some() {
            return Err(HostError::AlreadyDeployed);
        }
        let code_id = self.upload();
        let artifact = ArtifactRef { code_id, instance: None };
        match self.register_module(module_id, version, artifact) {
            Ok(()) => Ok(artifact),
            Err(e) => Err(e),
        }
    }
}

/// A well-formed registry holds at most one record per (module id, version)
/// pair: any two records of the same pair are the same record.
pub proof fn lemma_registry_unique(d: Deployment, i: int, j: int)
    requires
        d.wf(),
        0 <= i < d.registry@.len(),
        0 <= j < d.registry@.len(),
        d.registry@[i].module_id@ == d.registry@[j].module_id@,
        d.registry@[i].version == d.registry@[j].version,
    ensures
        i == j,
{
}

} // verus!
