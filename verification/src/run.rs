//! The transient layer: executions in progress.  Empty after a restart;
//! nothing here is ever persisted.

use vstd::prelude::*;
use crate::capability::Capability;

verus! {

/// A service enclave: a temporary sandbox, burnt after use.
#[derive(Clone, Debug)]
pub struct Enclave {
    /// Enclave id.
    pub id: String,
    /// Source service.
    pub service: String,
    /// Enclave type.
    pub enclave_type: String,
    /// Associated capability id.
    pub capability_id: String,
    /// State.
    pub state: EnclaveState,
}

/// Enclave state.
#[derive(Clone, Copy, Debug, PartialEq, Eq, Structural)]
pub enum EnclaveState {
    /// Started.
    Running,
    /// Terminated; its data burnt.
    Destroyed,
}

/// A minted capability alive in the transient layer.
#[derive(Clone, Debug)]
pub struct RuntimeCapability {
    /// The capability token.
    pub capability: Capability,
    /// Associated enclave.
    pub enclave_id: String,
    /// Runtime state.
    pub state: RuntimeState,
}

/// Runtime state.
#[derive(Clone, Copy, Debug, PartialEq, Eq, Structural)]
pub enum RuntimeState {
    /// Waiting to execute.
    Pending,
    /// Executing.
    Executing,
    /// Done; the result redeemed into the ledger.
    Completed,
    /// Aborted.
    Aborted,
}

/// The transient layer: every running enclave and capability token.
#[derive(Clone, Debug)]
pub struct Run {
    /// Live enclaves.
    pub enclaves: Vec<Enclave>,
    /// Live capability tokens.
    pub capabilities: Vec<RuntimeCapability>,
}

impl Default for Run {
    /// An empty transient layer.
    fn default() -> (r: Run)
        ensures
            r.enclaves@.len() == 0 && r.capabilities@.len() == 0,
    {
        Run { enclaves: Vec::new(), capabilities: Vec::new() }
    }
}

impl Run {
    /// Restart semantics: a full re-mint of the mesh; everything cleared.
    pub fn reboot(&mut self)
        ensures
            final(self).enclaves@.len() == 0,
            final(self).capabilities@.len() == 0,
    {
        self.enclaves.clear();
        self.capabilities.clear();
    }
}

} // verus!
