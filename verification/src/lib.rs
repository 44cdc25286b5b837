//! Warrant OS: the namespaces of the system as verified types.
//!
//! Whole-machine state = kernel + ledger + vault + mind + warrant/standing;
//! everything else can be rebuilt.

pub mod crypto;
pub mod lineage;
pub mod warrant;
pub mod capability;
pub mod ledger;
pub mod kernel;
pub mod vault;
pub mod mesh;
pub mod registry;
pub mod run;
pub mod mind;

pub use capability::{
    verify_mint, BudgetConsumption, Capability, CapabilityState, MintRejection, MintRequest,
    MintResult,
};
pub use crypto::{
    hex_encode_prefix, DualSignature, MerkleRoot, PublicKey, SemanticInvariantProof, Signature,
};
pub use kernel::{
    AmendmentError, AmendmentKind, BootProof, Constitution, ConstitutionAmendment,
    ConstitutionSeal, DualSignRules, MintRules, RevocationRules,
};
pub use ledger::{EntryId, Genesis, Ledger, LedgerEntry, LedgerEvent};
pub use lineage::{Lineage, ResourceRef, VaultAddress};
pub use mesh::{Anchor, DegradedBudget, EndpointTier, Mesh, MigrationRecord, Peer, PeerRole};
pub use mind::{
    AgentIdentity, BudgetEstimate, ContextTurn, ProposedPlan, SessionContext, TurnRole,
};
pub use registry::{BillingMethod, EnclaveType, Registry, ServiceManifest, ServiceStatefulness};
pub use run::{Enclave, EnclaveState, Run, RuntimeCapability, RuntimeState};
pub use vault::{ContentEntry, SpaceReclamation, VaultRoom, VaultView};
pub use warrant::{
    HeartbeatProof, PlanDigest, RevocationHandle, Warrant, WarrantBudget, WarrantError,
    WarrantScope, WarrantState, WarrantTtl, WarrantType,
};
