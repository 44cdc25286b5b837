//! The constitutional kernel.
//!
//! A dumb base: deterministic, formally verified, unintelligent and offline.
//! It does not judge or negotiate; it checks only whether an instruction
//! carries a valid signature.  Because it does not think, it cannot be
//! persuaded.

use vstd::prelude::*;
use crate::crypto::{DualSignature, MerkleRoot, PublicKey, SemanticInvariantProof};

verus! {

/// Constitution seal: the dual signature over the rule set's Merkle root.
#[derive(Clone, Debug)]
pub struct ConstitutionSeal {
    /// Merkle root of the rule set.
    pub merkle_root: MerkleRoot,
    /// Dual signature (user and system).
    pub dual_sig: DualSignature,
}

/// The constitution: the system's highest law, sealed forever and checked
/// at boot.
#[derive(Clone, Debug)]
pub struct Constitution {
    /// The seal.
    pub seal: ConstitutionSeal,
    /// Minting rules.
    pub mint_rules: MintRules,
    /// Dual-signature rules.
    pub dual_sign_rules: DualSignRules,
    /// Revocation rules.
    pub revocation_rules: RevocationRules,
}

/// Minting bounds: the system is the only mint.
#[derive(Clone, Copy, Debug)]
pub struct MintRules {
    /// Minting requires a warrant.
    pub requires_warrant: bool,
    /// scope ⊆ warrant.scope.
    pub scope_subset: bool,
    /// ttl ≤ warrant.ttl.
    pub ttl_leq: bool,
    /// budget ≤ warrant.budget.
    pub budget_leq: bool,
    /// lineage = warrant.lineage.
    pub lineage_eq: bool,
    /// No override: the mint checks signatures only.
    pub override_allowed: bool,
}

impl Default for MintRules {
    /// Every bound enforced, no override.
    fn default() -> (r: MintRules)
        ensures
            r.requires_warrant && r.scope_subset && r.ttl_leq && r.budget_leq && r.lineage_eq,
            !r.override_allowed,
    {
        MintRules {
            requires_warrant: true,
            scope_subset: true,
            ttl_leq: true,
            budget_leq: true,
            lineage_eq: true,
            override_allowed: false,
        }
    }
}

/// Dual-signature thresholds: the user rules intent, the system integrity.
#[derive(Clone, Copy, Debug)]
pub struct DualSignRules {
    /// A permission-semantics change needs [user_sig, system_sig].
    pub semantic_change: bool,
    /// A memory-safety fix needs [system_sig, proof:semantic_invariant].
    pub memory_fix: bool,
    /// Boot verifies constitution.sig.
    pub boot_verify: bool,
}

impl Default for DualSignRules {
    /// Every threshold enforced.
    fn default() -> (r: DualSignRules)
        ensures
            r.semantic_change && r.memory_fix && r.boot_verify,
    {
        DualSignRules { semantic_change: true, memory_fix: true, boot_verify: true }
    }
}

/// Revocation and cascade: deletion is not an operation but grammar.
#[derive(Clone, Copy, Debug)]
pub struct RevocationRules {
    /// A warrant is born with its revocation handle.
    pub born_with_handle: bool,
    /// Revoking a lineage destroys every derived capability.
    pub cascade: bool,
    /// Effective over the mesh within one heartbeat.
    pub mesh_propagation: bool,
    /// Unreachable lineage, reclaimed space.
    pub space_reclaim: bool,
}

impl Default for RevocationRules {
    /// Every rule enforced.
    fn default() -> (r: RevocationRules)
        ensures
            r.born_with_handle && r.cascade && r.mesh_propagation && r.space_reclaim,
    {
        RevocationRules {
            born_with_handle: true,
            cascade: true,
            mesh_propagation: true,
            space_reclaim: true,
        }
    }
}

/// Boot proof: the constitution seal checked at power-on.
#[derive(Clone, Copy, Debug)]
pub struct BootProof {
    /// The constitution seal checked out.
    pub constitution_verified: bool,
    /// The Merkle root matched.
    pub merkle_root_match: bool,
    /// The dual signature is valid.
    pub dual_sig_valid: bool,
}

impl BootProof {
    /// All three checks passed.
    pub open spec fn passed(self) -> bool {
        self.constitution_verified && self.merkle_root_match && self.dual_sig_valid
    }

    /// What booting records of `constitution`, given the Merkle root computed
    /// over the rule set on this machine and the two signing anchors: the
    /// sealed root must equal the computed one, both seal signatures must
    /// hold over the sealed root's bytes, and the seal checks out when both
    /// do.
    pub open spec fn of(
        constitution: Constitution,
        rules_root: MerkleRoot,
        user_pk: PublicKey,
        system_pk: PublicKey,
    ) -> BootProof {
        let seal = constitution.seal;
        let root_match = seal.merkle_root == rules_root;
        let sig_valid = seal.dual_sig.valid_for(seal.merkle_root.0.0@, user_pk, system_pk);
        BootProof {
            constitution_verified: root_match && sig_valid,
            merkle_root_match: root_match,
            dual_sig_valid: sig_valid,
        }
    }

    /// Checks the constitution seal at power-on against the Merkle root of
    /// the rule set (`rules_root`) and the user and system public keys.
    pub fn verify(
        constitution: &Constitution,
        rules_root: &MerkleRoot,
        user_pk: &PublicKey,
        system_pk: &PublicKey,
    ) -> (p: BootProof)
        ensures
            p == BootProof::of(*constitution, *rules_root, *user_pk, *system_pk),
            p.dual_sig_valid <==> crate::crypto::ed25519_accepts(
                user_pk.0@,
                constitution.seal.merkle_root.0.0@,
                constitution.seal.dual_sig.user_sig.0@,
            ) && crate::crypto::ed25519_accepts(
                system_pk.0@,
                constitution.seal.merkle_root.0.0@,
                constitution.seal.dual_sig.system_sig.0@,
            ),
            p.merkle_root_match <==> constitution.seal.merkle_root == *rules_root,
    {
        proof {
            lemma_boot_by_signatures(*constitution, *rules_root, *user_pk, *system_pk);
        }
        let seal = &constitution.seal;
        let root_match = seal.merkle_root.0 == rules_root.0;
        let sig_valid = seal.dual_sig.verify(seal.merkle_root.0.0.as_slice(), user_pk, system_pk);
        BootProof {
            constitution_verified: root_match && sig_valid,
            merkle_root_match: root_match,
            dual_sig_valid: sig_valid,
        }
    }

    /// Whether all three checks passed.
    pub fn ok(&self) -> (r: bool)
        ensures
            r == self.passed(),
    {
        self.constitution_verified && self.merkle_root_match && self.dual_sig_valid
    }
}

/// An amendment of the constitution.
#[derive(Clone, Debug)]
pub struct ConstitutionAmendment {
    /// Merkle root of the new rule set.
    pub new_merkle_root: MerkleRoot,
    /// Kind of change.
    pub kind: AmendmentKind,
    /// Dual signature (required for a semantic change).
    pub dual_sig: Option<DualSignature>,
    /// Semantic-invariance proof (required for a memory-safety fix).
    pub invariant_proof: Option<SemanticInvariantProof>,
}

/// Kind of amendment.
#[derive(Clone, Copy, Debug, PartialEq, Eq, Structural)]
pub enum AmendmentKind {
    /// Permission-semantics change: dual signature, no exception.
    SemanticChange,
    /// Memory-safety fix: system signature and semantic-invariance proof.
    MemorySafetyFix,
}

impl ConstitutionAmendment {
    /// The amendment carries what its kind demands.
    pub open spec fn well_founded(self) -> bool {
        match self.kind {
            AmendmentKind::SemanticChange => self.dual_sig is Some,
            AmendmentKind::MemorySafetyFix => self.invariant_proof is Some,
        }
    }

    /// Checks the iron rule of amendments: a semantic change needs the dual
    /// signature, a memory-safety fix the semantic-invariance proof.
    pub fn validate(&self) -> (r: Result<(), AmendmentError>)
        ensures
            r is Ok <==> self.well_founded(),
            r == Err::<(), _>(AmendmentError::MissingDualSign) <==> self.kind is SemanticChange
                && self.dual_sig is None,
            r == Err::<(), _>(AmendmentError::MissingInvariantProof) <==> self.kind is MemorySafetyFix
                && self.invariant_proof is None,
    {
        match self.kind {
            AmendmentKind::SemanticChange => match self.dual_sig {
                Some(_) => Ok(()),
                None => Err(AmendmentError::MissingDualSign),
            },
            AmendmentKind::MemorySafetyFix => match &self.invariant_proof {
                Some(_) => Ok(()),
                None => Err(AmendmentError::MissingInvariantProof),
            },
        }
    }
}

/// Amendment validation errors.
#[derive(Clone, Copy, Debug, PartialEq, Eq, Structural)]
pub enum AmendmentError {
    /// A semantic change lacks the dual signature.
    MissingDualSign,
    /// A memory-safety fix lacks the semantic-invariance proof.
    MissingInvariantProof,
}

/// What booting records, in terms of the seal and the anchors: the root
/// matches exactly when the sealed root is the rule set's root; the dual
/// signature is valid exactly when Ed25519 accepts the user's signature under
/// the user's key and the system's signature under the system's key, both
/// over the sealed root's bytes; the constitution is verified, and the proof
/// passes, exactly when both hold.
pub proof fn lemma_boot_by_signatures(
    constitution: Constitution,
    rules_root: MerkleRoot,
    user_pk: PublicKey,
    system_pk: PublicKey,
)
    ensures
        ({
            let p = BootProof::of(constitution, rules_root, user_pk, system_pk);
            let root = constitution.seal.merkle_root;
            let user_ok = crate::crypto::ed25519_accepts(
                user_pk.0@,
                root.0.0@,
                constitution.seal.dual_sig.user_sig.0@,
            );
            let system_ok = crate::crypto::ed25519_accepts(
                system_pk.0@,
                root.0.0@,
                constitution.seal.dual_sig.system_sig.0@,
            );
            &&& p.merkle_root_match <==> root == rules_root
            &&& p.dual_sig_valid <==> user_ok && system_ok
            &&& p.constitution_verified <==> root == rules_root && user_ok && system_ok
            &&& p.passed() <==> root == rules_root && user_ok && system_ok
        }),
{
}

} // verus!
