//! Warrants.
//!
//! The atomic unit of authority is not an identity but **one issued
//! intent**.  Without a warrant the system refuses to mint, services get no
//! capability, and the agent cannot move.

use vstd::prelude::*;
use crate::crypto::Signature;
use crate::lineage::{Lineage, ResourceRef};

verus! {

/// Warrant type: a one-shot intent or a standing intent.
#[derive(Clone, Copy, Debug, PartialEq, Eq, Structural)]
pub enum WarrantType {
    /// One-shot intent; destroys itself when its TTL runs out.
    Live,
    /// Standing intent (such as IoT control); must keep proving liveness by
    /// heartbeat and degrades when the heartbeat stops.
    Standing,
}

/// Scope: which data, services and actuators the warrant may touch.
#[derive(Clone, Debug)]
pub struct WarrantScope {
    /// Data resources (vault addresses or sensor paths).
    pub data: Vec<ResourceRef>,
    /// Callable services (registry references).
    pub services: Vec<ResourceRef>,
    /// Drivable actuators (standing warrants).
    pub actuators: Vec<ResourceRef>,
}

impl WarrantScope {
    /// At least one data resource, service or actuator is named.
    pub open spec fn is_nonempty(self) -> bool {
        self.data@.len() > 0 || self.services@.len() > 0 || self.actuators@.len() > 0
    }
}

/// Budget: counts, traffic and compute quotas; exhausted means stop.
#[derive(Clone, Debug)]
pub struct WarrantBudget {
    /// Token quota for model calls.
    pub tokens: Option<u64>,
    /// Egress traffic cap (MB).
    pub egress_mb: Option<u64>,
    /// Write-rate cap (writes per hour, standing warrants).
    pub writes_per_hour: Option<u64>,
}

impl WarrantBudget {
    /// At least one quota is set.
    pub open spec fn is_nonempty(self) -> bool {
        self.tokens is Some || self.egress_mb is Some || self.writes_per_hour is Some
    }
}

/// Time limit: self-destructs on time and cannot be extended.
#[derive(Clone, Debug)]
pub struct WarrantTtl {
    /// Seconds to live (live warrants).
    pub seconds: Option<u64>,
    /// Absolute expiry (standing warrants).
    pub expiry: Option<String>,
    /// Heartbeat proof (standing warrants only).
    pub proof: Option<HeartbeatProof>,
}

/// Continuous liveness proof of a standing warrant.
#[derive(Clone, Copy, Debug)]
pub struct HeartbeatProof {
    /// Heartbeat interval (minutes).
    pub interval_min: u16,
}

/// Revocation handle: revoking cascades over the whole mesh.
#[derive(Clone, Copy, Debug)]
pub struct RevocationHandle(pub crate::crypto::Hash);

/// Warrant state machine:
///
/// ```text
/// Drafted → Signed → Live → Redeemed    (normal redemption)
///                  ↘      ↘ Expired     (TTL ran out)
///                  ↘      ↘ Revoked     (user revoked)
/// ```
///
/// Irreversible: once Expired, Redeemed or Revoked, there is no way back.
#[derive(Clone, Copy, Debug, PartialEq, Eq, Structural)]
pub enum WarrantState {
    /// Drafted: the agent proposed a plan, not yet signed.
    Drafted,
    /// Signed with the user's hardware key.
    Signed,
    /// Capabilities minted, executing.
    Live,
    /// Redeemed: task done, capabilities burnt.
    Redeemed,
    /// Expired: TTL ran out.
    Expired,
    /// Revoked by the user; the lineage cascades away.
    Revoked,
}

impl WarrantState {
    /// The terminal states: Redeemed, Expired and Revoked.
    pub open spec fn terminal(self) -> bool {
        self is Redeemed || self is Expired || self is Revoked
    }

    /// The moves that the state diagram draws.
    pub open spec fn step(self, next: WarrantState) -> bool {
        match self {
            WarrantState::Drafted => next is Signed,
            WarrantState::Signed => next is Live || next is Expired || next is Revoked,
            WarrantState::Live => next is Redeemed || next is Expired || next is Revoked,
            _ => false,
        }
    }

    /// Whether the state is terminal.
    pub fn is_terminal(&self) -> (r: bool)
        ensures
            r == self.terminal(),
    {
        match self {
            WarrantState::Redeemed | WarrantState::Expired | WarrantState::Revoked => true,
            _ => false,
        }
    }

    /// Whether the warrant is live (executing).
    pub fn is_active(&self) -> (r: bool)
        ensures
            r == (*self is Live),
    {
        match self {
            WarrantState::Live => true,
            _ => false,
        }
    }
}

/// A terminal warrant state has no move out of it, and a state with no move
/// out of it is terminal; an active warrant is never terminal.
pub proof fn lemma_warrant_terminal_is_final(s: WarrantState, next: WarrantState)
    ensures
        s.terminal() ==> !s.step(next),
        (forall|n: WarrantState| !#[trigger] s.step(n)) ==> s.terminal(),
        s is Live ==> !s.terminal(),
{
    if !s.terminal() {
        match s {
            WarrantState::Drafted => assert(s.step(WarrantState::Signed)),
            WarrantState::Signed => assert(s.step(WarrantState::Live)),
            WarrantState::Live => assert(s.step(WarrantState::Redeemed)),
            _ => {},
        }
    }
}

/// Plan digest: the hash of the data list, service list and budget cap.
#[derive(Clone, Copy, Debug)]
pub struct PlanDigest(pub crate::crypto::Hash);

/// A warrant: one issued intent, the authority atom of the whole system.
#[derive(Clone, Debug)]
pub struct Warrant {
    /// Warrant id = H(intent || scope || budget || ttl || handle).
    pub id: crate::crypto::Hash,
    /// Warrant type.
    pub warrant_type: WarrantType,
    /// Intent (human readable, but enumerable).
    pub intent: String,
    /// Intent hash.
    pub intent_hash: crate::crypto::Hash,
    /// Plan digest.
    pub plan_digest: PlanDigest,
    /// Scope.
    pub scope: WarrantScope,
    /// Budget.
    pub budget: WarrantBudget,
    /// Time limit.
    pub ttl: WarrantTtl,
    /// Revocation handle.
    pub revocation_handle: RevocationHandle,
    /// Derived lineage.
    pub lineage: Lineage,
    /// Current state.
    pub state: WarrantState,
    /// User hardware-key signature.
    pub user_sig: Signature,
}

impl Warrant {
    /// The time limit fits the warrant type: a live warrant has its seconds,
    /// a standing warrant both its expiry and its heartbeat proof.
    pub open spec fn ttl_complete(self) -> bool {
        match self.warrant_type {
            WarrantType::Live => self.ttl.seconds is Some,
            WarrantType::Standing => self.ttl.expiry is Some && self.ttl.proof is Some,
        }
    }

    /// All four attributes are present and the intent is not empty.
    pub open spec fn complete(self) -> bool {
        &&& self.intent@.len() > 0
        &&& self.scope.is_nonempty()
        &&& self.budget.is_nonempty()
        &&& self.ttl_complete()
    }

    /// Checks that the warrant's four attributes are complete; a
    /// non-enumerable intent cannot enter a warrant.
    pub fn validate(&self) -> (r: Result<(), WarrantError>)
        ensures
            r is Ok <==> self.complete(),
            r == Err::<(), _>(WarrantError::EmptyIntent) <==> self.intent@.len() == 0,
            r == Err::<(), _>(WarrantError::EmptyScope) <==> self.intent@.len() > 0
                && !self.scope.is_nonempty(),
            r == Err::<(), _>(WarrantError::EmptyBudget) <==> self.intent@.len() > 0
                && self.scope.is_nonempty() && !self.budget.is_nonempty(),
            r == Err::<(), _>(WarrantError::LiveMissingTtl) <==> self.intent@.len() > 0
                && self.scope.is_nonempty() && self.budget.is_nonempty()
                && self.warrant_type is Live && !self.ttl_complete(),
            r == Err::<(), _>(WarrantError::StandingMissingExpiryOrProof) <==> self.intent@.len()
                > 0 && self.scope.is_nonempty() && self.budget.is_nonempty()
                && self.warrant_type is Standing && !self.ttl_complete(),
            r == Err::<(), _>(WarrantError::EmptyBudget) ==> self.budget.tokens is None
                && self.budget.egress_mb is None && self.budget.writes_per_hour is None,
    {
        proof {
            lemma_validation_by_fields(*self);
        }
        if self.intent.as_str().is_empty() {
            return Err(WarrantError::EmptyIntent);
        }
        if self.scope.data.is_empty() && self.scope.services.is_empty()
            && self.scope.actuators.is_empty() {
            return Err(WarrantError::EmptyScope);
        }
        if self.budget.tokens.is_none() && self.budget.egress_mb.is_none()
            && self.budget.writes_per_hour.is_none() {
            return Err(WarrantError::EmptyBudget);
        }
        match self.warrant_type {
            WarrantType::Live => {
                if self.ttl.seconds.is_none() {
                    return Err(WarrantError::LiveMissingTtl);
                }
            },
            WarrantType::Standing => {
                if self.ttl.expiry.is_none() || self.ttl.proof.is_none() {
                    return Err(WarrantError::StandingMissingExpiryOrProof);
                }
            },
        }
        Ok(())
    }
}

/// Warrant validation errors.
#[derive(Clone, Copy, Debug, PartialEq, Eq, Structural)]
pub enum WarrantError {
    /// The intent is empty.
    EmptyIntent,
    /// The scope is empty (at least one data item, service or actuator).
    EmptyScope,
    /// The budget is empty (at least one quota).
    EmptyBudget,
    /// A live warrant lacks its TTL seconds.
    LiveMissingTtl,
    /// A standing warrant lacks its expiry or heartbeat proof.
    StandingMissingExpiryOrProof,
}

/// What validation accepts, in terms of the warrant's fields: a non-empty
/// intent; at least one data item, service or actuator; at least one quota,
/// any one of tokens, egress and write rate; and the time limit that the
/// warrant type asks for (seconds for a live warrant, expiry and heartbeat
/// proof for a standing one).  A budget is refused as empty exactly when all
/// three quotas are unset.
pub proof fn lemma_validation_by_fields(w: Warrant)
    ensures
        w.scope.is_nonempty() <==> !(w.scope.data@.len() == 0 && w.scope.services@.len() == 0
            && w.scope.actuators@.len() == 0),
        w.budget.is_nonempty() <==> !(w.budget.tokens is None && w.budget.egress_mb is None
            && w.budget.writes_per_hour is None),
        w.warrant_type is Live ==> (w.ttl_complete() <==> w.ttl.seconds is Some),
        w.warrant_type is Standing ==> (w.ttl_complete() <==> w.ttl.expiry is Some
            && w.ttl.proof is Some),
        w.complete() <==> {
            &&& w.intent@.len() != 0
            &&& !(w.scope.data@.len() == 0 && w.scope.services@.len() == 0
                && w.scope.actuators@.len() == 0)
            &&& !(w.budget.tokens is None && w.budget.egress_mb is None
                && w.budget.writes_per_hour is None)
            &&& (w.warrant_type is Live ==> w.ttl.seconds is Some)
            &&& (w.warrant_type is Standing ==> w.ttl.expiry is Some && w.ttl.proof is Some)
        },
{
}

} // verus!
