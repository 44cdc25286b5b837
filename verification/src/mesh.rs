//! The federation: a cross-device mesh.  Authority follows the person, not
//! the device.

use vstd::prelude::*;

verus! {

/// Endpoint tier: each device class has its own kernel completeness and its
/// own way of confirming.
#[derive(Clone, Copy, Debug, PartialEq, Eq, Structural)]
pub enum EndpointTier {
    /// Desktop: full kernel, full three-part review.
    Desktop,
    /// Mobile: kernel and security chip, biometric signature.
    Mobile,
    /// Wearable: slim kernel anchored on the phone, glance confirmation,
    /// capped budget.
    Wearable,
    /// IoT: the gateway holds the kernel, endpoints are dumb; standing
    /// warrant and continuous proof.
    IoT,
}

impl EndpointTier {
    /// The confirmation method of the tier.
    pub open spec fn method(self) -> Seq<char> {
        match self {
            EndpointTier::Desktop => "全量三件套审阅"@,
            EndpointTier::Mobile => "生物识别签名"@,
            EndpointTier::Wearable => "一瞥确认,预算封顶"@,
            EndpointTier::IoT => "常设令状+持续证明"@,
        }
    }

    /// How an endpoint of this tier confirms.
    pub fn confirmation_method(&self) -> (m: &str)
        ensures
            m@ == self.method(),
    {
        match self {
            EndpointTier::Desktop => "全量三件套审阅",
            EndpointTier::Mobile => "生物识别签名",
            EndpointTier::Wearable => "一瞥确认,预算封顶",
            EndpointTier::IoT => "常设令状+持续证明",
        }
    }
}

/// Signing anchor: a device holding a hardware key.
#[derive(Clone, Debug)]
pub struct Anchor {
    /// Anchor name (such as "phone").
    pub anchor: String,
    /// Where the keys live (such as "secure-enclave:ed25519").
    pub keys: String,
    /// Devices this anchor signs for.
    pub signs_for: Vec<String>,
    /// Migration policy: the hardware key takes over standing warrants.
    pub migration: String,
    /// Degradation policy when contact is lost.
    pub loss_policy: String,
}

/// A known device of the federation.
#[derive(Clone, Debug)]
pub struct Peer {
    /// Device id.
    pub device: String,
    /// Endpoint role.
    pub role: PeerRole,
    /// Endpoint tier.
    pub tier: EndpointTier,
    /// Local budget cap while offline.
    pub degraded_budget: Option<DegradedBudget>,
    /// Reconciliation policy on reconnect.
    pub reconcile: String,
}

/// Endpoint role.
#[derive(Clone, Copy, Debug, PartialEq, Eq, Structural)]
pub enum PeerRole {
    /// Where the user issues warrants.
    IntentEntry,
    /// Executing endpoint.
    Executor,
    /// Gateway holding the kernel for dumb endpoints.
    Gateway,
}

/// Degraded budget: the local budget after the anchor has been out of
/// contact too long.
#[derive(Clone, Debug)]
pub struct DegradedBudget {
    /// Money cap (such as "20 CNY").
    pub money: String,
    /// Data cap (such as "10 MB").
    pub data: String,
}

/// Anchor migration record: a hardware key taking over on a device change.
#[derive(Clone, Debug)]
pub struct MigrationRecord {
    /// Old anchor.
    pub from_anchor: String,
    /// New anchor.
    pub to_anchor: String,
    /// Standing warrants taken over.
    pub standing_warrants_taken: u64,
    /// Timestamp.
    pub timestamp: String,
}

/// The federation mesh: cross-device state.
#[derive(Clone, Debug)]
pub struct Mesh {
    /// Known devices.
    pub peers: Vec<Peer>,
    /// Signing anchors.
    pub anchors: Vec<Anchor>,
    /// Migration history.
    pub migrations: Vec<MigrationRecord>,
}

impl Default for Mesh {
    /// An empty mesh.
    fn default() -> (m: Mesh)
        ensures
            m.peers@.len() == 0 && m.anchors@.len() == 0 && m.migrations@.len() == 0,
    {
        Mesh { peers: Vec::new(), anchors: Vec::new(), migrations: Vec::new() }
    }
}

} // verus!
