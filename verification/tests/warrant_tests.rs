use warrant_spec::crypto;
use warrant_spec::{
    HeartbeatProof, Lineage, PlanDigest, ResourceRef, RevocationHandle, Signature, Warrant,
    WarrantBudget, WarrantError, WarrantScope, WarrantState, WarrantTtl, WarrantType,
};

fn live_warrant() -> Warrant {
    let zero = crypto::Hash::zero();
    Warrant {
        id: zero,
        warrant_type: WarrantType::Live,
        intent: "transcode last month's video".to_string(),
        intent_hash: zero,
        plan_digest: PlanDigest(zero),
        scope: WarrantScope {
            data: vec![],
            services: vec![ResourceRef::service("ffmpeg")],
            actuators: vec![],
        },
        budget: WarrantBudget { tokens: Some(1000), egress_mb: None, writes_per_hour: None },
        ttl: WarrantTtl { seconds: Some(600), expiry: None, proof: None },
        revocation_handle: RevocationHandle(zero),
        lineage: Lineage(zero),
        state: WarrantState::Signed,
        user_sig: Signature([0u8; 64]),
    }
}

#[test]
fn complete_live_warrant_validates() {
    assert_eq!(live_warrant().validate(), Ok(()));
}

#[test]
fn empty_intent_is_rejected_first() {
    let mut w = live_warrant();
    w.intent = String::new();
    w.scope.services.clear();
    assert_eq!(w.validate(), Err(WarrantError::EmptyIntent));
}

#[test]
fn empty_scope_is_rejected() {
    let mut w = live_warrant();
    w.scope.services.clear();
    assert_eq!(w.validate(), Err(WarrantError::EmptyScope));
}

#[test]
fn empty_budget_is_rejected() {
    let mut w = live_warrant();
    w.budget.tokens = None;
    assert_eq!(w.validate(), Err(WarrantError::EmptyBudget));
}

#[test]
fn live_warrant_without_seconds_is_rejected() {
    let mut w = live_warrant();
    w.ttl.seconds = None;
    assert_eq!(w.validate(), Err(WarrantError::LiveMissingTtl));
}

#[test]
fn standing_warrant_needs_expiry_and_proof() {
    let mut w = live_warrant();
    w.warrant_type = WarrantType::Standing;
    w.ttl.seconds = None;
    w.ttl.expiry = Some("2030-01-01T00:00:00Z".to_string());
    assert_eq!(w.validate(), Err(WarrantError::StandingMissingExpiryOrProof));
    w.ttl.proof = Some(HeartbeatProof { interval_min: 5 });
    assert_eq!(w.validate(), Ok(()));
    w.ttl.expiry = None;
    assert_eq!(w.validate(), Err(WarrantError::StandingMissingExpiryOrProof));
}

#[test]
fn actuator_only_scope_counts() {
    let mut w = live_warrant();
    w.scope.services.clear();
    w.scope.actuators.push(ResourceRef::Actuator { path: "living/ac".to_string() });
    assert_eq!(w.validate(), Ok(()));
}

#[test]
fn warrant_terminal_and_active_states() {
    for s in [WarrantState::Drafted, WarrantState::Signed, WarrantState::Live] {
        assert!(!s.is_terminal());
    }
    for s in [WarrantState::Redeemed, WarrantState::Expired, WarrantState::Revoked] {
        assert!(s.is_terminal());
        assert!(!s.is_active());
    }
    assert!(WarrantState::Live.is_active());
    assert!(!WarrantState::Signed.is_active());
}
