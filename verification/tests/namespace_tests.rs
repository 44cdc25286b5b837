use warrant_spec::crypto;
use warrant_spec::{
    AgentIdentity, BillingMethod, BudgetEstimate, Capability, CapabilityState, Enclave,
    EnclaveState, EnclaveType, EndpointTier, Lineage, Mesh, Registry, Run, RuntimeCapability,
    RuntimeState, ServiceManifest, ServiceStatefulness, SessionContext, WarrantBudget,
    WarrantScope, BudgetConsumption,
};

fn manifest(name: &str, vendor: &str) -> ServiceManifest {
    ServiceManifest {
        service: name.to_string(),
        vendor: vendor.to_string(),
        capabilities: vec!["ffmpeg:encode".to_string()],
        enclave: EnclaveType::TeeSev,
        statefulness: ServiceStatefulness::Stateless,
        data_view: "purpose-bound".to_string(),
        billing: BillingMethod::PerSecond,
    }
}

#[test]
fn registry_finds_first_registered_manifest() {
    let mut r = Registry::default();
    assert!(r.find("ffmpeg").is_none());
    r.register(manifest("ocr", "a"));
    r.register(manifest("ffmpeg", "first"));
    r.register(manifest("ffmpeg", "second"));
    assert_eq!(r.manifests.len(), 3);
    assert_eq!(r.find("ffmpeg").unwrap().vendor, "first");
    assert_eq!(r.find("ocr").unwrap().vendor, "a");
    assert!(r.find("whisper").is_none());
}

#[test]
fn register_then_find_returns_the_new_manifest() {
    let mut r = Registry::default();
    r.register(manifest("whisper", "v"));
    assert_eq!(r.find("whisper").unwrap().service, "whisper");
}

#[test]
fn enclave_and_billing_text() {
    assert_eq!(EnclaveType::TeeSev.to_text(), "tee:sev");
    assert_eq!(EnclaveType::TeeTdx.to_text(), "tee:tdx");
    assert_eq!(EnclaveType::TeeCca.to_text(), "tee:cca");
    assert_eq!(EnclaveType::Sandbox.to_text(), "sandbox");
    assert_eq!(BillingMethod::PerSecond.to_text(), "per-second");
    assert_eq!(BillingMethod::PerCall.to_text(), "per-call");
    assert_eq!(BillingMethod::PerMB.to_text(), "per-mb");
    assert_eq!(BillingMethod::PerFlop.to_text(), "per-flop");
}

#[test]
fn endpoint_confirmation_methods() {
    assert_eq!(EndpointTier::Desktop.confirmation_method(), "全量三件套审阅");
    assert_eq!(EndpointTier::Mobile.confirmation_method(), "生物识别签名");
    assert_eq!(EndpointTier::Wearable.confirmation_method(), "一瞥确认,预算封顶");
    assert_eq!(EndpointTier::IoT.confirmation_method(), "常设令状+持续证明");
}

#[test]
fn run_reboot_clears_everything() {
    let zero = crypto::Hash::zero();
    let cap = Capability {
        id: zero,
        warrant_id: zero,
        scope: WarrantScope { data: vec![], services: vec![], actuators: vec![] },
        budget: WarrantBudget { tokens: Some(1), egress_mb: None, writes_per_hour: None },
        ttl_seconds: 10,
        lineage: Lineage(zero),
        state: CapabilityState::Active,
        consumed: BudgetConsumption::default(),
    };
    let mut run = Run::default();
    run.enclaves.push(Enclave {
        id: "e1".to_string(),
        service: "ffmpeg".to_string(),
        enclave_type: "tee:sev".to_string(),
        capability_id: "c1".to_string(),
        state: EnclaveState::Running,
    });
    run.capabilities.push(RuntimeCapability { capability: cap, enclave_id: "e1".to_string(), state: RuntimeState::Executing });
    run.reboot();
    assert!(run.enclaves.is_empty());
    assert!(run.capabilities.is_empty());
}

#[test]
fn defaults_of_mind_and_mesh() {
    let a = AgentIdentity::default();
    assert_eq!(a.agent, "executor");
    assert_eq!(a.role, "翻译官 + 图书管理员");
    assert_eq!(a.obeys, "warrant only");
    assert_eq!(a.sovereignty, "none");
    assert_eq!(a.memory, vec!["context/".to_string()]);
    assert!(a.replaceable);
    let s = SessionContext::default();
    assert!(s.last_intent.is_none() && s.pending_plans == 0 && s.context_window.is_empty());
    let b = BudgetEstimate::default();
    assert!(b.tokens.is_none() && b.egress_mb.is_none());
    let m = Mesh::default();
    assert!(m.peers.is_empty() && m.anchors.is_empty() && m.migrations.is_empty());
}
