use warrant_spec::crypto;
use warrant_spec::{
    verify_mint, BudgetConsumption, CapabilityState, MintRejection, MintRequest, ResourceRef,
    WarrantBudget, WarrantScope,
};

fn scope(services: &[&str], sensors: &[&str]) -> WarrantScope {
    WarrantScope {
        data: sensors.iter().map(|p| ResourceRef::Sensor { path: p.to_string() }).collect(),
        services: services.iter().map(|s| ResourceRef::service(s)).collect(),
        actuators: vec![],
    }
}

fn budget(tokens: Option<u64>, egress: Option<u64>, writes: Option<u64>) -> WarrantBudget {
    WarrantBudget { tokens, egress_mb: egress, writes_per_hour: writes }
}

fn request(scope: WarrantScope, budget: WarrantBudget, ttl: u64) -> MintRequest {
    MintRequest { warrant_id: crypto::Hash::zero(), scope, budget, ttl_seconds: ttl }
}

#[test]
fn mint_within_every_bound_is_accepted() {
    let w_scope = scope(&["ffmpeg", "ocr"], &["home/temp"]);
    let w_budget = budget(Some(1000), Some(50), None);
    let req = request(scope(&["ocr"], &[]), budget(Some(10), Some(50), None), 60);
    assert_eq!(verify_mint(&req, &w_scope, &w_budget, 600), Ok(()));
}

#[test]
fn mint_with_the_warrants_own_bounds_is_accepted() {
    let w_scope = scope(&["ffmpeg"], &["home/temp"]);
    let w_budget = budget(Some(1000), None, Some(3));
    let req = request(w_scope.clone(), w_budget.clone(), 600);
    assert_eq!(verify_mint(&req, &w_scope, &w_budget, 600), Ok(()));
}

#[test]
fn mint_scope_outside_warrant_is_rejected() {
    let w_scope = scope(&["ffmpeg"], &[]);
    let req = request(scope(&["ocr"], &[]), budget(None, None, None), 10);
    assert_eq!(
        verify_mint(&req, &w_scope, &budget(Some(1), None, None), 600),
        Err(MintRejection::ScopeExceeds)
    );
}

#[test]
fn mint_scope_is_checked_before_ttl() {
    let w_scope = scope(&["ffmpeg"], &[]);
    let req = request(scope(&[], &["garage"]), budget(None, None, None), 9999);
    assert_eq!(
        verify_mint(&req, &w_scope, &budget(None, None, None), 1),
        Err(MintRejection::ScopeExceeds)
    );
}

#[test]
fn mint_longer_ttl_is_rejected() {
    let w_scope = scope(&["ffmpeg"], &[]);
    let req = request(scope(&["ffmpeg"], &[]), budget(Some(1), None, None), 601);
    assert_eq!(
        verify_mint(&req, &w_scope, &budget(Some(5), None, None), 600),
        Err(MintRejection::TtlExceeds)
    );
}

#[test]
fn mint_larger_budget_is_rejected() {
    let w_scope = scope(&["ffmpeg"], &[]);
    let req = request(scope(&["ffmpeg"], &[]), budget(Some(6), None, None), 600);
    assert_eq!(
        verify_mint(&req, &w_scope, &budget(Some(5), None, None), 600),
        Err(MintRejection::BudgetExceeds)
    );
}

#[test]
fn mint_quota_the_warrant_lacks_is_rejected() {
    let w_scope = scope(&["ffmpeg"], &[]);
    let req = request(scope(&["ffmpeg"], &[]), budget(None, None, Some(1)), 600);
    assert_eq!(
        verify_mint(&req, &w_scope, &budget(Some(5), Some(5), None), 600),
        Err(MintRejection::BudgetExceeds)
    );
}

#[test]
fn consumption_reaching_a_quota_exceeds() {
    let b = budget(Some(100), Some(10), Some(3));
    let fresh = BudgetConsumption::default();
    assert!(!fresh.exceeds(&b));
    let tokens = BudgetConsumption { tokens_used: 100, egress_mb_used: 0, writes_count: 0 };
    assert!(tokens.exceeds(&b));
    let egress = BudgetConsumption { tokens_used: 0, egress_mb_used: 10f64.to_bits(), writes_count: 0 };
    assert!(egress.exceeds(&b));
    let writes = BudgetConsumption { tokens_used: 0, egress_mb_used: 0, writes_count: 3 };
    assert!(writes.exceeds(&b));
    let below = BudgetConsumption { tokens_used: 99, egress_mb_used: 9.5f64.to_bits(), writes_count: 2 };
    assert!(!below.exceeds(&b));
}

#[test]
fn consumption_without_quotas_never_exceeds() {
    let huge = BudgetConsumption {
        tokens_used: u64::MAX,
        egress_mb_used: f64::INFINITY.to_bits(),
        writes_count: u64::MAX,
    };
    assert!(!huge.exceeds(&budget(None, None, None)));
    assert!(BudgetConsumption::default().exceeds(&budget(None, Some(0), None)));
}

#[test]
fn capability_terminal_states() {
    assert!(!CapabilityState::Minted.is_terminal());
    assert!(!CapabilityState::Active.is_terminal());
    assert!(CapabilityState::Exhausted.is_terminal());
    assert!(CapabilityState::Expired.is_terminal());
    assert!(CapabilityState::Revoked.is_terminal());
}

#[test]
fn nested_bounds_compose() {
    let outer_scope = scope(&["ffmpeg", "ocr", "tts"], &["a", "b"]);
    let outer_budget = budget(Some(100), Some(10), Some(5));
    let middle_scope = scope(&["ffmpeg", "ocr"], &["a"]);
    let middle_budget = budget(Some(50), Some(10), None);
    let inner = request(scope(&["ocr"], &["a"]), budget(Some(20), None, None), 30);
    assert_eq!(verify_mint(&inner, &middle_scope, &middle_budget, 60), Ok(()));
    let middle = request(middle_scope.clone(), middle_budget.clone(), 60);
    assert_eq!(verify_mint(&middle, &outer_scope, &outer_budget, 600), Ok(()));
    assert_eq!(verify_mint(&inner, &outer_scope, &outer_budget, 600), Ok(()));
}

#[test]
fn more_consumption_stays_exhausted() {
    let b = budget(Some(10), None, None);
    let less = BudgetConsumption { tokens_used: 10, egress_mb_used: 0, writes_count: 0 };
    let more = BudgetConsumption { tokens_used: 11, egress_mb_used: 4.25f64.to_bits(), writes_count: 1 };
    assert!(less.exceeds(&b));
    assert!(more.exceeds(&b));
}

fn egress(used: f64, limit: u64) -> bool {
    let c = BudgetConsumption { tokens_used: 0, egress_mb_used: used.to_bits(), writes_count: 0 };
    c.exceeds(&budget(None, Some(limit), None))
}

#[test]
fn fractional_egress_is_compared_exactly() {
    assert!(!egress(9.5, 10));
    assert!(egress(9.5, 9));
    assert!(egress(10.0, 10));
    assert!(!egress(9.999999, 10));
    assert!(egress(10.000001, 10));
    assert!(egress(0.1, 0));
    assert!(!egress(0.1, 1));
}

#[test]
fn egress_special_values() {
    assert!(!egress(f64::NAN, 0));
    assert!(!egress(-f64::NAN, 0));
    assert!(egress(0.0, 0));
    assert!(egress(-0.0, 0));
    assert!(!egress(-0.0, 1));
    assert!(!egress(-1.0, 0));
    assert!(egress(f64::INFINITY, u64::MAX));
    assert!(!egress(f64::NEG_INFINITY, 0));
    assert!(egress(f64::MIN_POSITIVE, 0));
    assert!(egress(f64::from_bits(1), 0));
    assert!(!egress(f64::from_bits(1), 1));
    assert!(!egress(-f64::from_bits(1), 0));
    assert!(egress(f64::MAX, u64::MAX));
}

#[test]
fn egress_limit_is_rounded_like_a_double() {
    let two53 = 9_007_199_254_740_992f64;
    // 2^53 + 1 rounds to 2^53 as a double, 2^53 + 3 to 2^53 + 4.
    assert!(egress(two53, 9_007_199_254_740_993));
    assert!(!egress(two53 + 2.0, 9_007_199_254_740_995));
    assert!(egress(two53 + 4.0, 9_007_199_254_740_995));
    // u64::MAX rounds up to 2^64.
    assert!(egress(18_446_744_073_709_551_616f64, u64::MAX));
    assert!(!egress(18_446_744_073_709_549_568f64, u64::MAX));
}

#[test]
fn egress_matches_float_comparison() {
    let used = [
        0.0, -0.0, 0.5, 1.0, 2.5, 1e3, 1e15, 4.5e15, 9.007_199_254_740_992e15, 1.8e19, 1e300,
        f64::NAN, f64::INFINITY, f64::NEG_INFINITY, -3.0, f64::MIN_POSITIVE, 1e-310,
    ];
    let limits = [
        0u64, 1, 2, 3, 1000, 1_000_000_000_000_000, 4_500_000_000_000_000,
        9_007_199_254_740_993, 18_000_000_000_000_000_000, u64::MAX,
    ];
    for &u in used.iter() {
        for &l in limits.iter() {
            assert_eq!(egress(u, l), u >= l as f64, "{} >= {}", u, l);
        }
    }
}

#[test]
fn more_egress_stays_exhausted() {
    let b = budget(None, Some(9), None);
    for (less, more) in [(9.0, 9.0), (9.5, 12.25), (9.5, f64::INFINITY), (1e300, f64::INFINITY)] {
        assert!(less <= more);
        let l = BudgetConsumption { tokens_used: 0, egress_mb_used: f64::to_bits(less), writes_count: 0 };
        let m = BudgetConsumption { tokens_used: 0, egress_mb_used: f64::to_bits(more), writes_count: 0 };
        assert!(l.exceeds(&b));
        assert!(m.exceeds(&b));
    }
}
