//! Capability tokens.
//!
//! A warrant is intent; a capability is the power to execute.  The system is
//! the only mint: it checks signatures and bounds, and hears no argument.

use vstd::prelude::*;
use crate::lineage::{Lineage, ResourceRef, ResourceTarget};
use crate::warrant::{WarrantBudget, WarrantScope};
use vstd::arithmetic::power2::{
    lemma2_to64, lemma2_to64_rest, lemma_pow2_adds, lemma_pow2_pos, lemma_pow2_strictly_increases, lemma_pow2_unfold,
    pow2,
};
use vstd::arithmetic::div_mod::{lemma_div_denominator, lemma_fundamental_div_mod};

verus! {

/// A capability token minted from a warrant.
///
/// Lives in the transient layer; the ledger records the book, not the token.
#[derive(Clone, Debug)]
pub struct Capability {
    /// Capability id = H(warrant_id || scope || budget || ttl).
    pub id: crate::crypto::Hash,
    /// Source warrant id.
    pub warrant_id: crate::crypto::Hash,
    /// Scope (within the warrant's scope).
    pub scope: WarrantScope,
    /// Budget (within the warrant's budget).
    pub budget: WarrantBudget,
    /// Time limit (at most the warrant's).
    pub ttl_seconds: u64,
    /// Lineage (the warrant's, immutable).
    pub lineage: Lineage,
    /// Current state.
    pub state: CapabilityState,
    /// Budget consumed so far.
    pub consumed: BudgetConsumption,
}

/// Capability state machine:
///
/// ```text
/// Minted → Active → Exhausted    (budget used up)
///        ↘        ↘ Expired      (TTL ran out)
///        ↘        ↘ Revoked      (lineage revoked)
/// ```
#[derive(Clone, Copy, Debug, PartialEq, Eq, Structural)]
pub enum CapabilityState {
    /// Freshly minted, not yet active.
    Minted,
    /// Executing.
    Active,
    /// Budget used up; self-destructed.
    Exhausted,
    /// TTL ran out; self-destructed.
    Expired,
    /// Lineage revoked; destroyed by cascade.
    Revoked,
}

impl CapabilityState {
    /// The terminal states: Exhausted, Expired and Revoked.
    pub open spec fn terminal(self) -> bool {
        self is Exhausted || self is Expired || self is Revoked
    }

    /// The moves that the state diagram draws.
    pub open spec fn step(self, next: CapabilityState) -> bool {
        match self {
            CapabilityState::Minted => next is Active || next is Expired || next is Revoked,
            CapabilityState::Active => next is Exhausted || next is Expired || next is Revoked,
            _ => false,
        }
    }

    /// Whether the state is terminal.
    pub fn is_terminal(&self) -> (r: bool)
        ensures
            r == self.terminal(),
    {
        match self {
            CapabilityState::Exhausted | CapabilityState::Expired | CapabilityState::Revoked => true,
            _ => false,
        }
    }
}

/// A terminal capability state has no move out of it, and a state with no
/// move out of it is terminal.
pub proof fn lemma_capability_terminal_is_final(s: CapabilityState, next: CapabilityState)
    ensures
        s.terminal() ==> !s.step(next),
        (forall|n: CapabilityState| !#[trigger] s.step(n)) ==> s.terminal(),
{
    if !s.terminal() {
        match s {
            CapabilityState::Minted => assert(s.step(CapabilityState::Active)),
            CapabilityState::Active => assert(s.step(CapabilityState::Exhausted)),
            _ => {},
        }
    }
}

/// Budget consumed by a capability.
///
/// Egress is a number of megabytes held as a double: `egress_mb_used` is its
/// IEEE-754 bit pattern (`f64::to_bits`).
#[derive(Clone, Copy, Debug)]
pub struct BudgetConsumption {
    pub tokens_used: u64,
    pub egress_mb_used: u64,
    pub writes_count: u64,
}

impl Default for BudgetConsumption {
    /// Nothing consumed (egress `+0.0`).
    fn default() -> (c: BudgetConsumption)
        ensures
            c.tokens_used == 0 && c.egress_mb_used == 0 && c.writes_count == 0,
    {
        BudgetConsumption { tokens_used: 0, egress_mb_used: 0, writes_count: 0 }
    }
}

/// The biased exponent field of a double's bit pattern.
pub open spec fn double_exponent(bits: u64) -> int {
    ((bits / 0x10_0000_0000_0000) % 2048) as int
}

/// The fraction field of a double's bit pattern.
pub open spec fn double_fraction(bits: u64) -> int {
    (bits % 0x10_0000_0000_0000) as int
}

/// The sign bit of a double's bit pattern is set.
pub open spec fn double_sign(bits: u64) -> bool {
    bits >= 0x8000_0000_0000_0000
}

/// The double with bit pattern `bits` compares `>=` with the integer `n`:
/// NaN never does, `+inf` always, `-inf` never, `-0.0` and `+0.0` equal zero,
/// and a finite positive double is `m * 2^s` for its significand `m` and
/// scale `s`.
pub open spec fn double_at_least(bits: u64, n: nat) -> bool {
    let e = double_exponent(bits);
    let f = double_fraction(bits);
    if e == 2047 {
        f == 0 && !double_sign(bits)
    } else if double_sign(bits) {
        e == 0 && f == 0 && n == 0
    } else {
        let m = if e == 0 { f } else { f + 0x10_0000_0000_0000 };
        let s = if e == 0 { -1074 } else { e - 1075 };
        if s >= 0 {
            m * pow2(s as nat) >= n
        } else {
            m >= n * pow2((-s) as nat)
        }
    }
}

/// The double with bit pattern `bits` is NaN.
pub open spec fn double_is_nan(bits: u64) -> bool {
    double_exponent(bits) == 2047 && double_fraction(bits) != 0
}

/// The double with bit pattern `bits` is `+inf` or `-inf`.
pub open spec fn double_is_infinite(bits: u64) -> bool {
    double_exponent(bits) == 2047 && double_fraction(bits) == 0
}

/// The finite double with bit pattern `bits`, times `2^1074`: an integer,
/// since `2^-1074` is the smallest step between doubles.
pub open spec fn double_scaled(bits: u64) -> int {
    let e = double_exponent(bits);
    let f = double_fraction(bits);
    let magnitude = if e == 0 {
        f
    } else {
        (f + 0x10_0000_0000_0000) * pow2((e - 1) as nat)
    };
    if double_sign(bits) {
        -magnitude
    } else {
        magnitude
    }
}

/// The double with bit pattern `a` is no larger than the one with bit
/// pattern `b` (`a <= b` on doubles): never when either is NaN; always when
/// `a` is `-inf` or `b` is `+inf`; by value when both are finite.
pub open spec fn double_le(a: u64, b: u64) -> bool {
    &&& !double_is_nan(a)
    &&& !double_is_nan(b)
    &&& {
        ||| double_is_infinite(a) && double_sign(a)
        ||| double_is_infinite(b) && !double_sign(b)
        ||| !double_is_infinite(a) && !double_is_infinite(b) && double_scaled(a) <= double_scaled(b)
    }
}

/// How many halvings bring `n` below `2^53`.
pub open spec fn halvings(n: nat) -> nat
    decreases n,
{
    if n < 0x20_0000_0000_0000 {
        0
    } else {
        1 + halvings(n / 2)
    }
}

/// The integer that `n as f64` denotes: `n` rounded to 53 significant bits,
/// to nearest, ties to even.
pub open spec fn as_double(n: nat) -> nat {
    let k = halvings(n);
    let p = pow2(k);
    let q = n / p;
    let rem = n % p;
    if k == 0 {
        n
    } else if rem * 2 > p || (rem * 2 == p && q % 2 == 1) {
        ((q + 1) * p) as nat
    } else {
        (q * p) as nat
    }
}

/// `used` has reached the optional `limit`.
pub open spec fn reaches(used: u64, limit: Option<u64>) -> bool {
    match limit {
        Some(l) => used >= l,
        None => false,
    }
}

/// The egress double with bit pattern `bits` has reached the optional
/// megabyte `limit` (compared as `used >= limit as f64`).
pub open spec fn egress_reaches(bits: u64, limit: Option<u64>) -> bool {
    match limit {
        Some(l) => double_at_least(bits, as_double(l as nat)),
        None => false,
    }
}

/// `2^k`.
fn pow2_u128(k: u32) -> (p: u128)
    requires
        k <= 64,
    ensures
        p == pow2(k as nat),
        p <= 0x1_0000_0000_0000_0000,
{
    let mut p: u128 = 1;
    let mut i: u32 = 0;
    proof {
        lemma2_to64();
    }
    while i < k
        invariant
            i <= k <= 64,
            p == pow2(i as nat),
            pow2(64) == 0x1_0000_0000_0000_0000,
        decreases k - i,
    {
        proof {
            lemma_pow2_unfold((i + 1) as nat);
            if i + 1 < 64 {
                lemma_pow2_strictly_increases((i + 1) as nat, 64);
            }
        }
        p = p * 2;
        i = i + 1;
    }
    proof {
        if k < 64 {
            lemma_pow2_strictly_increases(k as nat, 64);
        }
    }
    p
}

/// `n as f64`, as the integer it denotes.
fn u64_as_double(n: u64) -> (r: u128)
    ensures
        r == as_double(n as nat),
        r <= 0x1_0000_0000_0000_1000,
{
    let mut q: u64 = n;
    let mut p: u64 = 1;
    let mut k: u32 = 0;
    proof {
        lemma2_to64();
    }
    while q >= 0x20_0000_0000_0000
        invariant
            p == pow2(k as nat),
            1 <= p <= 4096,
            k <= 11,
            q == n as nat / pow2(k as nat),
            q * p <= n,
            halvings(n as nat) == k + halvings(q as nat),
        decreases q,
    {
        proof {
            lemma_pow2_unfold((k + 1) as nat);
            lemma_div_denominator(n as int, p as int, 2);
            assert(p < 2048) by (nonlinear_arith)
                requires
                    q * p <= n,
                    q >= 0x20_0000_0000_0000,
                    n < 0x1_0000_0000_0000_0000,
            ;
            if k >= 11 {
                lemma2_to64();
                if k > 11 {
                    lemma_pow2_strictly_increases(11, k as nat);
                }
                assert(pow2(k as nat) >= 2048);
                assert(false);
            }
            assert((q / 2) * (p * 2) <= q * p) by (nonlinear_arith)
                requires
                    p >= 0,
                    q >= 0,
            ;
        }
        q = q / 2;
        p = p * 2;
        k = k + 1;
    }
    proof {
        lemma_fundamental_div_mod(n as int, p as int);
    }
    let rem = n % p;
    assert(rem == n as nat % pow2(k as nat));
    if k == 0 {
        assert(p == 1);
        n as u128
    } else if rem * 2 > p || (rem * 2 == p && q % 2 == 1) {
        assert((q + 1) * p <= n + p) by (nonlinear_arith)
            requires
                q * p <= n,
        ;
        (q as u128 + 1) * p as u128
    } else {
        q as u128 * p as u128
    }
}

/// Whether the double with bit pattern `bits` is at least `n`.
fn double_at_least_exec(bits: u64, n: u128) -> (r: bool)
    requires
        n <= 0x1_0000_0000_0000_1000,
    ensures
        r == double_at_least(bits, n as nat),
{
    let e = (bits / 0x10_0000_0000_0000) % 2048;
    let f = bits % 0x10_0000_0000_0000;
    let negative = bits >= 0x8000_0000_0000_0000;
    if e == 2047 {
        return f == 0 && !negative;
    }
    if negative {
        return e == 0 && f == 0 && n == 0;
    }
    let m: u128 = if e == 0 {
        f as u128
    } else {
        f as u128 + 0x10_0000_0000_0000
    };
    proof {
        lemma2_to64();
    }
    if e >= 1075 {
        let s = e - 1075;
        if s >= 65 {
            proof {
                lemma_pow2_unfold(65);
                if s > 65 {
                    lemma_pow2_strictly_increases(65, s as nat);
                }
                assert(m * pow2(s as nat) >= pow2(s as nat)) by (nonlinear_arith)
                    requires
                        m >= 1,
                ;
            }
            return true;
        }
        let p = pow2_u128(s as u32);
        assert(m * p <= 0x20_0000_0000_0000 * 0x1_0000_0000_0000_0000) by (nonlinear_arith)
            requires
                m <= 0x20_0000_0000_0000,
                p <= 0x1_0000_0000_0000_0000,
        ;
        m * p >= n
    } else {
        let d: u64 = if e == 0 {
            1074
        } else {
            1075 - e
        };
        if d >= 64 {
            proof {
                if d > 64 {
                    lemma_pow2_strictly_increases(64, d as nat);
                }
                if n >= 1 {
                    assert(n * pow2(d as nat) >= pow2(d as nat)) by (nonlinear_arith)
                        requires
                            n >= 1,
                    ;
                }
            }
            return n == 0;
        }
        let p = pow2_u128(d as u32);
        proof {
            lemma2_to64_rest();
            if d < 63 {
                lemma_pow2_strictly_increases(d as nat, 63);
            }
        }
        assert(n * p <= 0x1_0000_0000_0000_1000 * 0x8000_0000_0000_0000) by (nonlinear_arith)
            requires
                n <= 0x1_0000_0000_0000_1000,
                p <= 0x8000_0000_0000_0000,
        ;
        m >= n * p
    }
}

impl BudgetConsumption {
    /// Some quota of `budget` has been reached.
    pub open spec fn reaches_budget(self, budget: WarrantBudget) -> bool {
        ||| reaches(self.tokens_used, budget.tokens)
        ||| egress_reaches(self.egress_mb_used, budget.egress_mb)
        ||| reaches(self.writes_count, budget.writes_per_hour)
    }

    /// Whether the consumption has reached the warrant budget.
    pub fn exceeds(&self, budget: &WarrantBudget) -> (r: bool)
        ensures
            r == self.reaches_budget(*budget),
    {
        if let Some(limit) = budget.tokens {
            if self.tokens_used >= limit {
                return true;
            }
        }
        if let Some(limit) = budget.egress_mb {
            if double_at_least_exec(self.egress_mb_used, u64_as_double(limit)) {
                return true;
            }
        }
        if let Some(limit) = budget.writes_per_hour {
            if self.writes_count >= limit {
                return true;
            }
        }
        false
    }
}

/// Repeated halving stops below `2^53`, and not below `2^52` when it had to
/// start at all.
proof fn lemma_halvings(n: nat)
    ensures
        n / pow2(halvings(n)) < 0x20_0000_0000_0000,
        n >= 0x20_0000_0000_0000 ==> n / pow2(halvings(n)) >= 0x10_0000_0000_0000,
        n < 0x20_0000_0000_0000 ==> halvings(n) == 0,
    decreases n,
{
    if n >= 0x20_0000_0000_0000 {
        lemma_halvings(n / 2);
        let k = halvings(n / 2);
        lemma_pow2_unfold(k + 1);
        lemma_pow2_pos(k);
        lemma_div_denominator(n as int, 2, pow2(k) as int);
        assert(pow2(k + 1) == 2 * pow2(k));
        if n / 2 < 0x20_0000_0000_0000 {
            assert(k == 0);
            lemma2_to64();
        }
    } else {
        lemma2_to64();
    }
}

/// `n as f64` is zero exactly when `n` is.
proof fn lemma_as_double_zero(n: nat)
    ensures
        as_double(n) == 0 <==> n == 0,
{
    lemma_halvings(n);
    let k = halvings(n);
    let p = pow2(k);
    let q = n / p;
    lemma_pow2_pos(k);
    if n >= 0x20_0000_0000_0000 {
        assert(q * p > 0) by (nonlinear_arith)
            requires
                q >= 1,
                p >= 1,
        ;
        assert((q + 1) * p > 0) by (nonlinear_arith)
            requires
                q >= 1,
                p >= 1,
        ;
    }
}

/// A fresh consumption has reached a budget exactly when one of the
/// budget's quotas is zero.
pub proof fn lemma_fresh_consumption(budget: WarrantBudget)
    ensures
        (BudgetConsumption { tokens_used: 0, egress_mb_used: 0, writes_count: 0 }).reaches_budget(
            budget,
        ) <==> (budget.tokens == Some(0u64) || budget.egress_mb == Some(0u64)
            || budget.writes_per_hour == Some(0u64)),
{
    lemma2_to64();
    if let Some(l) = budget.egress_mb {
        lemma_as_double_zero(l as nat);
        assert(double_exponent(0) == 0 && double_fraction(0) == 0);
        lemma_pow2_pos(1074);
        let t = as_double(l as nat) * pow2(1074);
        assert(as_double(l as nat) > 0 ==> t > 0) by (nonlinear_arith)
            requires
                t == as_double(l as nat) * pow2(1074),
                pow2(1074) > 0,
        ;
    }
}

/// A finite double is at least `n` exactly when its scaled value is at
/// least `n * 2^1074`.
proof fn lemma_at_least_scaled(bits: u64, n: nat)
    requires
        !double_is_infinite(bits),
        !double_is_nan(bits),
    ensures
        double_at_least(bits, n) <==> double_scaled(bits) >= n * pow2(1074),
{
    let e = double_exponent(bits);
    let f = double_fraction(bits);
    let big = pow2(1074);
    lemma_pow2_pos(1074);
    assert(n * big >= 0) by (nonlinear_arith)
        requires
            big > 0,
    ;
    assert(n * big == 0 ==> n == 0) by (nonlinear_arith)
        requires
            big > 0,
    ;
    if e != 0 {
        let m = f + 0x10_0000_0000_0000;
        let q = pow2((e - 1) as nat);
        lemma_pow2_pos((e - 1) as nat);
        assert(m * q > 0) by (nonlinear_arith)
            requires
                m > 0,
                q > 0,
        ;
        if e >= 1075 {
            let s = (e - 1075) as nat;
            lemma_pow2_adds(s, 1074);
            assert(q == pow2(s) * big);
            assert(m * q == (m * pow2(s)) * big) by (nonlinear_arith)
                requires
                    q == pow2(s) * big,
            ;
            assert((m * pow2(s)) * big >= n * big <==> m * pow2(s) >= n) by (nonlinear_arith)
                requires
                    big > 0,
            ;
        } else {
            let d = (1075 - e) as nat;
            lemma_pow2_adds(d, (e - 1) as nat);
            assert(big == pow2(d) * q);
            assert(n * big == (n * pow2(d)) * q) by (nonlinear_arith)
                requires
                    big == pow2(d) * q,
            ;
            assert(m * q >= (n * pow2(d)) * q <==> m >= n * pow2(d)) by (nonlinear_arith)
                requires
                    q > 0,
            ;
        }
    }
}

/// When a consumption has reached a budget, in terms of the numbers: tokens
/// when a token quota is set and `tokens_used` is at least it; writes when a
/// write-rate quota is set and `writes_count` is at least it; egress when an
/// egress quota is set and the egress double is at least it.  Of the egress
/// double: NaN reaches no quota; `+inf` reaches every quota and `-inf` none;
/// and below `2^53` megabytes, where every limit is a double exactly, a
/// finite egress reaches the limit exactly when its value is at least the
/// limit.
pub proof fn lemma_reaching_by_value(c: BudgetConsumption, budget: WarrantBudget)
    ensures
        c.reaches_budget(budget) <==> {
            ||| budget.tokens is Some && c.tokens_used >= budget.tokens.unwrap()
            ||| budget.egress_mb is Some && egress_reaches(c.egress_mb_used, budget.egress_mb)
            ||| budget.writes_per_hour is Some && c.writes_count >= budget.writes_per_hour.unwrap()
        },
        double_is_nan(c.egress_mb_used) ==> !egress_reaches(c.egress_mb_used, budget.egress_mb),
        double_is_infinite(c.egress_mb_used) && budget.egress_mb is Some ==> (egress_reaches(
            c.egress_mb_used,
            budget.egress_mb,
        ) <==> !double_sign(c.egress_mb_used)),
        !double_is_nan(c.egress_mb_used) && !double_is_infinite(c.egress_mb_used)
            && budget.egress_mb is Some && budget.egress_mb.unwrap() < 0x20_0000_0000_0000 ==> (
        egress_reaches(c.egress_mb_used, budget.egress_mb) <==> double_scaled(c.egress_mb_used)
            >= budget.egress_mb.unwrap() * pow2(1074)),
{
    if let Some(l) = budget.egress_mb {
        lemma_halvings(l as nat);
        if !double_is_nan(c.egress_mb_used) && !double_is_infinite(c.egress_mb_used) {
            lemma_at_least_scaled(c.egress_mb_used, as_double(l as nat));
        }
    }
}

/// Consumption only grows toward exhaustion: once a budget is reached, any
/// consumption at least as large in every quota (egress compared as doubles)
/// reaches it too.
pub proof fn lemma_reaching_is_monotone(
    less: BudgetConsumption,
    more: BudgetConsumption,
    budget: WarrantBudget,
)
    requires
        less.tokens_used <= more.tokens_used,
        double_le(less.egress_mb_used, more.egress_mb_used),
        less.writes_count <= more.writes_count,
        less.reaches_budget(budget),
    ensures
        more.reaches_budget(budget),
{
    if let Some(l) = budget.egress_mb {
        let n = as_double(l as nat);
        if double_at_least(less.egress_mb_used, n) && !double_is_infinite(more.egress_mb_used) {
            assert(!double_is_infinite(less.egress_mb_used));
            lemma_at_least_scaled(less.egress_mb_used, n);
            lemma_at_least_scaled(more.egress_mb_used, n);
        }
    }
}

/// A mint request: deriving a capability from a warrant.
#[derive(Clone, Debug)]
pub struct MintRequest {
    pub warrant_id: crate::crypto::Hash,
    pub scope: WarrantScope,
    pub budget: WarrantBudget,
    pub ttl_seconds: u64,
}

/// Outcome of minting.
#[derive(Clone, Debug)]
pub enum MintResult {
    /// Minted.
    Minted(Capability),
    /// Rejected for breaking a bound.
    Rejected(MintRejection),
}

/// Why the mint refused.
#[derive(Clone, Copy, Debug, PartialEq, Eq, Structural)]
pub enum MintRejection {
    /// The warrant does not exist or is terminal.
    WarrantInvalid,
    /// capability.scope is not within warrant.scope.
    ScopeExceeds,
    /// capability.ttl exceeds warrant.ttl.
    TtlExceeds,
    /// capability.budget exceeds warrant.budget.
    BudgetExceeds,
    /// No override: the mint checks signatures, it hears no argument.
    NoOverride,
}

/// The two references designate the same resource.
pub open spec fn same_target(a: ResourceRef, b: ResourceRef) -> bool {
    a@ == b@
}

/// `r` is named, by view, somewhere in `list`.
pub open spec fn listed_in(list: Seq<ResourceRef>, r: ResourceRef) -> bool {
    exists|j: int| 0 <= j < list.len() && #[trigger] same_target(list[j], r)
}

/// Every reference of `inner` is named in `outer`.
pub open spec fn refs_within(inner: Seq<ResourceRef>, outer: Seq<ResourceRef>) -> bool {
    forall|i: int| 0 <= i < inner.len() ==> #[trigger] listed_in(outer, inner[i])
}

/// `cap` ⊆ `warrant`: data, services and actuators each.
pub open spec fn scope_within(cap: WarrantScope, warrant: WarrantScope) -> bool {
    &&& refs_within(cap.data@, warrant.data@)
    &&& refs_within(cap.services@, warrant.services@)
    &&& refs_within(cap.actuators@, warrant.actuators@)
}

/// One quota of a capability is within the warrant's: unset, or set and
/// at most a quota that the warrant sets.
pub open spec fn limit_within(cap: Option<u64>, warrant: Option<u64>) -> bool {
    match cap {
        None => true,
        Some(c) => match warrant {
            Some(w) => c <= w,
            None => false,
        },
    }
}

/// `cap` ≤ `warrant`: tokens, egress and write rate each.
pub open spec fn budget_within(cap: WarrantBudget, warrant: WarrantBudget) -> bool {
    &&& limit_within(cap.tokens, warrant.tokens)
    &&& limit_within(cap.egress_mb, warrant.egress_mb)
    &&& limit_within(cap.writes_per_hour, warrant.writes_per_hour)
}

/// What the mint answers a request: a scope breach outranks a time-limit
/// breach, which outranks a budget breach.
pub open spec fn mint_outcome(
    req: MintRequest,
    warrant_scope: WarrantScope,
    warrant_budget: WarrantBudget,
    warrant_ttl: u64,
) -> Result<(), MintRejection> {
    if !scope_within(req.scope, warrant_scope) {
        Err(MintRejection::ScopeExceeds)
    } else if req.ttl_seconds > warrant_ttl {
        Err(MintRejection::TtlExceeds)
    } else if !budget_within(req.budget, warrant_budget) {
        Err(MintRejection::BudgetExceeds)
    } else {
        Ok(())
    }
}

/// The mint's bound check:
///
/// ```text
/// rule mint.scope      "capability.scope ⊆ warrant.scope"
/// rule mint.ttl        "capability.ttl ≤ warrant.ttl"
/// rule mint.budget     "capability.budget ≤ warrant.budget"
/// rule mint.override   none
/// ```
pub fn verify_mint(
    req: &MintRequest,
    warrant_scope: &WarrantScope,
    warrant_budget: &WarrantBudget,
    warrant_ttl: u64,
) -> (r: Result<(), MintRejection>)
    ensures
        r == mint_outcome(*req, *warrant_scope, *warrant_budget, warrant_ttl),
        r is Ok <==> scope_within(req.scope, *warrant_scope) && req.ttl_seconds <= warrant_ttl
            && budget_within(req.budget, *warrant_budget),
        r is Ok ==> (req.budget.tokens is Some ==> warrant_budget.tokens is Some
            && req.budget.tokens.unwrap() <= warrant_budget.tokens.unwrap()),
        r is Ok ==> (req.budget.egress_mb is Some ==> warrant_budget.egress_mb is Some
            && req.budget.egress_mb.unwrap() <= warrant_budget.egress_mb.unwrap()),
        r is Ok ==> (req.budget.writes_per_hour is Some ==> warrant_budget.writes_per_hour is Some
            && req.budget.writes_per_hour.unwrap() <= warrant_budget.writes_per_hour.unwrap()),
{
    proof {
        lemma_mint_answer_by_fields(*req, *warrant_scope, *warrant_budget, warrant_ttl);
    }
    if !scope_is_subset(&req.scope, warrant_scope) {
        return Err(MintRejection::ScopeExceeds);
    }
    if req.ttl_seconds > warrant_ttl {
        return Err(MintRejection::TtlExceeds);
    }
    if budget_exceeds(&req.budget, warrant_budget) {
        return Err(MintRejection::BudgetExceeds);
    }
    Ok(())
}

/// `t` is what one of the references in `list` designates.
pub open spec fn designates(list: Seq<ResourceRef>, t: ResourceTarget) -> bool {
    exists|j: int| 0 <= j < list.len() && list[j]@ == t
}

/// A reference is listed exactly when the list designates its target.
proof fn lemma_listed_by_view(list: Seq<ResourceRef>, r: ResourceRef)
    ensures
        listed_in(list, r) <==> designates(list, r@),
{
    if listed_in(list, r) {
        let j = choose|j: int| 0 <= j < list.len() && #[trigger] same_target(list[j], r);
        assert(list[j]@ == r@);
    }
    if designates(list, r@) {
        let j = choose|j: int| 0 <= j < list.len() && list[j]@ == r@;
        assert(same_target(list[j], r));
    }
}

/// Every reference of `inner` is, by target, one of `outer`'s.
proof fn lemma_refs_within_by_view(inner: Seq<ResourceRef>, outer: Seq<ResourceRef>)
    ensures
        refs_within(inner, outer) <==> forall|i: int|
            0 <= i < inner.len() ==> #[trigger] designates(outer, inner[i]@),
{
    assert forall|i: int| 0 <= i < inner.len() implies (listed_in(outer, inner[i]) <==> #[trigger] designates(
        outer,
        inner[i]@,
    )) by {
        lemma_listed_by_view(outer, inner[i]);
    }
    if !refs_within(inner, outer) {
        let i = choose|i: int| 0 <= i < inner.len() && !#[trigger] listed_in(outer, inner[i]);
        assert(!designates(outer, inner[i]@));
    }
}

/// What the mint answers, in terms of the request and the warrant alone:
/// it refuses the scope when some resource of the request is not one that
/// the warrant designates; else the time limit when it is longer than the
/// warrant's; else the budget when some quota of the request (tokens,
/// egress, write rate) is set while the warrant leaves it unset or sets it
/// lower; and it mints otherwise.
pub proof fn lemma_mint_answer_by_fields(
    req: MintRequest,
    warrant_scope: WarrantScope,
    warrant_budget: WarrantBudget,
    warrant_ttl: u64,
)
    ensures
        ({
            let scope_ok = {
                &&& forall|i: int|
                    0 <= i < req.scope.data@.len() ==> #[trigger] designates(
                        warrant_scope.data@,
                        req.scope.data@[i]@,
                    )
                &&& forall|i: int|
                    0 <= i < req.scope.services@.len() ==> #[trigger] designates(
                        warrant_scope.services@,
                        req.scope.services@[i]@,
                    )
                &&& forall|i: int|
                    0 <= i < req.scope.actuators@.len() ==> #[trigger] designates(
                        warrant_scope.actuators@,
                        req.scope.actuators@[i]@,
                    )
            };
            let budget_ok = {
                &&& (req.budget.tokens is Some ==> warrant_budget.tokens is Some
                    && req.budget.tokens.unwrap() <= warrant_budget.tokens.unwrap())
                &&& (req.budget.egress_mb is Some ==> warrant_budget.egress_mb is Some
                    && req.budget.egress_mb.unwrap() <= warrant_budget.egress_mb.unwrap())
                &&& (req.budget.writes_per_hour is Some ==> warrant_budget.writes_per_hour is Some
                    && req.budget.writes_per_hour.unwrap() <= warrant_budget.writes_per_hour.unwrap())
            };
            let answer = mint_outcome(req, warrant_scope, warrant_budget, warrant_ttl);
            &&& (answer is Ok <==> scope_ok && req.ttl_seconds <= warrant_ttl && budget_ok)
            &&& (!scope_ok ==> answer == Err::<(), MintRejection>(MintRejection::ScopeExceeds))
            &&& (scope_ok && req.ttl_seconds > warrant_ttl ==> answer == Err::<(), MintRejection>(
                MintRejection::TtlExceeds,
            ))
            &&& (scope_ok && req.ttl_seconds <= warrant_ttl && !budget_ok ==> answer == Err::<
                (),
                MintRejection,
            >(MintRejection::BudgetExceeds))
        }),
{
    lemma_refs_within_by_view(req.scope.data@, warrant_scope.data@);
    lemma_refs_within_by_view(req.scope.services@, warrant_scope.services@);
    lemma_refs_within_by_view(req.scope.actuators@, warrant_scope.actuators@);
}

/// Whether `list` holds a reference equal to `r`.
fn contains_ref(list: &Vec<ResourceRef>, r: &ResourceRef) -> (found: bool)
    ensures
        found == listed_in(list@, *r),
{
    let mut j: usize = 0;
    while j < list.len()
        invariant
            j <= list@.len(),
            forall|k: int| 0 <= k < j ==> list@[k]@ != r@,
        decreases list@.len() - j,
    {
        if list[j] == *r {
            assert(same_target(list@[j as int], *r));
            return true;
        }
        j = j + 1;
    }
    false
}

/// Whether every reference of `inner` is in `outer`.
fn all_listed(inner: &Vec<ResourceRef>, outer: &Vec<ResourceRef>) -> (ok: bool)
    ensures
        ok == refs_within(inner@, outer@),
{
    let mut i: usize = 0;
    while i < inner.len()
        invariant
            i <= inner@.len(),
            forall|k: int| 0 <= k < i ==> #[trigger] listed_in(outer@, inner@[k]),
        decreases inner@.len() - i,
    {
        if !contains_ref(outer, &inner[i]) {
            return false;
        }
        i = i + 1;
    }
    true
}

fn scope_is_subset(cap: &WarrantScope, warrant: &WarrantScope) -> (ok: bool)
    ensures
        ok == scope_within(*cap, *warrant),
{
    all_listed(&cap.data, &warrant.data) && all_listed(&cap.services, &warrant.services)
        && all_listed(&cap.actuators, &warrant.actuators)
}

fn budget_exceeds(cap: &WarrantBudget, warrant: &WarrantBudget) -> (exceeds: bool)
    ensures
        exceeds == !budget_within(*cap, *warrant),
{
    if let (Some(c), Some(w)) = (cap.tokens, warrant.tokens) {
        if c > w {
            return true;
        }
    } else if cap.tokens.is_some() && warrant.tokens.is_none() {
        return true;
    }
    if let (Some(c), Some(w)) = (cap.egress_mb, warrant.egress_mb) {
        if c > w {
            return true;
        }
    } else if cap.egress_mb.is_some() && warrant.egress_mb.is_none() {
        return true;
    }
    if let (Some(c), Some(w)) = (cap.writes_per_hour, warrant.writes_per_hour) {
        if c > w {
            return true;
        }
    } else if cap.writes_per_hour.is_some() && warrant.writes_per_hour.is_none() {
        return true;
    }
    false
}

/// A request for exactly the warrant's own scope, budget and time limit is
/// always minted.
pub proof fn lemma_mint_own_bounds(req: MintRequest, warrant_ttl: u64)
    requires
        req.ttl_seconds == warrant_ttl,
    ensures
        mint_outcome(req, req.scope, req.budget, warrant_ttl) == Ok::<(), MintRejection>(()),
{
    lemma_refs_within_self(req.scope.data@);
    lemma_refs_within_self(req.scope.services@);
    lemma_refs_within_self(req.scope.actuators@);
}

proof fn lemma_refs_within_self(a: Seq<ResourceRef>)
    ensures
        refs_within(a, a),
{
    assert forall|i: int| 0 <= i < a.len() implies #[trigger] listed_in(a, a[i]) by {
        assert(same_target(a[i], a[i]));
    }
}

/// Bounds compose: what lies within a capability's bounds, which lie within
/// a warrant's, lies within the warrant's.
pub proof fn lemma_within_transitive(
    a_scope: WarrantScope,
    b_scope: WarrantScope,
    c_scope: WarrantScope,
    a_budget: WarrantBudget,
    b_budget: WarrantBudget,
    c_budget: WarrantBudget,
)
    requires
        scope_within(a_scope, b_scope),
        scope_within(b_scope, c_scope),
        budget_within(a_budget, b_budget),
        budget_within(b_budget, c_budget),
    ensures
        scope_within(a_scope, c_scope),
        budget_within(a_budget, c_budget),
{
    lemma_refs_within_transitive(a_scope.data@, b_scope.data@, c_scope.data@);
    lemma_refs_within_transitive(a_scope.services@, b_scope.services@, c_scope.services@);
    lemma_refs_within_transitive(a_scope.actuators@, b_scope.actuators@, c_scope.actuators@);
}

proof fn lemma_refs_within_transitive(a: Seq<ResourceRef>, b: Seq<ResourceRef>, c: Seq<ResourceRef>)
    requires
        refs_within(a, b),
        refs_within(b, c),
    ensures
        refs_within(a, c),
{
    assert forall|i: int| 0 <= i < a.len() implies #[trigger] listed_in(c, a[i]) by {
        assert(listed_in(b, a[i]));
        let j = choose|j: int| 0 <= j < b.len() && #[trigger] same_target(b[j], a[i]);
        assert(listed_in(c, b[j]));
        let k = choose|k: int| 0 <= k < c.len() && #[trigger] same_target(c[k], b[j]);
        assert(same_target(c[k], a[i]));
    }
}

} // verus!
