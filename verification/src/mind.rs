//! Agent memory: the executing agent's local model, context and session
//! memory.  A trustee, not a sovereign.

use vstd::prelude::*;

verus! {

/// Agent identity and role declaration.
#[derive(Clone, Debug)]
pub struct AgentIdentity {
    /// Agent kind (executor).
    pub agent: String,
    /// Role (translator and librarian).
    pub role: String,
    /// Obeys: warrants only.
    pub obeys: String,
    /// Sovereignty: none.
    pub sovereignty: String,
    /// Memory paths.
    pub memory: Vec<String>,
    /// Replaceable as a whole.
    pub replaceable: bool,
}

impl Default for AgentIdentity {
    /// The executor agent: translator and librarian, obeying warrants only,
    /// without sovereignty, remembering `context/`, replaceable.
    fn default() -> (a: AgentIdentity)
        ensures
            a.agent@ == "executor"@,
            a.role@ == "翻译官 + 图书管理员"@,
            a.obeys@ == "warrant only"@,
            a.sovereignty@ == "none"@,
            a.memory@.len() == 1,
            a.memory@[0]@ == "context/"@,
            a.replaceable,
    {
        AgentIdentity {
            agent: "executor".to_owned(),
            role: "翻译官 + 图书管理员".to_owned(),
            obeys: "warrant only".to_owned(),
            sovereignty: "none".to_owned(),
            memory: vec!["context/".to_owned()],
            replaceable: true,
        }
    }
}

/// Session context: temporary memory for interpreting intent.
#[derive(Clone, Debug)]
pub struct SessionContext {
    /// The latest intent.
    pub last_intent: Option<String>,
    /// Plans pending.
    pub pending_plans: u32,
    /// Context window (digests of the conversation).
    pub context_window: Vec<ContextTurn>,
}

impl Default for SessionContext {
    /// An empty session.
    fn default() -> (c: SessionContext)
        ensures
            c.last_intent is None,
            c.pending_plans == 0,
            c.context_window@.len() == 0,
    {
        SessionContext { last_intent: None, pending_plans: 0, context_window: Vec::new() }
    }
}

/// One turn of conversation context.
#[derive(Clone, Copy, Debug)]
pub struct ContextTurn {
    /// Who spoke.
    pub role: TurnRole,
    /// Content digest.
    pub digest: crate::crypto::Hash,
}

/// Turn role.
#[derive(Clone, Copy, Debug, PartialEq, Eq, Structural)]
pub enum TurnRole {
    /// The user.
    User,
    /// The agent.
    Agent,
    /// The system (mint or ledger).
    System,
}

/// A plan proposed by the agent: data list, service list, budget cap.
#[derive(Clone, Debug)]
pub struct ProposedPlan {
    /// Intent (enumerable).
    pub intent: String,
    /// Data list.
    pub data_refs: Vec<String>,
    /// Service list.
    pub service_refs: Vec<String>,
    /// Budget cap.
    pub budget_estimate: BudgetEstimate,
    /// Expected duration.
    pub estimated_ttl: u64,
}

/// Budget estimate.
#[derive(Clone, Copy, Debug)]
pub struct BudgetEstimate {
    pub tokens: Option<u64>,
    pub egress_mb: Option<u64>,
}

impl Default for BudgetEstimate {
    /// No estimate.
    fn default() -> (b: BudgetEstimate)
        ensures
            b.tokens is None && b.egress_mb is None,
    {
        BudgetEstimate { tokens: None, egress_mb: None }
    }
}

} // verus!
