//! Guardrail: the policy layer of a payment vault for autonomous agents.
//!
//! An owner sets up an agent policy (an authorized agent key, one allowed
//! recipient, a per-transaction limit, a daily limit, an expiry and a pause
//! switch). A payment request is approved only when every check of the
//! policy passes and the vault can pay while keeping its rent reserve.
//!
//! `policy` holds the decisions, each with its model and an exact contract;
//! `instructions` runs them with what the cluster supplies (clock, rent,
//! the agent's derived address), which `runtime` obtains through
//! `anchor_lang`; `laws` states what holds across requests.

pub mod instructions;
pub mod laws;
pub mod policy;
pub mod program_id;
pub mod pubkey;
pub mod runtime;
pub mod state;

pub use instructions::{
    agent_address, agent_rent_reserve, execute_payment, execute_payment_with_clock, initialize_agent,
    initialize_agent_with_clock, update_policy, update_policy_with_clock, Error,
};
pub use policy::{
    authorize_payment, deposit, execute_payment_at, initialize_agent_at, pause_agent, resume_agent,
    update_policy_at, Deposit, ExecutePayment, InitializeAgent, UpdateAgentStatus, UpdatePolicy,
};
pub use program_id::id;
pub use pubkey::Pubkey;
pub use state::{Agent, GuardrailError, PaymentExecuted, DAY_SECONDS};
