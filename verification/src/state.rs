//! The agent account, the payment event and the errors of the policy.
use vstd::prelude::*;
use crate::pubkey::Pubkey;

verus! {

/// The seed that, with the owner's address, derives an agent account.
pub open spec fn agent_seed_spec() -> Seq<u8> {
    seq![97u8, 103u8, 101u8, 110u8, 116u8]
}

/// The bytes `b"agent"`.
pub fn agent_seed() -> (seed: Vec<u8>)
    ensures
        seed@ == agent_seed_spec(),
{
    let seed: Vec<u8> = vec![97u8, 103u8, 101u8, 110u8, 116u8];
    assert(seed@ =~= agent_seed_spec());
    seed
}

/// Length of one daily spending window, in seconds.
pub const DAY_SECONDS: i64 = 86400;

/// The policy state of one agent, stored in the account derived from
/// `[b"agent", owner]`.
#[derive(Clone, Copy, Debug, PartialEq, Eq)]
pub struct Agent {
    pub owner: Pubkey,
    pub agent_authority: Pubkey,
    pub max_per_transaction: u64,
    pub daily_limit: u64,
    pub spent_today: u64,
    pub day_start: i64,
    pub allowed_recipient: Pubkey,
    pub expiry: i64,
    pub paused: bool,
    pub bump: u8,
}

impl Agent {
    /// Bytes that the fields of an `Agent` take when stored: three
    /// addresses of 32 bytes, five 8-byte integers, a flag and the bump.
    pub const INIT_SPACE: usize = 138;

    /// Bytes of the whole agent account: the 8-byte account discriminator
    /// and the fields.
    pub const ACCOUNT_SPACE: usize = 8 + Agent::INIT_SPACE;

    /// The limits are consistent: a positive per-transaction limit and a
    /// daily limit at least as large.
    pub open spec fn limits_valid(self) -> bool {
        &&& self.max_per_transaction > 0
        &&& self.daily_limit >= self.max_per_transaction
    }
}

/// Emitted for each approved payment.
#[derive(Clone, Copy, Debug, PartialEq, Eq)]
pub struct PaymentExecuted {
    pub agent: Pubkey,
    pub recipient: Pubkey,
    pub amount: u64,
    pub timestamp: i64,
}

/// Why the policy refused a request.
#[derive(Clone, Copy, Debug, PartialEq, Eq, Structural)]
pub enum GuardrailError {
    UnauthorizedOwner,
    UnauthorizedAgent,
    InvalidAmount,
    InvalidTransactionLimit,
    InvalidDailyLimit,
    InvalidExpiry,
    AgentPaused,
    PolicyExpired,
    RecipientNotAllowed,
    PerTransactionLimitExceeded,
    DailyLimitExceeded,
    InsufficientVaultBalance,
}

impl GuardrailError {
    /// The message shown for the error.
    pub fn message(&self) -> (msg: &'static str)
        ensures
            msg@ == match *self {
                GuardrailError::UnauthorizedOwner => "Only the agent owner can perform this action"@,
                GuardrailError::UnauthorizedAgent => "Unauthorized agent authority"@,
                GuardrailError::InvalidAmount => "Transaction amount must be greater than zero"@,
                GuardrailError::InvalidTransactionLimit => "Invalid per-transaction limit"@,
                GuardrailError::InvalidDailyLimit => "Daily limit must be greater than or equal to the transaction limit"@,
                GuardrailError::InvalidExpiry => "Policy expiry must be in the future"@,
                GuardrailError::AgentPaused => "The agent is paused"@,
                GuardrailError::PolicyExpired => "The policy has expired"@,
                GuardrailError::RecipientNotAllowed => "Recipient is not allowed by policy"@,
                GuardrailError::PerTransactionLimitExceeded => "Per-transaction spending limit exceeded"@,
                GuardrailError::DailyLimitExceeded => "Daily spending limit exceeded"@,
                GuardrailError::InsufficientVaultBalance => "Insufficient vault balance"@,
            },
    {
        match self {
            GuardrailError::UnauthorizedOwner => "Only the agent owner can perform this action",
            GuardrailError::UnauthorizedAgent => "Unauthorized agent authority",
            GuardrailError::InvalidAmount => "Transaction amount must be greater than zero",
            GuardrailError::InvalidTransactionLimit => "Invalid per-transaction limit",
            GuardrailError::InvalidDailyLimit => "Daily limit must be greater than or equal to the transaction limit",
            GuardrailError::InvalidExpiry => "Policy expiry must be in the future",
            GuardrailError::AgentPaused => "The agent is paused",
            GuardrailError::PolicyExpired => "The policy has expired",
            GuardrailError::RecipientNotAllowed => "Recipient is not allowed by policy",
            GuardrailError::PerTransactionLimitExceeded => "Per-transaction spending limit exceeded",
            GuardrailError::DailyLimitExceeded => "Daily spending limit exceeded",
            GuardrailError::InsufficientVaultBalance => "Insufficient vault balance",
        }
    }
}

} // verus!
