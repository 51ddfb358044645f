use anchor_lang::prelude::Rent;
use guardrail::{
    agent_address, agent_rent_reserve, authorize_payment, deposit, execute_payment, execute_payment_at, id,
    initialize_agent, initialize_agent_at, pause_agent, resume_agent, update_policy,
    update_policy_at, Agent, Deposit, Error, ExecutePayment, GuardrailError, InitializeAgent,
    PaymentExecuted, Pubkey, UpdateAgentStatus, UpdatePolicy, DAY_SECONDS,
};

const LAMPORTS_PER_SOL: u64 = 1_000_000_000;
const NOW: i64 = 1_750_000_000;
const RENT_RESERVE: u64 = 1_850_160;

fn key(byte: u8) -> Pubkey {
    Pubkey::new_from_array([byte; 32])
}

fn blank_agent() -> Agent {
    Agent {
        owner: key(0),
        agent_authority: key(0),
        max_per_transaction: 0,
        daily_limit: 0,
        spent_today: 0,
        day_start: 0,
        allowed_recipient: key(0),
        expiry: 0,
        paused: false,
        bump: 0,
    }
}

/// An agent created at `now` by `owner` with the given policy.
fn create_agent(owner: Pubkey, authority: Pubkey, max: u64, daily: u64, recipient: Pubkey, expiry: i64, now: i64) -> Agent {
    let (address, bump) = agent_address(&owner).expect("an agent address exists");
    let mut ctx = InitializeAgent { owner, agent_key: address, agent: blank_agent() };
    initialize_agent_at(&mut ctx, bump, authority, max, daily, recipient, expiry, now)
        .expect("policy accepted");
    ctx.agent
}

fn payment(agent: Agent, vault: u64, authority: Pubkey, recipient: Pubkey) -> ExecutePayment {
    ExecutePayment {
        agent,
        agent_key: key(200),
        agent_lamports: vault,
        agent_authority: authority,
        recipient,
        recipient_lamports: 10 * LAMPORTS_PER_SOL,
    }
}

fn pay(ctx: &mut ExecutePayment, amount: u64, now: i64) -> Result<PaymentExecuted, GuardrailError> {
    execute_payment_at(ctx, amount, now, RENT_RESERVE)
}

#[test]
fn guardrail_policy_enforcement() {
    let owner = key(1);
    let agent_authority = key(2);
    let allowed_recipient = key(3);
    let blocked_recipient = key(4);
    let unauthorized_agent = key(5);
    let unauthorized_owner = key(6);
    let expiry = NOW + 86_400;

    // Initialize the agent.
    let agent = create_agent(owner, agent_authority, LAMPORTS_PER_SOL, 2 * LAMPORTS_PER_SOL, allowed_recipient, expiry, NOW);

    // Deposit 5 SOL.
    let dep = Deposit { agent, owner };
    assert_eq!(deposit(&dep, 5 * LAMPORTS_PER_SOL), Ok(()));
    let mut ctx = payment(agent, RENT_RESERVE + 5 * LAMPORTS_PER_SOL, agent_authority, allowed_recipient);

    // Valid payment.
    assert!(pay(&mut ctx, LAMPORTS_PER_SOL, NOW + 10).is_ok());

    // Wrong recipient.
    ctx.recipient = blocked_recipient;
    let result = pay(&mut ctx, 100_000_000, NOW + 20);
    assert!(result.is_err());
    ctx.recipient = allowed_recipient;

    // Per-transaction limit.
    let result = pay(&mut ctx, 2 * LAMPORTS_PER_SOL, NOW + 30);
    assert!(result.is_err());

    // Unauthorized agent.
    ctx.agent_authority = unauthorized_agent;
    let result = pay(&mut ctx, 100_000_000, NOW + 40);
    assert!(result.is_err());
    ctx.agent_authority = agent_authority;

    // Daily limit: a second payment fits, a third does not.
    pay(&mut ctx, LAMPORTS_PER_SOL, NOW + 50).expect("second payment failed");
    let result = pay(&mut ctx, 100_000_000, NOW + 60);
    assert!(result.is_err());

    // Pause, then payments are refused.
    let mut status = UpdateAgentStatus { agent: ctx.agent, owner };
    pause_agent(&mut status).expect("pause_agent failed");
    ctx.agent = status.agent;
    let result = pay(&mut ctx, 100_000_000, NOW + 70);
    assert!(result.is_err());

    // Resume.
    let mut status = UpdateAgentStatus { agent: ctx.agent, owner };
    resume_agent(&mut status).expect("resume_agent failed");
    ctx.agent = status.agent;
    assert!(!ctx.agent.paused);

    // Unauthorized owner.
    let mut status = UpdateAgentStatus { agent: ctx.agent, owner: unauthorized_owner };
    let result = pause_agent(&mut status);
    assert!(result.is_err());

    // Expired policy.
    let expired_authority = key(7);
    let short_expiry = NOW + 2;
    let short_lived = create_agent(unauthorized_owner, expired_authority, LAMPORTS_PER_SOL, LAMPORTS_PER_SOL, allowed_recipient, short_expiry, NOW);
    let mut expired = payment(short_lived, RENT_RESERVE + 2 * LAMPORTS_PER_SOL, expired_authority, allowed_recipient);
    let result = pay(&mut expired, 100_000_000, NOW + 3);
    assert!(result.is_err());

    // Invalid policy configurations.
    let invalid_owner = key(8);
    let (invalid_address, invalid_bump) = agent_address(&invalid_owner).unwrap();
    let mut init = InitializeAgent { owner: invalid_owner, agent_key: invalid_address, agent: blank_agent() };
    let result = initialize_agent_at(&mut init, invalid_bump, key(9), 0, LAMPORTS_PER_SOL, allowed_recipient, expiry, NOW);
    assert!(result.is_err());
    let result = initialize_agent_at(&mut init, invalid_bump, key(9), 2 * LAMPORTS_PER_SOL, LAMPORTS_PER_SOL, allowed_recipient, expiry, NOW);
    assert!(result.is_err());
    let result = initialize_agent_at(&mut init, invalid_bump, key(9), LAMPORTS_PER_SOL, LAMPORTS_PER_SOL, allowed_recipient, NOW - 1, NOW);
    assert!(result.is_err());

    // Insufficient vault balance: 0.5 SOL deposited, 1 SOL requested.
    let balance_owner = key(10);
    let balance_authority = key(11);
    let balance_recipient = key(12);
    let balance_agent = create_agent(balance_owner, balance_authority, LAMPORTS_PER_SOL, LAMPORTS_PER_SOL, balance_recipient, expiry, NOW);
    let mut low = payment(balance_agent, RENT_RESERVE + LAMPORTS_PER_SOL / 2, balance_authority, balance_recipient);
    let result = pay(&mut low, LAMPORTS_PER_SOL, NOW + 5);
    assert!(result.is_err(), "payment should fail when vault balance is insufficient");
}

#[test]
fn initialize_writes_policy_and_window() {
    let owner = key(1);
    let (address, bump) = agent_address(&owner).unwrap();
    let mut ctx = InitializeAgent { owner, agent_key: address, agent: blank_agent() };
    assert_eq!(initialize_agent_at(&mut ctx, bump, key(2), 100, 300, key(3), NOW + 10, NOW), Ok(()));
    assert_eq!(
        ctx.agent,
        Agent {
            owner,
            agent_authority: key(2),
            max_per_transaction: 100,
            daily_limit: 300,
            spent_today: 0,
            day_start: NOW,
            allowed_recipient: key(3),
            expiry: NOW + 10,
            paused: false,
            bump: 254,
        }
    );
}

#[test]
fn initialize_errors_in_order() {
    let mut ctx = InitializeAgent { owner: key(1), agent_key: key(1), agent: blank_agent() };
    assert_eq!(initialize_agent_at(&mut ctx, 1, key(2), 0, 0, key(3), NOW - 5, NOW), Err(GuardrailError::InvalidTransactionLimit));
    assert_eq!(initialize_agent_at(&mut ctx, 1, key(2), 10, 9, key(3), NOW - 5, NOW), Err(GuardrailError::InvalidDailyLimit));
    assert_eq!(initialize_agent_at(&mut ctx, 1, key(2), 10, 10, key(3), NOW, NOW), Err(GuardrailError::InvalidExpiry));
    assert_eq!(ctx.agent, blank_agent());
    assert_eq!(initialize_agent_at(&mut ctx, 1, key(2), 10, 10, key(3), NOW + 1, NOW), Ok(()));
}

#[test]
fn update_policy_replaces_only_the_policy() {
    let owner = key(1);
    let mut agent = create_agent(owner, key(2), 100, 300, key(3), NOW + 1000, NOW);
    agent.spent_today = 250;
    agent.paused = true;
    let mut ctx = UpdatePolicy { agent, owner };
    assert_eq!(update_policy_at(&mut ctx, 50, 60, key(4), NOW + 5000, NOW + 100), Ok(()));
    let expected = Agent { max_per_transaction: 50, daily_limit: 60, allowed_recipient: key(4), expiry: NOW + 5000, ..agent };
    assert_eq!(ctx.agent, expected);
    // The daily limit may fall below what the window already spent.
    assert!(ctx.agent.spent_today > ctx.agent.daily_limit);
}

#[test]
fn update_policy_errors() {
    let owner = key(1);
    let agent = create_agent(owner, key(2), 100, 300, key(3), NOW + 1000, NOW);
    let mut ctx = UpdatePolicy { agent, owner: key(9) };
    assert_eq!(update_policy_at(&mut ctx, 0, 0, key(4), NOW, NOW), Err(GuardrailError::UnauthorizedOwner));
    ctx.owner = owner;
    assert_eq!(update_policy_at(&mut ctx, 0, 60, key(4), NOW + 5, NOW), Err(GuardrailError::InvalidTransactionLimit));
    assert_eq!(update_policy_at(&mut ctx, 61, 60, key(4), NOW + 5, NOW), Err(GuardrailError::InvalidDailyLimit));
    assert_eq!(update_policy_at(&mut ctx, 60, 60, key(4), NOW, NOW), Err(GuardrailError::InvalidExpiry));
    assert_eq!(ctx.agent, agent);
}

#[test]
fn deposit_checks_owner_then_amount() {
    let owner = key(1);
    let agent = create_agent(owner, key(2), 100, 300, key(3), NOW + 1000, NOW);
    assert_eq!(deposit(&Deposit { agent, owner: key(5) }, 0), Err(GuardrailError::UnauthorizedOwner));
    assert_eq!(deposit(&Deposit { agent, owner }, 0), Err(GuardrailError::InvalidAmount));
    assert_eq!(deposit(&Deposit { agent, owner }, 1), Ok(()));
}

#[test]
fn payment_error_order() {
    let owner = key(1);
    let mut agent = create_agent(owner, key(2), 100, 300, key(3), NOW + 1000, NOW);
    agent.paused = true;
    // Amount is checked first, then the pause switch, then the expiry.
    assert_eq!(authorize_payment(&agent, &key(9), &key(9), 0, NOW + 5000), Err(GuardrailError::InvalidAmount));
    assert_eq!(authorize_payment(&agent, &key(9), &key(9), 500, NOW + 5000), Err(GuardrailError::AgentPaused));
    agent.paused = false;
    assert_eq!(authorize_payment(&agent, &key(9), &key(9), 500, NOW + 5000), Err(GuardrailError::PolicyExpired));
    assert_eq!(authorize_payment(&agent, &key(9), &key(9), 500, NOW + 1000), Err(GuardrailError::UnauthorizedAgent));
    assert_eq!(authorize_payment(&agent, &key(2), &key(9), 500, NOW), Err(GuardrailError::RecipientNotAllowed));
    assert_eq!(authorize_payment(&agent, &key(2), &key(3), 500, NOW), Err(GuardrailError::PerTransactionLimitExceeded));
    assert_eq!(authorize_payment(&agent, &key(2), &key(3), 100, NOW), Ok((NOW, 100)));
}

#[test]
fn approved_payment_moves_lamports_and_emits_event() {
    let agent = create_agent(key(1), key(2), 100, 300, key(3), NOW + 1000, NOW);
    let mut ctx = payment(agent, RENT_RESERVE + 150, key(2), key(3));
    let before = ctx.recipient_lamports;
    let event = pay(&mut ctx, 100, NOW + 7).unwrap();
    assert_eq!(event, PaymentExecuted { agent: key(200), recipient: key(3), amount: 100, timestamp: NOW + 7 });
    assert_eq!(ctx.agent_lamports, RENT_RESERVE + 50);
    assert_eq!(ctx.recipient_lamports, before + 100);
    assert_eq!(ctx.agent.spent_today, 100);
    assert_eq!(ctx.agent.day_start, NOW);
}

#[test]
fn vault_must_keep_rent_reserve() {
    let agent = create_agent(key(1), key(2), 100, 300, key(3), NOW + 1000, NOW);
    let mut ctx = payment(agent, RENT_RESERVE + 99, key(2), key(3));
    let before = (ctx.agent, ctx.agent_lamports, ctx.recipient_lamports);
    assert_eq!(pay(&mut ctx, 100, NOW), Err(GuardrailError::InsufficientVaultBalance));
    assert_eq!((ctx.agent, ctx.agent_lamports, ctx.recipient_lamports), before);
    assert!(pay(&mut ctx, 99, NOW).is_ok());
    assert_eq!(ctx.agent_lamports, RENT_RESERVE);
    // A vault below its reserve can pay nothing.
    let mut poor = payment(agent, RENT_RESERVE - 1, key(2), key(3));
    assert_eq!(pay(&mut poor, 1, NOW), Err(GuardrailError::InsufficientVaultBalance));
}

#[test]
fn refused_payment_changes_nothing() {
    let agent = create_agent(key(1), key(2), 100, 150, key(3), NOW + 100_000, NOW);
    let mut ctx = payment(agent, RENT_RESERVE + 1000, key(2), key(3));
    pay(&mut ctx, 100, NOW).unwrap();
    // A day later the window would reset, but the payment is refused for
    // the recipient, so the window is left as it was.
    ctx.recipient = key(4);
    let before = (ctx.agent, ctx.agent_lamports, ctx.recipient_lamports);
    assert_eq!(pay(&mut ctx, 100, NOW + DAY_SECONDS), Err(GuardrailError::RecipientNotAllowed));
    assert_eq!((ctx.agent, ctx.agent_lamports, ctx.recipient_lamports), before);
    assert_eq!(ctx.agent.spent_today, 100);
    assert_eq!(ctx.agent.day_start, NOW);
}

#[test]
fn daily_window_resets_after_a_day() {
    let agent = create_agent(key(1), key(2), 100, 150, key(3), NOW + 10 * DAY_SECONDS, NOW);
    let mut ctx = payment(agent, RENT_RESERVE + 10_000, key(2), key(3));
    pay(&mut ctx, 100, NOW).unwrap();
    assert_eq!(pay(&mut ctx, 100, NOW + DAY_SECONDS - 1), Err(GuardrailError::DailyLimitExceeded));
    assert!(pay(&mut ctx, 50, NOW + DAY_SECONDS - 1).is_ok());
    assert_eq!(ctx.agent.spent_today, 150);
    assert!(pay(&mut ctx, 100, NOW + DAY_SECONDS).is_ok());
    assert_eq!(ctx.agent.day_start, NOW + DAY_SECONDS);
    assert_eq!(ctx.agent.spent_today, 100);
}

#[test]
fn window_difference_saturates() {
    // The difference between the clock and the window start saturates
    // instead of overflowing.
    let mut agent = create_agent(key(1), key(2), 100, 150, key(3), i64::MAX, NOW);
    agent.day_start = i64::MIN;
    agent.spent_today = 150;
    assert_eq!(authorize_payment(&agent, &key(2), &key(3), 100, i64::MAX), Ok((i64::MAX, 100)));
    // A clock before the window start never starts a new window.
    agent.day_start = i64::MAX;
    assert_eq!(authorize_payment(&agent, &key(2), &key(3), 100, i64::MIN), Err(GuardrailError::DailyLimitExceeded));
}

#[test]
fn daily_total_overflow_is_refused() {
    let mut agent = create_agent(key(1), key(2), u64::MAX, u64::MAX, key(3), NOW + 1000, NOW);
    agent.spent_today = u64::MAX - 5;
    assert_eq!(authorize_payment(&agent, &key(2), &key(3), 6, NOW), Err(GuardrailError::DailyLimitExceeded));
    assert_eq!(authorize_payment(&agent, &key(2), &key(3), 5, NOW), Ok((NOW, u64::MAX)));
}

#[test]
fn pause_resume_and_strangers() {
    let owner = key(1);
    let agent = create_agent(owner, key(2), 100, 150, key(3), NOW + 1000, NOW);
    let mut status = UpdateAgentStatus { agent, owner };
    assert_eq!(pause_agent(&mut status), Ok(()));
    assert!(status.agent.paused);
    assert_eq!(resume_agent(&mut status), Ok(()));
    assert_eq!(status.agent, agent);
    let mut stranger = UpdateAgentStatus { agent, owner: key(9) };
    assert_eq!(pause_agent(&mut stranger), Err(GuardrailError::UnauthorizedOwner));
    assert_eq!(resume_agent(&mut stranger), Err(GuardrailError::UnauthorizedOwner));
    assert_eq!(stranger.agent, agent);
}

#[test]
fn agent_address_is_the_program_derived_address() {
    let (address, bump) = agent_address(&key(1)).unwrap();
    assert_eq!(bump, 254);
    assert_eq!(
        address.to_bytes(),
        [
            172, 179, 140, 54, 126, 61, 23, 114, 0, 198, 29, 223, 240, 82, 55, 50, 219, 42, 90, 90, 153,
            160, 208, 217, 150, 19, 19, 202, 64, 75, 178, 55
        ]
    );
    let owner: [u8; 32] = core::array::from_fn(|i| i as u8);
    let (address, bump) = agent_address(&Pubkey::new_from_array(owner)).unwrap();
    assert_eq!(bump, 253);
    assert_eq!(
        address.to_bytes(),
        [
            161, 58, 133, 177, 249, 154, 81, 252, 45, 22, 241, 70, 161, 57, 93, 210, 106, 164, 165, 235,
            58, 89, 227, 18, 193, 142, 170, 25, 53, 212, 104, 81
        ]
    );
    assert_eq!(agent_address(&key(7)).unwrap().1, 255);
}

#[test]
fn program_id_bytes() {
    assert_eq!(
        id().to_bytes(),
        [
            243, 102, 157, 255, 103, 131, 44, 72, 167, 61, 80, 232, 166, 154, 112, 249, 192, 113, 97, 11,
            34, 118, 157, 27, 113, 225, 149, 73, 178, 11, 138, 145
        ]
    );
}

#[test]
fn instructions_off_chain() {
    // Off a validator the clock is not available: the instructions refuse
    // with the runtime's error once the checks before the clock pass.
    let owner = key(1);
    let (address, _) = agent_address(&owner).unwrap();
    let mut init = InitializeAgent { owner, agent_key: key(1), agent: blank_agent() };
    assert!(matches!(initialize_agent(&mut init, key(2), 10, 10, key(3), NOW), Err(Error::AgentAddressMismatch)));
    init.agent_key = address;
    assert!(matches!(
        initialize_agent(&mut init, key(2), 0, 10, key(3), NOW),
        Err(Error::Guardrail(GuardrailError::InvalidTransactionLimit))
    ));
    assert!(matches!(initialize_agent(&mut init, key(2), 10, 10, key(3), NOW), Err(Error::Runtime(_))));
    assert_eq!(init.agent, blank_agent());

    let agent = create_agent(owner, key(2), 100, 150, key(3), NOW + 1000, NOW);
    let mut update = UpdatePolicy { agent, owner: key(9) };
    assert!(matches!(
        update_policy(&mut update, 10, 10, key(3), NOW),
        Err(Error::Guardrail(GuardrailError::UnauthorizedOwner))
    ));
    update.owner = owner;
    assert!(matches!(
        update_policy(&mut update, 11, 10, key(3), NOW),
        Err(Error::Guardrail(GuardrailError::InvalidDailyLimit))
    ));
    assert!(matches!(update_policy(&mut update, 10, 10, key(3), NOW), Err(Error::Runtime(_))));
    assert_eq!(update.agent, agent);

    let mut ctx = payment(agent, RENT_RESERVE + 1000, key(2), key(3));
    assert!(matches!(execute_payment(&mut ctx, 0), Err(Error::Guardrail(GuardrailError::InvalidAmount))));
    assert!(matches!(execute_payment(&mut ctx, 10), Err(Error::Runtime(_))));
    assert_eq!(ctx.agent, agent);
    assert_eq!(ctx.agent_lamports, RENT_RESERVE + 1000);
}

#[test]
fn error_messages() {
    assert_eq!(GuardrailError::UnauthorizedOwner.message(), "Only the agent owner can perform this action");
    assert_eq!(GuardrailError::UnauthorizedAgent.message(), "Unauthorized agent authority");
    assert_eq!(GuardrailError::InvalidAmount.message(), "Transaction amount must be greater than zero");
    assert_eq!(GuardrailError::InvalidTransactionLimit.message(), "Invalid per-transaction limit");
    assert_eq!(
        GuardrailError::InvalidDailyLimit.message(),
        "Daily limit must be greater than or equal to the transaction limit"
    );
    assert_eq!(GuardrailError::InvalidExpiry.message(), "Policy expiry must be in the future");
    assert_eq!(GuardrailError::AgentPaused.message(), "The agent is paused");
    assert_eq!(GuardrailError::PolicyExpired.message(), "The policy has expired");
    assert_eq!(GuardrailError::RecipientNotAllowed.message(), "Recipient is not allowed by policy");
    assert_eq!(GuardrailError::PerTransactionLimitExceeded.message(), "Per-transaction spending limit exceeded");
    assert_eq!(GuardrailError::DailyLimitExceeded.message(), "Daily spending limit exceeded");
    assert_eq!(GuardrailError::InsufficientVaultBalance.message(), "Insufficient vault balance");
}

#[test]
fn agent_space() {
    assert_eq!(Agent::INIT_SPACE, 32 * 3 + 8 * 5 + 1 + 1);
}

#[test]
fn window_spending_sums_approved_payments() {
    let agent = create_agent(key(1), key(2), 100, 250, key(3), NOW + 1000, NOW);
    let mut ctx = payment(agent, RENT_RESERVE + 10_000, key(2), key(3));
    let mut approved: u64 = 0;
    for (amount, recipient) in [(60, 3u8), (70, 4u8), (90, 3u8), (100, 3u8), (80, 3u8), (20, 3u8)] {
        ctx.recipient = key(recipient);
        if let Ok(event) = pay(&mut ctx, amount, NOW + 100) {
            approved += event.amount;
        }
    }
    // 60, 90 and 100 are approved (reaching the limit of 250); 70 goes to
    // a recipient that is not allowed; 80 and 20 would pass the daily limit.
    assert_eq!(approved, 60 + 90 + 100);
    assert_eq!(ctx.agent.spent_today, approved);
    assert!(ctx.agent.spent_today <= ctx.agent.daily_limit);
}

#[test]
fn agent_rent_reserve_covers_the_whole_account() {
    // The default rent: 3480 lamports per byte-year, held for two years,
    // over 128 bytes of overhead plus the 146-byte account.
    assert_eq!(Agent::ACCOUNT_SPACE, 8 + Agent::INIT_SPACE);
    assert_eq!(agent_rent_reserve(&Rent::default()), Some((128 + 146) * 3480 * 2));
    assert_eq!(agent_rent_reserve(&Rent::with_lamports_per_byte(6960)), Some(1_907_040));
    assert_eq!(agent_rent_reserve(&Rent::free()), Some(0));
    // A rate whose reserve would overflow is refused rather than computed.
    assert_eq!(agent_rent_reserve(&Rent::with_lamports_per_byte(u64::MAX / 274 + 1)), None);
    assert!(agent_rent_reserve(&Rent::with_lamports_per_byte(u64::MAX / 274)).is_some());
}
