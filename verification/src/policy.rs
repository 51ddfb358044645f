//! The policy decisions: who may change an agent, which payments it may make,
//! and what each approved request changes.
use vstd::prelude::*;
use crate::pubkey::Pubkey;
use crate::state::{Agent, GuardrailError, PaymentExecuted, DAY_SECONDS};

verus! {

/// The accounts of `initialize_agent`: the signing owner, the address of the
/// agent account being created, and that account's content.
pub struct InitializeAgent {
    pub owner: Pubkey,
    pub agent_key: Pubkey,
    pub agent: Agent,
}

/// The accounts of `update_policy`: the agent and the signing owner.
pub struct UpdatePolicy {
    pub agent: Agent,
    pub owner: Pubkey,
}

/// The accounts of `deposit`: the agent and the signing owner, who pays.
pub struct Deposit {
    pub agent: Agent,
    pub owner: Pubkey,
}

/// The accounts of `execute_payment`: the agent (its state, address and
/// lamports), the signing agent authority, and the recipient with its
/// lamports.
pub struct ExecutePayment {
    pub agent: Agent,
    pub agent_key: Pubkey,
    pub agent_lamports: u64,
    pub agent_authority: Pubkey,
    pub recipient: Pubkey,
    pub recipient_lamports: u64,
}

/// The accounts of `pause_agent` and `resume_agent`: the agent and the
/// signing owner.
pub struct UpdateAgentStatus {
    pub agent: Agent,
    pub owner: Pubkey,
}

// ---------------------------------------------------------------------------
// The model of each decision.
// ---------------------------------------------------------------------------

/// Only the agent's owner may act on it.
pub open spec fn owner_check(agent: Agent, signer: Pubkey) -> Result<(), GuardrailError> {
    if agent.owner@ == signer@ {
        Ok(())
    } else {
        Err(GuardrailError::UnauthorizedOwner)
    }
}

/// The limits asked for: positive per-transaction limit, daily limit at
/// least as large.
pub open spec fn limits_check(max_per_transaction: u64, daily_limit: u64) -> Result<(), GuardrailError> {
    if max_per_transaction == 0 {
        Err(GuardrailError::InvalidTransactionLimit)
    } else if daily_limit < max_per_transaction {
        Err(GuardrailError::InvalidDailyLimit)
    } else {
        Ok(())
    }
}

/// A new policy: valid limits, then an expiry strictly after `now`.
pub open spec fn policy_check(max_per_transaction: u64, daily_limit: u64, expiry: i64, now: i64) -> Result<(), GuardrailError> {
    match limits_check(max_per_transaction, daily_limit) {
        Err(e) => Err(e),
        Ok(_) => if expiry > now {
            Ok(())
        } else {
            Err(GuardrailError::InvalidExpiry)
        },
    }
}

/// The agent that `initialize_agent` writes.
pub open spec fn initialized_agent(
    owner: Pubkey,
    agent_authority: Pubkey,
    max_per_transaction: u64,
    daily_limit: u64,
    allowed_recipient: Pubkey,
    expiry: i64,
    now: i64,
    bump: u8,
) -> Agent {
    Agent {
        owner,
        agent_authority,
        max_per_transaction,
        daily_limit,
        spent_today: 0,
        day_start: now,
        allowed_recipient,
        expiry,
        paused: false,
        bump,
    }
}

/// What `initialize_agent` does when the clock reads `now` and the agent
/// address carries `bump`.
pub open spec fn initialize_transition(
    old: InitializeAgent,
    new: InitializeAgent,
    r: Result<(), GuardrailError>,
    agent_authority: Pubkey,
    max_per_transaction: u64,
    daily_limit: u64,
    allowed_recipient: Pubkey,
    expiry: i64,
    now: i64,
    bump: u8,
) -> bool {
    &&& r == policy_check(max_per_transaction, daily_limit, expiry, now)
    &&& new.owner == old.owner
    &&& new.agent_key == old.agent_key
    &&& r is Ok ==> new.agent == initialized_agent(
        old.owner,
        agent_authority,
        max_per_transaction,
        daily_limit,
        allowed_recipient,
        expiry,
        now,
        bump,
    )
    &&& r is Err ==> new.agent == old.agent
}

/// The decision on a policy update: owner first, then the new policy.
pub open spec fn update_outcome(
    agent: Agent,
    signer: Pubkey,
    max_per_transaction: u64,
    daily_limit: u64,
    expiry: i64,
    now: i64,
) -> Result<(), GuardrailError> {
    match owner_check(agent, signer) {
        Err(e) => Err(e),
        Ok(_) => policy_check(max_per_transaction, daily_limit, expiry, now),
    }
}

/// The agent after a policy update: limits, recipient and expiry replaced,
/// everything else kept.
pub open spec fn updated_agent(
    agent: Agent,
    max_per_transaction: u64,
    daily_limit: u64,
    allowed_recipient: Pubkey,
    expiry: i64,
) -> Agent {
    Agent { max_per_transaction, daily_limit, allowed_recipient, expiry, ..agent }
}

/// What `update_policy` does when the clock reads `now`.
pub open spec fn update_transition(
    old: UpdatePolicy,
    new: UpdatePolicy,
    r: Result<(), GuardrailError>,
    max_per_transaction: u64,
    daily_limit: u64,
    allowed_recipient: Pubkey,
    expiry: i64,
    now: i64,
) -> bool {
    &&& r == update_outcome(old.agent, old.owner, max_per_transaction, daily_limit, expiry, now)
    &&& new.owner == old.owner
    &&& r is Ok ==> new.agent == updated_agent(
        old.agent,
        max_per_transaction,
        daily_limit,
        allowed_recipient,
        expiry,
    )
    &&& r is Err ==> new.agent == old.agent
}

/// The decision on a deposit: owner first, then a positive amount.
pub open spec fn deposit_outcome(agent: Agent, signer: Pubkey, amount: u64) -> Result<(), GuardrailError> {
    match owner_check(agent, signer) {
        Err(e) => Err(e),
        Ok(_) => if amount > 0 {
            Ok(())
        } else {
            Err(GuardrailError::InvalidAmount)
        },
    }
}

/// A daily window has passed when at least a day lies between its start and
/// `now`.
pub open spec fn window_elapsed(now: i64, day_start: i64) -> bool {
    now - day_start >= DAY_SECONDS
}

/// The spending window a payment at `now` falls in: its start and what was
/// spent in it so far. A new window starts, with nothing spent, once a day
/// has passed.
pub open spec fn current_window(agent: Agent, now: i64) -> (i64, int) {
    if window_elapsed(now, agent.day_start) {
        (now, 0int)
    } else {
        (agent.day_start, agent.spent_today as int)
    }
}

/// The policy's decision on a payment of `amount` to `recipient` requested
/// by `authority` at `now`, checked in this order: a positive amount, not
/// paused, not expired, the authorized agent, the allowed recipient, the
/// per-transaction limit, the daily limit. When approved: the start of the
/// spending window and the amount spent in it, this payment included.
pub open spec fn authorize_outcome(
    agent: Agent,
    authority: Pubkey,
    recipient: Pubkey,
    amount: u64,
    now: i64,
) -> Result<(i64, u64), GuardrailError> {
    if amount == 0 {
        Err(GuardrailError::InvalidAmount)
    } else if agent.paused {
        Err(GuardrailError::AgentPaused)
    } else if now > agent.expiry {
        Err(GuardrailError::PolicyExpired)
    } else if authority@ != agent.agent_authority@ {
        Err(GuardrailError::UnauthorizedAgent)
    } else if recipient@ != agent.allowed_recipient@ {
        Err(GuardrailError::RecipientNotAllowed)
    } else if amount > agent.max_per_transaction {
        Err(GuardrailError::PerTransactionLimitExceeded)
    } else {
        let (day_start, spent) = current_window(agent, now);
        if spent + amount > agent.daily_limit {
            Err(GuardrailError::DailyLimitExceeded)
        } else {
            Ok((day_start, (spent + amount) as u64))
        }
    }
}

/// What the vault can pay while keeping `rent_reserve` lamports.
pub open spec fn vault_available(lamports: u64, rent_reserve: u64) -> int {
    if lamports > rent_reserve {
        lamports - rent_reserve
    } else {
        0
    }
}

/// The full decision on a payment: the policy, then the vault balance.
pub open spec fn payment_outcome(
    ctx: ExecutePayment,
    amount: u64,
    now: i64,
    rent_reserve: u64,
) -> Result<(i64, u64), GuardrailError> {
    match authorize_outcome(ctx.agent, ctx.agent_authority, ctx.recipient, amount, now) {
        Err(e) => Err(e),
        Ok(window) => if amount > vault_available(ctx.agent_lamports, rent_reserve) {
            Err(GuardrailError::InsufficientVaultBalance)
        } else {
            Ok(window)
        },
    }
}

/// The accounts after an approved payment: the amount moves from the vault
/// to the recipient and the spending window is recorded.
pub open spec fn paid(ctx: ExecutePayment, amount: u64, day_start: i64, spent_today: u64) -> ExecutePayment {
    ExecutePayment {
        agent: Agent { day_start, spent_today, ..ctx.agent },
        agent_lamports: (ctx.agent_lamports - amount) as u64,
        recipient_lamports: (ctx.recipient_lamports + amount) as u64,
        ..ctx
    }
}

/// The event of an approved payment.
pub open spec fn payment_event(ctx: ExecutePayment, amount: u64, now: i64) -> PaymentExecuted {
    PaymentExecuted { agent: ctx.agent_key, recipient: ctx.recipient, amount, timestamp: now }
}

/// What `execute_payment` does when the clock reads `now` and the rent
/// reserve is `rent_reserve`: a refused payment changes nothing.
pub open spec fn payment_transition(
    old: ExecutePayment,
    new: ExecutePayment,
    r: Result<PaymentExecuted, GuardrailError>,
    amount: u64,
    now: i64,
    rent_reserve: u64,
) -> bool {
    match payment_outcome(old, amount, now, rent_reserve) {
        Err(e) => r == Err::<PaymentExecuted, GuardrailError>(e) && new == old,
        Ok((day_start, spent_today)) => {
            &&& r == Ok::<PaymentExecuted, GuardrailError>(payment_event(old, amount, now))
            &&& new == paid(old, amount, day_start, spent_today)
        },
    }
}

/// What `pause_agent` (`paused` true) or `resume_agent` (`paused` false)
/// does.
pub open spec fn status_transition(
    old: UpdateAgentStatus,
    new: UpdateAgentStatus,
    r: Result<(), GuardrailError>,
    paused: bool,
) -> bool {
    &&& r == owner_check(old.agent, old.owner)
    &&& new.owner == old.owner
    &&& r is Ok ==> new.agent == Agent { paused, ..old.agent }
    &&& r is Err ==> new.agent == old.agent
}

// ---------------------------------------------------------------------------
// The decisions, computed.
// ---------------------------------------------------------------------------

/// Refuses with `UnauthorizedOwner` unless `signer` owns the agent.
pub fn check_owner(agent: &Agent, signer: &Pubkey) -> (r: Result<(), GuardrailError>)
    ensures
        r == owner_check(*agent, *signer),
{
    if agent.owner.same_as(signer) {
        Ok(())
    } else {
        Err(GuardrailError::UnauthorizedOwner)
    }
}

/// Checks the limits of a new policy.
pub fn check_limits(max_per_transaction: u64, daily_limit: u64) -> (r: Result<(), GuardrailError>)
    ensures
        r == limits_check(max_per_transaction, daily_limit),
{
    if max_per_transaction == 0 {
        Err(GuardrailError::InvalidTransactionLimit)
    } else if daily_limit < max_per_transaction {
        Err(GuardrailError::InvalidDailyLimit)
    } else {
        Ok(())
    }
}

/// Checks a whole new policy against the clock reading `now`.
pub fn check_policy(max_per_transaction: u64, daily_limit: u64, expiry: i64, now: i64) -> (r: Result<(), GuardrailError>)
    ensures
        r == policy_check(max_per_transaction, daily_limit, expiry, now),
{
    match check_limits(max_per_transaction, daily_limit) {
        Err(e) => Err(e),
        Ok(()) => if expiry > now {
            Ok(())
        } else {
            Err(GuardrailError::InvalidExpiry)
        },
    }
}

/// `a - b`, held to the range of `i64`.
fn saturating_sub_i64(a: i64, b: i64) -> (d: i64)
    ensures
        d == (if a - b > i64::MAX {
            i64::MAX as int
        } else if a - b < i64::MIN {
            i64::MIN as int
        } else {
            a - b
        }),
{
    match a.checked_sub(b) {
        Some(d) => d,
        None => if b < 0 {
            i64::MAX
        } else {
            i64::MIN
        },
    }
}

/// Creates the agent's policy with the clock reading `now`; `bump` is the
/// bump seed of the agent's address.
pub fn initialize_agent_at(
    ctx: &mut InitializeAgent,
    bump: u8,
    agent_authority: Pubkey,
    max_per_transaction: u64,
    daily_limit: u64,
    allowed_recipient: Pubkey,
    expiry: i64,
    now: i64,
) -> (r: Result<(), GuardrailError>)
    ensures
        initialize_transition(
            *old(ctx),
            *final(ctx),
            r,
            agent_authority,
            max_per_transaction,
            daily_limit,
            allowed_recipient,
            expiry,
            now,
            bump,
        ),
        r is Ok <==> max_per_transaction > 0 && daily_limit >= max_per_transaction && expiry > now,
        max_per_transaction > 0 && daily_limit >= max_per_transaction && expiry <= now ==> r == Err::<
            (),
            GuardrailError,
        >(GuardrailError::InvalidExpiry),
        r is Ok ==> final(ctx).agent.day_start == now && final(ctx).agent.expiry == expiry
            && final(ctx).agent.spent_today == 0,
{
    match check_policy(max_per_transaction, daily_limit, expiry, now) {
        Err(e) => Err(e),
        Ok(()) => {
            ctx.agent = Agent {
                owner: ctx.owner,
                agent_authority,
                max_per_transaction,
                daily_limit,
                spent_today: 0,
                day_start: now,
                allowed_recipient,
                expiry,
                paused: false,
                bump,
            };
            Ok(())
        },
    }
}

/// Replaces the limits, the recipient and the expiry of the policy, with the
/// clock reading `now`.
pub fn update_policy_at(
    ctx: &mut UpdatePolicy,
    max_per_transaction: u64,
    daily_limit: u64,
    allowed_recipient: Pubkey,
    expiry: i64,
    now: i64,
) -> (r: Result<(), GuardrailError>)
    ensures
        update_transition(
            *old(ctx),
            *final(ctx),
            r,
            max_per_transaction,
            daily_limit,
            allowed_recipient,
            expiry,
            now,
        ),
        r is Ok <==> old(ctx).owner@ == old(ctx).agent.owner@ && max_per_transaction > 0 && daily_limit
            >= max_per_transaction && expiry > now,
        old(ctx).owner@ == old(ctx).agent.owner@ && max_per_transaction > 0 && daily_limit >= max_per_transaction
            && expiry <= now ==> r == Err::<(), GuardrailError>(GuardrailError::InvalidExpiry),
        r is Ok ==> final(ctx).agent.expiry == expiry && final(ctx).agent.max_per_transaction == max_per_transaction
            && final(ctx).agent.daily_limit == daily_limit && final(ctx).agent.allowed_recipient == allowed_recipient,
{
    match check_owner(&ctx.agent, &ctx.owner) {
        Err(e) => Err(e),
        Ok(()) => match check_policy(max_per_transaction, daily_limit, expiry, now) {
            Err(e) => Err(e),
            Ok(()) => {
                ctx.agent.max_per_transaction = max_per_transaction;
                ctx.agent.daily_limit = daily_limit;
                ctx.agent.allowed_recipient = allowed_recipient;
                ctx.agent.expiry = expiry;
                Ok(())
            },
        },
    }
}

/// Decides a deposit of `amount` lamports into the agent's vault; the
/// transfer itself is made by the system program when this returns `Ok`.
pub fn deposit(ctx: &Deposit, amount: u64) -> (r: Result<(), GuardrailError>)
    ensures
        r == deposit_outcome(ctx.agent, ctx.owner, amount),
        r is Ok <==> ctx.owner@ == ctx.agent.owner@ && amount > 0,
        r is Err ==> r == Err::<(), GuardrailError>(GuardrailError::UnauthorizedOwner) || r == Err::<
            (),
            GuardrailError,
        >(GuardrailError::InvalidAmount),
{
    match check_owner(&ctx.agent, &ctx.owner) {
        Err(e) => Err(e),
        Ok(()) => if amount > 0 {
            Ok(())
        } else {
            Err(GuardrailError::InvalidAmount)
        },
    }
}

/// The policy's decision on a payment; see `authorize_outcome`.
pub fn authorize_payment(
    agent: &Agent,
    authority: &Pubkey,
    recipient: &Pubkey,
    amount: u64,
    now: i64,
) -> (r: Result<(i64, u64), GuardrailError>)
    ensures
        r == authorize_outcome(*agent, *authority, *recipient, amount, now),
{
    if amount == 0 {
        return Err(GuardrailError::InvalidAmount);
    }
    if agent.paused {
        return Err(GuardrailError::AgentPaused);
    }
    if now > agent.expiry {
        return Err(GuardrailError::PolicyExpired);
    }
    if !authority.same_as(&agent.agent_authority) {
        return Err(GuardrailError::UnauthorizedAgent);
    }
    if !recipient.same_as(&agent.allowed_recipient) {
        return Err(GuardrailError::RecipientNotAllowed);
    }
    if amount > agent.max_per_transaction {
        return Err(GuardrailError::PerTransactionLimitExceeded);
    }
    let mut day_start = agent.day_start;
    let mut spent_today = agent.spent_today;
    if saturating_sub_i64(now, agent.day_start) >= DAY_SECONDS {
        day_start = now;
        spent_today = 0;
    }
    match spent_today.checked_add(amount) {
        None => Err(GuardrailError::DailyLimitExceeded),
        Some(total) => if total > agent.daily_limit {
            Err(GuardrailError::DailyLimitExceeded)
        } else {
            Ok((day_start, total))
        },
    }
}

/// Checks the vault and, when it can pay while keeping `rent_reserve`
/// lamports, moves `amount` to the recipient and records the spending window
/// `window` that the policy approved.
pub fn settle_payment(
    ctx: &mut ExecutePayment,
    amount: u64,
    now: i64,
    window: (i64, u64),
    rent_reserve: u64,
) -> (r: Result<PaymentExecuted, GuardrailError>)
    requires
        old(ctx).agent_lamports + old(ctx).recipient_lamports <= u64::MAX,
    ensures
        amount > vault_available(old(ctx).agent_lamports, rent_reserve) ==> r == Err::<
            PaymentExecuted,
            GuardrailError,
        >(GuardrailError::InsufficientVaultBalance) && *final(ctx) == *old(ctx),
        amount <= vault_available(old(ctx).agent_lamports, rent_reserve) ==> r == Ok::<
            PaymentExecuted,
            GuardrailError,
        >(payment_event(*old(ctx), amount, now)) && *final(ctx) == paid(
            *old(ctx),
            amount,
            window.0,
            window.1,
        ),
{
    let available = ctx.agent_lamports.saturating_sub(rent_reserve);
    if amount > available {
        return Err(GuardrailError::InsufficientVaultBalance);
    }
    ctx.agent_lamports = ctx.agent_lamports - amount;
    ctx.recipient_lamports = ctx.recipient_lamports + amount;
    ctx.agent.day_start = window.0;
    ctx.agent.spent_today = window.1;
    Ok(PaymentExecuted { agent: ctx.agent_key, recipient: ctx.recipient, amount, timestamp: now })
}

/// Executes a payment of `amount` lamports with the clock reading `now` and
/// a rent reserve of `rent_reserve` lamports. The lamports of the vault and
/// the recipient together must fit in a `u64`, as all lamports do.
pub fn execute_payment_at(
    ctx: &mut ExecutePayment,
    amount: u64,
    now: i64,
    rent_reserve: u64,
) -> (r: Result<PaymentExecuted, GuardrailError>)
    requires
        old(ctx).agent_lamports + old(ctx).recipient_lamports <= u64::MAX,
    ensures
        payment_transition(*old(ctx), *final(ctx), r, amount, now, rent_reserve),
        amount > 0 && !old(ctx).agent.paused && now > old(ctx).agent.expiry ==> r == Err::<
            PaymentExecuted,
            GuardrailError,
        >(GuardrailError::PolicyExpired) && *final(ctx) == *old(ctx),
        r matches Ok(event) ==> event.timestamp == now && event.amount == amount && now <= old(ctx).agent.expiry,
{
    match authorize_payment(&ctx.agent, &ctx.agent_authority, &ctx.recipient, amount, now) {
        Err(e) => Err(e),
        Ok(window) => settle_payment(ctx, amount, now, window, rent_reserve),
    }
}

/// Sets the pause switch, for the owner only.
fn set_paused(ctx: &mut UpdateAgentStatus, paused: bool) -> (r: Result<(), GuardrailError>)
    ensures
        status_transition(*old(ctx), *final(ctx), r, paused),
{
    match check_owner(&ctx.agent, &ctx.owner) {
        Err(e) => Err(e),
        Ok(()) => {
            ctx.agent.paused = paused;
            Ok(())
        },
    }
}

/// Stops all payments of the agent: the owner's emergency stop.
pub fn pause_agent(ctx: &mut UpdateAgentStatus) -> (r: Result<(), GuardrailError>)
    ensures
        status_transition(*old(ctx), *final(ctx), r, true),
{
    set_paused(ctx, true)
}

/// Lets the agent pay again.
pub fn resume_agent(ctx: &mut UpdateAgentStatus) -> (r: Result<(), GuardrailError>)
    ensures
        status_transition(*old(ctx), *final(ctx), r, false),
{
    set_paused(ctx, false)
}

} // verus!
