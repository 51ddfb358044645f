//! What holds of the policy across all requests and over several of them.
use vstd::prelude::*;
use crate::policy::{
    current_window, deposit_outcome, initialize_transition, payment_outcome, payment_transition,
    status_transition, update_transition, vault_available, window_elapsed, ExecutePayment,
    InitializeAgent, UpdateAgentStatus, UpdatePolicy,
};
use crate::pubkey::Pubkey;
use crate::state::{Agent, GuardrailError, PaymentExecuted};

verus! {

/// A payment is approved exactly when every check passes: a positive amount,
/// the agent not paused, the policy not expired, the request signed by the
/// agent authority, the allowed recipient, the per-transaction limit, the
/// daily limit (counting a fresh window once a day has passed) and a vault
/// that can pay while keeping its rent reserve.
pub proof fn lemma_payment_approved_iff_all_checks_pass(
    ctx: ExecutePayment,
    amount: u64,
    now: i64,
    rent_reserve: u64,
)
    ensures
        payment_outcome(ctx, amount, now, rent_reserve) is Ok <==> {
            &&& amount > 0
            &&& !ctx.agent.paused
            &&& now <= ctx.agent.expiry
            &&& ctx.agent_authority@ == ctx.agent.agent_authority@
            &&& ctx.recipient@ == ctx.agent.allowed_recipient@
            &&& amount <= ctx.agent.max_per_transaction
            &&& current_window(ctx.agent, now).1 + amount <= ctx.agent.daily_limit
            &&& amount <= vault_available(ctx.agent_lamports, rent_reserve)
        },
{
}

/// A refused payment changes nothing: not the agent, not the lamports.
pub proof fn lemma_refused_payment_changes_nothing(
    old: ExecutePayment,
    new: ExecutePayment,
    r: Result<PaymentExecuted, GuardrailError>,
    amount: u64,
    now: i64,
    rent_reserve: u64,
)
    requires
        payment_transition(old, new, r, amount, now, rent_reserve),
        r is Err,
    ensures
        new == old,
{
}

/// An approved payment moves exactly `amount` lamports from the vault to the
/// recipient, keeps their sum, leaves the vault at least its rent reserve, and
/// keeps the spending of the current window within the daily limit. Of the
/// agent, only the spending window changes.
pub proof fn lemma_approved_payment_effects(
    old: ExecutePayment,
    new: ExecutePayment,
    r: Result<PaymentExecuted, GuardrailError>,
    amount: u64,
    now: i64,
    rent_reserve: u64,
)
    requires
        old.agent_lamports + old.recipient_lamports <= u64::MAX,
        payment_transition(old, new, r, amount, now, rent_reserve),
        r is Ok,
    ensures
        new.agent_lamports == old.agent_lamports - amount,
        new.recipient_lamports == old.recipient_lamports + amount,
        new.agent_lamports + new.recipient_lamports == old.agent_lamports + old.recipient_lamports,
        new.agent_lamports >= rent_reserve,
        amount <= new.agent.spent_today <= new.agent.daily_limit,
        new.agent == (Agent { day_start: new.agent.day_start, spent_today: new.agent.spent_today, ..old.agent }),
        window_elapsed(now, old.agent.day_start) ==> new.agent.day_start == now && new.agent.spent_today == amount,
        !window_elapsed(now, old.agent.day_start) ==> new.agent.day_start == old.agent.day_start
            && new.agent.spent_today == old.agent.spent_today + amount,
        r == Ok::<PaymentExecuted, GuardrailError>(
            PaymentExecuted { agent: old.agent_key, recipient: old.recipient, amount, timestamp: now },
        ),
{
}

/// A paused agent refuses every payment of a positive amount.
pub proof fn lemma_paused_agent_refuses_payments(ctx: ExecutePayment, amount: u64, now: i64, rent_reserve: u64)
    requires
        ctx.agent.paused,
        amount > 0,
    ensures
        payment_outcome(ctx, amount, now, rent_reserve) == Err::<(i64, u64), GuardrailError>(
            GuardrailError::AgentPaused,
        ),
{
}

/// Once its expiry has passed, an agent that is not paused refuses every
/// payment of a positive amount.
pub proof fn lemma_expired_policy_refuses_payments(ctx: ExecutePayment, amount: u64, now: i64, rent_reserve: u64)
    requires
        !ctx.agent.paused,
        amount > 0,
        now > ctx.agent.expiry,
    ensures
        payment_outcome(ctx, amount, now, rent_reserve) == Err::<(i64, u64), GuardrailError>(
            GuardrailError::PolicyExpired,
        ),
{
}

/// Pausing and then resuming an agent that was running gives back the agent
/// as it was, whoever signs.
pub proof fn lemma_pause_then_resume_restores(
    s0: UpdateAgentStatus,
    s1: UpdateAgentStatus,
    s2: UpdateAgentStatus,
    r1: Result<(), GuardrailError>,
    r2: Result<(), GuardrailError>,
)
    requires
        !s0.agent.paused,
        status_transition(s0, s1, r1, true),
        status_transition(s1, s2, r2, false),
    ensures
        s2 == s0,
{
}

/// A pause or resume by the owner changes the pause switch and nothing else.
pub proof fn lemma_status_changes_only_the_switch(
    old: UpdateAgentStatus,
    new: UpdateAgentStatus,
    r: Result<(), GuardrailError>,
    paused: bool,
)
    requires
        status_transition(old, new, r, paused),
        old.owner@ == old.agent.owner@,
    ensures
        r is Ok,
        new.agent.paused == paused,
        new.agent == (Agent { paused: new.agent.paused, ..old.agent }),
{
}

/// Only the owner can update the policy: anyone else is refused with
/// `UnauthorizedOwner` and nothing changes.
pub proof fn lemma_stranger_cannot_update_policy(
    old: UpdatePolicy,
    new: UpdatePolicy,
    r: Result<(), GuardrailError>,
    max_per_transaction: u64,
    daily_limit: u64,
    allowed_recipient: Pubkey,
    expiry: i64,
    now: i64,
)
    requires
        old.owner@ != old.agent.owner@,
        update_transition(old, new, r, max_per_transaction, daily_limit, allowed_recipient, expiry, now),
    ensures
        r == Err::<(), GuardrailError>(GuardrailError::UnauthorizedOwner),
        new == old,
{
}

/// Only the owner can pause or resume the agent: anyone else is refused with
/// `UnauthorizedOwner` and nothing changes.
pub proof fn lemma_stranger_cannot_change_status(
    old: UpdateAgentStatus,
    new: UpdateAgentStatus,
    r: Result<(), GuardrailError>,
    paused: bool,
)
    requires
        old.owner@ != old.agent.owner@,
        status_transition(old, new, r, paused),
    ensures
        r == Err::<(), GuardrailError>(GuardrailError::UnauthorizedOwner),
        new == old,
{
}

/// Only the owner can deposit into the vault.
pub proof fn lemma_stranger_cannot_deposit(agent: Agent, signer: Pubkey, amount: u64)
    requires
        signer@ != agent.owner@,
    ensures
        deposit_outcome(agent, signer, amount) == Err::<(), GuardrailError>(GuardrailError::UnauthorizedOwner),
{
}

/// A policy update replaces the limits, the recipient and the expiry, and
/// keeps the owner, the agent authority, the spending window, the pause
/// switch and the bump.
pub proof fn lemma_update_keeps_spending_state(
    old: UpdatePolicy,
    new: UpdatePolicy,
    r: Result<(), GuardrailError>,
    max_per_transaction: u64,
    daily_limit: u64,
    allowed_recipient: Pubkey,
    expiry: i64,
    now: i64,
)
    requires
        update_transition(old, new, r, max_per_transaction, daily_limit, allowed_recipient, expiry, now),
        r is Ok,
    ensures
        new.agent.owner == old.agent.owner,
        new.agent.agent_authority == old.agent.agent_authority,
        new.agent.spent_today == old.agent.spent_today,
        new.agent.day_start == old.agent.day_start,
        new.agent.paused == old.agent.paused,
        new.agent.bump == old.agent.bump,
        new.agent.max_per_transaction == max_per_transaction,
        new.agent.daily_limit == daily_limit,
        new.agent.allowed_recipient == allowed_recipient,
        new.agent.expiry == expiry,
        expiry > now,
{
}

/// Every policy that is set has valid limits, and every other request keeps
/// the limits as they are: so an agent's limits are always valid.
pub proof fn lemma_limits_always_valid(
    i0: InitializeAgent,
    i1: InitializeAgent,
    ri: Result<(), GuardrailError>,
    u0: UpdatePolicy,
    u1: UpdatePolicy,
    ru: Result<(), GuardrailError>,
    p0: ExecutePayment,
    p1: ExecutePayment,
    rp: Result<PaymentExecuted, GuardrailError>,
    s0: UpdateAgentStatus,
    s1: UpdateAgentStatus,
    rs: Result<(), GuardrailError>,
    agent_authority: Pubkey,
    max_per_transaction: u64,
    daily_limit: u64,
    allowed_recipient: Pubkey,
    expiry: i64,
    now: i64,
    bump: u8,
    amount: u64,
    rent_reserve: u64,
    paused: bool,
)
    requires
        initialize_transition(
            i0,
            i1,
            ri,
            agent_authority,
            max_per_transaction,
            daily_limit,
            allowed_recipient,
            expiry,
            now,
            bump,
        ),
        update_transition(u0, u1, ru, max_per_transaction, daily_limit, allowed_recipient, expiry, now),
        payment_transition(p0, p1, rp, amount, now, rent_reserve),
        status_transition(s0, s1, rs, paused),
    ensures
        ri is Ok ==> i1.agent.limits_valid() && i1.agent.expiry > i1.agent.day_start
            && i1.agent.spent_today == 0 && !i1.agent.paused,
        ru is Ok ==> u1.agent.limits_valid(),
        u0.agent.limits_valid() ==> u1.agent.limits_valid(),
        p0.agent.limits_valid() ==> p1.agent.limits_valid(),
        s0.agent.limits_valid() ==> s1.agent.limits_valid(),
{
}

/// Spending within the daily limit holds after every approved payment and is
/// kept by pausing and resuming. (A policy update that lowers the daily limit
/// below what the window has spent does not keep it.)
pub proof fn lemma_spending_within_limit_kept(
    p0: ExecutePayment,
    p1: ExecutePayment,
    rp: Result<PaymentExecuted, GuardrailError>,
    s0: UpdateAgentStatus,
    s1: UpdateAgentStatus,
    rs: Result<(), GuardrailError>,
    amount: u64,
    now: i64,
    rent_reserve: u64,
    paused: bool,
)
    requires
        payment_transition(p0, p1, rp, amount, now, rent_reserve),
        status_transition(s0, s1, rs, paused),
    ensures
        p0.agent.spent_today <= p0.agent.daily_limit ==> p1.agent.spent_today <= p1.agent.daily_limit,
        s0.agent.spent_today <= s0.agent.daily_limit ==> s1.agent.spent_today <= s1.agent.daily_limit,
{
}

/// The sum of the amounts of the approved payments among `results`.
pub open spec fn approved_total(results: Seq<Result<PaymentExecuted, GuardrailError>>) -> int
    decreases results.len(),
{
    if results.len() == 0 {
        0
    } else {
        approved_total(results.drop_last()) + match results.last() {
            Ok(event) => event.amount as int,
            Err(_) => 0int,
        }
    }
}

/// Within one daily window, what the agent has spent grows by exactly the
/// amounts of the payments approved, refused ones adding nothing; so when
/// any payment is approved, what the window had spent before plus all the
/// approved amounts stays within the daily limit. `states[i]` is the state
/// before request `i` and `states[i + 1]` the state after it; no request
/// falls a day or more after the window's start.
pub proof fn lemma_window_spending_is_sum_of_approved(
    states: Seq<ExecutePayment>,
    results: Seq<Result<PaymentExecuted, GuardrailError>>,
    amounts: Seq<u64>,
    nows: Seq<i64>,
    reserves: Seq<u64>,
)
    requires
        states.len() == results.len() + 1,
        amounts.len() == results.len(),
        nows.len() == results.len(),
        reserves.len() == results.len(),
        forall|i: int|
            #![trigger results[i]]
            0 <= i < results.len() ==> payment_transition(
                states[i],
                states[i + 1],
                results[i],
                amounts[i],
                nows[i],
                reserves[i],
            ),
        forall|i: int|
            #![trigger results[i]]
            0 <= i < results.len() ==> !window_elapsed(nows[i], states[i].agent.day_start),
    ensures
        states.last().agent.day_start == states[0].agent.day_start,
        states.last().agent.daily_limit == states[0].agent.daily_limit,
        states.last().agent.spent_today == states[0].agent.spent_today + approved_total(results),
        approved_total(results) > 0 ==> states[0].agent.spent_today + approved_total(results)
            <= states[0].agent.daily_limit,
    decreases results.len(),
{
    if results.len() > 0 {
        let n = results.len() - 1;
        let prefix = results.drop_last();
        let states0 = states.drop_last();
        let amounts0 = amounts.drop_last();
        let nows0 = nows.drop_last();
        let reserves0 = reserves.drop_last();
        assert forall|i: int|
            #![trigger prefix[i]]
            #![trigger nows0[i]]
            0 <= i < prefix.len() implies {
            &&& prefix[i] == results[i]
            &&& states0[i] == states[i]
            &&& states0[i + 1] == states[i + 1]
            &&& amounts0[i] == amounts[i]
            &&& nows0[i] == nows[i]
            &&& reserves0[i] == reserves[i]
        } by {}
        lemma_window_spending_is_sum_of_approved(states0, prefix, amounts0, nows0, reserves0);
        // The last request, on top of what the others left.
        assert(payment_transition(states[n], states[n + 1], results[n], amounts[n], nows[n], reserves[n]));
        assert(!window_elapsed(nows[n], states[n].agent.day_start));
    }
}

/// A payment asked for after the policy's expiry, at a positive amount and
/// while the agent is not paused, is refused with `PolicyExpired` and moves
/// nothing, whatever the authority, recipient, limits and vault.
pub proof fn lemma_payment_after_expiry_changes_nothing(
    old: ExecutePayment,
    new: ExecutePayment,
    r: Result<PaymentExecuted, GuardrailError>,
    amount: u64,
    now: i64,
    rent_reserve: u64,
)
    requires
        payment_transition(old, new, r, amount, now, rent_reserve),
        amount > 0,
        !old.agent.paused,
        now > old.agent.expiry,
    ensures
        r == Err::<PaymentExecuted, GuardrailError>(GuardrailError::PolicyExpired),
        new == old,
{
}

/// An approved payment was decided at a time no later than the expiry, and
/// its event carries that time and the amount paid to the allowed recipient.
pub proof fn lemma_approved_payment_event(
    old: ExecutePayment,
    new: ExecutePayment,
    event: PaymentExecuted,
    amount: u64,
    now: i64,
    rent_reserve: u64,
)
    requires
        payment_transition(old, new, Ok(event), amount, now, rent_reserve),
    ensures
        now <= old.agent.expiry,
        event.timestamp == now,
        event.amount == amount,
        event.recipient@ == old.agent.allowed_recipient@,
        event.agent == old.agent_key,
        amount > 0,
{
}

/// Creating a policy whose expiry is not after the clock reading is refused
/// with `InvalidExpiry` (when the limits are valid) and writes no agent.
pub proof fn lemma_initialize_refuses_past_expiry(
    old: InitializeAgent,
    new: InitializeAgent,
    r: Result<(), GuardrailError>,
    agent_authority: Pubkey,
    max_per_transaction: u64,
    daily_limit: u64,
    allowed_recipient: Pubkey,
    expiry: i64,
    now: i64,
    bump: u8,
)
    requires
        initialize_transition(
            old,
            new,
            r,
            agent_authority,
            max_per_transaction,
            daily_limit,
            allowed_recipient,
            expiry,
            now,
            bump,
        ),
        expiry <= now,
    ensures
        r is Err,
        max_per_transaction > 0 && daily_limit >= max_per_transaction ==> r == Err::<(), GuardrailError>(
            GuardrailError::InvalidExpiry,
        ),
        new == old,
{
}

/// Creating a policy with a positive per-transaction limit, a daily limit at
/// least as large and an expiry after the clock reading succeeds, and the
/// agent holds exactly that policy, a window starting at the clock reading
/// with nothing spent, and is not paused.
pub proof fn lemma_initialize_accepts_valid_policy(
    old: InitializeAgent,
    new: InitializeAgent,
    r: Result<(), GuardrailError>,
    agent_authority: Pubkey,
    max_per_transaction: u64,
    daily_limit: u64,
    allowed_recipient: Pubkey,
    expiry: i64,
    now: i64,
    bump: u8,
)
    requires
        initialize_transition(
            old,
            new,
            r,
            agent_authority,
            max_per_transaction,
            daily_limit,
            allowed_recipient,
            expiry,
            now,
            bump,
        ),
        max_per_transaction > 0,
        daily_limit >= max_per_transaction,
        expiry > now,
    ensures
        r is Ok,
        new.agent.owner == old.owner,
        new.agent.agent_authority == agent_authority,
        new.agent.max_per_transaction == max_per_transaction,
        new.agent.daily_limit == daily_limit,
        new.agent.allowed_recipient == allowed_recipient,
        new.agent.expiry == expiry,
        new.agent.day_start == now,
        new.agent.spent_today == 0,
        !new.agent.paused,
        new.agent.bump == bump,
{
}

/// A policy update whose expiry is not after the clock reading is refused
/// (with `InvalidExpiry` when the owner asks with valid limits) and changes
/// nothing.
pub proof fn lemma_update_refuses_past_expiry(
    old: UpdatePolicy,
    new: UpdatePolicy,
    r: Result<(), GuardrailError>,
    max_per_transaction: u64,
    daily_limit: u64,
    allowed_recipient: Pubkey,
    expiry: i64,
    now: i64,
)
    requires
        update_transition(old, new, r, max_per_transaction, daily_limit, allowed_recipient, expiry, now),
        expiry <= now,
    ensures
        r is Err,
        old.owner@ == old.agent.owner@ && max_per_transaction > 0 && daily_limit >= max_per_transaction ==> r
            == Err::<(), GuardrailError>(GuardrailError::InvalidExpiry),
        new == old,
{
}

/// The owner's update with a positive per-transaction limit, a daily limit at
/// least as large and an expiry after the clock reading is accepted, whatever
/// the agent's current policy (an earlier expiry or lower limits included),
/// and the agent then holds exactly the new policy.
pub proof fn lemma_owner_update_with_valid_policy_accepted(
    old: UpdatePolicy,
    new: UpdatePolicy,
    r: Result<(), GuardrailError>,
    max_per_transaction: u64,
    daily_limit: u64,
    allowed_recipient: Pubkey,
    expiry: i64,
    now: i64,
)
    requires
        update_transition(old, new, r, max_per_transaction, daily_limit, allowed_recipient, expiry, now),
        old.owner@ == old.agent.owner@,
        max_per_transaction > 0,
        daily_limit >= max_per_transaction,
        expiry > now,
    ensures
        r is Ok,
        new.agent.max_per_transaction == max_per_transaction,
        new.agent.daily_limit == daily_limit,
        new.agent.allowed_recipient == allowed_recipient,
        new.agent.expiry == expiry,
{
}

/// The owner's deposit of a positive amount is accepted, whatever the rest of
/// the agent's state: paused, expired or over its daily limit.
pub proof fn lemma_owner_deposit_accepted(agent: Agent, signer: Pubkey, amount: u64)
    requires
        signer@ == agent.owner@,
        amount > 0,
    ensures
        deposit_outcome(agent, signer, amount) == Ok::<(), GuardrailError>(()),
{
}

/// A deposit is decided by the owner and the amount alone: two agents with
/// the same owner get the same answer, whatever their policies, windows and
/// pause switches.
pub proof fn lemma_deposit_depends_on_owner_and_amount(a: Agent, b: Agent, signer: Pubkey, amount: u64)
    requires
        a.owner@ == b.owner@,
    ensures
        deposit_outcome(a, signer, amount) == deposit_outcome(b, signer, amount),
        deposit_outcome(a, signer, amount) is Ok <==> signer@ == a.owner@ && amount > 0,
{
}

} // verus!
