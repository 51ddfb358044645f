//! The program's instructions as the runtime runs them: each reads the
//! cluster state it needs (clock, rent, the agent's address) and then makes
//! the decision of `policy`.
use vstd::prelude::*;
use crate::program_id::{id, program_id_spec};
use crate::pubkey::Pubkey;
use crate::policy::{
    authorize_payment, check_limits, check_owner, initialize_agent_at, initialize_transition,
    authorize_outcome, limits_check, owner_check, payment_transition, policy_check, update_outcome, settle_payment, update_policy_at, update_transition,
    ExecutePayment, InitializeAgent, UpdatePolicy,
};
use crate::runtime::{
    clock_unix_timestamp, program_address, rent_lamports_per_byte_year, rent_min_balance,
    rent_minimum_balance, rent_rate, rent_sysvar, try_find_program_address, RENT_STORAGE_OVERHEAD,
};
use crate::state::{agent_seed, agent_seed_spec, Agent, GuardrailError, PaymentExecuted};

verus! {

/// Why an instruction failed.
#[derive(Debug)]
pub enum Error {
    /// The policy refused the request.
    Guardrail(GuardrailError),
    /// The runtime could not supply a sysvar.
    Runtime(anchor_lang::prelude::ProgramError),
    /// The agent account is not at the address derived from its owner.
    AgentAddressMismatch,
    /// No bump seed derives an address for the owner.
    NoAgentAddress,
    /// The cluster's rent rate is so high that the rent-exempt reserve of
    /// the agent account overflows a `u64`.
    RentReserveOverflow,
}

/// The rent rate at which the rent-exempt reserve of an agent account can be
/// computed without overflow.
pub open spec fn reserve_computable(rate: u64) -> bool {
    (RENT_STORAGE_OVERHEAD + Agent::ACCOUNT_SPACE) * rate <= u64::MAX
}

/// A policy decision as an instruction's result.
pub open spec fn lift<T>(r: Result<T, GuardrailError>) -> Result<T, Error> {
    match r {
        Ok(v) => Ok(v),
        Err(e) => Err(Error::Guardrail(e)),
    }
}

/// The seeds of an agent's address: `b"agent"` and the owner's address.
pub open spec fn agent_seeds(owner: Seq<u8>) -> Seq<Seq<u8>> {
    seq![agent_seed_spec(), owner]
}

/// Whether `key` is the address derived for the agent of `owner`.
pub open spec fn is_agent_address(owner: Seq<u8>, key: Seq<u8>) -> bool {
    match program_address(agent_seeds(owner), program_id_spec()) {
        Some((address, _)) => address == key,
        None => false,
    }
}

/// The address of the agent account of `owner`, with its bump seed.
pub fn agent_address(owner: &Pubkey) -> (found: Option<(Pubkey, u8)>)
    ensures
        found matches Some((address, bump)) ==> program_address(agent_seeds(owner@), program_id_spec())
            == Some((address@, bump)),
        found is None ==> program_address(agent_seeds(owner@), program_id_spec()) is None,
{
    let mut seeds: Vec<Vec<u8>> = Vec::new();
    seeds.push(agent_seed());
    seeds.push(owner.to_vec());
    assert(seeds@.map_values(|seed: Vec<u8>| seed@) =~= agent_seeds(owner@));
    try_find_program_address(&seeds, &id())
}

/// The bump seed of the agent address of `owner` (zero when there is none).
pub open spec fn derived_bump(owner: Seq<u8>) -> u8 {
    match program_address(agent_seeds(owner), program_id_spec()) {
        Some((_, bump)) => bump,
        None => 0,
    }
}

/// Creates an agent's policy, deciding with `clock`, what the Clock sysvar
/// returned: the account must be at the address derived from
/// `[b"agent", owner]`, the limits valid and the expiry after the clock
/// reading, which starts the spending window.
pub fn initialize_agent_with_clock(
    ctx: &mut InitializeAgent,
    agent_authority: Pubkey,
    max_per_transaction: u64,
    daily_limit: u64,
    allowed_recipient: Pubkey,
    expiry: i64,
    clock: Result<i64, anchor_lang::prelude::ProgramError>,
) -> (r: Result<(), Error>)
    ensures
        final(ctx).owner == old(ctx).owner,
        final(ctx).agent_key == old(ctx).agent_key,
        !(r is Ok) ==> final(ctx).agent == old(ctx).agent,
        program_address(agent_seeds(old(ctx).owner@), program_id_spec()) is None ==> r
            == Err::<(), Error>(Error::NoAgentAddress),
        program_address(agent_seeds(old(ctx).owner@), program_id_spec()) is Some && !is_agent_address(
            old(ctx).owner@,
            old(ctx).agent_key@,
        ) ==> r == Err::<(), Error>(Error::AgentAddressMismatch),
        is_agent_address(old(ctx).owner@, old(ctx).agent_key@) && limits_check(max_per_transaction, daily_limit)
            is Err ==> r == Err::<(), Error>(
            Error::Guardrail(limits_check(max_per_transaction, daily_limit)->Err_0),
        ),
        is_agent_address(old(ctx).owner@, old(ctx).agent_key@) && limits_check(max_per_transaction, daily_limit)
            is Ok && clock is Err ==> r == Err::<(), Error>(Error::Runtime(clock->Err_0)),
        is_agent_address(old(ctx).owner@, old(ctx).agent_key@) && clock is Ok ==> {
            &&& r == lift(policy_check(max_per_transaction, daily_limit, expiry, clock->Ok_0))
            &&& initialize_transition(
                *old(ctx),
                *final(ctx),
                policy_check(max_per_transaction, daily_limit, expiry, clock->Ok_0),
                agent_authority,
                max_per_transaction,
                daily_limit,
                allowed_recipient,
                expiry,
                clock->Ok_0,
                derived_bump(old(ctx).owner@),
            )
        },
{
    let found = agent_address(&ctx.owner);
    let bump: u8 = match found {
        None => return Err(Error::NoAgentAddress),
        Some((address, bump)) => {
            if !address.same_as(&ctx.agent_key) {
                return Err(Error::AgentAddressMismatch);
            }
            bump
        },
    };
    proof {
        assert(program_address(agent_seeds(old(ctx).owner@), program_id_spec()) == Some(
            (old(ctx).agent_key@, bump),
        ));
        assert(bump == derived_bump(old(ctx).owner@));
    }
    if let Err(e) = check_limits(max_per_transaction, daily_limit) {
        return Err(Error::Guardrail(e));
    }
    let now: i64 = match clock {
        Ok(now) => now,
        Err(err) => return Err(Error::Runtime(err)),
    };
    let g = initialize_agent_at(
        ctx,
        bump,
        agent_authority,
        max_per_transaction,
        daily_limit,
        allowed_recipient,
        expiry,
        now,
    );
    match g {
        Ok(()) => Ok(()),
        Err(e) => Err(Error::Guardrail(e)),
    }
}

/// Creates an agent's policy with the current clock reading; see
/// `initialize_agent_with_clock`.
pub fn initialize_agent(
    ctx: &mut InitializeAgent,
    agent_authority: Pubkey,
    max_per_transaction: u64,
    daily_limit: u64,
    allowed_recipient: Pubkey,
    expiry: i64,
) -> (r: Result<(), Error>)
    ensures
        final(ctx).owner == old(ctx).owner,
        final(ctx).agent_key == old(ctx).agent_key,
        !(r is Ok) ==> final(ctx).agent == old(ctx).agent,
        program_address(agent_seeds(old(ctx).owner@), program_id_spec()) is None ==> r
            == Err::<(), Error>(Error::NoAgentAddress),
        program_address(agent_seeds(old(ctx).owner@), program_id_spec()) matches Some((address, _))
            && address != old(ctx).agent_key@ ==> r == Err::<(), Error>(Error::AgentAddressMismatch),
        r matches Err(Error::NoAgentAddress) ==> program_address(agent_seeds(old(ctx).owner@), program_id_spec())
            is None,
        r matches Err(Error::AgentAddressMismatch) ==> program_address(agent_seeds(old(ctx).owner@), program_id_spec())
            is Some && !is_agent_address(old(ctx).owner@, old(ctx).agent_key@),
        !(r matches Err(Error::RentReserveOverflow)),
        r matches Err(Error::Runtime(_)) ==> is_agent_address(old(ctx).owner@, old(ctx).agent_key@)
            && limits_check(max_per_transaction, daily_limit) is Ok,
        is_agent_address(old(ctx).owner@, old(ctx).agent_key@) && limits_check(max_per_transaction, daily_limit) is Err ==> r == Err::<(), Error>(
            Error::Guardrail(limits_check(max_per_transaction, daily_limit)->Err_0),
        ),
        (r is Ok || r matches Err(Error::Guardrail(_))) ==> exists|
            now: i64,
            g: Result<(), GuardrailError>,
            bump: u8,
        |
            program_address(agent_seeds(old(ctx).owner@), program_id_spec()) == Some((old(ctx).agent_key@, bump))
                && r == lift(g) && #[trigger] initialize_transition(
                *old(ctx),
                *final(ctx),
                g,
                agent_authority,
                max_per_transaction,
                daily_limit,
                allowed_recipient,
                expiry,
                now,
                bump,
            ),
{
    let clock = clock_unix_timestamp();
    let r = initialize_agent_with_clock(
        ctx,
        agent_authority,
        max_per_transaction,
        daily_limit,
        allowed_recipient,
        expiry,
        clock,
    );
    proof {
        if is_agent_address(old(ctx).owner@, old(ctx).agent_key@) && clock is Ok {
            assert(initialize_transition(
                *old(ctx),
                *ctx,
                policy_check(max_per_transaction, daily_limit, expiry, clock->Ok_0),
                agent_authority,
                max_per_transaction,
                daily_limit,
                allowed_recipient,
                expiry,
                clock->Ok_0,
                derived_bump(old(ctx).owner@),
            ));
        } else if is_agent_address(old(ctx).owner@, old(ctx).agent_key@) && limits_check(max_per_transaction, daily_limit) is Err {
            assert(initialize_transition(
                *old(ctx),
                *ctx,
                limits_check(max_per_transaction, daily_limit),
                agent_authority,
                max_per_transaction,
                daily_limit,
                allowed_recipient,
                expiry,
                0,
                derived_bump(old(ctx).owner@),
            ));
        }
    }
    r
}

/// Replaces the limits, the recipient and the expiry of an agent's policy,
/// deciding with `clock`, what the Clock sysvar returned: the owner only,
/// with the same checks as at creation.
pub fn update_policy_with_clock(
    ctx: &mut UpdatePolicy,
    max_per_transaction: u64,
    daily_limit: u64,
    allowed_recipient: Pubkey,
    expiry: i64,
    clock: Result<i64, anchor_lang::prelude::ProgramError>,
) -> (r: Result<(), Error>)
    ensures
        final(ctx).owner == old(ctx).owner,
        !(r is Ok) ==> final(ctx).agent == old(ctx).agent,
        owner_check(old(ctx).agent, old(ctx).owner) is Err ==> r == Err::<(), Error>(
            Error::Guardrail(GuardrailError::UnauthorizedOwner),
        ),
        owner_check(old(ctx).agent, old(ctx).owner) is Ok && limits_check(max_per_transaction, daily_limit) is Err
            ==> r == Err::<(), Error>(Error::Guardrail(limits_check(max_per_transaction, daily_limit)->Err_0)),
        owner_check(old(ctx).agent, old(ctx).owner) is Ok && limits_check(max_per_transaction, daily_limit) is Ok
            && clock is Err ==> r == Err::<(), Error>(Error::Runtime(clock->Err_0)),
        clock is Ok ==> {
            &&& r == lift(
                update_outcome(old(ctx).agent, old(ctx).owner, max_per_transaction, daily_limit, expiry, clock->Ok_0),
            )
            &&& update_transition(
                *old(ctx),
                *final(ctx),
                update_outcome(old(ctx).agent, old(ctx).owner, max_per_transaction, daily_limit, expiry, clock->Ok_0),
                max_per_transaction,
                daily_limit,
                allowed_recipient,
                expiry,
                clock->Ok_0,
            )
        },
{
    if let Err(e) = check_owner(&ctx.agent, &ctx.owner) {
        return Err(Error::Guardrail(e));
    }
    if let Err(e) = check_limits(max_per_transaction, daily_limit) {
        return Err(Error::Guardrail(e));
    }
    let now: i64 = match clock {
        Ok(now) => now,
        Err(err) => return Err(Error::Runtime(err)),
    };
    let g = update_policy_at(ctx, max_per_transaction, daily_limit, allowed_recipient, expiry, now);
    match g {
        Ok(()) => Ok(()),
        Err(e) => Err(Error::Guardrail(e)),
    }
}

/// Replaces the policy with the current clock reading; see
/// `update_policy_with_clock`.
pub fn update_policy(
    ctx: &mut UpdatePolicy,
    max_per_transaction: u64,
    daily_limit: u64,
    allowed_recipient: Pubkey,
    expiry: i64,
) -> (r: Result<(), Error>)
    ensures
        final(ctx).owner == old(ctx).owner,
        !(r is Ok) ==> final(ctx).agent == old(ctx).agent,
        owner_check(old(ctx).agent, old(ctx).owner) matches Err(e) ==> r == Err::<(), Error>(
            Error::Guardrail(e),
        ),
        owner_check(old(ctx).agent, old(ctx).owner) is Ok ==> {
            &&& limits_check(max_per_transaction, daily_limit) matches Err(e) ==> r == Err::<
                (),
                Error,
            >(Error::Guardrail(e))
        },
        r matches Err(Error::Runtime(_)) ==> owner_check(old(ctx).agent, old(ctx).owner) is Ok
            && limits_check(max_per_transaction, daily_limit) is Ok,
        !(r matches Err(Error::AgentAddressMismatch)),
        !(r matches Err(Error::NoAgentAddress)),
        !(r matches Err(Error::RentReserveOverflow)),
        !(r matches Err(Error::Runtime(_))) ==> exists|now: i64, g: Result<(), GuardrailError>|
            r == lift(g) && #[trigger] update_transition(
                *old(ctx),
                *final(ctx),
                g,
                max_per_transaction,
                daily_limit,
                allowed_recipient,
                expiry,
                now,
            ),
{
    let clock = clock_unix_timestamp();
    let r = update_policy_with_clock(ctx, max_per_transaction, daily_limit, allowed_recipient, expiry, clock);
    proof {
        let t: i64 = if clock is Ok {
            clock->Ok_0
        } else {
            0
        };
        if clock is Ok || owner_check(old(ctx).agent, old(ctx).owner) is Err || limits_check(
            max_per_transaction,
            daily_limit,
        ) is Err {
            assert(update_transition(
                *old(ctx),
                *ctx,
                update_outcome(old(ctx).agent, old(ctx).owner, max_per_transaction, daily_limit, expiry, t),
                max_per_transaction,
                daily_limit,
                allowed_recipient,
                expiry,
                t,
            ));
        }
    }
    r
}

/// The rent-exempt reserve of an agent account (discriminator and fields)
/// under `rent`, or `None` when the rent rate is so high that computing it
/// would overflow.
pub fn agent_rent_reserve(rent: &anchor_lang::prelude::Rent) -> (reserve: Option<u64>)
    ensures
        reserve == (if reserve_computable(rent_rate(*rent)) {
            Some(rent_min_balance(*rent, Agent::ACCOUNT_SPACE))
        } else {
            None
        }),
{
    let rate: u64 = rent_lamports_per_byte_year(rent);
    let space: u64 = RENT_STORAGE_OVERHEAD + Agent::ACCOUNT_SPACE as u64;
    match rate.checked_mul(space) {
        None => None,
        Some(_) => Some(rent_minimum_balance(rent, Agent::ACCOUNT_SPACE)),
    }
}

/// Executes a payment of `amount` lamports from the agent's vault, deciding
/// with `clock`, what the Clock sysvar returned: the payment is made when the
/// policy approves it at the clock reading and the vault keeps the rent-exempt
/// reserve of the whole agent account (discriminator and fields); a refused
/// payment changes nothing. The lamports of the vault and the recipient
/// together must fit in a `u64`, as all lamports do.
pub fn execute_payment_with_clock(
    ctx: &mut ExecutePayment,
    amount: u64,
    clock: Result<i64, anchor_lang::prelude::ProgramError>,
) -> (r: Result<PaymentExecuted, Error>)
    requires
        old(ctx).agent_lamports + old(ctx).recipient_lamports <= u64::MAX,
    ensures
        amount == 0 ==> r == Err::<PaymentExecuted, Error>(Error::Guardrail(GuardrailError::InvalidAmount)),
        !(r is Ok) ==> *final(ctx) == *old(ctx),
        !(r matches Err(Error::AgentAddressMismatch)),
        !(r matches Err(Error::NoAgentAddress)),
        amount > 0 && clock is Err ==> r == Err::<PaymentExecuted, Error>(Error::Runtime(clock->Err_0)),
        amount > 0 && clock is Ok && authorize_outcome(
            old(ctx).agent,
            old(ctx).agent_authority,
            old(ctx).recipient,
            amount,
            clock->Ok_0,
        ) is Err ==> r == Err::<PaymentExecuted, Error>(
            Error::Guardrail(
                authorize_outcome(
                    old(ctx).agent,
                    old(ctx).agent_authority,
                    old(ctx).recipient,
                    amount,
                    clock->Ok_0,
                )->Err_0,
            ),
        ),
        r matches Err(Error::Runtime(_)) ==> amount > 0 && (clock is Err || authorize_outcome(
            old(ctx).agent,
            old(ctx).agent_authority,
            old(ctx).recipient,
            amount,
            clock->Ok_0,
        ) is Ok),
        r matches Err(Error::RentReserveOverflow) ==> {
            &&& clock is Ok
            &&& authorize_outcome(old(ctx).agent, old(ctx).agent_authority, old(ctx).recipient, amount, clock->Ok_0) is Ok
            &&& exists|rent: anchor_lang::prelude::Rent| !reserve_computable(#[trigger] rent_rate(rent))
        },
        (r is Ok || r matches Err(Error::Guardrail(_))) && clock is Ok ==> exists|
            rent: anchor_lang::prelude::Rent,
            g: Result<PaymentExecuted, GuardrailError>,
        |
            r == lift(g) && #[trigger] payment_transition(
                *old(ctx),
                *final(ctx),
                g,
                amount,
                clock->Ok_0,
                rent_min_balance(rent, Agent::ACCOUNT_SPACE),
            ),
        r matches Ok(event) ==> clock is Ok && event.timestamp == clock->Ok_0 && event.amount == amount,

{
    if amount == 0 {
        proof {
            // A zero amount is refused whatever the clock and the rent.
            let rent = vstd::pervasive::arbitrary::<anchor_lang::prelude::Rent>();
            let t: i64 = if clock is Ok {
                clock->Ok_0
            } else {
                0
            };
            assert(payment_transition(
                *old(ctx),
                *ctx,
                Err(GuardrailError::InvalidAmount),
                amount,
                t,
                rent_min_balance(rent, Agent::ACCOUNT_SPACE),
            ));
        }
        return Err(Error::Guardrail(GuardrailError::InvalidAmount));
    }
    let now: i64 = match clock {
        Ok(now) => now,
        Err(err) => return Err(Error::Runtime(err)),
    };
    let window = match authorize_payment(&ctx.agent, &ctx.agent_authority, &ctx.recipient, amount, now) {
        Ok(window) => window,
        Err(e) => {
            proof {
                // The decision stops at the policy, whatever the rent.
                let rent = vstd::pervasive::arbitrary::<anchor_lang::prelude::Rent>();
                assert(payment_transition(
                    *old(ctx),
                    *ctx,
                    Err(e),
                    amount,
                    now,
                    rent_min_balance(rent, Agent::ACCOUNT_SPACE),
                ));
            }
            return Err(Error::Guardrail(e));
        },
    };
    let rent = match rent_sysvar() {
        Ok(rent) => rent,
        Err(err) => return Err(Error::Runtime(err)),
    };
    let rent_reserve: u64 = match agent_rent_reserve(&rent) {
        Some(reserve) => reserve,
        None => {
            proof {
                assert(authorize_outcome(ctx.agent, ctx.agent_authority, ctx.recipient, amount, now) is Ok);
                assert(!reserve_computable(rent_rate(rent)));
            }
            return Err(Error::RentReserveOverflow);
        },
    };
    let g = settle_payment(ctx, amount, now, window, rent_reserve);
    proof {
        assert(payment_transition(*old(ctx), *ctx, g, amount, now, rent_min_balance(rent, Agent::ACCOUNT_SPACE)));
    }
    match g {
        Ok(event) => Ok(event),
        Err(e) => Err(Error::Guardrail(e)),
    }
}


/// Executes a payment with the current clock reading; see
/// `execute_payment_with_clock`.
pub fn execute_payment(ctx: &mut ExecutePayment, amount: u64) -> (r: Result<PaymentExecuted, Error>)
    requires
        old(ctx).agent_lamports + old(ctx).recipient_lamports <= u64::MAX,
    ensures
        amount == 0 ==> r == Err::<PaymentExecuted, Error>(Error::Guardrail(GuardrailError::InvalidAmount)),
        !(r is Ok) ==> *final(ctx) == *old(ctx),
        !(r matches Err(Error::AgentAddressMismatch)),
        !(r matches Err(Error::NoAgentAddress)),
        r matches Err(Error::Runtime(_)) ==> amount > 0,
        r matches Err(Error::RentReserveOverflow) ==> exists|now: i64, rent: anchor_lang::prelude::Rent|
            #![trigger authorize_outcome(old(ctx).agent, old(ctx).agent_authority, old(ctx).recipient, amount, now), rent_rate(rent)]
            authorize_outcome(old(ctx).agent, old(ctx).agent_authority, old(ctx).recipient, amount, now) is Ok
                && !reserve_computable(rent_rate(rent)),
        (r is Ok || r matches Err(Error::Guardrail(_))) ==> exists|
            now: i64,
            rent: anchor_lang::prelude::Rent,
            g: Result<PaymentExecuted, GuardrailError>,
        |
            r == lift(g) && #[trigger] payment_transition(
                *old(ctx),
                *final(ctx),
                g,
                amount,
                now,
                rent_min_balance(rent, Agent::ACCOUNT_SPACE),
            ),
{
    let clock = clock_unix_timestamp();
    let r = execute_payment_with_clock(ctx, amount, clock);
    proof {
        if amount == 0 {
            let rent = vstd::pervasive::arbitrary::<anchor_lang::prelude::Rent>();
            assert(payment_transition(
                *old(ctx),
                *ctx,
                Err(GuardrailError::InvalidAmount),
                amount,
                0,
                rent_min_balance(rent, Agent::ACCOUNT_SPACE),
            ));
        }
    }
    r
}

} // verus!
