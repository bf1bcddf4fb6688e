//! The rules of the presale: setting up the registry, admitting a purchase,
//! and the accounting it does, each stated over spec functions.

use vstd::prelude::*;

use crate::state::{Initialize, PresaleConfig, PresaleError, Pubkey, Purchase, UserAllocation};

verus! {

/// Length of a day, in seconds.
pub const SECONDS_PER_DAY: i64 = 86400;

/// Length of a vesting month, in days: every month counts as thirty days.
pub const DAYS_PER_MONTH: i64 = 30;

/// Percentages are taken out of this.
pub const PERCENT_BASE: u64 = 100;

/// The registry as `initialize` leaves it: the parameters verbatim, nothing raised yet.
pub open spec fn initial_config(
    authority: Pubkey,
    treasury_wallet: Pubkey,
    token_mint: Pubkey,
    presale_start: i64,
    presale_end: i64,
    token_price: u64,
    min_purchase_usd: u64,
    max_purchase_usd: u64,
    hard_cap_usd: u64,
    vesting_percent_immediate: u8,
    vesting_duration_months: u8,
    bump: u8,
) -> PresaleConfig {
    PresaleConfig {
        authority,
        treasury_wallet,
        token_mint,
        presale_start,
        presale_end,
        token_price,
        min_purchase_usd,
        max_purchase_usd,
        hard_cap_usd,
        total_raised: 0,
        participant_count: 0,
        vesting_percent_immediate,
        vesting_duration_months,
        bump,
    }
}

/// The first rule that a purchase of `usd_amount` at time `now` breaks, the
/// rules taken in this order: window start, window end, minimum, maximum,
/// room in the running total, hard cap. `None` when it breaks none.
pub open spec fn validation_error(c: PresaleConfig, now: i64, usd_amount: u64) -> Option<
    PresaleError,
> {
    if now < c.presale_start {
        Some(PresaleError::PresaleNotStarted)
    } else if now > c.presale_end {
        Some(PresaleError::PresaleEnded)
    } else if usd_amount < c.min_purchase_usd {
        Some(PresaleError::BelowMinimumPurchase)
    } else if usd_amount > c.max_purchase_usd {
        Some(PresaleError::AboveMaximumPurchase)
    } else if c.total_raised + usd_amount > u64::MAX {
        Some(PresaleError::MathOverflow)
    } else if c.total_raised + usd_amount > c.hard_cap_usd {
        Some(PresaleError::HardCapReached)
    } else {
        None
    }
}

/// The part of `token_amount` released at once: `percent` of it, rounded down.
pub open spec fn immediate_share(token_amount: int, percent: int) -> int {
    token_amount * percent / PERCENT_BASE as int
}

/// The moment `months` vesting months after `now`.
pub open spec fn vesting_deadline(now: int, months: int) -> int {
    now + months * DAYS_PER_MONTH * SECONDS_PER_DAY
}

/// The allocation record that a purchase accumulates into: the buyer's own,
/// or a fresh one with every amount at zero on the buyer's first purchase.
pub open spec fn starting_allocation(ctx: Purchase) -> UserAllocation {
    if ctx.user_allocation.initialized {
        ctx.user_allocation
    } else {
        UserAllocation {
            initialized: true,
            buyer: ctx.buyer,
            total_allocation: 0,
            immediate_amount: 0,
            vested_amount: 0,
            vesting_end: 0,
            bump: ctx.allocation_bump,
        }
    }
}

/// Whether every figure that a purchase of `token_amount` computes fits its type:
/// the participant count, the product taken for the immediate part, the vested
/// remainder, the three accumulated amounts and the vesting deadline.
pub open spec fn accounting_fits(ctx: Purchase, now: i64, token_amount: u64) -> bool {
    let c = ctx.presale_config;
    let a = starting_allocation(ctx);
    let immediate = immediate_share(token_amount as int, c.vesting_percent_immediate as int);
    &&& ctx.user_allocation.initialized || c.participant_count + 1 <= u64::MAX
    &&& token_amount * c.vesting_percent_immediate <= u64::MAX
    &&& immediate <= token_amount
    &&& a.total_allocation + token_amount <= u64::MAX
    &&& a.immediate_amount + immediate <= u64::MAX
    &&& a.vested_amount + (token_amount - immediate) <= u64::MAX
    &&& vesting_deadline(now as int, c.vesting_duration_months as int) <= i64::MAX
}

/// Why a purchase is refused, or `None` when it goes through.
pub open spec fn purchase_error(ctx: Purchase, now: i64, usd_amount: u64, token_amount: u64) -> Option<
    PresaleError,
> {
    match validation_error(ctx.presale_config, now, usd_amount) {
        Some(e) => Some(e),
        None => if accounting_fits(ctx, now, token_amount) {
            None
        } else {
            Some(PresaleError::MathOverflow)
        },
    }
}

/// The records after a purchase that goes through.
pub open spec fn purchased(ctx: Purchase, now: i64, usd_amount: u64, token_amount: u64) -> Purchase {
    let c = ctx.presale_config;
    let a = starting_allocation(ctx);
    let immediate = immediate_share(token_amount as int, c.vesting_percent_immediate as int);
    Purchase {
        presale_config: PresaleConfig {
            total_raised: (c.total_raised + usd_amount) as u64,
            participant_count: if ctx.user_allocation.initialized {
                c.participant_count
            } else {
                (c.participant_count + 1) as u64
            },
            ..c
        },
        user_allocation: UserAllocation {
            total_allocation: (a.total_allocation + token_amount) as u64,
            immediate_amount: (a.immediate_amount + immediate) as u64,
            vested_amount: (a.vested_amount + (token_amount - immediate)) as u64,
            vesting_end: vesting_deadline(now as int, c.vesting_duration_months as int) as i64,
            ..a
        },
        ..ctx
    }
}

/// The records after a purchase attempt: changed if it goes through, as they
/// were if it is refused.
pub open spec fn settle(ctx: Purchase, now: i64, usd_amount: u64, token_amount: u64) -> Purchase {
    if purchase_error(ctx, now, usd_amount, token_amount) is Some {
        ctx
    } else {
        purchased(ctx, now, usd_amount, token_amount)
    }
}

/// Creates the registry record with nothing raised, no participants, and the
/// given parameters verbatim; the authority is the signer of `ctx`.
pub fn initialize(
    ctx: &mut Initialize,
    treasury_wallet: Pubkey,
    token_mint: Pubkey,
    presale_start: i64,
    presale_end: i64,
    token_price: u64,
    min_purchase_usd: u64,
    max_purchase_usd: u64,
    hard_cap_usd: u64,
    vesting_percent_immediate: u8,
    vesting_duration_months: u8,
)
    ensures
        final(ctx).authority == old(ctx).authority,
        final(ctx).config_bump == old(ctx).config_bump,
        final(ctx).presale_config == initial_config(
            old(ctx).authority,
            treasury_wallet,
            token_mint,
            presale_start,
            presale_end,
            token_price,
            min_purchase_usd,
            max_purchase_usd,
            hard_cap_usd,
            vesting_percent_immediate,
            vesting_duration_months,
            old(ctx).config_bump,
        ),
        final(ctx).presale_config.wf(),
{
    let config = &mut ctx.presale_config;
    config.authority = ctx.authority;
    config.treasury_wallet = treasury_wallet;
    config.token_mint = token_mint;
    config.presale_start = presale_start;
    config.presale_end = presale_end;
    config.token_price = token_price;
    config.min_purchase_usd = min_purchase_usd;
    config.max_purchase_usd = max_purchase_usd;
    config.hard_cap_usd = hard_cap_usd;
    config.total_raised = 0;
    config.participant_count = 0;
    config.vesting_percent_immediate = vesting_percent_immediate;
    config.vesting_duration_months = vesting_duration_months;
    config.bump = ctx.config_bump;
}

/// Checks a purchase of `usd_amount` at time `now` against the registry, rule
/// by rule in the order of `validation_error`, and returns the registry's
/// running total after the purchase.
pub fn validate_purchase(config: &PresaleConfig, now: i64, usd_amount: u64) -> (r: Result<
    u64,
    PresaleError,
>)
    ensures
        r == match validation_error(*config, now, usd_amount) {
            Some(e) => Err::<u64, PresaleError>(e),
            None => Ok((config.total_raised + usd_amount) as u64),
        },
{
    if now < config.presale_start {
        return Err(PresaleError::PresaleNotStarted);
    }
    if now > config.presale_end {
        return Err(PresaleError::PresaleEnded);
    }
    if usd_amount < config.min_purchase_usd {
        return Err(PresaleError::BelowMinimumPurchase);
    }
    if usd_amount > config.max_purchase_usd {
        return Err(PresaleError::AboveMaximumPurchase);
    }
    let new_total_raised = match config.total_raised.checked_add(usd_amount) {
        Some(t) => t,
        None => return Err(PresaleError::MathOverflow),
    };
    if new_total_raised > config.hard_cap_usd {
        return Err(PresaleError::HardCapReached);
    }
    Ok(new_total_raised)
}

/// Splits `token_amount` into the part released at once (`percent` of it,
/// rounded down) and the vested remainder.
pub fn split_allocation(token_amount: u64, percent: u8) -> (r: Result<(u64, u64), PresaleError>)
    ensures
        ({
            let immediate = immediate_share(token_amount as int, percent as int);
            r == if token_amount * percent <= u64::MAX && immediate <= token_amount {
                Ok::<(u64, u64), PresaleError>(
                    (immediate as u64, (token_amount - immediate) as u64),
                )
            } else {
                Err(PresaleError::MathOverflow)
            }
        }),
{
    let product = match token_amount.checked_mul(percent as u64) {
        Some(p) => p,
        None => return Err(PresaleError::MathOverflow),
    };
    let immediate_amount = product / PERCENT_BASE;
    let vested_amount = match token_amount.checked_sub(immediate_amount) {
        Some(v) => v,
        None => return Err(PresaleError::MathOverflow),
    };
    Ok((immediate_amount, vested_amount))
}

/// The vesting deadline `months` vesting months after `now`.
pub fn vesting_end_after(now: i64, months: u8) -> (r: Result<i64, PresaleError>)
    ensures
        r == if vesting_deadline(now as int, months as int) <= i64::MAX {
            Ok::<i64, PresaleError>(vesting_deadline(now as int, months as int) as i64)
        } else {
            Err(PresaleError::MathOverflow)
        },
{
    let duration = (months as i64) * DAYS_PER_MONTH * SECONDS_PER_DAY;
    match now.checked_add(duration) {
        Some(end) => Ok(end),
        None => Err(PresaleError::MathOverflow),
    }
}

/// Adds `delta` to an accumulated amount, refusing to wrap.
fn accumulate(total: u64, delta: u64) -> (r: Result<u64, PresaleError>)
    ensures
        r == if total + delta <= u64::MAX {
            Ok::<u64, PresaleError>((total + delta) as u64)
        } else {
            Err(PresaleError::MathOverflow)
        },
{
    match total.checked_add(delta) {
        Some(t) => Ok(t),
        None => Err(PresaleError::MathOverflow),
    }
}

/// A purchase of `token_amount` tokens for `usd_amount` at time `now`. It checks
/// the purchase, computes every new figure, and only then writes them all: the
/// registry's total and participant count, and the buyer's allocation record,
/// created on the buyer's first purchase. The vesting deadline of the whole
/// record is set anew from `now`. A refused purchase changes nothing.
pub fn purchase(ctx: &mut Purchase, now: i64, usd_amount: u64, token_amount: u64) -> (r: Result<
    (),
    PresaleError,
>)
    ensures
        r == match purchase_error(*old(ctx), now, usd_amount, token_amount) {
            Some(e) => Err::<(), PresaleError>(e),
            None => Ok(()),
        },
        *final(ctx) == settle(*old(ctx), now, usd_amount, token_amount),
        old(ctx).wf() ==> final(ctx).wf(),
{
    let new_total_raised = match validate_purchase(&ctx.presale_config, now, usd_amount) {
        Ok(t) => t,
        Err(e) => return Err(e),
    };
    let first_purchase = !ctx.user_allocation.initialized;
    let participant_count = if first_purchase {
        match ctx.presale_config.participant_count.checked_add(1) {
            Some(n) => n,
            None => return Err(PresaleError::MathOverflow),
        }
    } else {
        ctx.presale_config.participant_count
    };
    let (immediate_amount, vested_amount) = match split_allocation(
        token_amount,
        ctx.presale_config.vesting_percent_immediate,
    ) {
        Ok(parts) => parts,
        Err(e) => return Err(e),
    };
    let (base_total, base_immediate, base_vested) = if first_purchase {
        (0u64, 0u64, 0u64)
    } else {
        (
            ctx.user_allocation.total_allocation,
            ctx.user_allocation.immediate_amount,
            ctx.user_allocation.vested_amount,
        )
    };
    let total_allocation = match accumulate(base_total, token_amount) {
        Ok(t) => t,
        Err(e) => return Err(e),
    };
    let immediate_total = match accumulate(base_immediate, immediate_amount) {
        Ok(t) => t,
        Err(e) => return Err(e),
    };
    let vested_total = match accumulate(base_vested, vested_amount) {
        Ok(t) => t,
        Err(e) => return Err(e),
    };
    let vesting_end = match vesting_end_after(now, ctx.presale_config.vesting_duration_months) {
        Ok(end) => end,
        Err(e) => return Err(e),
    };

    ctx.presale_config.total_raised = new_total_raised;
    ctx.presale_config.participant_count = participant_count;
    if first_purchase {
        ctx.user_allocation.initialized = true;
        ctx.user_allocation.buyer = ctx.buyer;
        ctx.user_allocation.bump = ctx.allocation_bump;
    }
    ctx.user_allocation.total_allocation = total_allocation;
    ctx.user_allocation.immediate_amount = immediate_total;
    ctx.user_allocation.vested_amount = vested_total;
    ctx.user_allocation.vesting_end = vesting_end;
    Ok(())
}

} // verus!
