//! What holds of every purchase and every run of purchases.

use vstd::prelude::*;

use crate::rules::{purchase_error, settle, validation_error, accounting_fits};
use crate::state::{PresaleConfig, PresaleError, Pubkey, Purchase, UserAllocation};

verus! {

/// One purchase attempt in a run against the registry: the buyer, that buyer's
/// allocation record as it stands when the attempt is made, the bump seed of
/// its address, and the request itself.
pub struct PurchaseAttempt {
    pub buyer: Pubkey,
    pub user_allocation: UserAllocation,
    pub allocation_bump: u8,
    pub now: i64,
    pub usd_amount: u64,
    pub token_amount: u64,
}

/// The records that an attempt works on, given the registry at that moment.
pub open spec fn attempt_context(c: PresaleConfig, a: PurchaseAttempt) -> Purchase {
    Purchase {
        buyer: a.buyer,
        presale_config: c,
        user_allocation: a.user_allocation,
        allocation_bump: a.allocation_bump,
    }
}

/// The registry after a run of purchase attempts, each one settled in turn.
pub open spec fn registry_after(c: PresaleConfig, attempts: Seq<PurchaseAttempt>) -> PresaleConfig
    decreases attempts.len(),
{
    if attempts.len() == 0 {
        c
    } else {
        let before = registry_after(c, attempts.drop_last());
        let a = attempts.last();
        settle(attempt_context(before, a), a.now, a.usd_amount, a.token_amount).presale_config
    }
}

/// A single purchase attempt, accepted or refused, leaves the registry within
/// its hard cap, and the hard cap as it was.
pub proof fn lemma_purchase_keeps_cap(ctx: Purchase, now: i64, usd_amount: u64, token_amount: u64)
    requires
        ctx.presale_config.wf(),
    ensures
        settle(ctx, now, usd_amount, token_amount).presale_config.wf(),
        settle(ctx, now, usd_amount, token_amount).presale_config.hard_cap_usd
            == ctx.presale_config.hard_cap_usd,
{
}

/// Whatever purchases are attempted against a registry within its cap, by
/// whichever buyers and in whichever order, the running total never exceeds
/// the hard cap, after every step.
pub proof fn lemma_cap_invariant(c: PresaleConfig, attempts: Seq<PurchaseAttempt>)
    requires
        c.wf(),
    ensures
        registry_after(c, attempts).wf(),
        registry_after(c, attempts).hard_cap_usd == c.hard_cap_usd,
        forall|i: int|
            0 <= i <= attempts.len() ==> (#[trigger] registry_after(c, attempts.take(i))).wf(),
    decreases attempts.len(),
{
    if attempts.len() > 0 {
        let before = attempts.drop_last();
        lemma_cap_invariant(c, before);
        let a = attempts.last();
        lemma_purchase_keeps_cap(
            attempt_context(registry_after(c, before), a),
            a.now,
            a.usd_amount,
            a.token_amount,
        );
    }
    assert forall|i: int| 0 <= i <= attempts.len() implies (#[trigger] registry_after(
        c,
        attempts.take(i),
    )).wf() by {
        if i < attempts.len() {
            lemma_cap_invariant(c, attempts.take(i));
        } else {
            assert(attempts.take(i) =~= attempts);
        }
    }
}

/// Every allocation record stays balanced: a purchase attempt on a balanced
/// record (or on a buyer who has none yet) leaves one whose total is the sum
/// of its immediate and vested amounts.
pub proof fn lemma_split_invariant(ctx: Purchase, now: i64, usd_amount: u64, token_amount: u64)
    requires
        ctx.wf(),
    ensures
        settle(ctx, now, usd_amount, token_amount).wf(),
        settle(ctx, now, usd_amount, token_amount).user_allocation.initialized
            ==> settle(ctx, now, usd_amount, token_amount).user_allocation.wf(),
{
}

/// The window is checked before the amount: in a valid window, a purchase
/// after the end that is also below the minimum is refused as ended.
pub proof fn lemma_window_precedence(ctx: Purchase, now: i64, usd_amount: u64, token_amount: u64)
    requires
        ctx.presale_config.window_valid(),
        now > ctx.presale_config.presale_end,
        usd_amount < ctx.presale_config.min_purchase_usd,
    ensures
        purchase_error(ctx, now, usd_amount, token_amount) == Some(PresaleError::PresaleEnded),
{
}

/// A refused purchase, whatever the reason, leaves the registry and the
/// buyer's allocation record exactly as they were.
pub proof fn lemma_refused_purchase_changes_nothing(
    ctx: Purchase,
    now: i64,
    usd_amount: u64,
    token_amount: u64,
)
    requires
        purchase_error(ctx, now, usd_amount, token_amount) is Some,
    ensures
        settle(ctx, now, usd_amount, token_amount) == ctx,
{
}

/// A purchase that passes the window and amount checks but would overflow the
/// running total or any other accumulator is refused with `MathOverflow`, and
/// so changes nothing.
pub proof fn lemma_overflow_is_refused(ctx: Purchase, now: i64, usd_amount: u64, token_amount: u64)
    requires
        ctx.presale_config.presale_start <= now <= ctx.presale_config.presale_end,
        ctx.presale_config.min_purchase_usd <= usd_amount <= ctx.presale_config.max_purchase_usd,
        ctx.presale_config.total_raised + usd_amount > u64::MAX || (validation_error(
            ctx.presale_config,
            now,
            usd_amount,
        ) is None && !accounting_fits(ctx, now, token_amount)),
    ensures
        purchase_error(ctx, now, usd_amount, token_amount) == Some(PresaleError::MathOverflow),
        settle(ctx, now, usd_amount, token_amount) == ctx,
{
}

/// An accepted purchase adds one participant on the buyer's first purchase
/// and none otherwise.
pub proof fn lemma_participant_counting(
    ctx: Purchase,
    now: i64,
    usd_amount: u64,
    token_amount: u64,
)
    requires
        purchase_error(ctx, now, usd_amount, token_amount) is None,
    ensures
        settle(ctx, now, usd_amount, token_amount).presale_config.participant_count
            == ctx.presale_config.participant_count + if ctx.user_allocation.initialized {
            0int
        } else {
            1int
        },
        settle(ctx, now, usd_amount, token_amount).user_allocation.initialized,
{
}

/// Two accepted purchases in a row by a new buyer count that buyer once.
pub proof fn lemma_repeat_buyer_counted_once(
    ctx: Purchase,
    now1: i64,
    usd1: u64,
    token1: u64,
    now2: i64,
    usd2: u64,
    token2: u64,
)
    requires
        !ctx.user_allocation.initialized,
        purchase_error(ctx, now1, usd1, token1) is None,
        purchase_error(settle(ctx, now1, usd1, token1), now2, usd2, token2) is None,
    ensures
        settle(settle(ctx, now1, usd1, token1), now2, usd2, token2).presale_config.participant_count
            == ctx.presale_config.participant_count + 1,
{
    lemma_participant_counting(ctx, now1, usd1, token1);
    lemma_participant_counting(settle(ctx, now1, usd1, token1), now2, usd2, token2);
}

} // verus!
