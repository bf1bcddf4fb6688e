use ocf_presale::rules::{DAYS_PER_MONTH, SECONDS_PER_DAY};
use ocf_presale::{
    initialize, purchase, split_allocation, validate_purchase, vesting_end_after, Initialize,
    PresaleConfig, PresaleError, Pubkey, Purchase, UserAllocation,
};

const MONTH: i64 = 30 * 86400;

fn key(b: u8) -> Pubkey {
    Pubkey::new_from_array([b; 32])
}

fn config() -> PresaleConfig {
    PresaleConfig {
        authority: key(1),
        treasury_wallet: key(2),
        token_mint: key(3),
        presale_start: 1_000,
        presale_end: 2_000,
        token_price: 10,
        min_purchase_usd: 100,
        max_purchase_usd: 1_000,
        hard_cap_usd: 5_000,
        total_raised: 0,
        participant_count: 0,
        vesting_percent_immediate: 20,
        vesting_duration_months: 6,
        bump: 254,
    }
}

fn context(buyer: u8) -> Purchase {
    Purchase {
        buyer: key(buyer),
        presale_config: config(),
        user_allocation: UserAllocation::empty(),
        allocation_bump: 253,
    }
}

fn assert_same(a: &Purchase, b: &Purchase) {
    assert_eq!(format!("{:?}", a), format!("{:?}", b));
}

#[test]
fn first_purchase_splits_and_vests() {
    let mut ctx = context(7);
    assert_eq!(purchase(&mut ctx, 1_500, 500, 1_000), Ok(()));
    let a = ctx.user_allocation;
    assert!(a.initialized);
    assert_eq!(a.buyer, key(7));
    assert_eq!(a.bump, 253);
    assert_eq!(a.total_allocation, 1_000);
    assert_eq!(a.immediate_amount, 200);
    assert_eq!(a.vested_amount, 800);
    assert_eq!(a.vesting_end, 1_500 + 6 * 30 * 86400);
    assert_eq!(ctx.presale_config.total_raised, 500);
    assert_eq!(ctx.presale_config.participant_count, 1);
}

#[test]
fn second_purchase_accumulates_and_resets_deadline() {
    let mut ctx = context(7);
    assert_eq!(purchase(&mut ctx, 1_500, 500, 1_000), Ok(()));
    assert_eq!(purchase(&mut ctx, 1_800, 300, 500), Ok(()));
    let a = ctx.user_allocation;
    assert_eq!(a.total_allocation, 1_500);
    assert_eq!(a.immediate_amount, 300);
    assert_eq!(a.vested_amount, 1_200);
    assert_eq!(a.vesting_end, 1_800 + 6 * MONTH);
    assert_eq!(ctx.presale_config.total_raised, 800);
    assert_eq!(ctx.presale_config.participant_count, 1);
}

#[test]
fn purchase_over_hard_cap_is_refused_unchanged() {
    let mut ctx = context(7);
    ctx.presale_config.total_raised = 4_600;
    ctx.presale_config.participant_count = 9;
    let before = ctx;
    assert_eq!(purchase(&mut ctx, 1_500, 500, 1_000), Err(PresaleError::HardCapReached));
    assert_same(&ctx, &before);
}

#[test]
fn purchase_reaching_hard_cap_exactly_is_accepted() {
    let mut ctx = context(7);
    ctx.presale_config.total_raised = 4_500;
    assert_eq!(purchase(&mut ctx, 1_500, 500, 1_000), Ok(()));
    assert_eq!(ctx.presale_config.total_raised, 5_000);
}

#[test]
fn purchase_at_window_end_is_accepted() {
    let mut ctx = context(7);
    assert_eq!(purchase(&mut ctx, 2_000, 500, 1_000), Ok(()));
}

#[test]
fn purchase_after_window_end_is_refused() {
    let mut ctx = context(7);
    let before = ctx;
    assert_eq!(purchase(&mut ctx, 2_001, 500, 1_000), Err(PresaleError::PresaleEnded));
    assert_same(&ctx, &before);
}

#[test]
fn purchase_at_window_start_is_accepted_and_before_refused() {
    let mut ctx = context(7);
    assert_eq!(purchase(&mut ctx, 999, 500, 1_000), Err(PresaleError::PresaleNotStarted));
    assert_eq!(purchase(&mut ctx, 1_000, 500, 1_000), Ok(()));
}

#[test]
fn ended_is_reported_before_below_minimum() {
    let mut ctx = context(7);
    assert_eq!(purchase(&mut ctx, 2_001, 50, 1_000), Err(PresaleError::PresaleEnded));
}

#[test]
fn amount_bounds_are_inclusive() {
    let mut ctx = context(7);
    assert_eq!(purchase(&mut ctx, 1_500, 99, 10), Err(PresaleError::BelowMinimumPurchase));
    assert_eq!(purchase(&mut ctx, 1_500, 1_001, 10), Err(PresaleError::AboveMaximumPurchase));
    assert_eq!(purchase(&mut ctx, 1_500, 100, 10), Ok(()));
    assert_eq!(purchase(&mut ctx, 1_500, 1_000, 10), Ok(()));
    assert_eq!(ctx.presale_config.total_raised, 1_100);
}

#[test]
fn running_total_overflow_is_refused() {
    let mut ctx = context(7);
    ctx.presale_config.hard_cap_usd = u64::MAX;
    ctx.presale_config.total_raised = u64::MAX - 100;
    let before = ctx;
    assert_eq!(purchase(&mut ctx, 1_500, 500, 1_000), Err(PresaleError::MathOverflow));
    assert_same(&ctx, &before);
}

#[test]
fn token_product_overflow_is_refused_unchanged() {
    let mut ctx = context(7);
    let before = ctx;
    assert_eq!(purchase(&mut ctx, 1_500, 500, u64::MAX / 10), Err(PresaleError::MathOverflow));
    assert_same(&ctx, &before);
}

#[test]
fn allocation_overflow_is_refused_unchanged() {
    let mut ctx = context(7);
    assert_eq!(purchase(&mut ctx, 1_500, 500, 1_000), Ok(()));
    ctx.user_allocation.total_allocation = u64::MAX - 10;
    ctx.user_allocation.immediate_amount = 0;
    ctx.user_allocation.vested_amount = u64::MAX - 10;
    let before = ctx;
    assert_eq!(purchase(&mut ctx, 1_600, 500, 1_000), Err(PresaleError::MathOverflow));
    assert_same(&ctx, &before);
}

#[test]
fn participant_count_overflow_is_refused() {
    let mut ctx = context(7);
    ctx.presale_config.participant_count = u64::MAX;
    let before = ctx;
    assert_eq!(purchase(&mut ctx, 1_500, 500, 1_000), Err(PresaleError::MathOverflow));
    assert_same(&ctx, &before);
}

#[test]
fn vesting_deadline_overflow_is_refused() {
    let mut ctx = context(7);
    ctx.presale_config.presale_end = i64::MAX;
    let before = ctx;
    assert_eq!(purchase(&mut ctx, i64::MAX - 5, 500, 1_000), Err(PresaleError::MathOverflow));
    assert_same(&ctx, &before);
}

#[test]
fn percent_above_hundred_is_refused_as_overflow() {
    let mut ctx = context(7);
    ctx.presale_config.vesting_percent_immediate = 150;
    assert_eq!(purchase(&mut ctx, 1_500, 500, 1_000), Err(PresaleError::MathOverflow));
    assert_eq!(purchase(&mut ctx, 1_500, 500, 0), Ok(()));
}

#[test]
fn participants_counted_once_per_buyer() {
    let mut alice = context(7);
    assert_eq!(purchase(&mut alice, 1_500, 500, 1_000), Ok(()));
    assert_eq!(alice.presale_config.participant_count, 1);
    assert_eq!(purchase(&mut alice, 1_600, 500, 1_000), Ok(()));
    assert_eq!(alice.presale_config.participant_count, 1);
    let mut bob = context(8);
    bob.presale_config = alice.presale_config;
    assert_eq!(purchase(&mut bob, 1_700, 500, 1_000), Ok(()));
    assert_eq!(bob.presale_config.participant_count, 2);
    assert_eq!(bob.presale_config.total_raised, 1_500);
}

#[test]
fn cap_and_split_hold_over_many_purchases() {
    let mut registry = config();
    let mut ledgers = vec![UserAllocation::empty(); 4];
    for step in 0..40u64 {
        let who = (step % 4) as usize;
        let mut ctx = Purchase {
            buyer: key(who as u8 + 10),
            presale_config: registry,
            user_allocation: ledgers[who],
            allocation_bump: 1,
        };
        let _ = purchase(&mut ctx, 1_000 + step as i64, 100 + 37 * step, 333 + step);
        registry = ctx.presale_config;
        ledgers[who] = ctx.user_allocation;
        assert!(registry.total_raised <= registry.hard_cap_usd);
        for l in &ledgers {
            assert_eq!(l.total_allocation, l.immediate_amount + l.vested_amount);
        }
    }
    assert_eq!(registry.participant_count, 4);
}

#[test]
fn fresh_record_ignores_leftover_amounts() {
    let mut ctx = context(7);
    ctx.user_allocation.total_allocation = 55;
    ctx.user_allocation.vested_amount = 55;
    assert_eq!(purchase(&mut ctx, 1_500, 500, 1_000), Ok(()));
    assert_eq!(ctx.user_allocation.total_allocation, 1_000);
    assert_eq!(ctx.user_allocation.vested_amount, 800);
}

#[test]
fn validate_purchase_returns_new_total() {
    let mut c = config();
    c.total_raised = 1_234;
    assert_eq!(validate_purchase(&c, 1_500, 500), Ok(1_734));
    assert_eq!(validate_purchase(&c, 500, 500), Err(PresaleError::PresaleNotStarted));
    assert_eq!(validate_purchase(&c, 500, 5), Err(PresaleError::PresaleNotStarted));
}

#[test]
fn split_allocation_rounds_down() {
    assert_eq!(split_allocation(1_000, 20), Ok((200, 800)));
    assert_eq!(split_allocation(999, 33), Ok((329, 670)));
    assert_eq!(split_allocation(7, 0), Ok((0, 7)));
    assert_eq!(split_allocation(7, 100), Ok((7, 0)));
    assert_eq!(split_allocation(0, 20), Ok((0, 0)));
    assert_eq!(split_allocation(u64::MAX, 2), Err(PresaleError::MathOverflow));
    assert_eq!(split_allocation(10, 101), Ok((10, 0)));
    assert_eq!(split_allocation(1_000, 150), Err(PresaleError::MathOverflow));
}

#[test]
fn vesting_end_uses_thirty_day_months() {
    assert_eq!(DAYS_PER_MONTH * SECONDS_PER_DAY, MONTH);
    assert_eq!(vesting_end_after(100, 6), Ok(100 + 6 * MONTH));
    assert_eq!(vesting_end_after(-50, 0), Ok(-50));
    assert_eq!(vesting_end_after(100, 255), Ok(100 + 255 * MONTH));
    assert_eq!(vesting_end_after(i64::MAX, 1), Err(PresaleError::MathOverflow));
    assert_eq!(vesting_end_after(i64::MAX - MONTH, 1), Ok(i64::MAX));
}

#[test]
fn initialize_stores_parameters_verbatim() {
    let mut ctx = Initialize {
        authority: key(1),
        presale_config: PresaleConfig { total_raised: 77, participant_count: 3, ..config() },
        config_bump: 200,
    };
    initialize(&mut ctx, key(4), key(5), 10, 20, 30, 40, 50, 60, 70, 80);
    let c = ctx.presale_config;
    assert_eq!(c.authority, key(1));
    assert_eq!(c.treasury_wallet, key(4));
    assert_eq!(c.token_mint, key(5));
    assert_eq!((c.presale_start, c.presale_end), (10, 20));
    assert_eq!(c.token_price, 30);
    assert_eq!((c.min_purchase_usd, c.max_purchase_usd, c.hard_cap_usd), (40, 50, 60));
    assert_eq!((c.total_raised, c.participant_count), (0, 0));
    assert_eq!((c.vesting_percent_immediate, c.vesting_duration_months), (70, 80));
    assert_eq!(c.bump, 200);
}

#[test]
fn error_messages() {
    assert_eq!(PresaleError::PresaleNotStarted.message(), "Presale has not started yet");
    assert_eq!(PresaleError::HardCapReached.message(), "Hard cap reached");
    assert_eq!(PresaleError::MathOverflow.message(), "Math overflow");
}

#[test]
fn pubkey_bytes_round_trip() {
    let mut b = [0u8; 32];
    b[3] = 9;
    assert_eq!(Pubkey::new_from_array(b).to_bytes(), b);
    let e = UserAllocation::empty();
    assert!(!e.initialized);
    assert_eq!(e.buyer.to_bytes(), [0u8; 32]);
}
