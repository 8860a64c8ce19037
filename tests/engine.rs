use perp_exchange::error::PerpExchangeError;
use perp_exchange::exchange::{
    create_user_account, deposit_collateral, initialize, update_price, withdraw_collateral,
    CreateUserAccount, DepositCollateral, Initialize, UpdatePrice, WithdrawCollateral,
};
use perp_exchange::state::{ExchangeState, GovernanceParams, Position, UserAccount, VaultAccount};
use perp_exchange::trading::{
    close_position, liquidate_position, open_position, position_pnl, ClosePosition,
    LiquidatePosition, OpenPosition, OpenPositionParams,
};

const T0: i64 = 1_700_000_000;

fn blank_exchange() -> ExchangeState {
    ExchangeState {
        admin: [0; 32],
        vault: [0; 32],
        oracle_price: 0,
        oracle_last_update: 0,
        funding_rate: 0,
        funding_last_update: 0,
        collected_fees: 0,
        insurance_fund_balance: 0,
        is_paused: false,
        governance_params: GovernanceParams {
            trading_fee_rate: 0,
            liquidation_threshold: 0,
            max_leverage: 0,
            min_margin: 0,
            funding_interval: 0,
            oracle_validity_period: 0,
        },
        total_long_positions: 0,
        total_short_positions: 0,
        total_volume: 0,
    }
}

fn blank_vault() -> VaultAccount {
    VaultAccount { exchange_state: [0; 32], total_balance: 0, reserved_collateral: 0, bump: 0 }
}

fn blank_user() -> UserAccount {
    UserAccount {
        owner: [0; 32],
        collateral_balance: 0,
        position: Position::default(),
        funding_payment: 0,
        total_fees_paid: 0,
        created_at: 0,
    }
}

/// A venue set up at `price` at time T0, with default configuration.
fn venue(price: u64) -> (ExchangeState, VaultAccount) {
    let mut ctx = Initialize {
        exchange_state: blank_exchange(),
        vault: blank_vault(),
        admin: [1; 32],
        exchange_state_address: [2; 32],
        vault_address: [3; 32],
        vault_bump: 254,
        now: T0,
    };
    initialize(&mut ctx, price).unwrap();
    (ctx.exchange_state, ctx.vault)
}

/// A trader with `amount` deposited.
fn funded_user(vault: &mut VaultAccount, owner: u8, amount: u64) -> UserAccount {
    let mut c = CreateUserAccount { user_account: blank_user(), user: [owner; 32], now: T0 };
    create_user_account(&mut c);
    let mut d = DepositCollateral { user_account: c.user_account, vault: *vault };
    deposit_collateral(&mut d, amount).unwrap();
    *vault = d.vault;
    d.user_account
}

fn open_ctx(ex: ExchangeState, user: UserAccount, vault: VaultAccount, now: i64) -> OpenPosition {
    OpenPosition { exchange_state: ex, user_account: user, vault, now }
}

fn params(is_long: bool, margin: u64, leverage: u8) -> OpenPositionParams {
    OpenPositionParams { is_long, margin, leverage }
}

#[test]
fn round_trip_open_and_close_long() {
    let (ex, mut vault) = venue(100);
    let user = funded_user(&mut vault, 7, 2_000_000);
    let mut ctx = open_ctx(ex, user, vault, T0);
    open_position(&mut ctx, params(true, 1_000_000, 5)).unwrap();
    assert_eq!(ctx.user_account.position.size, 5_000_000);
    assert_eq!(ctx.user_account.position.margin, 1_000_000);
    assert_eq!(ctx.user_account.position.entry_price, 100);
    assert!(ctx.user_account.position.is_open);
    assert_eq!(ctx.user_account.total_fees_paid, 10_000);
    assert_eq!(ctx.user_account.collateral_balance, 2_000_000 - 1_010_000);
    assert_eq!(ctx.vault.reserved_collateral, 1_000_000);
    assert_eq!(ctx.exchange_state.collected_fees, 10_000);
    assert_eq!(ctx.exchange_state.total_long_positions, 5_000_000);
    assert_eq!(ctx.exchange_state.total_volume, 5_000_000);

    let mut up = UpdatePrice { exchange_state: ctx.exchange_state, now: T0 + 10 };
    update_price(&mut up, 110).unwrap();
    let mut close = ClosePosition {
        exchange_state: up.exchange_state,
        user_account: ctx.user_account,
        vault: ctx.vault,
        now: T0 + 10,
    };
    let pnl = close_position(&mut close).unwrap();
    assert_eq!(pnl, 500_000);
    assert_eq!(close.user_account.collateral_balance, 990_000 + 1_490_000);
    assert_eq!(close.user_account.total_fees_paid, 20_000);
    assert!(!close.user_account.position.is_open);
    assert_eq!(close.user_account.position, Position::default());
    assert_eq!(close.vault.reserved_collateral, 0);
    assert_eq!(close.exchange_state.collected_fees, 20_000);
    assert_eq!(close.exchange_state.total_long_positions, 0);
    assert_eq!(close.exchange_state.total_volume, 10_000_000);
}

#[test]
fn second_open_fails_with_position_exists() {
    let (ex, mut vault) = venue(100);
    let user = funded_user(&mut vault, 7, 10_000_000);
    let mut ctx = open_ctx(ex, user, vault, T0);
    open_position(&mut ctx, params(false, 1_000_000, 2)).unwrap();
    let before = ctx;
    let r = open_position(&mut ctx, params(true, 2_000_000, 3));
    assert_eq!(r, Err(PerpExchangeError::PositionExists));
    assert_eq!(ctx.user_account.position, before.user_account.position);
    assert_eq!(ctx.user_account.collateral_balance, before.user_account.collateral_balance);
    assert_eq!(ctx.vault.reserved_collateral, before.vault.reserved_collateral);
    assert_eq!(ctx.exchange_state.total_short_positions, 2_000_000);
    assert_eq!(ctx.exchange_state.total_long_positions, 0);
}

#[test]
fn open_with_largest_margin_overflows() {
    let (ex, mut vault) = venue(100);
    let user = funded_user(&mut vault, 7, u64::MAX);
    let mut ctx = open_ctx(ex, user, vault, T0);
    let r = open_position(&mut ctx, params(true, u64::MAX, 10));
    assert_eq!(r, Err(PerpExchangeError::MathOverflow));
    assert_eq!(ctx.user_account.collateral_balance, u64::MAX);
    assert!(!ctx.user_account.position.is_open);
    assert_eq!(ctx.vault.reserved_collateral, 0);
}

#[test]
fn stale_price_is_refused_one_second_late() {
    let (ex, mut vault) = venue(100);
    assert_eq!(ex.governance_params.oracle_validity_period, 300);
    let user = funded_user(&mut vault, 7, 10_000_000);
    let mut late = open_ctx(ex, user, vault, T0 + 301);
    assert_eq!(
        open_position(&mut late, params(true, 1_000_000, 2)),
        Err(PerpExchangeError::StaleOracle)
    );
    assert!(!late.user_account.position.is_open);
    let mut edge = open_ctx(ex, user, vault, T0 + 300);
    assert_eq!(open_position(&mut edge, params(true, 1_000_000, 2)), Ok(()));

    let mut close_late = ClosePosition {
        exchange_state: edge.exchange_state,
        user_account: edge.user_account,
        vault: edge.vault,
        now: T0 + 301,
    };
    assert_eq!(close_position(&mut close_late), Err(PerpExchangeError::StaleOracle));
    let mut liq_late = LiquidatePosition {
        exchange_state: edge.exchange_state,
        user_account: edge.user_account,
        vault: edge.vault,
        now: T0 + 301,
    };
    assert_eq!(liquidate_position(&mut liq_late), Err(PerpExchangeError::StaleOracle));
}

/// A long of margin 1000 and size 1000 entered at 1000, on a venue with an
/// 80% liquidation line, seen at `price`.
fn thousand_margin_long(price: u64) -> LiquidatePosition {
    let mut ex = blank_exchange();
    ex.oracle_price = price;
    ex.oracle_last_update = T0;
    ex.governance_params.liquidation_threshold = 8000;
    ex.governance_params.oracle_validity_period = 300;
    ex.total_long_positions = 1000;
    let mut vault = blank_vault();
    vault.total_balance = 1000;
    vault.reserved_collateral = 1000;
    let mut user = blank_user();
    user.position = Position {
        size: 1000,
        margin: 1000,
        entry_price: 1000,
        is_open: true,
        leverage: 1,
        opened_at: T0,
    };
    LiquidatePosition { exchange_state: ex, user_account: user, vault, now: T0 }
}

#[test]
fn liquidation_threshold_boundary() {
    let mut above = thousand_margin_long(801);
    assert_eq!(liquidate_position(&mut above), Err(PerpExchangeError::PositionNotLiquidatable));
    assert!(above.user_account.position.is_open);
    assert_eq!(above.vault.reserved_collateral, 1000);

    let mut at = thousand_margin_long(800);
    assert_eq!(liquidate_position(&mut at), Ok(()));
    assert!(!at.user_account.position.is_open);
    assert_eq!(at.vault.reserved_collateral, 0);
    assert_eq!(at.exchange_state.total_long_positions, 0);
    // equity 800, reward 1% of 1000 = 10, the rest to the insurance fund
    assert_eq!(at.exchange_state.insurance_fund_balance, 790);
    assert_eq!(at.user_account.collateral_balance, 0);
}

#[test]
fn liquidation_with_no_equity_left_adds_nothing_to_insurance() {
    let mut ctx = thousand_margin_long(1);
    assert_eq!(liquidate_position(&mut ctx), Ok(()));
    assert_eq!(ctx.exchange_state.insurance_fund_balance, 0);
    assert_eq!(ctx.vault.reserved_collateral, 0);
}

#[test]
fn liquidation_of_short_position() {
    let mut ctx = thousand_margin_long(1250);
    ctx.user_account.position.size = -1000;
    ctx.exchange_state.total_long_positions = 0;
    ctx.exchange_state.total_short_positions = 1000;
    // pnl = 1000 * (1000 - 1250) / 1000 = -250, equity 750
    assert_eq!(liquidate_position(&mut ctx), Ok(()));
    assert_eq!(ctx.exchange_state.total_short_positions, 0);
    assert_eq!(ctx.exchange_state.insurance_fund_balance, 740);
}

#[test]
fn liquidating_without_position_fails() {
    let mut ctx = thousand_margin_long(800);
    ctx.user_account.position = Position::default();
    assert_eq!(liquidate_position(&mut ctx), Err(PerpExchangeError::NoPosition));
}

#[test]
fn reserved_collateral_tracks_open_margins_across_users() {
    let (ex, mut vault) = venue(100);
    let a = funded_user(&mut vault, 1, 5_000_000);
    let b = funded_user(&mut vault, 2, 5_000_000);
    assert_eq!(vault.total_balance, 10_000_000);

    let mut oa = open_ctx(ex, a, vault, T0);
    open_position(&mut oa, params(true, 1_000_000, 3)).unwrap();
    let mut ob = open_ctx(oa.exchange_state, b, oa.vault, T0);
    open_position(&mut ob, params(false, 2_000_000, 2)).unwrap();
    let (a, b) = (oa.user_account, ob.user_account);
    assert_eq!(ob.vault.reserved_collateral, a.position.margin + b.position.margin);
    assert_eq!(ob.exchange_state.total_long_positions, 3_000_000);
    assert_eq!(ob.exchange_state.total_short_positions, 4_000_000);

    let mut ca = ClosePosition {
        exchange_state: ob.exchange_state,
        user_account: a,
        vault: ob.vault,
        now: T0 + 1,
    };
    close_position(&mut ca).unwrap();
    assert_eq!(ca.vault.reserved_collateral, b.position.margin);
    let mut cb = ClosePosition {
        exchange_state: ca.exchange_state,
        user_account: b,
        vault: ca.vault,
        now: T0 + 2,
    };
    close_position(&mut cb).unwrap();
    assert_eq!(cb.vault.reserved_collateral, 0);
    assert_eq!(cb.exchange_state.total_long_positions, 0);
    assert_eq!(cb.exchange_state.total_short_positions, 0);
}

#[test]
fn withdraw_more_than_balance_is_refused() {
    let (_, mut vault) = venue(100);
    let user = funded_user(&mut vault, 7, 500);
    let mut w = WithdrawCollateral { user_account: user, vault };
    assert_eq!(withdraw_collateral(&mut w, 501), Err(PerpExchangeError::InsufficientCollateral));
    assert_eq!(w.user_account.collateral_balance, 500);
    assert_eq!(w.vault.total_balance, 500);
    assert_eq!(withdraw_collateral(&mut w, 500), Ok(()));
    assert_eq!(w.user_account.collateral_balance, 0);
    assert_eq!(w.vault.total_balance, 0);
}

#[test]
fn withdraw_of_reserved_vault_funds_is_refused() {
    let mut vault = blank_vault();
    vault.total_balance = 1000;
    vault.reserved_collateral = 800;
    let mut user = blank_user();
    user.collateral_balance = 500;
    let mut w = WithdrawCollateral { user_account: user, vault };
    assert_eq!(withdraw_collateral(&mut w, 201), Err(PerpExchangeError::InsufficientVaultBalance));
    assert_eq!(withdraw_collateral(&mut w, 200), Ok(()));
    assert_eq!(w.vault.total_balance, 800);
}

#[test]
fn zero_amounts_are_invalid() {
    let (ex, mut vault) = venue(100);
    let user = funded_user(&mut vault, 7, 5_000_000);
    let mut d = DepositCollateral { user_account: user, vault };
    assert_eq!(deposit_collateral(&mut d, 0), Err(PerpExchangeError::InvalidAmount));
    let mut w = WithdrawCollateral { user_account: user, vault };
    assert_eq!(withdraw_collateral(&mut w, 0), Err(PerpExchangeError::InvalidAmount));
    let mut o = open_ctx(ex, user, vault, T0);
    assert_eq!(open_position(&mut o, params(true, 0, 2)), Err(PerpExchangeError::InvalidAmount));
}

#[test]
fn deposit_overflow_is_refused() {
    let (_, mut vault) = venue(100);
    let user = funded_user(&mut vault, 7, u64::MAX);
    let mut d = DepositCollateral { user_account: user, vault };
    assert_eq!(deposit_collateral(&mut d, 1), Err(PerpExchangeError::MathOverflow));
    assert_eq!(d.user_account.collateral_balance, u64::MAX);
}

#[test]
fn open_refusals_in_order() {
    let (ex, mut vault) = venue(100);
    let user = funded_user(&mut vault, 7, 1_005_000);
    let mut o = open_ctx(ex, user, vault, T0);
    assert_eq!(open_position(&mut o, params(true, 1_000_000, 0)), Err(PerpExchangeError::InvalidLeverage));
    assert_eq!(open_position(&mut o, params(true, 1_000_000, 11)), Err(PerpExchangeError::InvalidLeverage));
    assert_eq!(open_position(&mut o, params(true, 999_999, 2)), Err(PerpExchangeError::MarginTooLow));
    // margin 1_000_000 needs 1_010_000 with the fee
    assert_eq!(
        open_position(&mut o, params(true, 1_000_000, 10)),
        Err(PerpExchangeError::InsufficientCollateral)
    );
    assert_eq!(o.user_account.collateral_balance, 1_005_000);
    assert!(!o.user_account.position.is_open);
}

#[test]
fn closing_without_position_fails() {
    let (ex, mut vault) = venue(100);
    let user = funded_user(&mut vault, 7, 1000);
    let mut c = ClosePosition { exchange_state: ex, user_account: user, vault, now: T0 };
    assert_eq!(close_position(&mut c), Err(PerpExchangeError::NoPosition));
}

#[test]
fn closing_with_loss_beyond_margin_credits_nothing() {
    let (ex, mut vault) = venue(100);
    let user = funded_user(&mut vault, 7, 2_000_000);
    let mut o = open_ctx(ex, user, vault, T0);
    open_position(&mut o, params(true, 1_000_000, 10)).unwrap();
    let mut up = UpdatePrice { exchange_state: o.exchange_state, now: T0 + 5 };
    update_price(&mut up, 80).unwrap();
    let mut c = ClosePosition {
        exchange_state: up.exchange_state,
        user_account: o.user_account,
        vault: o.vault,
        now: T0 + 5,
    };
    // pnl = 10_000_000 * (80 - 100) / 100 = -2_000_000
    assert_eq!(close_position(&mut c), Ok(-2_000_000));
    assert_eq!(c.user_account.collateral_balance, 990_000);
    assert_eq!(c.vault.reserved_collateral, 0);
    assert_eq!(c.user_account.total_fees_paid, 20_000);
}

#[test]
fn short_profit_rounds_toward_zero() {
    let p = Position { size: -7, margin: 7, entry_price: 3, is_open: true, leverage: 1, opened_at: 0 };
    // 7 * (3 - 2) / 3 = 2.33.. -> 2
    assert_eq!(position_pnl(&p, 2), 2);
    // 7 * (3 - 4) / 3 = -2.33.. -> -2
    assert_eq!(position_pnl(&p, 4), -2);
    let long = Position { size: 7, ..p };
    assert_eq!(position_pnl(&long, 2), -2);
    assert_eq!(position_pnl(&long, 4), 2);
}

#[test]
fn price_updates_need_a_positive_price() {
    let (ex, _) = venue(100);
    let mut up = UpdatePrice { exchange_state: ex, now: T0 + 60 };
    assert_eq!(update_price(&mut up, 0), Err(PerpExchangeError::InvalidPrice));
    assert_eq!(up.exchange_state.oracle_price, 100);
    assert_eq!(up.exchange_state.oracle_last_update, T0);
    assert_eq!(update_price(&mut up, 123), Ok(()));
    assert_eq!(up.exchange_state.oracle_price, 123);
    assert_eq!(up.exchange_state.oracle_last_update, T0 + 60);
}

#[test]
fn initialize_sets_defaults_and_refuses_zero_price() {
    let mut ctx = Initialize {
        exchange_state: blank_exchange(),
        vault: blank_vault(),
        admin: [1; 32],
        exchange_state_address: [2; 32],
        vault_address: [3; 32],
        vault_bump: 9,
        now: T0,
    };
    assert_eq!(initialize(&mut ctx, 0), Err(PerpExchangeError::InvalidPrice));
    assert_eq!(initialize(&mut ctx, 50), Ok(()));
    let g = ctx.exchange_state.governance_params;
    assert_eq!(g, GovernanceParams::defaults());
    assert_eq!(g.trading_fee_rate, 100);
    assert_eq!(g.max_leverage, 10);
    assert_eq!(g.min_margin, 1_000_000);
    assert_eq!(g.liquidation_threshold, 8000);
    assert_eq!(g.oracle_validity_period, 300);
    assert_eq!(ctx.exchange_state.admin, [1; 32]);
    assert_eq!(ctx.exchange_state.vault, [3; 32]);
    assert_eq!(ctx.exchange_state.oracle_price, 50);
    assert_eq!(ctx.vault.exchange_state, [2; 32]);
    assert_eq!(ctx.vault.bump, 9);
}

#[test]
fn new_account_is_empty_and_owned() {
    let mut acct = blank_user();
    acct.collateral_balance = 99;
    let mut c = CreateUserAccount { user_account: acct, user: [5; 32], now: T0 };
    create_user_account(&mut c);
    assert_eq!(c.user_account.owner, [5; 32]);
    assert_eq!(c.user_account.collateral_balance, 0);
    assert_eq!(c.user_account.total_fees_paid, 0);
    assert_eq!(c.user_account.created_at, T0);
    assert!(!c.user_account.position.is_open);
}

#[test]
fn position_direction_and_size() {
    let long = Position { size: 42, margin: 1, entry_price: 1, is_open: true, leverage: 1, opened_at: 0 };
    assert!(long.is_long() && !long.is_short());
    assert_eq!(long.get_abs_size(), 42);
    let short = Position { size: i64::MIN, ..long };
    assert!(short.is_short() && !short.is_long());
    assert_eq!(short.get_abs_size(), 1u64 << 63);
    assert_eq!(Position::default().get_abs_size(), 0);
}

#[test]
fn error_messages() {
    assert_eq!(PerpExchangeError::StaleOracle.message(), "Oracle price is stale");
    assert_eq!(PerpExchangeError::MathOverflow.message(), "Math overflow");
}
