use vstd::prelude::*;

use crate::error::PerpExchangeError;
use crate::math::{bps_amount, bps_of, fits_u64, trunc_div};
use crate::state::{closed_position, ExchangeState, Position, UserAccount, VaultAccount};

verus! {

/// Reward of a liquidator, in basis points of the margin posted at opening.
pub const LIQUIDATION_REWARD_BPS: u16 = 100;

/// What a trader asks for when opening a position.
#[derive(Debug, Clone, Copy, PartialEq, Eq, Structural)]
pub struct OpenPositionParams {
    pub is_long: bool,
    pub margin: u64,
    pub leverage: u8,
}

/// The records an opening touches, and the time it happens at.
#[derive(Debug, Clone, Copy)]
pub struct OpenPosition {
    pub exchange_state: ExchangeState,
    pub user_account: UserAccount,
    pub vault: VaultAccount,
    pub now: i64,
}

/// The records a closing touches, and the time it happens at.
#[derive(Debug, Clone, Copy)]
pub struct ClosePosition {
    pub exchange_state: ExchangeState,
    pub user_account: UserAccount,
    pub vault: VaultAccount,
    pub now: i64,
}

/// The records a liquidation touches (the target's account), and the time it
/// happens at.
#[derive(Debug, Clone, Copy)]
pub struct LiquidatePosition {
    pub exchange_state: ExchangeState,
    pub user_account: UserAccount,
    pub vault: VaultAccount,
    pub now: i64,
}

// ---------------------------------------------------------------------------
// Shared rules

/// The reference price is older than the venue accepts at time `now`.
pub open spec fn is_stale(ex: ExchangeState, now: i64) -> bool {
    now as int - ex.oracle_last_update as int > ex.governance_params.oracle_validity_period as int
}

/// Decides whether the reference price is too old to be used at time `now`.
pub fn oracle_is_stale(ex: &ExchangeState, now: i64) -> (r: bool)
    ensures
        r == is_stale(*ex, now),
{
    (now as i128) - (ex.oracle_last_update as i128) > ex.governance_params.oracle_validity_period as i128
}

// ---------------------------------------------------------------------------
// Opening

/// Notional of a new position: margin times leverage.
pub open spec fn open_notional(params: OpenPositionParams) -> int {
    params.margin as int * params.leverage as int
}

/// Fee charged on opening, on top of the margin.
pub open spec fn open_fee(ex: ExchangeState, params: OpenPositionParams) -> int {
    bps_of(params.margin, ex.governance_params.trading_fee_rate as int)
}

/// The outcome of an opening: the first rule it breaks, in the order checked,
/// or success.
pub open spec fn open_check(
    user: UserAccount,
    vault: VaultAccount,
    ex: ExchangeState,
    params: OpenPositionParams,
    now: i64,
) -> Result<(), PerpExchangeError> {
    let gp = ex.governance_params;
    let notional = open_notional(params);
    let fee = open_fee(ex, params);
    let required = params.margin + fee;
    if params.margin == 0 {
        Err(PerpExchangeError::InvalidAmount)
    } else if params.leverage == 0 || params.leverage > gp.max_leverage {
        Err(PerpExchangeError::InvalidLeverage)
    } else if params.margin < gp.min_margin {
        Err(PerpExchangeError::MarginTooLow)
    } else if user.position.is_open {
        Err(PerpExchangeError::PositionExists)
    } else if is_stale(ex, now) {
        Err(PerpExchangeError::StaleOracle)
    } else if notional > i64::MAX {
        Err(PerpExchangeError::MathOverflow)
    } else if !fits_u64(required) {
        Err(PerpExchangeError::MathOverflow)
    } else if user.collateral_balance < required {
        Err(PerpExchangeError::InsufficientCollateral)
    } else if !fits_u64(user.total_fees_paid + fee) || !fits_u64(
        vault.reserved_collateral + params.margin,
    ) || !fits_u64(ex.collected_fees + fee) || !fits_u64(ex.total_volume + notional) || (
    params.is_long && !fits_u64(ex.total_long_positions + notional)) || (!params.is_long
        && !fits_u64(ex.total_short_positions + notional)) {
        Err(PerpExchangeError::MathOverflow)
    } else {
        Ok(())
    }
}

/// The position an opening creates.
pub open spec fn opened_position(ex: ExchangeState, params: OpenPositionParams, now: i64) -> Position {
    let notional = open_notional(params);
    Position {
        size: (if params.is_long {
            notional
        } else {
            -notional
        }) as i64,
        margin: params.margin,
        entry_price: ex.oracle_price,
        is_open: true,
        leverage: params.leverage,
        opened_at: now,
    }
}

/// The trader's account after an opening: margin and fee leave the balance,
/// the fee is counted as paid, and the position is recorded.
pub open spec fn opened_user(
    user: UserAccount,
    ex: ExchangeState,
    params: OpenPositionParams,
    now: i64,
) -> UserAccount {
    let fee = open_fee(ex, params);
    UserAccount {
        collateral_balance: (user.collateral_balance - params.margin - fee) as u64,
        position: opened_position(ex, params, now),
        total_fees_paid: (user.total_fees_paid + fee) as u64,
        ..user
    }
}

/// The vault after an opening: the margin is reserved.
pub open spec fn opened_vault(vault: VaultAccount, params: OpenPositionParams) -> VaultAccount {
    VaultAccount {
        reserved_collateral: (vault.reserved_collateral + params.margin) as u64,
        ..vault
    }
}

/// The venue after an opening: the fee is collected, and the notional is
/// added to its side's open interest and to the volume.
pub open spec fn opened_exchange(ex: ExchangeState, params: OpenPositionParams) -> ExchangeState {
    let notional = open_notional(params);
    ExchangeState {
        collected_fees: (ex.collected_fees + open_fee(ex, params)) as u64,
        total_long_positions: if params.is_long {
            (ex.total_long_positions + notional) as u64
        } else {
            ex.total_long_positions
        },
        total_short_positions: if params.is_long {
            ex.total_short_positions
        } else {
            (ex.total_short_positions + notional) as u64
        },
        total_volume: (ex.total_volume + notional) as u64,
        ..ex
    }
}

/// Opens a leveraged position for the trader at the current reference price.
/// On success the margin is reserved in the vault and the fee collected; on
/// any refusal nothing changes.
pub fn open_position(ctx: &mut OpenPosition, params: OpenPositionParams) -> (r: Result<
    (),
    PerpExchangeError,
>)
    ensures
        r == open_check(
            old(ctx).user_account,
            old(ctx).vault,
            old(ctx).exchange_state,
            params,
            old(ctx).now,
        ),
        r is Ok ==> final(ctx).user_account == opened_user(
            old(ctx).user_account,
            old(ctx).exchange_state,
            params,
            old(ctx).now,
        ) && final(ctx).vault == opened_vault(old(ctx).vault, params) && final(ctx).exchange_state
            == opened_exchange(old(ctx).exchange_state, params) && final(ctx).now == old(ctx).now,
        r is Err ==> *final(ctx) == *old(ctx),
{
    let gp = ctx.exchange_state.governance_params;
    if params.margin == 0 {
        return Err(PerpExchangeError::InvalidAmount);
    }
    if params.leverage == 0 || params.leverage > gp.max_leverage {
        return Err(PerpExchangeError::InvalidLeverage);
    }
    if params.margin < gp.min_margin {
        return Err(PerpExchangeError::MarginTooLow);
    }
    if ctx.user_account.position.is_open {
        return Err(PerpExchangeError::PositionExists);
    }
    if oracle_is_stale(&ctx.exchange_state, ctx.now) {
        return Err(PerpExchangeError::StaleOracle);
    }
    let wide_margin = params.margin as u128;
    let wide_leverage = params.leverage as u128;
    proof {
        assert(wide_margin * wide_leverage <= 0xFFFF_FFFF_FFFF_FFFFu128 * 0xFF) by (nonlinear_arith)
            requires
                wide_margin <= 0xFFFF_FFFF_FFFF_FFFFu128,
                wide_leverage <= 0xFF,
        ;
    }
    let wide_notional = wide_margin * wide_leverage;
    if wide_notional > i64::MAX as u128 {
        return Err(PerpExchangeError::MathOverflow);
    }
    let notional = wide_notional as u64;
    let wide_fee = bps_amount(params.margin, gp.trading_fee_rate);
    if wide_fee > (u64::MAX - params.margin) as u128 {
        return Err(PerpExchangeError::MathOverflow);
    }
    let fee = wide_fee as u64;
    let required = params.margin + fee;
    if ctx.user_account.collateral_balance < required {
        return Err(PerpExchangeError::InsufficientCollateral);
    }
    let ex = &ctx.exchange_state;
    if fee > u64::MAX - ctx.user_account.total_fees_paid || params.margin > u64::MAX
        - ctx.vault.reserved_collateral || fee > u64::MAX - ex.collected_fees || notional > u64::MAX
        - ex.total_volume || (params.is_long && notional > u64::MAX - ex.total_long_positions) || (
    !params.is_long && notional > u64::MAX - ex.total_short_positions) {
        return Err(PerpExchangeError::MathOverflow);
    }
    let signed_size: i64 = if params.is_long {
        notional as i64
    } else {
        -(notional as i64)
    };
    ctx.user_account.position = Position {
        size: signed_size,
        margin: params.margin,
        entry_price: ctx.exchange_state.oracle_price,
        is_open: true,
        leverage: params.leverage,
        opened_at: ctx.now,
    };
    ctx.user_account.collateral_balance = ctx.user_account.collateral_balance - required;
    ctx.user_account.total_fees_paid = ctx.user_account.total_fees_paid + fee;
    ctx.vault.reserved_collateral = ctx.vault.reserved_collateral + params.margin;
    ctx.exchange_state.collected_fees = ctx.exchange_state.collected_fees + fee;
    if params.is_long {
        ctx.exchange_state.total_long_positions = ctx.exchange_state.total_long_positions + notional;
    } else {
        ctx.exchange_state.total_short_positions = ctx.exchange_state.total_short_positions
            + notional;
    }
    ctx.exchange_state.total_volume = ctx.exchange_state.total_volume + notional;
    Ok(())
}

// ---------------------------------------------------------------------------
// Profit and loss

/// Price movement in the position's favour: up for a long, down for a short.
pub open spec fn price_move(p: Position, price: u64) -> int {
    if p.size > 0 {
        price as int - p.entry_price as int
    } else {
        p.entry_price as int - price as int
    }
}

/// Profit (positive) or loss (negative) of a position at `price`:
/// absolute size times the favourable move, divided by the entry price,
/// rounded toward zero.
pub open spec fn pnl_of(p: Position, price: u64) -> int {
    trunc_div(p.abs_size() * price_move(p, price), p.entry_price as int)
}

/// A magnitude beyond every amount the records can hold, even after fees.
pub const PNL_CAP: i128 = 0x10_0000_0000_0000_0000_0000_0000;

/// Computes the profit or loss of a position at `price`, exactly.
pub fn position_pnl(p: &Position, price: u64) -> (r: i128)
    requires
        p.entry_price > 0,
    ensures
        r as int == pnl_of(*p, price),
{
    let abs_size = p.get_abs_size();
    let (gain, movement): (bool, u64) = if p.size > 0 {
        if price >= p.entry_price {
            (true, price - p.entry_price)
        } else {
            (false, p.entry_price - price)
        }
    } else {
        if p.entry_price >= price {
            (true, p.entry_price - price)
        } else {
            (false, price - p.entry_price)
        }
    };
    let a = abs_size as u128;
    let m = movement as u128;
    let e = p.entry_price as u128;
    proof {
        assert(a * m <= 0x8000_0000_0000_0000u128 * 0xFFFF_FFFF_FFFF_FFFFu128) by (nonlinear_arith)
            requires
                a <= 0x8000_0000_0000_0000u128,
                m <= 0xFFFF_FFFF_FFFF_FFFFu128,
        ;
        let prod: int = a * m;
        assert(prod / (e as int) <= prod) by (nonlinear_arith)
            requires
                e >= 1,
                prod >= 0,
        ;
    }
    let q = a * m / e;
    proof {
        if gain {
            assert(price_move(*p, price) == m as int);
        } else {
            assert(price_move(*p, price) == -(m as int));
            assert(p.abs_size() * price_move(*p, price) == -(a * m)) by (nonlinear_arith)
                requires
                    p.abs_size() == a as int,
                    price_move(*p, price) == -(m as int),
            ;
        }
    }
    if gain {
        q as i128
    } else {
        -(q as i128)
    }
}

// ---------------------------------------------------------------------------
// Closing

/// Fee charged on closing, taken from the returned margin.
pub open spec fn close_fee(p: Position, ex: ExchangeState) -> int {
    bps_of(p.margin, ex.governance_params.trading_fee_rate as int)
}

/// Margin plus profit or loss, minus the closing fee.
pub open spec fn final_margin(p: Position, ex: ExchangeState) -> int {
    p.margin as int + pnl_of(p, ex.oracle_price) - close_fee(p, ex)
}

/// What a closing returns to the trader's balance: the final margin where it
/// is positive, nothing otherwise.
pub open spec fn close_credit(p: Position, ex: ExchangeState) -> int {
    if final_margin(p, ex) > 0 {
        final_margin(p, ex)
    } else {
        0
    }
}

/// The outcome of a closing: the first rule it breaks, or success.
pub open spec fn close_check(
    user: UserAccount,
    vault: VaultAccount,
    ex: ExchangeState,
    now: i64,
) -> Result<(), PerpExchangeError> {
    let p = user.position;
    let fee = close_fee(p, ex);
    if !p.is_open {
        Err(PerpExchangeError::NoPosition)
    } else if is_stale(ex, now) {
        Err(PerpExchangeError::StaleOracle)
    } else if p.entry_price == 0 {
        Err(PerpExchangeError::MathOverflow)
    } else if !fits_u64(user.collateral_balance + close_credit(p, ex)) || vault.reserved_collateral
        < p.margin || !fits_u64(ex.collected_fees + fee) || (p.size > 0 && ex.total_long_positions
        < p.abs_size()) || (p.size <= 0 && ex.total_short_positions < p.abs_size()) || !fits_u64(
        user.total_fees_paid + fee,
    ) || !fits_u64(ex.total_volume + p.abs_size()) {
        Err(PerpExchangeError::MathOverflow)
    } else {
        Ok(())
    }
}

/// The trader's account after a closing: the credit is paid in, the fee
/// counted, the position cleared.
pub open spec fn closed_user(user: UserAccount, ex: ExchangeState) -> UserAccount {
    let p = user.position;
    UserAccount {
        collateral_balance: (user.collateral_balance + close_credit(p, ex)) as u64,
        position: closed_position(),
        total_fees_paid: (user.total_fees_paid + close_fee(p, ex)) as u64,
        ..user
    }
}

/// The vault after a position with margin `margin` leaves it.
pub open spec fn released_vault(vault: VaultAccount, margin: u64) -> VaultAccount {
    VaultAccount { reserved_collateral: (vault.reserved_collateral - margin) as u64, ..vault }
}

/// Open interest after position `p` leaves its side.
pub open spec fn without_interest(ex: ExchangeState, p: Position) -> ExchangeState {
    ExchangeState {
        total_long_positions: if p.size > 0 {
            (ex.total_long_positions - p.abs_size()) as u64
        } else {
            ex.total_long_positions
        },
        total_short_positions: if p.size > 0 {
            ex.total_short_positions
        } else {
            (ex.total_short_positions - p.abs_size()) as u64
        },
        ..ex
    }
}

/// The venue after a closing of `p`: the fee is collected, the size leaves its
/// side's open interest and is added to the volume.
pub open spec fn closed_exchange(ex: ExchangeState, p: Position) -> ExchangeState {
    ExchangeState {
        collected_fees: (ex.collected_fees + close_fee(p, ex)) as u64,
        total_volume: (ex.total_volume + p.abs_size()) as u64,
        ..without_interest(ex, p)
    }
}

/// Computes what a closing returns to the balance, where it fits a `u64`.
fn closing_credit(margin: u64, pnl: i128, fee: u128) -> (r: Option<u64>)
    requires
        fee <= margin as int * 7,
    ensures
        ({
            let f = margin as int + pnl as int - fee as int;
            let c = if f > 0 { f } else { 0 };
            match r {
                Some(v) => v as int == c,
                None => c > u64::MAX,
            }
        }),
{
    if pnl > PNL_CAP {
        return None;
    }
    if pnl < -PNL_CAP {
        return Some(0);
    }
    let f = margin as i128 + pnl - fee as i128;
    if f <= 0 {
        Some(0)
    } else if f > u64::MAX as i128 {
        None
    } else {
        Some(f as u64)
    }
}

/// Closes the trader's open position at the current reference price: the
/// margin leaves the vault's reservation, and the margin plus profit or loss,
/// less the closing fee, returns to the balance where it is positive. On any
/// refusal nothing changes. Returns the profit or loss.
pub fn close_position(ctx: &mut ClosePosition) -> (r: Result<i128, PerpExchangeError>)
    ensures
        match r {
            Ok(pnl) => close_check(
                old(ctx).user_account,
                old(ctx).vault,
                old(ctx).exchange_state,
                old(ctx).now,
            ) is Ok && pnl as int == pnl_of(
                old(ctx).user_account.position,
                old(ctx).exchange_state.oracle_price,
            ) && final(ctx).user_account == closed_user(
                old(ctx).user_account,
                old(ctx).exchange_state,
            ) && final(ctx).vault == released_vault(
                old(ctx).vault,
                old(ctx).user_account.position.margin,
            ) && final(ctx).exchange_state == closed_exchange(
                old(ctx).exchange_state,
                old(ctx).user_account.position,
            ) && final(ctx).now == old(ctx).now,
            Err(e) => close_check(
                old(ctx).user_account,
                old(ctx).vault,
                old(ctx).exchange_state,
                old(ctx).now,
            ) == Err::<(), PerpExchangeError>(e) && *final(ctx) == *old(ctx),
        },
{
    let p = ctx.user_account.position;
    if !p.is_open {
        return Err(PerpExchangeError::NoPosition);
    }
    if oracle_is_stale(&ctx.exchange_state, ctx.now) {
        return Err(PerpExchangeError::StaleOracle);
    }
    if p.entry_price == 0 {
        return Err(PerpExchangeError::MathOverflow);
    }
    let pnl = position_pnl(&p, ctx.exchange_state.oracle_price);
    let wide_fee = bps_amount(p.margin, ctx.exchange_state.governance_params.trading_fee_rate);
    let abs_size = p.get_abs_size();
    let credit = match closing_credit(p.margin, pnl, wide_fee) {
        Some(c) => c,
        None => {
            return Err(PerpExchangeError::MathOverflow);
        },
    };
    let ex = &ctx.exchange_state;
    if credit > u64::MAX - ctx.user_account.collateral_balance || ctx.vault.reserved_collateral
        < p.margin || wide_fee > (u64::MAX - ex.collected_fees) as u128 || (p.size > 0
        && ex.total_long_positions < abs_size) || (p.size <= 0 && ex.total_short_positions
        < abs_size) || wide_fee > (u64::MAX - ctx.user_account.total_fees_paid) as u128
        || abs_size > u64::MAX - ex.total_volume {
        return Err(PerpExchangeError::MathOverflow);
    }
    let fee = wide_fee as u64;
    ctx.user_account.collateral_balance = ctx.user_account.collateral_balance + credit;
    ctx.user_account.total_fees_paid = ctx.user_account.total_fees_paid + fee;
    ctx.user_account.position = Position::closed();
    ctx.vault.reserved_collateral = ctx.vault.reserved_collateral - p.margin;
    ctx.exchange_state.collected_fees = ctx.exchange_state.collected_fees + fee;
    if p.size > 0 {
        ctx.exchange_state.total_long_positions = ctx.exchange_state.total_long_positions
            - abs_size;
    } else {
        ctx.exchange_state.total_short_positions = ctx.exchange_state.total_short_positions
            - abs_size;
    }
    ctx.exchange_state.total_volume = ctx.exchange_state.total_volume + abs_size;
    Ok(pnl)
}

// ---------------------------------------------------------------------------
// Liquidation

/// Current equity of a position: its margin plus its profit or loss.
pub open spec fn equity_of(p: Position, price: u64) -> int {
    p.margin as int + pnl_of(p, price)
}

/// Equity at or below which a position may be liquidated.
pub open spec fn liquidation_line(p: Position, ex: ExchangeState) -> int {
    bps_of(p.margin, ex.governance_params.liquidation_threshold as int)
}

/// The liquidator's share of the margin posted at opening.
pub open spec fn liquidation_reward(p: Position) -> int {
    bps_of(p.margin, LIQUIDATION_REWARD_BPS as int)
}

/// What a liquidation adds to the insurance fund: the equity beyond the
/// liquidator's share, where there is any.
pub open spec fn insurance_share(p: Position, ex: ExchangeState) -> int {
    let equity = equity_of(p, ex.oracle_price);
    if equity > liquidation_reward(p) {
        equity - liquidation_reward(p)
    } else {
        0
    }
}

/// The outcome of a liquidation: the first rule it breaks, or success.
pub open spec fn liquidate_check(
    user: UserAccount,
    vault: VaultAccount,
    ex: ExchangeState,
    now: i64,
) -> Result<(), PerpExchangeError> {
    let p = user.position;
    if !p.is_open {
        Err(PerpExchangeError::NoPosition)
    } else if is_stale(ex, now) {
        Err(PerpExchangeError::StaleOracle)
    } else if p.entry_price == 0 {
        Err(PerpExchangeError::MathOverflow)
    } else if equity_of(p, ex.oracle_price) > liquidation_line(p, ex) {
        Err(PerpExchangeError::PositionNotLiquidatable)
    } else if vault.reserved_collateral < p.margin || (p.size > 0 && ex.total_long_positions
        < p.abs_size()) || (p.size <= 0 && ex.total_short_positions < p.abs_size()) || !fits_u64(
        ex.insurance_fund_balance + insurance_share(p, ex),
    ) {
        Err(PerpExchangeError::MathOverflow)
    } else {
        Ok(())
    }
}

/// The target's account after a liquidation: only the position is cleared;
/// the balance is not touched.
pub open spec fn liquidated_user(user: UserAccount) -> UserAccount {
    UserAccount { position: closed_position(), ..user }
}

/// The venue after a liquidation of `p`: the size leaves its side's open
/// interest and the insurance fund receives its share.
pub open spec fn liquidated_exchange(ex: ExchangeState, p: Position) -> ExchangeState {
    ExchangeState {
        insurance_fund_balance: (ex.insurance_fund_balance + insurance_share(p, ex)) as u64,
        ..without_interest(ex, p)
    }
}

/// Decides whether a position with `margin` and profit or loss `pnl` is at or
/// below `line`, and if so what goes to the insurance fund.
fn liquidation_outcome(margin: u64, pnl: i128, line: u128, reward: u64) -> (r: Option<u128>)
    requires
        line <= margin as int * 7,
        reward <= margin,
    ensures
        ({
            let equity = margin as int + pnl as int;
            match r {
                Some(share) => equity <= line && share as int == (if equity > reward {
                    equity - reward
                } else {
                    0
                }),
                None => equity > line,
            }
        }),
{
    if pnl > PNL_CAP {
        return None;
    }
    if pnl < -PNL_CAP {
        return Some(0);
    }
    let equity = margin as i128 + pnl;
    if equity > line as i128 {
        None
    } else if equity > reward as i128 {
        Some((equity - reward as i128) as u128)
    } else {
        Some(0)
    }
}

/// Liquidates the target's position where its equity has fallen to or below
/// the liquidation line: the margin leaves the vault's reservation, the
/// equity beyond the liquidator's share goes to the insurance fund, and the
/// target's balance is not touched. On any refusal nothing changes.
pub fn liquidate_position(ctx: &mut LiquidatePosition) -> (r: Result<(), PerpExchangeError>)
    ensures
        r == liquidate_check(
            old(ctx).user_account,
            old(ctx).vault,
            old(ctx).exchange_state,
            old(ctx).now,
        ),
        r is Ok ==> final(ctx).user_account == liquidated_user(old(ctx).user_account)
            && final(ctx).vault == released_vault(
            old(ctx).vault,
            old(ctx).user_account.position.margin,
        ) && final(ctx).exchange_state == liquidated_exchange(
            old(ctx).exchange_state,
            old(ctx).user_account.position,
        ) && final(ctx).now == old(ctx).now,
        r is Err ==> *final(ctx) == *old(ctx),
{
    let p = ctx.user_account.position;
    if !p.is_open {
        return Err(PerpExchangeError::NoPosition);
    }
    if oracle_is_stale(&ctx.exchange_state, ctx.now) {
        return Err(PerpExchangeError::StaleOracle);
    }
    if p.entry_price == 0 {
        return Err(PerpExchangeError::MathOverflow);
    }
    let pnl = position_pnl(&p, ctx.exchange_state.oracle_price);
    let line = bps_amount(p.margin, ctx.exchange_state.governance_params.liquidation_threshold);
    let reward = bps_amount(p.margin, LIQUIDATION_REWARD_BPS);
    proof {
        assert(reward <= p.margin) by (nonlinear_arith)
            requires
                reward as int == (p.margin as int * 100) / 10000,
                p.margin >= 0,
        ;
    }
    let share = match liquidation_outcome(p.margin, pnl, line, reward as u64) {
        Some(s) => s,
        None => {
            return Err(PerpExchangeError::PositionNotLiquidatable);
        },
    };
    let abs_size = p.get_abs_size();
    let ex = &ctx.exchange_state;
    if ctx.vault.reserved_collateral < p.margin || (p.size > 0 && ex.total_long_positions
        < abs_size) || (p.size <= 0 && ex.total_short_positions < abs_size) || share > (u64::MAX
        - ex.insurance_fund_balance) as u128 {
        return Err(PerpExchangeError::MathOverflow);
    }
    ctx.vault.reserved_collateral = ctx.vault.reserved_collateral - p.margin;
    if p.size > 0 {
        ctx.exchange_state.total_long_positions = ctx.exchange_state.total_long_positions
            - abs_size;
    } else {
        ctx.exchange_state.total_short_positions = ctx.exchange_state.total_short_positions
            - abs_size;
    }
    ctx.exchange_state.insurance_fund_balance = ctx.exchange_state.insurance_fund_balance
        + share as u64;
    ctx.user_account.position = Position::closed();
    Ok(())
}

} // verus!
