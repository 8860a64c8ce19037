use vstd::prelude::*;

use crate::error::PerpExchangeError;
use crate::state::{
    closed_position, Address, ExchangeState, GovernanceParams, Position, UserAccount,
    VaultAccount,
};

verus! {

/// Default trading fee: 1%.
pub const DEFAULT_TRADING_FEE_RATE: u16 = 100;

/// Default leverage cap.
pub const DEFAULT_MAX_LEVERAGE: u8 = 10;

/// Default margin floor.
pub const DEFAULT_MIN_MARGIN: u64 = 1_000_000;

/// Default liquidation line: 80% of the margin posted at opening.
pub const DEFAULT_LIQUIDATION_THRESHOLD: u16 = 8000;

/// Default funding interval: one hour.
pub const DEFAULT_FUNDING_INTERVAL: u32 = 3600;

/// Default largest age of an accepted reference price: five minutes.
pub const DEFAULT_ORACLE_VALIDITY_PERIOD: u32 = 300;

/// The configuration a venue starts with.
pub open spec fn default_governance() -> GovernanceParams {
    GovernanceParams {
        trading_fee_rate: DEFAULT_TRADING_FEE_RATE,
        liquidation_threshold: DEFAULT_LIQUIDATION_THRESHOLD,
        max_leverage: DEFAULT_MAX_LEVERAGE,
        min_margin: DEFAULT_MIN_MARGIN,
        funding_interval: DEFAULT_FUNDING_INTERVAL,
        oracle_validity_period: DEFAULT_ORACLE_VALIDITY_PERIOD,
    }
}

impl GovernanceParams {
    /// The configuration a venue starts with.
    pub fn defaults() -> (r: GovernanceParams)
        ensures
            r == default_governance(),
    {
        GovernanceParams {
            trading_fee_rate: DEFAULT_TRADING_FEE_RATE,
            liquidation_threshold: DEFAULT_LIQUIDATION_THRESHOLD,
            max_leverage: DEFAULT_MAX_LEVERAGE,
            min_margin: DEFAULT_MIN_MARGIN,
            funding_interval: DEFAULT_FUNDING_INTERVAL,
            oracle_validity_period: DEFAULT_ORACLE_VALIDITY_PERIOD,
        }
    }
}

/// The records a venue is set up in, the addresses they live at, and the time.
#[derive(Debug, Clone, Copy)]
pub struct Initialize {
    pub exchange_state: ExchangeState,
    pub vault: VaultAccount,
    pub admin: Address,
    pub exchange_state_address: Address,
    pub vault_address: Address,
    pub vault_bump: u8,
    pub now: i64,
}

/// A new trader's record, its owner, and the time.
#[derive(Debug, Clone, Copy)]
pub struct CreateUserAccount {
    pub user_account: UserAccount,
    pub user: Address,
    pub now: i64,
}

/// The records a deposit touches.
#[derive(Debug, Clone, Copy)]
pub struct DepositCollateral {
    pub user_account: UserAccount,
    pub vault: VaultAccount,
}

/// The records a withdrawal touches.
#[derive(Debug, Clone, Copy)]
pub struct WithdrawCollateral {
    pub user_account: UserAccount,
    pub vault: VaultAccount,
}

/// The venue record a price update touches, and the time.
#[derive(Debug, Clone, Copy)]
pub struct UpdatePrice {
    pub exchange_state: ExchangeState,
    pub now: i64,
}

/// The venue record after set-up: price and its time recorded, totals at zero,
/// trading enabled, default configuration.
pub open spec fn initialized_exchange(ctx: Initialize, oracle_price: u64) -> ExchangeState {
    ExchangeState {
        admin: ctx.admin,
        vault: ctx.vault_address,
        oracle_price: oracle_price,
        oracle_last_update: ctx.now,
        collected_fees: 0,
        insurance_fund_balance: 0,
        is_paused: false,
        governance_params: default_governance(),
        total_long_positions: 0,
        total_short_positions: 0,
        total_volume: 0,
        ..ctx.exchange_state
    }
}

/// The vault after set-up: empty, and tied to the venue record.
pub open spec fn initialized_vault(ctx: Initialize) -> VaultAccount {
    VaultAccount {
        exchange_state: ctx.exchange_state_address,
        total_balance: 0,
        reserved_collateral: 0,
        bump: ctx.vault_bump,
    }
}

/// Sets up the venue at a positive reference price.
pub fn initialize(ctx: &mut Initialize, oracle_price: u64) -> (r: Result<(), PerpExchangeError>)
    ensures
        r is Err <==> oracle_price == 0,
        r is Err ==> r == Err::<(), PerpExchangeError>(PerpExchangeError::InvalidPrice)
            && *final(ctx) == *old(ctx),
        r is Ok ==> (Initialize {
            exchange_state: initialized_exchange(*old(ctx), oracle_price),
            vault: initialized_vault(*old(ctx)),
            ..*old(ctx)
        }) == *final(ctx),
{
    if oracle_price == 0 {
        return Err(PerpExchangeError::InvalidPrice);
    }
    ctx.exchange_state.admin = ctx.admin;
    ctx.exchange_state.vault = ctx.vault_address;
    ctx.exchange_state.oracle_price = oracle_price;
    ctx.exchange_state.oracle_last_update = ctx.now;
    ctx.exchange_state.total_long_positions = 0;
    ctx.exchange_state.total_short_positions = 0;
    ctx.exchange_state.total_volume = 0;
    ctx.exchange_state.collected_fees = 0;
    ctx.exchange_state.insurance_fund_balance = 0;
    ctx.exchange_state.is_paused = false;
    ctx.exchange_state.governance_params = GovernanceParams::defaults();
    ctx.vault.exchange_state = ctx.exchange_state_address;
    ctx.vault.total_balance = 0;
    ctx.vault.reserved_collateral = 0;
    ctx.vault.bump = ctx.vault_bump;
    Ok(())
}

/// A fresh trader's record: owned by `user`, empty, created at `now`.
pub open spec fn created_user(ctx: CreateUserAccount) -> UserAccount {
    UserAccount {
        owner: ctx.user,
        collateral_balance: 0,
        position: closed_position(),
        total_fees_paid: 0,
        created_at: ctx.now,
        ..ctx.user_account
    }
}

/// Sets up a trader's record with no funds and no position.
pub fn create_user_account(ctx: &mut CreateUserAccount)
    ensures
        final(ctx).user_account == created_user(*old(ctx)),
        final(ctx).user_account.wf(),
        final(ctx).user == old(ctx).user,
        final(ctx).now == old(ctx).now,
{
    ctx.user_account.owner = ctx.user;
    ctx.user_account.collateral_balance = 0;
    ctx.user_account.total_fees_paid = 0;
    ctx.user_account.position = Position::closed();
    ctx.user_account.created_at = ctx.now;
}

/// The outcome of a deposit of `amount`.
pub open spec fn deposit_check(user: UserAccount, vault: VaultAccount, amount: u64) -> Result<
    (),
    PerpExchangeError,
> {
    if amount == 0 {
        Err(PerpExchangeError::InvalidAmount)
    } else if user.collateral_balance + amount > u64::MAX || vault.total_balance + amount
        > u64::MAX {
        Err(PerpExchangeError::MathOverflow)
    } else {
        Ok(())
    }
}

/// Credits `amount` to the trader's balance and to the vault.
pub fn deposit_collateral(ctx: &mut DepositCollateral, amount: u64) -> (r: Result<
    (),
    PerpExchangeError,
>)
    ensures
        r == deposit_check(old(ctx).user_account, old(ctx).vault, amount),
        r is Ok ==> final(ctx).user_account == (UserAccount {
            collateral_balance: (old(ctx).user_account.collateral_balance + amount) as u64,
            ..old(ctx).user_account
        }) && final(ctx).vault == (VaultAccount {
            total_balance: (old(ctx).vault.total_balance + amount) as u64,
            ..old(ctx).vault
        }),
        r is Err ==> *final(ctx) == *old(ctx),
{
    if amount == 0 {
        return Err(PerpExchangeError::InvalidAmount);
    }
    if amount > u64::MAX - ctx.user_account.collateral_balance || amount > u64::MAX
        - ctx.vault.total_balance {
        return Err(PerpExchangeError::MathOverflow);
    }
    ctx.user_account.collateral_balance = ctx.user_account.collateral_balance + amount;
    ctx.vault.total_balance = ctx.vault.total_balance + amount;
    Ok(())
}

/// The outcome of a withdrawal of `amount`: only the trader's own balance,
/// and only the unreserved part of the vault, can be paid out.
pub open spec fn withdraw_check(user: UserAccount, vault: VaultAccount, amount: u64) -> Result<
    (),
    PerpExchangeError,
> {
    if amount == 0 {
        Err(PerpExchangeError::InvalidAmount)
    } else if user.collateral_balance < amount {
        Err(PerpExchangeError::InsufficientCollateral)
    } else if vault.total_balance < vault.reserved_collateral + amount {
        Err(PerpExchangeError::InsufficientVaultBalance)
    } else {
        Ok(())
    }
}

/// Pays `amount` out of the trader's balance and the vault.
pub fn withdraw_collateral(ctx: &mut WithdrawCollateral, amount: u64) -> (r: Result<
    (),
    PerpExchangeError,
>)
    ensures
        r == withdraw_check(old(ctx).user_account, old(ctx).vault, amount),
        r is Ok ==> final(ctx).user_account == (UserAccount {
            collateral_balance: (old(ctx).user_account.collateral_balance - amount) as u64,
            ..old(ctx).user_account
        }) && final(ctx).vault == (VaultAccount {
            total_balance: (old(ctx).vault.total_balance - amount) as u64,
            ..old(ctx).vault
        }),
        r is Err ==> *final(ctx) == *old(ctx),
{
    if amount == 0 {
        return Err(PerpExchangeError::InvalidAmount);
    }
    if ctx.user_account.collateral_balance < amount {
        return Err(PerpExchangeError::InsufficientCollateral);
    }
    if ctx.vault.total_balance < ctx.vault.reserved_collateral || ctx.vault.total_balance
        - ctx.vault.reserved_collateral < amount {
        return Err(PerpExchangeError::InsufficientVaultBalance);
    }
    ctx.user_account.collateral_balance = ctx.user_account.collateral_balance - amount;
    ctx.vault.total_balance = ctx.vault.total_balance - amount;
    Ok(())
}

/// Records a new positive reference price, timestamped `now`.
pub fn update_price(ctx: &mut UpdatePrice, new_price: u64) -> (r: Result<(), PerpExchangeError>)
    ensures
        r is Err <==> new_price == 0,
        r is Err ==> r == Err::<(), PerpExchangeError>(PerpExchangeError::InvalidPrice)
            && *final(ctx) == *old(ctx),
        r is Ok ==> final(ctx).exchange_state == (ExchangeState {
            oracle_price: new_price,
            oracle_last_update: old(ctx).now,
            ..old(ctx).exchange_state
        }) && final(ctx).now == old(ctx).now,
{
    if new_price == 0 {
        return Err(PerpExchangeError::InvalidPrice);
    }
    ctx.exchange_state.oracle_price = new_price;
    ctx.exchange_state.oracle_last_update = ctx.now;
    Ok(())
}

} // verus!
