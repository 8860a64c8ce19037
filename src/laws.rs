use vstd::prelude::*;

use crate::error::PerpExchangeError;
use crate::exchange::{created_user, deposit_check, withdraw_check, CreateUserAccount};
use crate::math::bps_of;
use crate::state::{Address, ExchangeState, UserAccount, VaultAccount};
use crate::trading::{
    close_check, closed_exchange, closed_user, equity_of, is_stale, liquidate_check,
    liquidated_exchange, liquidated_user, liquidation_line, open_check, open_fee, opened_exchange,
    opened_user, opened_vault, released_vault, OpenPositionParams,
};

verus! {

/// Margin an account has reserved in the vault: its position's margin when
/// one is open.
pub open spec fn open_margin(u: UserAccount) -> int {
    if u.position.is_open {
        u.position.margin as int
    } else {
        0
    }
}

/// Sum of the margins of all open positions among `users`.
pub open spec fn total_open_margin(users: Seq<UserAccount>) -> int
    decreases users.len(),
{
    if users.len() == 0 {
        0
    } else {
        total_open_margin(users.drop_last()) + open_margin(users.last())
    }
}

/// The whole venue: its singleton records and every trader's account.
pub struct Venue {
    pub exchange_state: ExchangeState,
    pub vault: VaultAccount,
    pub users: Seq<UserAccount>,
}

/// One operation on the venue, naming the trader's account by its index.
pub enum Action {
    CreateUser(UserAccount, Address, i64),
    Deposit(usize, u64),
    Withdraw(usize, u64),
    Open(usize, OpenPositionParams, i64),
    Close(usize, i64),
    Liquidate(usize, i64),
    UpdatePrice(u64, i64),
}

/// The venue after `a`, or `None` where the operation is refused.
pub open spec fn step(v: Venue, a: Action) -> Option<Venue> {
    let ex = v.exchange_state;
    let vault = v.vault;
    match a {
        Action::CreateUser(blank, user, now) => {
            let fresh = created_user(CreateUserAccount { user_account: blank, user, now });
            Some(Venue { users: v.users.push(fresh), ..v })
        },
        Action::Deposit(i, amount) => {
            if i < v.users.len() && deposit_check(v.users[i as int], vault, amount) is Ok {
                let u = v.users[i as int];
                Some(
                    Venue {
                        users: v.users.update(
                            i as int,
                            UserAccount {
                                collateral_balance: (u.collateral_balance + amount) as u64,
                                ..u
                            },
                        ),
                        vault: VaultAccount {
                            total_balance: (vault.total_balance + amount) as u64,
                            ..vault
                        },
                        ..v
                    },
                )
            } else {
                None
            }
        },
        Action::Withdraw(i, amount) => {
            if i < v.users.len() && withdraw_check(v.users[i as int], vault, amount) is Ok {
                let u = v.users[i as int];
                Some(
                    Venue {
                        users: v.users.update(
                            i as int,
                            UserAccount {
                                collateral_balance: (u.collateral_balance - amount) as u64,
                                ..u
                            },
                        ),
                        vault: VaultAccount {
                            total_balance: (vault.total_balance - amount) as u64,
                            ..vault
                        },
                        ..v
                    },
                )
            } else {
                None
            }
        },
        Action::Open(i, params, now) => {
            if i < v.users.len() && open_check(v.users[i as int], vault, ex, params, now) is Ok {
                Some(
                    Venue {
                        exchange_state: opened_exchange(ex, params),
                        vault: opened_vault(vault, params),
                        users: v.users.update(
                            i as int,
                            opened_user(v.users[i as int], ex, params, now),
                        ),
                    },
                )
            } else {
                None
            }
        },
        Action::Close(i, now) => {
            if i < v.users.len() && close_check(v.users[i as int], vault, ex, now) is Ok {
                let u = v.users[i as int];
                Some(
                    Venue {
                        exchange_state: closed_exchange(ex, u.position),
                        vault: released_vault(vault, u.position.margin),
                        users: v.users.update(i as int, closed_user(u, ex)),
                    },
                )
            } else {
                None
            }
        },
        Action::Liquidate(i, now) => {
            if i < v.users.len() && liquidate_check(v.users[i as int], vault, ex, now) is Ok {
                let u = v.users[i as int];
                Some(
                    Venue {
                        exchange_state: liquidated_exchange(ex, u.position),
                        vault: released_vault(vault, u.position.margin),
                        users: v.users.update(i as int, liquidated_user(u)),
                    },
                )
            } else {
                None
            }
        },
        Action::UpdatePrice(price, now) => {
            if price == 0 {
                None
            } else {
                Some(
                    Venue {
                        exchange_state: ExchangeState {
                            oracle_price: price,
                            oracle_last_update: now,
                            ..ex
                        },
                        ..v
                    },
                )
            }
        },
    }
}

/// The venue after every action of `actions` in turn, or `None` where one of
/// them is refused.
pub open spec fn run(v: Venue, actions: Seq<Action>) -> Option<Venue>
    decreases actions.len(),
{
    if actions.len() == 0 {
        Some(v)
    } else {
        match run(v, actions.drop_last()) {
            Some(w) => step(w, actions.last()),
            None => None,
        }
    }
}

/// The vault's reservation is exactly the margin of the open positions.
pub open spec fn conserved(v: Venue) -> bool {
    v.vault.reserved_collateral == total_open_margin(v.users)
}

/// Replacing one account changes the total open margin by the difference of
/// the two accounts' open margins.
pub proof fn lemma_total_open_margin_update(users: Seq<UserAccount>, i: int, u: UserAccount)
    requires
        0 <= i < users.len(),
    ensures
        total_open_margin(users.update(i, u)) == total_open_margin(users) - open_margin(users[i])
            + open_margin(u),
    decreases users.len(),
{
    let updated = users.update(i, u);
    if i == users.len() - 1 {
        assert(updated.drop_last() =~= users.drop_last());
    } else {
        lemma_total_open_margin_update(users.drop_last(), i, u);
        assert(updated.drop_last() =~= users.drop_last().update(i, u));
    }
}

/// Every accepted operation keeps the vault's reservation equal to the sum of
/// the margins of the open positions.
pub proof fn lemma_step_conserves(v: Venue, a: Action)
    requires
        conserved(v),
        step(v, a) is Some,
    ensures
        conserved(step(v, a)->Some_0),
{
    match a {
        Action::CreateUser(blank, user, now) => {
            assert(step(v, a)->Some_0.users.drop_last() =~= v.users);
        },
        Action::Deposit(i, amount) => {
            lemma_total_open_margin_update(v.users, i as int, step(v, a)->Some_0.users[i as int]);
        },
        Action::Withdraw(i, amount) => {
            lemma_total_open_margin_update(v.users, i as int, step(v, a)->Some_0.users[i as int]);
        },
        Action::Open(i, params, now) => {
            lemma_total_open_margin_update(v.users, i as int, step(v, a)->Some_0.users[i as int]);
        },
        Action::Close(i, now) => {
            lemma_total_open_margin_update(v.users, i as int, step(v, a)->Some_0.users[i as int]);
        },
        Action::Liquidate(i, now) => {
            lemma_total_open_margin_update(v.users, i as int, step(v, a)->Some_0.users[i as int]);
        },
        Action::UpdatePrice(price, now) => {},
    }
}

/// A venue just set up holds no reservation and no traders, so the
/// reservation matches the (empty) sum of open margins.
pub proof fn lemma_fresh_venue_conserved(v: Venue)
    requires
        v.vault.reserved_collateral == 0,
        v.users.len() == 0,
    ensures
        conserved(v),
{
}

/// Conservation: after any sequence of accepted operations, the vault's
/// reserved collateral equals the sum of the margins of all open positions
/// across all traders, if it did before.
pub proof fn lemma_conservation(v: Venue, actions: Seq<Action>)
    requires
        conserved(v),
        run(v, actions) is Some,
    ensures
        conserved(run(v, actions)->Some_0),
    decreases actions.len(),
{
    if actions.len() > 0 {
        lemma_conservation(v, actions.drop_last());
        lemma_step_conserves(run(v, actions.drop_last())->Some_0, actions.last());
    }
}

/// Balances never go below zero: every accepted operation leaves each
/// balance it lowers at exactly the old value minus what it takes, which is
/// therefore nonnegative; where the trader's balance cannot cover a withdrawal
/// or an opening, the operation is refused with the matching error.
pub proof fn lemma_no_negative_balances(
    user: UserAccount,
    vault: VaultAccount,
    ex: ExchangeState,
    params: OpenPositionParams,
    amount: u64,
    now: i64,
)
    ensures
        withdraw_check(user, vault, amount) is Ok ==> user.collateral_balance - amount >= 0
            && vault.total_balance - amount >= vault.reserved_collateral,
        amount > 0 && user.collateral_balance < amount ==> withdraw_check(user, vault, amount)
            == Err::<(), PerpExchangeError>(PerpExchangeError::InsufficientCollateral),
        open_check(user, vault, ex, params, now) is Ok ==> opened_user(
            user,
            ex,
            params,
            now,
        ).collateral_balance == user.collateral_balance - params.margin - open_fee(ex, params),
        open_check(user, vault, ex, params, now) is Ok ==> opened_vault(
            vault,
            params,
        ).reserved_collateral == vault.reserved_collateral + params.margin,
        close_check(user, vault, ex, now) is Ok ==> released_vault(
            vault,
            user.position.margin,
        ).reserved_collateral == vault.reserved_collateral - user.position.margin,
        liquidate_check(user, vault, ex, now) is Ok ==> released_vault(
            vault,
            user.position.margin,
        ).reserved_collateral == vault.reserved_collateral - user.position.margin,
{
}

/// Positions stay well formed: an accepted opening records an open position
/// with a nonzero size and a positive margin, and an accepted closing or
/// liquidation leaves the account with the empty position. Deposits,
/// withdrawals, closings and liquidations keep the vault's reservation within
/// what it holds.
pub proof fn lemma_records_stay_well_formed(
    user: UserAccount,
    vault: VaultAccount,
    ex: ExchangeState,
    params: OpenPositionParams,
    amount: u64,
    now: i64,
)
    ensures
        open_check(user, vault, ex, params, now) is Ok ==> opened_user(
            user,
            ex,
            params,
            now,
        ).wf(),
        close_check(user, vault, ex, now) is Ok ==> closed_user(user, ex).wf(),
        liquidate_check(user, vault, ex, now) is Ok ==> liquidated_user(user).wf(),
        vault.wf() && deposit_check(user, vault, amount) is Ok ==> (VaultAccount {
            total_balance: (vault.total_balance + amount) as u64,
            ..vault
        }).wf(),
        vault.wf() && withdraw_check(user, vault, amount) is Ok ==> (VaultAccount {
            total_balance: (vault.total_balance - amount) as u64,
            ..vault
        }).wf(),
        vault.wf() && close_check(user, vault, ex, now) is Ok ==> released_vault(
            vault,
            user.position.margin,
        ).wf(),
        vault.wf() && liquidate_check(user, vault, ex, now) is Ok ==> released_vault(
            vault,
            user.position.margin,
        ).wf(),
{
    if open_check(user, vault, ex, params, now) is Ok {
        let m = params.margin as int;
        let l = params.leverage as int;
        assert(m * l >= 1) by (nonlinear_arith)
            requires
                m >= 1,
                l >= 1,
        ;
    }
}

/// Opening again while the first position is still open is refused with
/// `PositionExists`, whatever the time, once the request itself is valid.
pub proof fn lemma_second_open_rejected(
    user: UserAccount,
    vault: VaultAccount,
    ex: ExchangeState,
    first: OpenPositionParams,
    first_now: i64,
    second: OpenPositionParams,
    second_now: i64,
)
    requires
        open_check(user, vault, ex, first, first_now) is Ok,
        second.margin > 0,
        0 < second.leverage <= ex.governance_params.max_leverage,
        second.margin >= ex.governance_params.min_margin,
    ensures
        open_check(
            opened_user(user, ex, first, first_now),
            opened_vault(vault, first),
            opened_exchange(ex, first),
            second,
            second_now,
        ) == Err::<(), PerpExchangeError>(PerpExchangeError::PositionExists),
{
}

/// Opening with the largest margin at the largest leverage, where that
/// leverage exceeds one, overflows the notional and is refused with
/// `MathOverflow` (once the account is free and the price fresh).
pub proof fn lemma_open_overflow_boundary(
    user: UserAccount,
    vault: VaultAccount,
    ex: ExchangeState,
    params: OpenPositionParams,
    now: i64,
)
    requires
        params.margin == u64::MAX,
        ex.governance_params.max_leverage > 1,
        params.leverage == ex.governance_params.max_leverage,
        !user.position.is_open,
        !is_stale(ex, now),
    ensures
        open_check(user, vault, ex, params, now) == Err::<(), PerpExchangeError>(
            PerpExchangeError::MathOverflow,
        ),
{
    let lev = params.leverage as int;
    assert(u64::MAX as int * lev >= u64::MAX as int * 2) by (nonlinear_arith)
        requires
            lev >= 2,
    ;
}

/// The price gate: one second past the validity period after the last price
/// update, opening, closing and liquidating are refused with `StaleOracle`;
/// at exactly the validity period they decide as on a fresh price.
pub proof fn lemma_stale_price_gate(
    user: UserAccount,
    vault: VaultAccount,
    ex: ExchangeState,
    params: OpenPositionParams,
    late: i64,
    edge: i64,
)
    requires
        late == ex.oracle_last_update + ex.governance_params.oracle_validity_period + 1,
        edge == ex.oracle_last_update + ex.governance_params.oracle_validity_period,
    ensures
        is_stale(ex, late),
        !is_stale(ex, edge),
        params.margin > 0 && 0 < params.leverage <= ex.governance_params.max_leverage
            && params.margin >= ex.governance_params.min_margin && !user.position.is_open
            ==> open_check(user, vault, ex, params, late) == Err::<(), PerpExchangeError>(
            PerpExchangeError::StaleOracle,
        ),
        user.position.is_open ==> close_check(user, vault, ex, late) == Err::<(), PerpExchangeError>(
            PerpExchangeError::StaleOracle,
        ),
        user.position.is_open ==> liquidate_check(user, vault, ex, late) == Err::<
            (),
            PerpExchangeError,
        >(PerpExchangeError::StaleOracle),
        open_check(user, vault, ex, params, edge) == open_check(
            user,
            vault,
            ex,
            params,
            ex.oracle_last_update,
        ),
        close_check(user, vault, ex, edge) == close_check(user, vault, ex, ex.oracle_last_update),
        liquidate_check(user, vault, ex, edge) == liquidate_check(
            user,
            vault,
            ex,
            ex.oracle_last_update,
        ),
{
}

/// The liquidation gate: an open position on a fresh, nonzero entry price is
/// refused with `PositionNotLiquidatable` exactly when its equity is above
/// the liquidation line; with a margin of 1000 and a threshold of 8000 basis
/// points that line is 800.
pub proof fn lemma_liquidation_boundary(
    user: UserAccount,
    vault: VaultAccount,
    ex: ExchangeState,
    now: i64,
)
    requires
        user.position.is_open,
        !is_stale(ex, now),
        user.position.entry_price > 0,
    ensures
        (liquidate_check(user, vault, ex, now) == Err::<(), PerpExchangeError>(
            PerpExchangeError::PositionNotLiquidatable,
        )) == (equity_of(user.position, ex.oracle_price) > liquidation_line(user.position, ex)),
        user.position.margin == 1000 && ex.governance_params.liquidation_threshold == 8000
            ==> liquidation_line(user.position, ex) == 800,
{
    assert(bps_of(1000, 8000) == 800);
}

} // verus!
