//! Share accounting: how many shares a deposit mints and how much of the base
//! asset a burnt share pays out. Every quotient is rounded down, so the pool
//! never credits or pays more than it holds.

use vstd::prelude::*;
use crate::error::ContractError;

verus! {

/// Shares minted to the vault itself with the first deposit. They are never
/// withdrawn, so the share supply cannot be brought back to a handful of
/// units once the pool is in use.
pub const MINIMUM_STAKE_AMOUNT: u128 = 1_000;

/// The deposit cap in whole units of the base asset.
pub const DEPOSIT_CAP_UNITS: u128 = 21_000_000;

/// The pool as the two token contracts report it.
#[derive(Clone, Copy, Debug, PartialEq, Eq, Structural)]
pub struct PoolState {
    /// Base asset held by the vault.
    pub total_deposit: u128,
    /// Supply of the share asset.
    pub total_shares: u128,
}

impl PoolState {
    /// Whether the pool is balanced: it has shares exactly when it has a
    /// balance.
    pub open spec fn balanced(self) -> bool {
        (self.total_shares == 0) == (self.total_deposit == 0)
    }
}

/// What a deposit leads to.
#[derive(Clone, Copy, Debug, PartialEq, Eq, Structural)]
pub struct Deposit {
    /// Shares minted to the depositor.
    pub depositor_shares: u128,
    /// Shares minted to the vault and locked there: the floor on a first
    /// deposit, nothing afterwards.
    pub locked_shares: u128,
    /// The pool once the deposit and both mints are counted.
    pub pool: PoolState,
}

/// What a withdrawal leads to.
#[derive(Clone, Copy, Debug, PartialEq, Eq, Structural)]
pub struct Withdrawal {
    /// Base asset paid to the withdrawer.
    pub assets: u128,
    /// The pool once the burn and the payout are counted.
    pub pool: PoolState,
}

/// Ten to the power `decimals`.
pub open spec fn pow10(decimals: nat) -> nat
    decreases decimals,
{
    if decimals == 0 {
        1
    } else {
        10 * pow10((decimals - 1) as nat)
    }
}

/// The deposit cap in the smallest denomination of an asset with `decimals`
/// decimal places.
pub open spec fn spec_deposit_cap(decimals: u8) -> nat {
    DEPOSIT_CAP_UNITS as nat * pow10(decimals as nat)
}

/// The shares that `amount` mints to the depositor against a pool of
/// `total_deposit` and `total_shares`, with the pool capped at `deposit_cap`.
pub open spec fn spec_convert_to_shares(
    amount: u128,
    total_deposit: u128,
    total_shares: u128,
    deposit_cap: u128,
) -> Result<u128, ContractError> {
    if total_shares != 0 && (amount * total_shares > u128::MAX || total_deposit == 0) {
        Err(ContractError::ArithmeticError)
    } else if total_shares != 0 && (amount * total_shares) / (total_deposit as int) == 0 {
        Err(ContractError::StakeAmountTooSmall)
    } else if total_deposit + amount > u128::MAX {
        Err(ContractError::ArithmeticError)
    } else if total_deposit + amount > deposit_cap {
        Err(ContractError::ExceedsTotalDepositLimit)
    } else if total_shares == 0 {
        Ok(amount)
    } else {
        Ok(((amount * total_shares) / (total_deposit as int)) as u128)
    }
}

/// The base asset that `share_amount` shares are worth against a pool of
/// `total_deposit` and `total_shares`.
pub open spec fn spec_convert_to_assets(
    share_amount: u128,
    total_deposit: u128,
    total_shares: u128,
) -> Result<u128, ContractError> {
    if share_amount * total_deposit > u128::MAX || total_shares == 0 {
        Err(ContractError::ArithmeticError)
    } else {
        Ok(((share_amount * total_deposit) / (total_shares as int)) as u128)
    }
}

/// The shares locked in the vault by a deposit into a pool with
/// `total_shares` shares.
pub open spec fn spec_locked_shares(total_shares: u128) -> u128 {
    if total_shares == 0 {
        MINIMUM_STAKE_AMOUNT
    } else {
        0
    }
}

/// The outcome of depositing `amount` into `pool`.
pub open spec fn spec_deposit(pool: PoolState, amount: u128, deposit_cap: u128) -> Result<
    Deposit,
    ContractError,
> {
    match spec_convert_to_shares(amount, pool.total_deposit, pool.total_shares, deposit_cap) {
        Err(e) => Err(e),
        Ok(shares) => {
            let locked = spec_locked_shares(pool.total_shares);
            if pool.total_shares + shares + locked > u128::MAX {
                Err(ContractError::ArithmeticError)
            } else {
                Ok(
                    (Deposit {
                        depositor_shares: shares,
                        locked_shares: locked,
                        pool: PoolState {
                            total_deposit: (pool.total_deposit + amount) as u128,
                            total_shares: (pool.total_shares + shares + locked) as u128,
                        },
                    }),
                )
            }
        },
    }
}

/// The outcome of burning `share_amount` shares of `pool`.
pub open spec fn spec_withdraw(pool: PoolState, share_amount: u128) -> Result<
    Withdrawal,
    ContractError,
> {
    match spec_convert_to_assets(share_amount, pool.total_deposit, pool.total_shares) {
        Err(e) => Err(e),
        Ok(assets) => {
            if share_amount > pool.total_shares {
                Err(ContractError::ArithmeticError)
            } else {
                Ok(
                    (Withdrawal {
                        assets,
                        pool: PoolState {
                            total_deposit: (pool.total_deposit - assets) as u128,
                            total_shares: (pool.total_shares - share_amount) as u128,
                        },
                    }),
                )
            }
        },
    }
}

/// The deposit cap for an asset with `decimals` decimal places, or
/// `ArithmeticError` where it does not fit the balance type.
pub fn deposit_cap(decimals: u8) -> (cap: Result<u128, ContractError>)
    ensures
        spec_deposit_cap(decimals) <= u128::MAX ==> cap == Ok::<u128, ContractError>(
            spec_deposit_cap(decimals) as u128,
        ),
        spec_deposit_cap(decimals) > u128::MAX ==> cap == Err::<u128, ContractError>(
            ContractError::ArithmeticError,
        ),
{
    let mut cap: u128 = DEPOSIT_CAP_UNITS;
    let mut i: u8 = 0;
    while i < decimals
        invariant
            i <= decimals,
            cap as nat == DEPOSIT_CAP_UNITS as nat * pow10(i as nat),
        decreases decimals - i,
    {
        match cap.checked_mul(10) {
            Some(next) => {
                proof {
                    assert(pow10((i + 1) as nat) == 10 * pow10(i as nat));
                    assert(next as nat == DEPOSIT_CAP_UNITS as nat * pow10((i + 1) as nat))
                        by (nonlinear_arith)
                        requires
                            next as nat == cap as nat * 10,
                            cap as nat == DEPOSIT_CAP_UNITS as nat * pow10(i as nat),
                            pow10((i + 1) as nat) == 10 * pow10(i as nat),
                    ;
                }
                cap = next;
                i = i + 1;
            },
            None => {
                proof {
                    lemma_cap_grows(i, decimals);
                    assert(pow10((i + 1) as nat) == 10 * pow10(i as nat));
                    assert(spec_deposit_cap((i + 1) as u8) == cap as nat * 10) by (nonlinear_arith)
                        requires
                            spec_deposit_cap((i + 1) as u8) == DEPOSIT_CAP_UNITS as nat * pow10(
                                (i + 1) as nat,
                            ),
                            cap as nat == DEPOSIT_CAP_UNITS as nat * pow10(i as nat),
                            pow10((i + 1) as nat) == 10 * pow10(i as nat),
                    ;
                }
                return Err(ContractError::ArithmeticError);
            },
        }
    }
    Ok(cap)
}

/// The cap does not shrink as the number of decimal places grows.
proof fn lemma_cap_grows(low: u8, high: u8)
    requires
        low < high,
    ensures
        spec_deposit_cap((low + 1) as u8) <= spec_deposit_cap(high),
    decreases high - low,
{
    if low + 1 < high {
        lemma_cap_grows((low + 1) as u8, high);
        assert(pow10((low + 2) as nat) == 10 * pow10((low + 1) as nat));
        assert(spec_deposit_cap((low + 1) as u8) <= spec_deposit_cap((low + 2) as u8))
            by (nonlinear_arith)
            requires
                spec_deposit_cap((low + 1) as u8) == DEPOSIT_CAP_UNITS as nat * pow10(
                    (low + 1) as nat,
                ),
                spec_deposit_cap((low + 2) as u8) == DEPOSIT_CAP_UNITS as nat * pow10(
                    (low + 2) as nat,
                ),
                pow10((low + 2) as nat) == 10 * pow10((low + 1) as nat),
        ;
    }
}

/// The shares that a deposit of `amount` mints to the depositor.
///
/// Into a pool without shares the depositor gets one share per unit. Into any
/// other pool the deposit is priced at the pool's ratio, rounded down, and a
/// deposit that would mint nothing is refused. The pool may not grow above
/// `deposit_cap`.
pub fn convert_to_shares(
    amount: u128,
    total_deposit: u128,
    total_shares: u128,
    deposit_cap: u128,
) -> (shares: Result<u128, ContractError>)
    ensures
        shares == spec_convert_to_shares(amount, total_deposit, total_shares, deposit_cap),
{
    let minted: u128 = if total_shares == 0 {
        amount
    } else {
        let product: u128 = match amount.checked_mul(total_shares) {
            Some(p) => p,
            None => { return Err(ContractError::ArithmeticError); },
        };
        let quotient: u128 = match product.checked_div(total_deposit) {
            Some(q) => q,
            None => { return Err(ContractError::ArithmeticError); },
        };
        if quotient == 0 {
            return Err(ContractError::StakeAmountTooSmall);
        }
        quotient
    };
    match total_deposit.checked_add(amount) {
        None => Err(ContractError::ArithmeticError),
        Some(grown) => {
            if grown > deposit_cap {
                Err(ContractError::ExceedsTotalDepositLimit)
            } else {
                Ok(minted)
            }
        },
    }
}

/// The base asset that `share_amount` shares pay out, at the ratio of the pool
/// as it stands before the shares are burnt, rounded down.
pub fn convert_to_assets(share_amount: u128, total_deposit: u128, total_shares: u128) -> (assets:
    Result<u128, ContractError>)
    ensures
        assets == spec_convert_to_assets(share_amount, total_deposit, total_shares),
{
    let product: u128 = match share_amount.checked_mul(total_deposit) {
        Some(p) => p,
        None => { return Err(ContractError::ArithmeticError); },
    };
    match product.checked_div(total_shares) {
        Some(q) => Ok(q),
        None => Err(ContractError::ArithmeticError),
    }
}

impl PoolState {
    /// Deposits `amount` of the base asset: the shares for the depositor, the
    /// shares locked with a first deposit, and the pool afterwards.
    pub fn deposit(&self, amount: u128, deposit_cap: u128) -> (outcome: Result<
        Deposit,
        ContractError,
    >)
        ensures
            outcome == spec_deposit(*self, amount, deposit_cap),
    {
        let shares: u128 = match convert_to_shares(
            amount,
            self.total_deposit,
            self.total_shares,
            deposit_cap,
        ) {
            Ok(s) => s,
            Err(e) => { return Err(e); },
        };
        let locked: u128 = if self.total_shares == 0 {
            MINIMUM_STAKE_AMOUNT
        } else {
            0
        };
        let with_shares: u128 = match self.total_shares.checked_add(shares) {
            Some(t) => t,
            None => { return Err(ContractError::ArithmeticError); },
        };
        let new_shares: u128 = match with_shares.checked_add(locked) {
            Some(t) => t,
            None => { return Err(ContractError::ArithmeticError); },
        };
        Ok(
            Deposit {
                depositor_shares: shares,
                locked_shares: locked,
                pool: PoolState {
                    total_deposit: self.total_deposit + amount,
                    total_shares: new_shares,
                },
            },
        )
    }

    /// Burns `share_amount` shares: the payout, priced before the burn, and
    /// the pool afterwards.
    pub fn withdraw(&self, share_amount: u128) -> (outcome: Result<Withdrawal, ContractError>)
        ensures
            outcome == spec_withdraw(*self, share_amount),
    {
        let assets: u128 = match convert_to_assets(
            share_amount,
            self.total_deposit,
            self.total_shares,
        ) {
            Ok(a) => a,
            Err(e) => { return Err(e); },
        };
        let new_shares: u128 = match self.total_shares.checked_sub(share_amount) {
            Some(t) => t,
            None => { return Err(ContractError::ArithmeticError); },
        };
        proof {
            lemma_payout_within_pool(share_amount, self.total_deposit, self.total_shares);
        }
        Ok(
            Withdrawal {
                assets,
                pool: PoolState {
                    total_deposit: self.total_deposit - assets,
                    total_shares: new_shares,
                },
            },
        )
    }
}

/// A payout is rounded down: it is worth no more than the shares burnt, and a
/// holder of no more than the whole supply is paid no more than the pool holds.
pub proof fn lemma_payout_within_pool(share_amount: u128, total_deposit: u128, total_shares: u128)
    requires
        spec_convert_to_assets(share_amount, total_deposit, total_shares) is Ok,
    ensures
        spec_convert_to_assets(share_amount, total_deposit, total_shares).unwrap() * total_shares
            <= share_amount * total_deposit,
        share_amount <= total_shares ==> spec_convert_to_assets(
            share_amount,
            total_deposit,
            total_shares,
        ).unwrap() <= total_deposit,
{
    let x: int = share_amount * total_deposit;
    let d: int = total_shares as int;
    let q: int = x / d;
    assert(q * d <= x && 0 <= q) by (nonlinear_arith)
        requires
            d > 0,
            x >= 0,
            q == x / d,
    ;
    if share_amount <= total_shares {
        assert(q <= total_deposit) by (nonlinear_arith)
            requires
                q * d <= share_amount * total_deposit,
                share_amount <= d,
                d > 0,
                0 <= q,
                0 <= share_amount,
                0 <= total_deposit,
        ;
    }
}

/// A deposit into a pool without shares mints one share per unit to the
/// depositor and the locked floor to the vault: the supply becomes the deposit
/// plus the floor, and the pool grows by the deposit.
pub proof fn lemma_first_deposit_lock(pool: PoolState, amount: u128, deposit_cap: u128)
    requires
        pool.total_shares == 0,
        pool.total_deposit + amount <= deposit_cap,
        amount + MINIMUM_STAKE_AMOUNT <= u128::MAX,
    ensures
        spec_deposit(pool, amount, deposit_cap) is Ok,
        spec_deposit(pool, amount, deposit_cap).unwrap().depositor_shares == amount,
        spec_deposit(pool, amount, deposit_cap).unwrap().locked_shares == MINIMUM_STAKE_AMOUNT,
        spec_deposit(pool, amount, deposit_cap).unwrap().pool.total_shares == amount
            + MINIMUM_STAKE_AMOUNT,
        spec_deposit(pool, amount, deposit_cap).unwrap().pool.total_deposit == pool.total_deposit
            + amount,
{
}

/// A deposit too small to be worth one share is refused: into a pool with
/// shares and a balance, an amount whose product with the supply stays below
/// the balance ends in `StakeAmountTooSmall`, whatever the cap.
pub proof fn lemma_zero_share_guard(pool: PoolState, amount: u128, deposit_cap: u128)
    requires
        pool.total_shares > 0,
        pool.total_deposit > 0,
        amount * pool.total_shares < pool.total_deposit,
    ensures
        spec_convert_to_shares(amount, pool.total_deposit, pool.total_shares, deposit_cap) == Err::<
            u128,
            ContractError,
        >(ContractError::StakeAmountTooSmall),
        spec_deposit(pool, amount, deposit_cap) == Err::<Deposit, ContractError>(
            ContractError::StakeAmountTooSmall,
        ),
{
    let x: int = amount * pool.total_shares;
    let d: int = pool.total_deposit as int;
    assert(x / d == 0) by (nonlinear_arith)
        requires
            0 <= x < d,
    ;
}

/// No deposit lifts the pool above its cap. A deposit that is worth at least
/// one share and would do so ends in `ExceedsTotalDepositLimit`; one that
/// stays within the cap, the cap itself included, is not refused for the cap.
pub proof fn lemma_cap_enforcement(pool: PoolState, amount: u128, deposit_cap: u128)
    ensures
        spec_deposit(pool, amount, deposit_cap) is Ok ==> spec_deposit(
            pool,
            amount,
            deposit_cap,
        ).unwrap().pool.total_deposit <= deposit_cap,
        pool.total_deposit + amount > deposit_cap ==> spec_deposit(pool, amount, deposit_cap)
            is Err,
        pool.total_deposit + amount > deposit_cap && pool.total_deposit + amount <= u128::MAX
            && spec_convert_to_shares(amount, pool.total_deposit, pool.total_shares, u128::MAX)
            is Ok ==> spec_deposit(pool, amount, deposit_cap) == Err::<Deposit, ContractError>(
            ContractError::ExceedsTotalDepositLimit,
        ),
        pool.total_deposit + amount <= deposit_cap ==> spec_deposit(pool, amount, deposit_cap)
            != Err::<Deposit, ContractError>(ContractError::ExceedsTotalDepositLimit),
        pool.total_deposit + amount <= deposit_cap ==> spec_deposit(pool, amount, deposit_cap)
            == spec_deposit(pool, amount, u128::MAX),
{
}

/// A deposit never lowers the price of a share: the balance per share after
/// it is at least the balance per share before it.
pub proof fn lemma_deposit_keeps_price(pool: PoolState, amount: u128, deposit_cap: u128)
    requires
        spec_deposit(pool, amount, deposit_cap) is Ok,
        pool.total_shares > 0,
    ensures
        spec_deposit(pool, amount, deposit_cap).unwrap().pool.total_deposit * pool.total_shares
            >= pool.total_deposit * spec_deposit(
            pool,
            amount,
            deposit_cap,
        ).unwrap().pool.total_shares,
{
    let after = spec_deposit(pool, amount, deposit_cap).unwrap();
    let shares: int = after.depositor_shares as int;
    let x: int = amount * pool.total_shares;
    let td: int = pool.total_deposit as int;
    let ts: int = pool.total_shares as int;
    assert(shares == x / td);
    assert(shares * td <= x) by (nonlinear_arith)
        requires
            td > 0,
            x >= 0,
            shares == x / td,
    ;
    assert((td + amount) * ts >= td * (ts + shares)) by (nonlinear_arith)
        requires
            shares * td <= x,
            x == amount * ts,
    ;
}

/// A withdrawal never lowers the price of a share either: what stays in the
/// pool per remaining share is at least what was there per share before.
pub proof fn lemma_withdraw_keeps_price(pool: PoolState, share_amount: u128)
    requires
        spec_withdraw(pool, share_amount) is Ok,
    ensures
        spec_withdraw(pool, share_amount).unwrap().assets <= pool.total_deposit,
        spec_withdraw(pool, share_amount).unwrap().pool.total_deposit * pool.total_shares
            >= pool.total_deposit * spec_withdraw(pool, share_amount).unwrap().pool.total_shares,
{
    lemma_payout_within_pool(share_amount, pool.total_deposit, pool.total_shares);
    let assets: int = spec_withdraw(pool, share_amount).unwrap().assets as int;
    let td: int = pool.total_deposit as int;
    let ts: int = pool.total_shares as int;
    let s: int = share_amount as int;
    assert((td - assets) * ts >= td * (ts - s)) by (nonlinear_arith)
        requires
            assets * ts <= s * td,
    ;
}

/// A balanced pool stays balanced: after a deposit of more than nothing and
/// after any withdrawal, the pool still has shares exactly when it has a
/// balance. A pool is emptied only by the withdrawal of its whole supply.
pub proof fn lemma_pool_stays_balanced(
    pool: PoolState,
    amount: u128,
    share_amount: u128,
    deposit_cap: u128,
)
    requires
        pool.balanced(),
    ensures
        spec_deposit(pool, amount, deposit_cap) is Ok && amount > 0 ==> spec_deposit(
            pool,
            amount,
            deposit_cap,
        ).unwrap().pool.balanced() && spec_deposit(pool, amount, deposit_cap).unwrap().pool.total_shares
            > 0,
        spec_withdraw(pool, share_amount) is Ok ==> spec_withdraw(
            pool,
            share_amount,
        ).unwrap().pool.balanced(),
        spec_withdraw(pool, share_amount) is Ok ==> (spec_withdraw(
            pool,
            share_amount,
        ).unwrap().pool.total_shares == 0 <==> share_amount == pool.total_shares),
{
    if spec_withdraw(pool, share_amount) is Ok {
        let td: int = pool.total_deposit as int;
        let ts: int = pool.total_shares as int;
        let s: int = share_amount as int;
        let assets: int = spec_withdraw(pool, share_amount).unwrap().assets as int;
        assert(assets == (s * td) / ts);
        if s == ts {
            assert((ts * td) / ts == td) by (nonlinear_arith)
                requires
                    ts > 0,
            ;
        } else {
            assert((s * td) / ts < td) by (nonlinear_arith)
                requires
                    0 <= s < ts,
                    td > 0,
            ;
        }
    }
}

/// Depositing and at once withdrawing the shares received gives back no more
/// than was deposited.
pub proof fn lemma_round_trip_gains_nothing(pool: PoolState, amount: u128, deposit_cap: u128)
    requires
        spec_deposit(pool, amount, deposit_cap) is Ok,
        pool.total_shares > 0,
        spec_withdraw(
            spec_deposit(pool, amount, deposit_cap).unwrap().pool,
            spec_deposit(pool, amount, deposit_cap).unwrap().depositor_shares,
        ) is Ok,
    ensures
        spec_withdraw(
            spec_deposit(pool, amount, deposit_cap).unwrap().pool,
            spec_deposit(pool, amount, deposit_cap).unwrap().depositor_shares,
        ).unwrap().assets <= amount,
{
    let dep = spec_deposit(pool, amount, deposit_cap).unwrap();
    let shares: int = dep.depositor_shares as int;
    let td: int = pool.total_deposit as int;
    let ts: int = pool.total_shares as int;
    let a: int = amount as int;
    let x: int = a * ts;
    assert(shares == x / td);
    assert(shares * td <= x) by (nonlinear_arith)
        requires
            td > 0,
            x >= 0,
            shares == x / td,
    ;
    lemma_payout_within_pool(dep.depositor_shares, dep.pool.total_deposit, dep.pool.total_shares);
    let out: int = spec_withdraw(dep.pool, dep.depositor_shares).unwrap().assets as int;
    assert(out * (ts + shares) <= shares * (td + a));
    assert(out <= a) by (nonlinear_arith)
        requires
            out * (ts + shares) <= shares * (td + a),
            shares * td <= a * ts,
            ts > 0,
            shares >= 0,
            out >= 0,
            a >= 0,
    ;
}

} // verus!
