use ito_staking::accounting::{
    convert_to_assets, convert_to_shares, deposit_cap, Deposit, PoolState, Withdrawal,
    DEPOSIT_CAP_UNITS, MINIMUM_STAKE_AMOUNT,
};
use ito_staking::error::ContractError;

const CAP: u128 = 21_000_000_000_000;

#[test]
fn first_deposit_locks_the_floor() {
    let pool = PoolState { total_deposit: 0, total_shares: 0 };
    let outcome = pool.deposit(5_000, CAP).unwrap();
    assert_eq!(
        outcome,
        Deposit {
            depositor_shares: 5_000,
            locked_shares: 1_000,
            pool: PoolState { total_deposit: 5_000, total_shares: 6_000 },
        }
    );
    assert_eq!(MINIMUM_STAKE_AMOUNT, 1_000);
}

#[test]
fn first_deposit_of_any_size() {
    for amount in [0u128, 1, 999, 1_000, 1_001, 123_456_789, CAP] {
        let pool = PoolState { total_deposit: 0, total_shares: 0 };
        let outcome = pool.deposit(amount, CAP).unwrap();
        assert_eq!(outcome.depositor_shares, amount);
        assert_eq!(outcome.locked_shares, 1_000);
        assert_eq!(outcome.pool.total_shares, amount + 1_000);
        assert_eq!(outcome.pool.total_deposit, amount);
    }
}

#[test]
fn first_deposit_into_a_pool_with_a_balance() {
    let pool = PoolState { total_deposit: 70, total_shares: 0 };
    let outcome = pool.deposit(30, CAP).unwrap();
    assert_eq!(outcome.depositor_shares, 30);
    assert_eq!(outcome.pool, PoolState { total_deposit: 100, total_shares: 1_030 });
}

#[test]
fn proportional_mint() {
    assert_eq!(convert_to_shares(1_000, 2_000, 3_000, CAP), Ok(1_500));
    let pool = PoolState { total_deposit: 2_000, total_shares: 3_000 };
    let outcome = pool.deposit(1_000, CAP).unwrap();
    assert_eq!(
        outcome,
        Deposit {
            depositor_shares: 1_500,
            locked_shares: 0,
            pool: PoolState { total_deposit: 3_000, total_shares: 4_500 },
        }
    );
}

#[test]
fn proportional_mint_rounds_down() {
    assert_eq!(convert_to_shares(10, 3, 2, CAP), Ok(6));
    assert_eq!(convert_to_shares(7, 1_000, 999, CAP), Ok(6));
}

#[test]
fn zero_share_guard() {
    assert_eq!(
        convert_to_shares(0, 1_000_000, 1, CAP),
        Err(ContractError::StakeAmountTooSmall)
    );
    assert_eq!(
        convert_to_shares(999_999, 1_000_000, 1, CAP),
        Err(ContractError::StakeAmountTooSmall)
    );
    assert_eq!(convert_to_shares(1_000_000, 1_000_000, 1, CAP), Ok(1));
    let pool = PoolState { total_deposit: 1_000_000, total_shares: 1 };
    assert_eq!(pool.deposit(0, CAP), Err(ContractError::StakeAmountTooSmall));
}

#[test]
fn zero_share_guard_comes_before_the_cap() {
    assert_eq!(
        convert_to_shares(5, 10, 1, 12),
        Err(ContractError::StakeAmountTooSmall)
    );
}

#[test]
fn cap_enforcement() {
    let pool = PoolState { total_deposit: 20_999_999_000_000, total_shares: 20_999_999_000_000 };
    assert_eq!(
        pool.deposit(1_000_001, CAP),
        Err(ContractError::ExceedsTotalDepositLimit)
    );
    let outcome = pool.deposit(1_000_000, CAP).unwrap();
    assert_eq!(outcome.depositor_shares, 1_000_000);
    assert_eq!(outcome.pool.total_deposit, CAP);
    assert_eq!(outcome.pool.total_shares, CAP);
}

#[test]
fn cap_enforcement_on_a_first_deposit() {
    let pool = PoolState { total_deposit: 0, total_shares: 0 };
    assert_eq!(pool.deposit(CAP + 1, CAP), Err(ContractError::ExceedsTotalDepositLimit));
    assert!(pool.deposit(CAP, CAP).is_ok());
}

#[test]
fn deposit_cap_scales_with_decimals() {
    assert_eq!(DEPOSIT_CAP_UNITS, 21_000_000);
    assert_eq!(deposit_cap(0), Ok(21_000_000));
    assert_eq!(deposit_cap(6), Ok(21_000_000_000_000));
    assert_eq!(deposit_cap(18), Ok(21_000_000_000_000_000_000_000_000));
    assert_eq!(deposit_cap(31), Ok(210_000_000_000_000_000_000_000_000_000_000_000_000));
    assert_eq!(deposit_cap(32), Err(ContractError::ArithmeticError));
    assert_eq!(deposit_cap(255), Err(ContractError::ArithmeticError));
}

#[test]
fn deposit_arithmetic_errors() {
    assert_eq!(
        convert_to_shares(u128::MAX, 1, 2, u128::MAX),
        Err(ContractError::ArithmeticError)
    );
    assert_eq!(convert_to_shares(10, 0, 5, CAP), Err(ContractError::ArithmeticError));
    assert_eq!(
        convert_to_shares(2, u128::MAX - 1, u128::MAX - 1, u128::MAX),
        Err(ContractError::ArithmeticError)
    );
    assert_eq!(
        convert_to_shares(2, u128::MAX - 1, 0, u128::MAX),
        Err(ContractError::ArithmeticError)
    );
    let pool = PoolState { total_deposit: 0, total_shares: 0 };
    assert_eq!(pool.deposit(u128::MAX - 999, u128::MAX), Err(ContractError::ArithmeticError));
    assert!(pool.deposit(u128::MAX - 1_000, u128::MAX).is_ok());
    let steep = PoolState { total_deposit: 1, total_shares: u128::MAX / 2 };
    assert_eq!(steep.deposit(2, u128::MAX), Err(ContractError::ArithmeticError));
}

#[test]
fn withdrawal_correctness() {
    assert_eq!(convert_to_assets(1_500, 3_000, 4_500), Ok(1_000));
    let pool = PoolState { total_deposit: 3_000, total_shares: 4_500 };
    assert_eq!(
        pool.withdraw(1_500),
        Ok(Withdrawal { assets: 1_000, pool: PoolState { total_deposit: 2_000, total_shares: 3_000 } })
    );
}

#[test]
fn withdrawal_rounds_down() {
    assert_eq!(convert_to_assets(1, 10, 3), Ok(3));
    assert_eq!(convert_to_assets(2, 10, 3), Ok(6));
    assert_eq!(convert_to_assets(0, 10, 3), Ok(0));
}

#[test]
fn withdrawal_of_everything_empties_the_pool() {
    let pool = PoolState { total_deposit: 777, total_shares: 1_234 };
    assert_eq!(
        pool.withdraw(1_234),
        Ok(Withdrawal { assets: 777, pool: PoolState { total_deposit: 0, total_shares: 0 } })
    );
}

#[test]
fn withdrawal_arithmetic_errors() {
    assert_eq!(convert_to_assets(1, 10, 0), Err(ContractError::ArithmeticError));
    assert_eq!(convert_to_assets(u128::MAX, 2, 5), Err(ContractError::ArithmeticError));
    let pool = PoolState { total_deposit: 3_000, total_shares: 4_500 };
    assert_eq!(pool.withdraw(4_501), Err(ContractError::ArithmeticError));
    let empty = PoolState { total_deposit: 0, total_shares: 0 };
    assert_eq!(empty.withdraw(0), Err(ContractError::ArithmeticError));
}

#[test]
fn price_never_falls() {
    let mut pool = PoolState { total_deposit: 1_003, total_shares: 2_001 };
    for amount in [1u128, 7, 500, 12_345, 3] {
        let after = pool.deposit(amount, CAP).unwrap().pool;
        assert!(after.total_deposit * pool.total_shares >= pool.total_deposit * after.total_shares);
        pool = after;
    }
    for shares in [1u128, 13, 999, 2] {
        let after = pool.withdraw(shares).unwrap().pool;
        assert!(after.total_deposit * pool.total_shares >= pool.total_deposit * after.total_shares);
        pool = after;
    }
}

#[test]
fn round_trip_gains_nothing() {
    let pool = PoolState { total_deposit: 1_003, total_shares: 2_001 };
    for amount in [1u128, 7, 500, 12_345] {
        let deposit = pool.deposit(amount, CAP).unwrap();
        let back = deposit.pool.withdraw(deposit.depositor_shares).unwrap();
        assert!(back.assets <= amount);
    }
}

#[test]
fn pool_stays_balanced() {
    let mut pool = PoolState { total_deposit: 0, total_shares: 0 };
    for amount in [4_000u128, 1, 250, 9_999] {
        pool = pool.deposit(amount, CAP).unwrap().pool;
        assert!(pool.total_shares > 0 && pool.total_deposit > 0);
    }
    let part = pool.withdraw(pool.total_shares - 1).unwrap().pool;
    assert!(part.total_shares == 1 && part.total_deposit > 0);
    let all = pool.withdraw(pool.total_shares).unwrap();
    assert_eq!(all.assets, pool.total_deposit);
    assert_eq!(all.pool, PoolState { total_deposit: 0, total_shares: 0 });
}
