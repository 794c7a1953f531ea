use ito_staking::config::VaultConfig;
use ito_staking::dispatch::{
    enter, execute, query, receive, Action, CallContext, ConfigResponse, Cw20ReceiveMsg,
    ExecuteMsg, HookIntent, QueryMsg, QueryPlan,
};
use ito_staking::error::ContractError;
use ito_staking::hook::Cw20HookMsg;

fn ready() -> VaultConfig {
    let mut config = VaultConfig::new("base".to_string(), "owner".to_string());
    config.set_share_asset_addr("share".to_string()).unwrap();
    config
}

fn ctx(sender: &str, vault_balance: u128, share_supply: u128) -> CallContext {
    CallContext {
        sender: sender.to_string(),
        vault_addr: "vault".to_string(),
        vault_balance,
        share_supply,
        base_asset_decimals: 6,
        address_valid: false,
    }
}

fn hook(sender: &str, amount: u128, payload: &str) -> ExecuteMsg {
    ExecuteMsg::Receive(Cw20ReceiveMsg {
        sender: sender.to_string(),
        amount,
        msg: payload.as_bytes().to_vec(),
    })
}

#[test]
fn first_enter_mints_the_lock_and_the_shares() {
    let mut config = ready();
    let actions =
        execute(&mut config, ctx("base", 5_000, 0), hook("alice", 5_000, "{\"enter\":{}}"))
            .unwrap();
    assert_eq!(
        actions,
        vec![
            Action::MintShares { recipient: "vault".to_string(), amount: 1_000 },
            Action::MintShares { recipient: "alice".to_string(), amount: 5_000 },
        ]
    );
    assert_eq!(config, ready());
}

#[test]
fn later_enter_mints_in_proportion() {
    let mut config = ready();
    let actions =
        execute(&mut config, ctx("base", 3_000, 3_000), hook("bob", 1_000, "{\"enter\":{}}"))
            .unwrap();
    assert_eq!(actions, vec![Action::MintShares { recipient: "bob".to_string(), amount: 1_500 }]);
}

#[test]
fn enter_is_priced_without_the_transfer() {
    assert_eq!(enter(3_000, 3_000, 6, 1_000).unwrap().depositor_shares, 1_500);
    assert_eq!(enter(3_000, 3_000, 6, 1_000).unwrap().pool.total_deposit, 3_000);
    assert_eq!(enter(3_000, 3_000, 6, 1_000).unwrap().pool.total_shares, 4_500);
    assert_eq!(enter(999, 3_000, 6, 1_000), Err(ContractError::ArithmeticError));
    assert_eq!(enter(1_000, 3_000, 6, 1_000), Err(ContractError::ArithmeticError));
    assert_eq!(enter(3_000, 3_000, 40, 1_000), Err(ContractError::ArithmeticError));
}

#[test]
fn enter_respects_the_cap() {
    let cap: u128 = 21_000_000_000_000;
    assert_eq!(
        enter(cap + 1, 20_999_999_000_000, 6, 1_000_001),
        Err(ContractError::ExceedsTotalDepositLimit)
    );
    assert_eq!(enter(cap, 20_999_999_000_000, 6, 1_000_000).unwrap().pool.total_deposit, cap);
    assert_eq!(enter(22_000_000, 21_000_000, 0, 1_000_000), Err(ContractError::ExceedsTotalDepositLimit));
}

#[test]
fn enter_too_small() {
    let mut config = ready();
    assert_eq!(
        execute(&mut config, ctx("base", 1_000_000, 1), hook("bob", 0, "{\"enter\":{}}")),
        Err(ContractError::StakeAmountTooSmall)
    );
}

#[test]
fn leave_burns_and_pays_at_the_ratio_before_the_burn() {
    let mut config = ready();
    let actions =
        execute(&mut config, ctx("share", 3_000, 4_500), hook("bob", 1_500, "{\"leave\":{}}"))
            .unwrap();
    assert_eq!(
        actions,
        vec![
            Action::BurnShares { amount: 1_500 },
            Action::TransferBase { recipient: "bob".to_string(), amount: 1_000 },
        ]
    );
    assert_eq!(config, ready());
}

#[test]
fn leave_more_than_the_supply() {
    let mut config = ready();
    assert_eq!(
        execute(&mut config, ctx("share", 3_000, 4_500), hook("bob", 4_501, "{\"leave\":{}}")),
        Err(ContractError::ArithmeticError)
    );
}

#[test]
fn enter_from_another_contract_is_unauthorized() {
    let mut config = ready();
    for sender in ["share", "alice", "owner", "vault", ""] {
        assert_eq!(
            execute(&mut config, ctx(sender, 5_000, 0), hook("alice", 5_000, "{\"enter\":{}}")),
            Err(ContractError::Unauthorized)
        );
    }
}

#[test]
fn leave_from_another_contract_is_unauthorized() {
    let mut config = ready();
    for sender in ["base", "alice", "owner", "vault", ""] {
        assert_eq!(
            execute(&mut config, ctx(sender, 3_000, 4_500), hook("bob", 1_500, "{\"leave\":{}}")),
            Err(ContractError::Unauthorized)
        );
    }
}

#[test]
fn unknown_payload_is_invalid() {
    let mut config = ready();
    for payload in ["{\"stake\":{}}", "", "{}", "enter", "{\"enter\":{}}{\"leave\":{}}"] {
        assert_eq!(
            execute(&mut config, ctx("base", 5_000, 0), hook("alice", 5_000, payload)),
            Err(ContractError::InvalidHookPayload)
        );
    }
}

#[test]
fn nothing_is_honoured_before_setup() {
    let mut config = VaultConfig::new("base".to_string(), "owner".to_string());
    assert_eq!(
        execute(&mut config, ctx("base", 5_000, 0), hook("alice", 5_000, "{\"enter\":{}}")),
        Err(ContractError::Unauthorized)
    );
    assert_eq!(
        execute(&mut config, ctx("", 3_000, 4_500), hook("bob", 1_500, "{\"leave\":{}}")),
        Err(ContractError::Unauthorized)
    );
}

fn intent(recipient: &str, amount: u128, kind: Cw20HookMsg) -> HookIntent {
    HookIntent { recipient: recipient.to_string(), amount, kind }
}

#[test]
fn receive_takes_the_intent_as_read() {
    let config = ready();
    assert_eq!(
        receive(&config, ctx("base", 3_000, 3_000), intent("bob", 1_000, Cw20HookMsg::Enter)),
        Ok(vec![Action::MintShares { recipient: "bob".to_string(), amount: 1_500 }])
    );
    assert_eq!(
        receive(&config, ctx("share", 3_000, 4_500), intent("bob", 1_500, Cw20HookMsg::Leave)),
        Ok(vec![
            Action::BurnShares { amount: 1_500 },
            Action::TransferBase { recipient: "bob".to_string(), amount: 1_000 },
        ])
    );
    assert_eq!(
        receive(&config, ctx("base", 3_000, 4_500), intent("bob", 1_500, Cw20HookMsg::Leave)),
        Err(ContractError::Unauthorized)
    );
    assert_eq!(
        receive(&config, ctx("share", 3_000, 3_000), intent("bob", 1_000, Cw20HookMsg::Enter)),
        Err(ContractError::Unauthorized)
    );
}

#[test]
fn notification_becomes_an_intent() {
    let notification = Cw20ReceiveMsg {
        sender: "carol".to_string(),
        amount: 77,
        msg: b"{ \"leave\": {} }".to_vec(),
    };
    assert_eq!(notification.into_intent(), Ok(intent("carol", 77, Cw20HookMsg::Leave)));
    let broken = Cw20ReceiveMsg { sender: "carol".to_string(), amount: 77, msg: b"leave".to_vec() };
    assert_eq!(broken.into_intent(), Err(ContractError::InvalidHookPayload));
}

#[test]
fn unknown_payload_is_invalid_even_before_setup() {
    let mut config = VaultConfig::new("base".to_string(), "owner".to_string());
    assert_eq!(
        execute(&mut config, ctx("base", 5_000, 0), hook("alice", 5_000, "{\"x\":{}}")),
        Err(ContractError::InvalidHookPayload)
    );
}

fn update(new_addr: &str) -> ExecuteMsg {
    ExecuteMsg::UpdateDepositTokenAddr { new_deposit_token_addr: new_addr.to_string() }
}

#[test]
fn owner_updates_the_base_asset() {
    let mut config = ready();
    let mut call = ctx("owner", 0, 0);
    call.address_valid = true;
    assert_eq!(execute(&mut config, call, update("base2")), Ok(vec![]));
    assert_eq!(config.base_asset_addr(), "base2");
    assert_eq!(config.share_asset_addr(), "share");
    assert_eq!(config.owner_addr(), "owner");
}

#[test]
fn others_do_not_update_the_base_asset() {
    let mut config = ready();
    let mut call = ctx("base", 0, 0);
    call.address_valid = true;
    assert_eq!(execute(&mut config, call, update("base2")), Err(ContractError::Unauthorized));
    assert_eq!(config, ready());
}

#[test]
fn update_with_an_invalid_address() {
    let mut config = ready();
    assert_eq!(
        execute(&mut config, ctx("owner", 0, 0), update("???")),
        Err(ContractError::InvalidAddress)
    );
    assert_eq!(config, ready());
}

#[test]
fn query_config() {
    assert_eq!(
        query(ready(), "vault".to_string(), QueryMsg::Config),
        Ok(QueryPlan::Config(ConfigResponse {
            deposit_token_addr: "base".to_string(),
            share_token_addr: "share".to_string(),
        }))
    );
    let fresh = VaultConfig::new("base".to_string(), "owner".to_string());
    assert_eq!(
        query(fresh, "vault".to_string(), QueryMsg::Config),
        Ok(QueryPlan::Config(ConfigResponse {
            deposit_token_addr: "base".to_string(),
            share_token_addr: String::new(),
        }))
    );
}

#[test]
fn query_totals() {
    assert_eq!(
        query(ready(), "vault".to_string(), QueryMsg::TotalShares),
        Ok(QueryPlan::Supply { token: "share".to_string() })
    );
    assert_eq!(
        query(ready(), "vault".to_string(), QueryMsg::TotalDeposit),
        Ok(QueryPlan::Balance { token: "base".to_string(), holder: "vault".to_string() })
    );
}

#[test]
fn query_totals_before_setup() {
    let fresh = VaultConfig::new("base".to_string(), "owner".to_string());
    assert_eq!(
        query(fresh.clone(), "vault".to_string(), QueryMsg::TotalShares),
        Err(ContractError::Unauthorized)
    );
    assert_eq!(
        query(fresh, "vault".to_string(), QueryMsg::TotalDeposit),
        Err(ContractError::Unauthorized)
    );
}
