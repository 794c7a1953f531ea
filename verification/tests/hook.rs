use ito_staking::error::ContractError;
use ito_staking::hook::{parse_hook_payload, Cw20HookMsg};

#[test]
fn reads_enter_and_leave() {
    assert_eq!(parse_hook_payload(b"{\"enter\":{}}"), Ok(Cw20HookMsg::Enter));
    assert_eq!(parse_hook_payload(b"{\"leave\":{}}"), Ok(Cw20HookMsg::Leave));
}

#[test]
fn allows_whitespace_between_tokens() {
    assert_eq!(parse_hook_payload(b" { \"enter\" : { } } "), Ok(Cw20HookMsg::Enter));
    assert_eq!(parse_hook_payload(b"\n{\t\"leave\"\r\n:\n{\n}\n}\n"), Ok(Cw20HookMsg::Leave));
}

#[test]
fn refuses_whitespace_inside_the_key() {
    assert_eq!(parse_hook_payload(b"{\"en ter\":{}}"), Err(ContractError::InvalidHookPayload));
    assert_eq!(parse_hook_payload(b"{\" leave\":{}}"), Err(ContractError::InvalidHookPayload));
}

#[test]
fn refuses_everything_else() {
    let payloads: [&[u8]; 12] = [
        b"",
        b" ",
        b"{",
        b"{}",
        b"{\"enter\"",
        b"{\"enter\":{}",
        b"{\"enter\":{}}}",
        b"{\"enter\":{}} x",
        b"{\"Enter\":{}}",
        b"{\"enter\":{\"a\":1}}",
        b"{\"enter\":null}",
        b"{\"unstake\":{}}",
    ];
    for payload in payloads {
        assert_eq!(parse_hook_payload(payload), Err(ContractError::InvalidHookPayload));
    }
}
