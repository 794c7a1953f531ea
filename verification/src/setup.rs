//! Setup in two steps: instantiation asks for the share asset contract, and
//! the reply to that request names the contract's address, once.

use vstd::prelude::*;
use vstd::string::StringExecFns;
use crate::config::{SetupState, VaultConfig, VaultConfigView};
use crate::error::ContractError;
use crate::migration::{ContractVersion, spec_contract_name, spec_contract_version};

verus! {

/// The identifier that ties the request for the share asset contract to its
/// reply.
pub const INSTANTIATE_TOKEN_REPLY_ID: u64 = 1;

/// Decimal places of the share asset.
pub const TOKEN_DECIMALS: u8 = 6;

/// The share asset's name.
pub open spec fn spec_token_name() -> Seq<char> {
    "Staked Ito"@
}

/// The share asset's symbol.
pub open spec fn spec_token_symbol() -> Seq<char> {
    "ITO"@
}

/// Marketing details that are handed on to the share asset contract.
#[derive(Clone, Debug, PartialEq, Eq)]
pub struct MarketingInfo {
    pub project: Option<String>,
    pub description: Option<String>,
    pub marketing: Option<String>,
}

/// The parameters for creating the vault.
#[derive(Clone, Debug, PartialEq, Eq)]
pub struct InstantiateMsg {
    /// The contract owner's address.
    pub owner: String,
    /// The code identifier of the share asset contract.
    pub token_code_id: u64,
    /// The base asset contract's address.
    pub deposit_token_addr: String,
    /// Marketing details for the share asset.
    pub marketing: Option<MarketingInfo>,
}

/// When the host reports back on a sub-call.
#[derive(Clone, Copy, Debug, PartialEq, Eq, Structural)]
pub enum ReplyOn {
    Always,
    Error,
    Success,
    Never,
}

/// The one sub-call of an instantiation: create the share asset contract.
#[derive(Clone, Debug, PartialEq, Eq)]
pub struct ShareAssetSubCall {
    /// The identifier that the reply will carry.
    pub id: u64,
    /// When a reply is asked for.
    pub reply_on: ReplyOn,
    /// The code to instantiate.
    pub code_id: u64,
    /// The administrator of the new contract.
    pub admin: String,
    /// The token's name.
    pub name: String,
    /// The token's symbol.
    pub symbol: String,
    /// The token's decimal places.
    pub decimals: u8,
    /// Who may mint the token: the vault.
    pub minter: String,
    /// Marketing details, as the instantiation message gave them.
    pub marketing: Option<MarketingInfo>,
}

/// What an instantiation leaves for the host to store and to send.
#[derive(Clone, Debug, PartialEq, Eq)]
pub struct Instantiation {
    /// The identity to store for later migrations.
    pub version: ContractVersion,
    /// The configuration to store. It awaits the share asset address.
    pub config: VaultConfig,
    /// The sub-call to send.
    pub sub_call: ShareAssetSubCall,
}

/// How a sub-call ended.
#[derive(Clone, Debug, PartialEq, Eq)]
pub enum ReplyResult {
    /// It succeeded, with the bytes it returned, if any.
    Success { data: Option<Vec<u8>> },
    /// It failed, with the reason.
    Failure { reason: String },
}

/// The continuation of a sub-call.
#[derive(Clone, Debug, PartialEq, Eq)]
pub struct Reply {
    /// The identifier that the sub-call was sent with.
    pub id: u64,
    /// How the sub-call ended.
    pub result: ReplyResult,
}

/// The contract address that `cw_utils::parse_instantiate_response_data`
/// reads from the bytes of an instantiation response, `None` where it reports
/// an error.
pub uninterp spec fn instantiate_response_address(data: Seq<u8>) -> Option<Seq<char>>;

#[verifier::external_type_specification]
#[verifier::external_body]
pub struct ExParseReplyError(cw_utils::ParseReplyError);

/// Calls `cw_utils::parse_instantiate_response_data`, which decodes the
/// response of a contract instantiation, and keeps the contract address of
/// what it returns. The contract only gives that outcome its name: the same
/// bytes decode to the same address, or fail, every time.
#[verifier::external_body]
fn parse_instantiate_response_data(data: &[u8]) -> (parsed: Result<
    String,
    cw_utils::ParseReplyError,
>)
    ensures
        match parsed {
            Ok(address) => instantiate_response_address(data@) == Some(address@),
            Err(_) => instantiate_response_address(data@) is None,
        },
{
    match cw_utils::parse_instantiate_response_data(data) {
        Ok(response) => Ok(response.contract_address),
        Err(e) => Err(e),
    }
}

/// The bytes of a reply that answers the share asset request with success, or
/// `None` for any other reply.
pub open spec fn spec_reply_payload(msg: Reply) -> Option<Seq<u8>> {
    if msg.id != INSTANTIATE_TOKEN_REPLY_ID {
        None
    } else {
        match msg.result {
            ReplyResult::Success { data: Some(bytes) } => Some(bytes@),
            _ => None,
        }
    }
}

/// The share asset address that a reply carries: the address decoded from its
/// payload, where there is a payload and it holds a non-empty address.
pub open spec fn spec_reply_address(msg: Reply) -> Option<Seq<char>> {
    match spec_reply_payload(msg) {
        None => None,
        Some(bytes) => spec_usable_address(instantiate_response_address(bytes)),
    }
}

/// An optional string as an optional sequence of characters.
pub open spec fn option_view(s: Option<String>) -> Option<Seq<char>> {
    match s {
        Some(text) => Some(text@),
        None => None,
    }
}

/// A decoded address, unless it is missing or empty.
pub open spec fn spec_usable_address(decoded: Option<Seq<char>>) -> Option<Seq<char>> {
    match decoded {
        Some(address) => if address.len() == 0 {
            None
        } else {
            Some(address)
        },
        None => None,
    }
}

/// The configuration after a reply that carries `address`, or the error that
/// the reply ends in.
pub open spec fn spec_complete_setup(config: VaultConfigView, address: Option<Seq<char>>) -> Result<
    VaultConfigView,
    ContractError,
> {
    match spec_usable_address(address) {
        None => Err(ContractError::FailedToParseReply),
        Some(addr) => config.with_share_asset(addr),
    }
}

/// The payload of a reply, where the reply answers the share asset request
/// with success and carries one.
pub fn reply_payload(msg: &Reply) -> (payload: Option<&[u8]>)
    ensures
        match payload {
            Some(bytes) => spec_reply_payload(*msg) == Some(bytes@),
            None => spec_reply_payload(*msg) is None,
        },
{
    if msg.id != INSTANTIATE_TOKEN_REPLY_ID {
        return None;
    }
    match &msg.result {
        ReplyResult::Success { data: Some(bytes) } => Some(bytes.as_slice()),
        _ => None,
    }
}

/// Completes the setup with the address that a reply's payload decoded to,
/// `None` where there was no payload or it did not decode.
///
/// A missing or empty address ends in `FailedToParseReply`. An address that
/// arrives when one is already recorded ends in `Unauthorized`. Otherwise the
/// address is recorded and the vault is ready. Nothing changes on an error.
pub fn complete_setup(config: &mut VaultConfig, address: Option<String>) -> (outcome: Result<
    (),
    ContractError,
>)
    ensures
        match spec_complete_setup(old(config)@, option_view(address)) {
            Ok(after) => outcome is Ok && final(config)@ == after && final(config)@.state()
                == SetupState::Ready,
            Err(e) => outcome == Err::<(), ContractError>(e) && *final(config) == *old(config),
        },
{
    match address {
        None => Err(ContractError::FailedToParseReply),
        Some(addr) => {
            if addr.as_str().is_empty() {
                return Err(ContractError::FailedToParseReply);
            }
            config.set_share_asset_addr(addr)
        },
    }
}

/// Handles the reply to the share asset request.
///
/// A reply with another identifier, a failure, a missing payload or a payload
/// without an address ends in `FailedToParseReply`; a second valid reply ends
/// in `Unauthorized`. The first valid one records the address.
pub fn reply(config: &mut VaultConfig, msg: &Reply) -> (outcome: Result<(), ContractError>)
    ensures
        match spec_complete_setup(old(config)@, spec_reply_address(*msg)) {
            Ok(after) => outcome is Ok && final(config)@ == after && final(config)@.state()
                == SetupState::Ready,
            Err(e) => outcome == Err::<(), ContractError>(e) && *final(config) == *old(config),
        },
{
    let address: Option<String> = match reply_payload(msg) {
        None => None,
        Some(bytes) => match parse_instantiate_response_data(bytes) {
            Ok(addr) => Some(addr),
            Err(_) => None,
        },
    };
    complete_setup(config, address)
}

/// Starts the setup. `base_asset_valid` and `owner_valid` say whether the
/// host's validation accepted the message's base asset address and its owner
/// address; `vault_addr` is the vault's own address.
///
/// With both addresses accepted the outcome holds the identity to store, a
/// configuration that awaits the share asset, and the one sub-call that
/// creates the share asset contract with the vault as its minter, to be
/// answered on success only. A refused address ends in `InvalidAddress`.
pub fn instantiate(
    msg: InstantiateMsg,
    base_asset_valid: bool,
    owner_valid: bool,
    vault_addr: String,
) -> (outcome: Result<Instantiation, ContractError>)
    ensures
        !(base_asset_valid && owner_valid) ==> outcome is Err && outcome.unwrap_err()
            == ContractError::InvalidAddress,
        (base_asset_valid && owner_valid) ==> {
            &&& outcome is Ok
            &&& outcome.unwrap().version.contract@ == spec_contract_name()
            &&& outcome.unwrap().version.version@ == spec_contract_version()
            &&& outcome.unwrap().config@.base_asset_addr == msg.deposit_token_addr@
            &&& outcome.unwrap().config@.owner_addr == msg.owner@
            &&& outcome.unwrap().config@.share_asset_addr.len() == 0
            &&& outcome.unwrap().config@.state() == SetupState::AwaitingShareAsset
            &&& outcome.unwrap().sub_call.id == INSTANTIATE_TOKEN_REPLY_ID
            &&& outcome.unwrap().sub_call.reply_on == ReplyOn::Success
            &&& outcome.unwrap().sub_call.code_id == msg.token_code_id
            &&& outcome.unwrap().sub_call.admin@ == msg.owner@
            &&& outcome.unwrap().sub_call.name@ == spec_token_name()
            &&& outcome.unwrap().sub_call.symbol@ == spec_token_symbol()
            &&& outcome.unwrap().sub_call.decimals == TOKEN_DECIMALS
            &&& outcome.unwrap().sub_call.minter@ == vault_addr@
            &&& outcome.unwrap().sub_call.marketing == msg.marketing
        },
{
    if !base_asset_valid || !owner_valid {
        return Err(ContractError::InvalidAddress);
    }
    let admin = msg.owner.clone();
    let config = VaultConfig::new(msg.deposit_token_addr, msg.owner);
    let sub_call = ShareAssetSubCall {
        id: INSTANTIATE_TOKEN_REPLY_ID,
        reply_on: ReplyOn::Success,
        code_id: msg.token_code_id,
        admin,
        name: String::from_str("Staked Ito"),
        symbol: String::from_str("ITO"),
        decimals: TOKEN_DECIMALS,
        minter: vault_addr,
        marketing: msg.marketing,
    };
    Ok(Instantiation { version: ContractVersion::current(), config, sub_call })
}

/// A reply is honoured once. After a reply that succeeded, the same reply
/// again, and every further reply that carries an address, ends in
/// `Unauthorized`; no reply whatever succeeds, so none changes the recorded
/// address again.
pub proof fn lemma_reply_sets_address_once(
    config: VaultConfigView,
    first: Option<Seq<char>>,
    second: Option<Seq<char>>,
)
    requires
        spec_complete_setup(config, first) is Ok,
    ensures
        spec_complete_setup(config, first).unwrap().share_asset_addr == first.unwrap(),
        spec_complete_setup(config, first).unwrap().state() == SetupState::Ready,
        spec_complete_setup(spec_complete_setup(config, first).unwrap(), second) is Err,
        spec_usable_address(second) is Some ==> spec_complete_setup(
            spec_complete_setup(config, first).unwrap(),
            second,
        ) == Err::<VaultConfigView, ContractError>(ContractError::Unauthorized),
        spec_complete_setup(spec_complete_setup(config, first).unwrap(), first) == Err::<
            VaultConfigView,
            ContractError,
        >(ContractError::Unauthorized),
{
}

/// A reply changes nothing but the share asset address, and that only while
/// the vault awaits it.
pub proof fn lemma_reply_keeps_the_rest(config: VaultConfigView, address: Option<Seq<char>>)
    requires
        spec_complete_setup(config, address) is Ok,
    ensures
        config.state() == SetupState::AwaitingShareAsset,
        spec_complete_setup(config, address).unwrap().base_asset_addr == config.base_asset_addr,
        spec_complete_setup(config, address).unwrap().owner_addr == config.owner_addr,
{
}

} // verus!
