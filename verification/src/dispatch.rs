//! The entry points for calls and queries: who may ask for what, and which
//! messages to the token contracts follow.

use vstd::prelude::*;
use crate::accounting::{
    Deposit,
    MINIMUM_STAKE_AMOUNT,
    PoolState,
    Withdrawal,
    deposit_cap,
    lemma_payout_within_pool,
    spec_deposit,
    spec_deposit_cap,
    spec_withdraw,
};
use crate::config::{SetupState, VaultConfig, VaultConfigView};
use crate::error::ContractError;
use crate::hook::{Cw20HookMsg, parse_hook_payload, spec_parse_hook_payload};

verus! {

/// The notification that a token contract sends after a transfer to the
/// vault.
#[derive(Clone, Debug, PartialEq, Eq)]
pub struct Cw20ReceiveMsg {
    /// Who sent the tokens.
    pub sender: String,
    /// How many were sent.
    pub amount: u128,
    /// The instruction that came with them, as JSON.
    pub msg: Vec<u8>,
}

/// A transfer notification once its payload has been read: who is to be
/// credited, how much was sent, and what to do with it. It lives for one call.
#[derive(Clone, Debug, PartialEq, Eq)]
pub struct HookIntent {
    /// Who receives the shares of a deposit or the payout of a withdrawal:
    /// the sender of the transfer.
    pub recipient: String,
    /// How much was sent: base asset for a deposit, shares for a withdrawal.
    pub amount: u128,
    /// Deposit or withdrawal.
    pub kind: Cw20HookMsg,
}

/// A call to the vault.
#[derive(Clone, Debug, PartialEq, Eq)]
pub enum ExecuteMsg {
    /// A transfer notification from one of the two token contracts.
    Receive(Cw20ReceiveMsg),
    /// The owner's request to change the base asset address.
    UpdateDepositTokenAddr { new_deposit_token_addr: String },
}

/// What the host knows at the start of a call.
#[derive(Clone, Debug, PartialEq, Eq)]
pub struct CallContext {
    /// The caller of the entry point.
    pub sender: String,
    /// The vault's own address.
    pub vault_addr: String,
    /// The vault's balance of the base asset, read now. After a transfer
    /// notification from the base asset it includes what was just sent.
    pub vault_balance: u128,
    /// The supply of the share asset, read now.
    pub share_supply: u128,
    /// Decimal places of the base asset.
    pub base_asset_decimals: u8,
    /// Whether the host's validation accepted the address that the message
    /// carries. It is not read where the message carries none.
    pub address_valid: bool,
}

/// A message that the vault sends as the result of a call.
#[derive(Clone, Debug, PartialEq, Eq)]
pub enum Action {
    /// To the share asset: mint `amount` to `recipient`.
    MintShares { recipient: String, amount: u128 },
    /// To the share asset: burn `amount` of the vault's shares.
    BurnShares { amount: u128 },
    /// To the base asset: transfer `amount` to `recipient`.
    TransferBase { recipient: String, amount: u128 },
}

/// An action with its address as a sequence of characters.
pub enum ActionView {
    MintShares { recipient: Seq<char>, amount: u128 },
    BurnShares { amount: u128 },
    TransferBase { recipient: Seq<char>, amount: u128 },
}

impl View for Action {
    type V = ActionView;

    open spec fn view(&self) -> ActionView {
        match *self {
            Action::MintShares { recipient, amount } => ActionView::MintShares {
                recipient: recipient@,
                amount,
            },
            Action::BurnShares { amount } => ActionView::BurnShares { amount },
            Action::TransferBase { recipient, amount } => ActionView::TransferBase {
                recipient: recipient@,
                amount,
            },
        }
    }
}

/// The views of a list of actions, in order.
pub open spec fn action_views(actions: Seq<Action>) -> Seq<ActionView> {
    Seq::new(actions.len(), |i: int| actions[i]@)
}

/// The pool that a deposit of `amount` is priced against: the balance that
/// the vault held before the transfer arrived.
pub open spec fn spec_pool_before_transfer(
    vault_balance: u128,
    share_supply: u128,
    amount: u128,
) -> Result<PoolState, ContractError> {
    if vault_balance < amount {
        Err(ContractError::ArithmeticError)
    } else {
        Ok((PoolState { total_deposit: (vault_balance - amount) as u128, total_shares: share_supply }))
    }
}

/// The deposit that an `enter` of `amount` leads to.
pub open spec fn spec_enter(
    vault_balance: u128,
    share_supply: u128,
    decimals: u8,
    amount: u128,
) -> Result<Deposit, ContractError> {
    match spec_pool_before_transfer(vault_balance, share_supply, amount) {
        Err(e) => Err(e),
        Ok(pool) => if spec_deposit_cap(decimals) > u128::MAX {
            Err(ContractError::ArithmeticError)
        } else {
            spec_deposit(pool, amount, spec_deposit_cap(decimals) as u128)
        },
    }
}

/// The messages that follow a deposit: the locked shares to the vault, where
/// there are any, then the depositor's shares.
pub open spec fn spec_enter_actions(
    vault_addr: Seq<char>,
    recipient: Seq<char>,
    deposit: Deposit,
) -> Seq<ActionView> {
    if deposit.locked_shares > 0 {
        seq![
            ActionView::MintShares { recipient: vault_addr, amount: deposit.locked_shares },
            ActionView::MintShares { recipient, amount: deposit.depositor_shares },
        ]
    } else {
        seq![ActionView::MintShares { recipient, amount: deposit.depositor_shares }]
    }
}

/// The messages that follow a withdrawal: the burn, then the payout.
pub open spec fn spec_leave_actions(
    recipient: Seq<char>,
    share_amount: u128,
    withdrawal: Withdrawal,
) -> Seq<ActionView> {
    seq![
        ActionView::BurnShares { amount: share_amount },
        ActionView::TransferBase { recipient, amount: withdrawal.assets },
    ]
}

/// The messages that follow a transfer of `amount` from `recipient` with the
/// instruction `kind`, or the error it ends in.
pub open spec fn spec_receive(
    config: VaultConfigView,
    ctx: CallContext,
    recipient: Seq<char>,
    amount: u128,
    kind: Cw20HookMsg,
) -> Result<Seq<ActionView>, ContractError> {
    if config.state() != SetupState::Ready {
        Err(ContractError::Unauthorized)
    } else {
        match kind {
            Cw20HookMsg::Enter => if ctx.sender@ != config.base_asset_addr {
                Err(ContractError::Unauthorized)
            } else {
                match spec_enter(
                    ctx.vault_balance,
                    ctx.share_supply,
                    ctx.base_asset_decimals,
                    amount,
                ) {
                    Err(e) => Err(e),
                    Ok(deposit) => Ok(spec_enter_actions(ctx.vault_addr@, recipient, deposit)),
                }
            },
            Cw20HookMsg::Leave => if ctx.sender@ != config.share_asset_addr {
                Err(ContractError::Unauthorized)
            } else {
                match spec_withdraw(
                    (PoolState {
                        total_deposit: ctx.vault_balance,
                        total_shares: ctx.share_supply,
                    }),
                    amount,
                ) {
                    Err(e) => Err(e),
                    Ok(withdrawal) => Ok(spec_leave_actions(recipient, amount, withdrawal)),
                }
            },
        }
    }
}

/// The configuration and the messages after a call, or the error it ends in.
pub open spec fn spec_execute(config: VaultConfigView, ctx: CallContext, msg: ExecuteMsg) -> Result<
    (VaultConfigView, Seq<ActionView>),
    ContractError,
> {
    match msg {
        ExecuteMsg::Receive(received) => match spec_parse_hook_payload(received.msg@) {
            Err(e) => Err(e),
            Ok(kind) => match spec_receive(config, ctx, received.sender@, received.amount, kind) {
                Err(e) => Err(e),
                Ok(actions) => Ok((config, actions)),
            },
        },
        ExecuteMsg::UpdateDepositTokenAddr { new_deposit_token_addr } => match config.with_base_asset(
            ctx.sender@,
            new_deposit_token_addr@,
            ctx.address_valid,
        ) {
            Err(e) => Err(e),
            Ok(after) => Ok((after, Seq::<ActionView>::empty())),
        },
    }
}

/// Prices a deposit that has just arrived: the pool is the vault's balance
/// without the deposit, the cap is the one for the base asset's decimals.
pub fn enter(vault_balance: u128, share_supply: u128, decimals: u8, amount: u128) -> (outcome:
    Result<Deposit, ContractError>)
    ensures
        outcome == spec_enter(vault_balance, share_supply, decimals, amount),
{
    let before: u128 = match vault_balance.checked_sub(amount) {
        Some(b) => b,
        None => { return Err(ContractError::ArithmeticError); },
    };
    let cap: u128 = match deposit_cap(decimals) {
        Ok(c) => c,
        Err(e) => { return Err(e); },
    };
    let pool = PoolState { total_deposit: before, total_shares: share_supply };
    pool.deposit(amount, cap)
}

impl Cw20ReceiveMsg {
    /// Reads the payload: the intent of the transfer, or `InvalidHookPayload`
    /// where the payload is neither `enter` nor `leave`.
    pub fn into_intent(self) -> (intent: Result<HookIntent, ContractError>)
        ensures
            match spec_parse_hook_payload(self.msg@) {
                Ok(kind) => intent is Ok && intent.unwrap().recipient@ == self.sender@
                    && intent.unwrap().amount == self.amount && intent.unwrap().kind == kind,
                Err(e) => intent == Err::<HookIntent, ContractError>(e),
            },
    {
        match parse_hook_payload(self.msg.as_slice()) {
            Ok(kind) => Ok(HookIntent { recipient: self.sender, amount: self.amount, kind }),
            Err(e) => Err(e),
        }
    }
}

/// Handles a transfer notification whose payload has been read.
///
/// Nothing is honoured before the share asset is known. An `enter` is
/// honoured only from the base asset contract and a `leave` only from the
/// share asset contract; each is priced against the balances in `ctx`, as
/// they were read at the start of the call.
pub fn receive(config: &VaultConfig, ctx: CallContext, intent: HookIntent) -> (outcome: Result<
    Vec<Action>,
    ContractError,
>)
    ensures
        match spec_receive(config@, ctx, intent.recipient@, intent.amount, intent.kind) {
            Ok(actions) => outcome is Ok && action_views(outcome.unwrap()@) == actions,
            Err(e) => outcome == Err::<Vec<Action>, ContractError>(e),
        },
{
    if !config.is_ready() {
        return Err(ContractError::Unauthorized);
    }
    let recipient: String = intent.recipient;
    let amount: u128 = intent.amount;
    let mut actions: Vec<Action> = Vec::new();
    match intent.kind {
        Cw20HookMsg::Enter => {
            if ctx.sender != *config.base_asset_addr() {
                return Err(ContractError::Unauthorized);
            }
            let deposit: Deposit = match enter(
                ctx.vault_balance,
                ctx.share_supply,
                ctx.base_asset_decimals,
                amount,
            ) {
                Ok(d) => d,
                Err(e) => { return Err(e); },
            };
            if deposit.locked_shares > 0 {
                actions.push(
                    Action::MintShares { recipient: ctx.vault_addr, amount: deposit.locked_shares },
                );
            }
            actions.push(Action::MintShares { recipient, amount: deposit.depositor_shares });
            proof {
                assert(action_views(actions@) =~= spec_enter_actions(
                    ctx.vault_addr@,
                    intent.recipient@,
                    deposit,
                ));
            }
        },
        Cw20HookMsg::Leave => {
            if ctx.sender != *config.share_asset_addr() {
                return Err(ContractError::Unauthorized);
            }
            let pool = PoolState {
                total_deposit: ctx.vault_balance,
                total_shares: ctx.share_supply,
            };
            let withdrawal: Withdrawal = match pool.withdraw(amount) {
                Ok(w) => w,
                Err(e) => { return Err(e); },
            };
            actions.push(Action::BurnShares { amount });
            actions.push(Action::TransferBase { recipient, amount: withdrawal.assets });
            proof {
                assert(action_views(actions@) =~= spec_leave_actions(
                    intent.recipient@,
                    amount,
                    withdrawal,
                ));
            }
        },
    }
    Ok(actions)
}

/// Handles a call to the vault.
///
/// A transfer notification is read, which may end in `InvalidHookPayload`,
/// then handled as [`receive`] says; it leaves the configuration alone. A request to change the base asset address is
/// honoured from the owner only, and only with an address that the host's
/// validation accepted.
/// On an error the configuration is unchanged.
pub fn execute(config: &mut VaultConfig, ctx: CallContext, msg: ExecuteMsg) -> (outcome: Result<
    Vec<Action>,
    ContractError,
>)
    ensures
        match spec_execute(old(config)@, ctx, msg) {
            Ok((after, actions)) => outcome is Ok && action_views(outcome.unwrap()@) == actions
                && final(config)@ == after,
            Err(e) => outcome == Err::<Vec<Action>, ContractError>(e) && *final(config) == *old(
                config,
            ),
        },
{
    match msg {
        ExecuteMsg::Receive(received) => {
            match received.into_intent() {
                Err(e) => Err(e),
                Ok(intent) => receive(config, ctx, intent),
            }
        },
        ExecuteMsg::UpdateDepositTokenAddr { new_deposit_token_addr } => {
            match config.update_base_asset_addr(
                &ctx.sender,
                new_deposit_token_addr,
                ctx.address_valid,
            ) {
                Err(e) => Err(e),
                Ok(()) => {
                    let actions: Vec<Action> = Vec::new();
                    proof {
                        assert(action_views(actions@) =~= Seq::<ActionView>::empty());
                    }
                    Ok(actions)
                },
            }
        },
    }
}

/// A question to the vault.
#[derive(Clone, Copy, Debug, PartialEq, Eq, Structural)]
pub enum QueryMsg {
    /// The two token addresses.
    Config,
    /// The supply of the share asset.
    TotalShares,
    /// The vault's balance of the base asset.
    TotalDeposit,
}

/// The answer to [`QueryMsg::Config`].
#[derive(Clone, Debug, PartialEq, Eq)]
pub struct ConfigResponse {
    pub deposit_token_addr: String,
    pub share_token_addr: String,
}

/// How a question is answered: at once, or by asking a token contract.
#[derive(Clone, Debug, PartialEq, Eq)]
pub enum QueryPlan {
    /// The answer itself.
    Config(ConfigResponse),
    /// Ask `token` for its total supply.
    Supply { token: String },
    /// Ask `token` for the balance of `holder`.
    Balance { token: String, holder: String },
}

/// A query plan with its addresses as sequences of characters.
pub enum QueryPlanView {
    Config { deposit_token_addr: Seq<char>, share_token_addr: Seq<char> },
    Supply { token: Seq<char> },
    Balance { token: Seq<char>, holder: Seq<char> },
}

impl View for QueryPlan {
    type V = QueryPlanView;

    open spec fn view(&self) -> QueryPlanView {
        match *self {
            QueryPlan::Config(response) => QueryPlanView::Config {
                deposit_token_addr: response.deposit_token_addr@,
                share_token_addr: response.share_token_addr@,
            },
            QueryPlan::Supply { token } => QueryPlanView::Supply { token: token@ },
            QueryPlan::Balance { token, holder } => QueryPlanView::Balance {
                token: token@,
                holder: holder@,
            },
        }
    }
}

/// How `msg` is answered from `config`, for a vault at `vault_addr`.
pub open spec fn spec_query(config: VaultConfigView, vault_addr: Seq<char>, msg: QueryMsg) -> Result<
    QueryPlanView,
    ContractError,
> {
    match msg {
        QueryMsg::Config => Ok(
            QueryPlanView::Config {
                deposit_token_addr: config.base_asset_addr,
                share_token_addr: config.share_asset_addr,
            },
        ),
        QueryMsg::TotalShares => if config.state() != SetupState::Ready {
            Err(ContractError::Unauthorized)
        } else {
            Ok(QueryPlanView::Supply { token: config.share_asset_addr })
        },
        QueryMsg::TotalDeposit => if config.state() != SetupState::Ready {
            Err(ContractError::Unauthorized)
        } else {
            Ok(QueryPlanView::Balance { token: config.base_asset_addr, holder: vault_addr })
        },
    }
}

/// Answers a question. The configuration is answered from the record. The
/// two totals are answered by the token contracts, and only once the share
/// asset is known: before that they end in `Unauthorized`.
pub fn query(config: VaultConfig, vault_addr: String, msg: QueryMsg) -> (outcome: Result<
    QueryPlan,
    ContractError,
>)
    ensures
        match spec_query(config@, vault_addr@, msg) {
            Ok(plan) => outcome is Ok && outcome.unwrap()@ == plan,
            Err(e) => outcome == Err::<QueryPlan, ContractError>(e),
        },
{
    let ready = config.is_ready();
    let (base_asset_addr, share_asset_addr, _) = config.into_parts();
    match msg {
        QueryMsg::Config => Ok(
            QueryPlan::Config(
                ConfigResponse {
                    deposit_token_addr: base_asset_addr,
                    share_token_addr: share_asset_addr,
                },
            ),
        ),
        QueryMsg::TotalShares => {
            if !ready {
                return Err(ContractError::Unauthorized);
            }
            Ok(QueryPlan::Supply { token: share_asset_addr })
        },
        QueryMsg::TotalDeposit => {
            if !ready {
                return Err(ContractError::Unauthorized);
            }
            Ok(QueryPlan::Balance { token: base_asset_addr, holder: vault_addr })
        },
    }
}

/// Each instruction is honoured from its own token contract only: an `enter`
/// from any caller but the base asset contract, and a `leave` from any caller
/// but the share asset contract, ends in `Unauthorized`, whatever else holds
/// of the call.
pub proof fn lemma_identity_enforcement(
    config: VaultConfigView,
    ctx: CallContext,
    recipient: Seq<char>,
    amount: u128,
)
    ensures
        ctx.sender@ != config.base_asset_addr ==> spec_receive(
            config,
            ctx,
            recipient,
            amount,
            Cw20HookMsg::Enter,
        ) == Err::<Seq<ActionView>, ContractError>(ContractError::Unauthorized),
        ctx.sender@ != config.share_asset_addr ==> spec_receive(
            config,
            ctx,
            recipient,
            amount,
            Cw20HookMsg::Leave,
        ) == Err::<Seq<ActionView>, ContractError>(ContractError::Unauthorized),
{
}

/// A withdrawal is priced before its burn: the payout is the withdrawer's
/// part of the balance at the supply that was read at the start of the call,
/// rounded down, and never more than the vault holds.
pub proof fn lemma_leave_priced_before_burn(
    config: VaultConfigView,
    ctx: CallContext,
    recipient: Seq<char>,
    amount: u128,
)
    requires
        spec_receive(config, ctx, recipient, amount, Cw20HookMsg::Leave) is Ok,
    ensures
        ctx.sender@ == config.share_asset_addr,
        0 < ctx.share_supply,
        amount <= ctx.share_supply,
        (amount * ctx.vault_balance) / (ctx.share_supply as int) <= ctx.vault_balance,
        spec_receive(config, ctx, recipient, amount, Cw20HookMsg::Leave).unwrap() == seq![
            ActionView::BurnShares { amount },
            ActionView::TransferBase {
                recipient,
                amount: ((amount * ctx.vault_balance) / (ctx.share_supply as int)) as u128,
            },
        ],
{
    lemma_payout_within_pool(amount, ctx.vault_balance, ctx.share_supply);
}

/// The first deposit locks the floor in the vault: with no shares in supply
/// and nothing held before the transfer, an `enter` of an amount within the
/// cap mints the floor to the vault itself and the amount to the depositor.
pub proof fn lemma_first_enter_locks_floor(
    config: VaultConfigView,
    ctx: CallContext,
    recipient: Seq<char>,
    amount: u128,
)
    requires
        config.state() == SetupState::Ready,
        ctx.sender@ == config.base_asset_addr,
        ctx.share_supply == 0,
        ctx.vault_balance == amount,
        amount <= spec_deposit_cap(ctx.base_asset_decimals) <= u128::MAX,
        amount + MINIMUM_STAKE_AMOUNT <= u128::MAX,
    ensures
        spec_receive(config, ctx, recipient, amount, Cw20HookMsg::Enter) == Ok::<
            Seq<ActionView>,
            ContractError,
        >(
            seq![
                ActionView::MintShares { recipient: ctx.vault_addr@, amount: MINIMUM_STAKE_AMOUNT },
                ActionView::MintShares { recipient, amount },
            ],
        ),
{
}

/// No call writes the share asset address: whatever the message, the address
/// after a call is the one before it.
pub proof fn lemma_execute_keeps_share_asset(
    config: VaultConfigView,
    ctx: CallContext,
    msg: ExecuteMsg,
)
    requires
        spec_execute(config, ctx, msg) is Ok,
    ensures
        spec_execute(config, ctx, msg).unwrap().0.share_asset_addr == config.share_asset_addr,
        spec_execute(config, ctx, msg).unwrap().0.owner_addr == config.owner_addr,
{
}

} // verus!
