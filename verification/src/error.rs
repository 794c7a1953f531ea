//! The errors that a call to the vault can end in.

use vstd::prelude::*;

verus! {

/// Why a call was rejected. Every error aborts the whole call.
#[derive(Clone, Copy, Debug, PartialEq, Eq, Structural)]
pub enum ContractError {
    /// The caller may not perform the operation, or the share asset address
    /// was about to be written a second time.
    Unauthorized,
    /// An overflow, an underflow or a division by zero.
    ArithmeticError,
    /// The deposit would mint no share at all.
    StakeAmountTooSmall,
    /// The deposit would lift the pool above its cap.
    ExceedsTotalDepositLimit,
    /// The payload of a transfer notification is neither `enter` nor `leave`.
    InvalidHookPayload,
    /// The reply does not belong to the setup sub-call, reports a failure or
    /// carries a payload that holds no address.
    FailedToParseReply,
    /// The stored contract name or version is not one this revision migrates
    /// from.
    MigrationError,
    /// An address handed in by a caller did not pass the host's validation.
    InvalidAddress,
}

impl ContractError {
    /// The message that the host shows for the error.
    pub fn message(&self) -> (text: &'static str)
        ensures
            text@ == self.spec_message(),
    {
        match self {
            ContractError::Unauthorized => "Unauthorized",
            ContractError::ArithmeticError => "Arithmetic error: overflow, underflow or division by zero",
            ContractError::StakeAmountTooSmall => "Insufficient amount of Stake",
            ContractError::ExceedsTotalDepositLimit => "Deposit exceeds the total deposit limit",
            ContractError::InvalidHookPayload => "Invalid hook payload",
            ContractError::FailedToParseReply => "Failed to parse or process reply message",
            ContractError::MigrationError => "Contract can't be migrated!",
            ContractError::InvalidAddress => "Invalid address",
        }
    }

    /// The text of [`ContractError::message`], as a sequence of characters.
    pub open spec fn spec_message(&self) -> Seq<char> {
        match self {
            ContractError::Unauthorized => "Unauthorized"@,
            ContractError::ArithmeticError => "Arithmetic error: overflow, underflow or division by zero"@,
            ContractError::StakeAmountTooSmall => "Insufficient amount of Stake"@,
            ContractError::ExceedsTotalDepositLimit => "Deposit exceeds the total deposit limit"@,
            ContractError::InvalidHookPayload => "Invalid hook payload"@,
            ContractError::FailedToParseReply => "Failed to parse or process reply message"@,
            ContractError::MigrationError => "Contract can't be migrated!"@,
            ContractError::InvalidAddress => "Invalid address"@,
        }
    }
}

} // verus!
