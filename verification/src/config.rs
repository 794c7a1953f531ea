//! The vault's one persisted record and its write-once share asset address.

use vstd::prelude::*;
use crate::error::ContractError;

verus! {

/// The vault's configuration. The host loads it before a call and stores it
/// after a call that succeeded. Its fields change through its methods only,
/// so the share asset address cannot be written twice by accident.
#[derive(Clone, Debug, PartialEq, Eq)]
pub struct VaultConfig {
    /// The contract of the asset that is deposited.
    base_asset_addr: String,
    /// The contract of the share asset. Empty until the setup reply names it;
    /// never written again after that.
    share_asset_addr: String,
    /// Who may change the base asset address.
    owner_addr: String,
}

/// A configuration as three sequences of characters.
pub struct VaultConfigView {
    pub base_asset_addr: Seq<char>,
    pub share_asset_addr: Seq<char>,
    pub owner_addr: Seq<char>,
}

/// Where the vault stands in its setup.
#[derive(Clone, Copy, Debug, PartialEq, Eq, Structural)]
pub enum SetupState {
    /// The share asset contract has not reported its address yet.
    AwaitingShareAsset,
    /// The share asset address is recorded: deposits and withdrawals are open.
    Ready,
}

impl View for VaultConfig {
    type V = VaultConfigView;

    closed spec fn view(&self) -> VaultConfigView {
        VaultConfigView {
            base_asset_addr: self.base_asset_addr@,
            share_asset_addr: self.share_asset_addr@,
            owner_addr: self.owner_addr@,
        }
    }
}

impl VaultConfigView {
    /// The setup state that the record shows.
    pub open spec fn state(self) -> SetupState {
        if self.share_asset_addr.len() == 0 {
            SetupState::AwaitingShareAsset
        } else {
            SetupState::Ready
        }
    }

    /// The record after an attempt to write `addr` as the share asset address.
    pub open spec fn with_share_asset(self, addr: Seq<char>) -> Result<
        VaultConfigView,
        ContractError,
    > {
        if self.share_asset_addr.len() != 0 {
            Err(ContractError::Unauthorized)
        } else {
            Ok(
                (VaultConfigView {
                    base_asset_addr: self.base_asset_addr,
                    share_asset_addr: addr,
                    owner_addr: self.owner_addr,
                }),
            )
        }
    }

    /// The record after `sender` asked for `addr` as the base asset address;
    /// `valid` says whether the host's validation accepted `addr`.
    pub open spec fn with_base_asset(self, sender: Seq<char>, addr: Seq<char>, valid: bool) -> Result<
        VaultConfigView,
        ContractError,
    > {
        if sender != self.owner_addr {
            Err(ContractError::Unauthorized)
        } else if !valid {
            Err(ContractError::InvalidAddress)
        } else {
            Ok(
                (VaultConfigView {
                    base_asset_addr: addr,
                    share_asset_addr: self.share_asset_addr,
                    owner_addr: self.owner_addr,
                }),
            )
        }
    }
}

impl VaultConfig {
    /// A configuration that still awaits its share asset.
    pub fn new(base_asset_addr: String, owner_addr: String) -> (config: VaultConfig)
        ensures
            config@.base_asset_addr == base_asset_addr@,
            config@.owner_addr == owner_addr@,
            config@.share_asset_addr.len() == 0,
            config@.state() == SetupState::AwaitingShareAsset,
    {
        VaultConfig { base_asset_addr, share_asset_addr: String::new(), owner_addr }
    }

    /// A configuration as it was stored: `share_asset_addr` is empty where the
    /// share asset has not been recorded yet.
    pub fn from_parts(base_asset_addr: String, share_asset_addr: String, owner_addr: String) -> (config:
        VaultConfig)
        ensures
            config@.base_asset_addr == base_asset_addr@,
            config@.share_asset_addr == share_asset_addr@,
            config@.owner_addr == owner_addr@,
    {
        VaultConfig { base_asset_addr, share_asset_addr, owner_addr }
    }

    /// The three addresses, for storing: base asset, share asset, owner.
    pub fn into_parts(self) -> (parts: (String, String, String))
        ensures
            parts.0@ == self@.base_asset_addr,
            parts.1@ == self@.share_asset_addr,
            parts.2@ == self@.owner_addr,
    {
        (self.base_asset_addr, self.share_asset_addr, self.owner_addr)
    }

    /// The base asset contract's address.
    pub fn base_asset_addr(&self) -> (addr: &String)
        ensures
            addr@ == self@.base_asset_addr,
    {
        &self.base_asset_addr
    }

    /// The share asset contract's address, empty while the vault awaits it.
    pub fn share_asset_addr(&self) -> (addr: &String)
        ensures
            addr@ == self@.share_asset_addr,
    {
        &self.share_asset_addr
    }

    /// The owner's address.
    pub fn owner_addr(&self) -> (addr: &String)
        ensures
            addr@ == self@.owner_addr,
    {
        &self.owner_addr
    }

    /// The setup state.
    pub fn state(&self) -> (state: SetupState)
        ensures
            state == self@.state(),
    {
        if self.share_asset_addr.as_str().is_empty() {
            SetupState::AwaitingShareAsset
        } else {
            SetupState::Ready
        }
    }

    /// Whether the share asset address is recorded.
    pub fn is_ready(&self) -> (ready: bool)
        ensures
            ready == (self@.state() == SetupState::Ready),
    {
        !self.share_asset_addr.as_str().is_empty()
    }

    /// Records the share asset address. An address that is already recorded
    /// is never replaced: the attempt ends in `Unauthorized` and changes
    /// nothing.
    pub fn set_share_asset_addr(&mut self, addr: String) -> (outcome: Result<(), ContractError>)
        ensures
            match old(self)@.with_share_asset(addr@) {
                Ok(after) => outcome is Ok && final(self)@ == after,
                Err(e) => outcome == Err::<(), ContractError>(e) && *final(self) == *old(self),
            },
    {
        if !self.share_asset_addr.as_str().is_empty() {
            return Err(ContractError::Unauthorized);
        }
        self.share_asset_addr = addr;
        Ok(())
    }

    /// Replaces the base asset address on the owner's request. `valid` says
    /// whether the host's validation accepted `addr`. Any other sender ends in
    /// `Unauthorized`, a refused address in `InvalidAddress`, and neither
    /// changes the record.
    pub fn update_base_asset_addr(&mut self, sender: &String, addr: String, valid: bool) -> (outcome:
        Result<(), ContractError>)
        ensures
            match old(self)@.with_base_asset(sender@, addr@, valid) {
                Ok(after) => outcome is Ok && final(self)@ == after,
                Err(e) => outcome == Err::<(), ContractError>(e) && *final(self) == *old(self),
            },
    {
        if *sender != self.owner_addr {
            return Err(ContractError::Unauthorized);
        }
        if !valid {
            return Err(ContractError::InvalidAddress);
        }
        self.base_asset_addr = addr;
        Ok(())
    }
}

} // verus!
