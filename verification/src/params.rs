//! The addresses that tie a bonded pool to the vault.

use vstd::prelude::*;
use crate::error::ContractError;

verus! {

/// The addresses of a pool as its creator wrote them.
#[derive(Clone, Debug, PartialEq, Eq)]
pub struct InitParams {
    /// The base asset contract.
    pub astro_addr: String,
    /// The share asset contract.
    pub xastro_addr: String,
    /// The vault.
    pub staking_addr: String,
}

/// The addresses of a pool once the host has validated them.
#[derive(Clone, Debug, PartialEq, Eq)]
pub struct Params {
    /// The base asset contract.
    pub astro_addr: String,
    /// The share asset contract.
    pub xastro_addr: String,
    /// The vault.
    pub staking_addr: String,
}

impl InitParams {
    /// The validated parameters. Each flag says whether the host's validation
    /// accepted the address of the same name. With all three accepted the
    /// addresses are taken over as they stand; one refusal is enough for
    /// `InvalidAddress`.
    pub fn try_into_params(self, astro_valid: bool, xastro_valid: bool, staking_valid: bool) -> (params:
        Result<Params, ContractError>)
        ensures
            (astro_valid && xastro_valid && staking_valid) ==> {
                &&& params is Ok
                &&& params.unwrap().astro_addr == self.astro_addr
                &&& params.unwrap().xastro_addr == self.xastro_addr
                &&& params.unwrap().staking_addr == self.staking_addr
            },
            !(astro_valid && xastro_valid && staking_valid) ==> params is Err && params.unwrap_err()
                == ContractError::InvalidAddress,
    {
        if astro_valid && xastro_valid && staking_valid {
            Ok(
                Params {
                    astro_addr: self.astro_addr,
                    xastro_addr: self.xastro_addr,
                    staking_addr: self.staking_addr,
                },
            )
        } else {
            Err(ContractError::InvalidAddress)
        }
    }
}

} // verus!
