//! The version gate of a migration: which stored contract versions this
//! revision accepts, and what it records when it takes over.

use vstd::prelude::*;
use vstd::string::StringExecFns;
use crate::error::ContractError;

verus! {

/// The name and version that a contract keeps in storage.
#[derive(Clone, Debug, PartialEq, Eq)]
pub struct ContractVersion {
    /// The contract's name.
    pub contract: String,
    /// The version of the code that wrote the state.
    pub version: String,
}

/// A migration message. A migration takes no arguments: the stored version
/// alone decides.
#[derive(Clone, Copy, Debug, PartialEq, Eq, Structural)]
pub struct MigrateMsg {}

/// What a migration reports: the identity it found and the one it wrote.
#[derive(Clone, Debug, PartialEq, Eq)]
pub struct MigrationRecord {
    pub previous_contract_name: String,
    pub previous_contract_version: String,
    pub new_contract_name: String,
    pub new_contract_version: String,
}

/// The name under which this contract stores its version.
pub open spec fn spec_contract_name() -> Seq<char> {
    "ito-staking"@
}

/// The version of this revision.
pub open spec fn spec_contract_version() -> Seq<char> {
    "1.2.0"@
}

/// Whether this revision migrates from a contract stored under `contract`
/// with `version`.
pub open spec fn migrates_from(contract: Seq<char>, version: Seq<char>) -> bool {
    contract == spec_contract_name() && (version == "1.1.0"@ || version == "1.0.1"@ || version
        == "1.0.2"@)
}

/// The name under which this contract stores its version.
pub fn contract_name() -> (name: String)
    ensures
        name@ == spec_contract_name(),
{
    String::from_str("ito-staking")
}

/// The version of this revision.
pub fn contract_version() -> (version: String)
    ensures
        version@ == spec_contract_version(),
{
    String::from_str("1.2.0")
}

/// Whether `text` reads exactly as `literal`.
fn reads_as(text: &String, literal: &str) -> (same: bool)
    ensures
        same == (text@ == literal@),
{
    let owned = String::from_str(literal);
    *text == owned
}

impl ContractVersion {
    /// The identity that this revision stores for itself.
    pub fn current() -> (version: ContractVersion)
        ensures
            version.contract@ == spec_contract_name(),
            version.version@ == spec_contract_version(),
    {
        ContractVersion { contract: contract_name(), version: contract_version() }
    }

    /// Whether this revision migrates from the stored identity.
    pub fn is_migratable(&self) -> (accepted: bool)
        ensures
            accepted == migrates_from(self.contract@, self.version@),
    {
        reads_as(&self.contract, "ito-staking") && (reads_as(&self.version, "1.1.0") || reads_as(
            &self.version,
            "1.0.1",
        ) || reads_as(&self.version, "1.0.2"))
    }
}

/// Migrates the stored identity to this revision.
///
/// Where the stored name is this contract's and the stored version is one
/// that this revision accepts, the stored identity becomes this revision's
/// and the record names both. Anything else ends in `MigrationError` and
/// leaves the stored identity as it was.
pub fn migrate(stored: &mut ContractVersion, _msg: MigrateMsg) -> (outcome: Result<
    MigrationRecord,
    ContractError,
>)
    ensures
        migrates_from(old(stored).contract@, old(stored).version@) ==> {
            &&& outcome is Ok
            &&& outcome.unwrap().previous_contract_name@ == old(stored).contract@
            &&& outcome.unwrap().previous_contract_version@ == old(stored).version@
            &&& outcome.unwrap().new_contract_name@ == spec_contract_name()
            &&& outcome.unwrap().new_contract_version@ == spec_contract_version()
            &&& final(stored).contract@ == spec_contract_name()
            &&& final(stored).version@ == spec_contract_version()
        },
        !migrates_from(old(stored).contract@, old(stored).version@) ==> {
            &&& outcome is Err
            &&& outcome.unwrap_err() == ContractError::MigrationError
            &&& *final(stored) == *old(stored)
        },
{
    if !stored.is_migratable() {
        return Err(ContractError::MigrationError);
    }
    let previous_contract_name = stored.contract.clone();
    let previous_contract_version = stored.version.clone();
    stored.contract = contract_name();
    stored.version = contract_version();
    Ok(
        MigrationRecord {
            previous_contract_name,
            previous_contract_version,
            new_contract_name: contract_name(),
            new_contract_version: contract_version(),
        },
    )
}

impl MigrationRecord {
    /// The record as the four attributes of the migration's response, in
    /// order: the previous name and version, then the new name and version.
    pub fn attributes(&self) -> (attrs: Vec<(String, String)>)
        ensures
            attrs@.len() == 4,
            attrs@[0].0@ == "previous_contract_name"@,
            attrs@[0].1@ == self.previous_contract_name@,
            attrs@[1].0@ == "previous_contract_version"@,
            attrs@[1].1@ == self.previous_contract_version@,
            attrs@[2].0@ == "new_contract_name"@,
            attrs@[2].1@ == self.new_contract_name@,
            attrs@[3].0@ == "new_contract_version"@,
            attrs@[3].1@ == self.new_contract_version@,
    {
        let mut attrs: Vec<(String, String)> = Vec::new();
        attrs.push((String::from_str("previous_contract_name"), self.previous_contract_name.clone()));
        attrs.push(
            (String::from_str("previous_contract_version"), self.previous_contract_version.clone()),
        );
        attrs.push((String::from_str("new_contract_name"), self.new_contract_name.clone()));
        attrs.push((String::from_str("new_contract_version"), self.new_contract_version.clone()));
        attrs
    }
}

/// This revision does not migrate from itself: once a migration has stored
/// the new identity, a second one ends in `MigrationError`.
pub proof fn lemma_migration_not_from_self()
    ensures
        !migrates_from(spec_contract_name(), spec_contract_version()),
{
    reveal_strlit("1.2.0");
    reveal_strlit("1.1.0");
    reveal_strlit("1.0.1");
    reveal_strlit("1.0.2");
    assert("1.2.0"@[2] == '2');
    assert("1.1.0"@[2] == '1');
    assert("1.0.1"@[2] == '0');
    assert("1.0.2"@[2] == '0');
}

} // verus!
