use ito_staking::error::ContractError;
use ito_staking::migration::{
    contract_name, contract_version, migrate, ContractVersion, MigrateMsg, MigrationRecord,
};

fn stored(contract: &str, version: &str) -> ContractVersion {
    ContractVersion { contract: contract.to_string(), version: version.to_string() }
}

#[test]
fn identity_of_this_revision() {
    assert_eq!(contract_name(), "ito-staking");
    assert_eq!(contract_version(), "1.2.0");
    assert_eq!(ContractVersion::current(), stored("ito-staking", "1.2.0"));
}

#[test]
fn migrates_from_each_listed_version() {
    for version in ["1.1.0", "1.0.1", "1.0.2"] {
        let mut identity = stored("ito-staking", version);
        assert!(identity.is_migratable());
        let record = migrate(&mut identity, MigrateMsg {}).unwrap();
        assert_eq!(
            record,
            MigrationRecord {
                previous_contract_name: "ito-staking".to_string(),
                previous_contract_version: version.to_string(),
                new_contract_name: "ito-staking".to_string(),
                new_contract_version: "1.2.0".to_string(),
            }
        );
        assert_eq!(identity, stored("ito-staking", "1.2.0"));
    }
}

#[test]
fn refuses_any_other_version() {
    for version in ["1.0.0", "1.2.0", "1.1.1", "", "1.1.0 ", "v1.1.0", "2.0.0"] {
        let mut identity = stored("ito-staking", version);
        assert!(!identity.is_migratable());
        assert_eq!(migrate(&mut identity, MigrateMsg {}), Err(ContractError::MigrationError));
        assert_eq!(identity, stored("ito-staking", version));
    }
}

#[test]
fn refuses_another_contract() {
    for name in ["astroport-staking", "", "ito-stakin", "Ito-Staking"] {
        let mut identity = stored(name, "1.1.0");
        assert_eq!(migrate(&mut identity, MigrateMsg {}), Err(ContractError::MigrationError));
        assert_eq!(identity, stored(name, "1.1.0"));
    }
}

#[test]
fn second_migration_is_refused() {
    let mut identity = stored("ito-staking", "1.0.2");
    assert!(migrate(&mut identity, MigrateMsg {}).is_ok());
    assert_eq!(migrate(&mut identity, MigrateMsg {}), Err(ContractError::MigrationError));
    assert_eq!(identity, stored("ito-staking", "1.2.0"));
}

#[test]
fn record_as_attributes() {
    let mut identity = stored("ito-staking", "1.0.1");
    let record = migrate(&mut identity, MigrateMsg {}).unwrap();
    assert_eq!(
        record.attributes(),
        vec![
            ("previous_contract_name".to_string(), "ito-staking".to_string()),
            ("previous_contract_version".to_string(), "1.0.1".to_string()),
            ("new_contract_name".to_string(), "ito-staking".to_string()),
            ("new_contract_version".to_string(), "1.2.0".to_string()),
        ]
    );
}
