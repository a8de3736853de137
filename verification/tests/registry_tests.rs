use contracts::errors::Error;
use contracts::registry::RegistryContract;

const ADMIN: u64 = 1;
const TREASURY_NAME: u64 = 500;

#[test]
fn registers_and_resolves_contracts_with_version_history() {
    let mut r = RegistryContract::initialize(ADMIN);
    let treasury = 10;
    assert!(r.set_contract(ADMIN, TREASURY_NAME, treasury, 1).is_ok());
    let upgraded = 11;
    assert!(r.set_contract(ADMIN, TREASURY_NAME, upgraded, 2).is_ok());
    let (addr, version) = r.get_contract(TREASURY_NAME).unwrap();
    assert_eq!(addr, upgraded);
    assert_eq!(version, 2);
    let history = r.get_version_history(TREASURY_NAME).unwrap();
    assert_eq!(history.len(), 2);
    assert_eq!(history[0], 1);
    assert_eq!(history[1], 2);
}

#[test]
fn rejects_non_admin_registration() {
    let mut r = RegistryContract::initialize(ADMIN);
    assert!(matches!(r.set_contract(66, TREASURY_NAME, 10, 1), Err(Error::Unauthorized)));
}

#[test]
fn gas_bench_set_contract_same_version_skips_history() {
    let mut r = RegistryContract::initialize(ADMIN);
    assert!(r.set_contract(ADMIN, TREASURY_NAME, 10, 1).is_ok());
    assert!(r.set_contract(ADMIN, TREASURY_NAME, 10, 1).is_ok());
    assert_eq!(r.get_version_history(TREASURY_NAME).unwrap().len(), 1);
    assert!(r.set_contract(ADMIN, TREASURY_NAME, 12, 2).is_ok());
    assert_eq!(r.get_version_history(TREASURY_NAME).unwrap().len(), 2);
}

#[test]
fn history_keeps_distinct_versions_in_first_seen_order() {
    let mut r = RegistryContract::initialize(ADMIN);
    for v in [3u32, 1, 3, 2, 1, 5] {
        r.set_contract(ADMIN, TREASURY_NAME, 10 + v as u64, v).unwrap();
    }
    assert_eq!(r.get_version_history(TREASURY_NAME).unwrap(), vec![3, 1, 2, 5]);
    assert_eq!(r.get_contract(TREASURY_NAME), Ok((15, 5)));
    r.set_contract(ADMIN, TREASURY_NAME, 99, 1).unwrap();
    assert_eq!(r.get_contract(TREASURY_NAME), Ok((99, 1)));
    assert_eq!(r.get_contract(7), Err(Error::NotFound));
    assert!(matches!(r.get_version_history(7), Err(Error::NotFound)));
}
