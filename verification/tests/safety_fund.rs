use mars_contracts::safety_fund::{execute_execute_cosmos_msg, execute_update_config, instantiate, ContractError};

fn s(v: &str) -> String {
    v.to_string()
}

#[test]
fn safety_fund_test_proper_initialization() {
    let config = instantiate(s("owner"));
    assert_eq!(config.owner, "owner");
}

#[test]
fn safety_fund_test_update_config() {
    let config = instantiate(s("owner"));
    // only owner can update
    let err = execute_update_config(config.clone(), &s("somebody"), Some(s("new_owner"))).unwrap_err();
    assert_eq!(err, ContractError::Unauthorized);

    let config = execute_update_config(config, &s("owner"), Some(s("new_owner"))).unwrap();
    assert_eq!(config.owner, "new_owner");
    let config = execute_update_config(config, &s("new_owner"), None).unwrap();
    assert_eq!(config.owner, "new_owner");
}

#[test]
fn contract_test_execute_cosmos_msg() {
    let config = instantiate(s("owner"));
    let msg = (s("destination"), s("uluna"), 123456u128);
    let err = execute_execute_cosmos_msg(&config, &s("somebody"), msg.clone()).unwrap_err();
    assert_eq!(err, ContractError::Unauthorized);
    let passed = execute_execute_cosmos_msg(&config, &s("owner"), msg.clone()).unwrap();
    assert_eq!(passed, msg);
}
