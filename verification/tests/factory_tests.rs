use packet_host::error::HostError;
use packet_host::factory::FactoryState;
use packet_host::msg::{ConfigResponse, ExecuteMsg, GovernanceDetails, InstantiateMsg, MigrateMsg, QueryMsg};

fn instantiate_msg(vc: &str, mem: &str, fee: u32) -> InstantiateMsg {
    InstantiateMsg {
        version_control_contract: vc.to_string(),
        memory_contract: mem.to_string(),
        creation_fee: fee,
    }
}

#[test]
fn instantiate_then_query_config() {
    let state = FactoryState::instantiate("sender1".to_string(), instantiate_msg("vc1", "mem1", 100))
        .expect("well-formed addresses");
    let r = state.query(&QueryMsg::Config {});
    assert_eq!(
        r,
        ConfigResponse {
            owner: "sender1".to_string(),
            memory_contract: "mem1".to_string(),
            version_control_contract: "vc1".to_string(),
            creation_fee: 100,
            os_id_sequence: 0,
        }
    );
}

#[test]
fn instantiate_rejects_malformed_address() {
    let r = FactoryState::instantiate("sender1".to_string(), instantiate_msg("NOT AN ADDRESS", "mem1", 1));
    assert_eq!(r.err(), Some(HostError::ConfigError));
    let r = FactoryState::instantiate("sender1".to_string(), instantiate_msg("vc1", "m", 1));
    assert_eq!(r.err(), Some(HostError::ConfigError));
}

#[test]
fn query_is_idempotent() {
    let state = FactoryState::instantiate("sender1".to_string(), instantiate_msg("vc1", "mem1", 7))
        .expect("well-formed addresses");
    let r1 = state.query(&QueryMsg::Config {});
    let r2 = state.query(&QueryMsg::Config {});
    assert_eq!(r1, r2);
}

#[test]
fn update_config_applies_provided_fields() {
    let mut state = FactoryState::instantiate("sender1".to_string(), instantiate_msg("vc1", "mem1", 7))
        .expect("well-formed addresses");
    let r = state.execute(
        &"sender1".to_string(),
        ExecuteMsg::UpdateConfig {
            admin: Some("owner2".to_string()),
            memory_contract: None,
            version_control_contract: Some("vc2".to_string()),
            creation_fee: Some(9),
        },
    );
    assert!(r.is_ok());
    let c = state.query(&QueryMsg::Config {});
    assert_eq!(c.owner, "owner2");
    assert_eq!(c.memory_contract, "mem1");
    assert_eq!(c.version_control_contract, "vc2");
    assert_eq!(c.creation_fee, 9);
}

#[test]
fn update_config_refuses_non_owner() {
    let mut state = FactoryState::instantiate("sender1".to_string(), instantiate_msg("vc1", "mem1", 7))
        .expect("well-formed addresses");
    let r = state.execute(
        &"intruder1".to_string(),
        ExecuteMsg::UpdateConfig {
            admin: None,
            memory_contract: None,
            version_control_contract: None,
            creation_fee: Some(0),
        },
    );
    assert_eq!(r, Err(HostError::ConfigError));
    assert_eq!(state.query(&QueryMsg::Config {}).creation_fee, 7);
}

#[test]
fn update_config_refuses_malformed_address() {
    let mut state = FactoryState::instantiate("sender1".to_string(), instantiate_msg("vc1", "mem1", 7))
        .expect("well-formed addresses");
    let r = state.execute(
        &"sender1".to_string(),
        ExecuteMsg::UpdateConfig {
            admin: Some("BAD".to_string()),
            memory_contract: None,
            version_control_contract: None,
            creation_fee: None,
        },
    );
    assert_eq!(r, Err(HostError::ConfigError));
}

#[test]
fn create_os_is_outside_this_core() {
    let mut state = FactoryState::instantiate("sender1".to_string(), instantiate_msg("vc1", "mem1", 7))
        .expect("well-formed addresses");
    let r = state.execute(
        &"sender1".to_string(),
        ExecuteMsg::CreateOs {
            governance: GovernanceDetails::Monarchy { monarch: "king1".to_string() },
        },
    );
    assert_eq!(r, Err(HostError::UnsupportedAction));
}

#[test]
fn migrate_is_a_no_op() {
    let mut state = FactoryState::instantiate("sender1".to_string(), instantiate_msg("vc1", "mem1", 7))
        .expect("well-formed addresses");
    let before = state.query(&QueryMsg::Config {});
    assert!(state.migrate(&MigrateMsg {}).is_ok());
    assert_eq!(state.query(&QueryMsg::Config {}), before);
}
