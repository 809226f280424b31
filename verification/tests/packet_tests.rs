use packet_host::action::{encode_action, Action};
use packet_host::error::HostError;
use packet_host::host::{HostInstantiateMsg, HostState, HostExecuteMsg, HostQueryMsg};
use packet_host::packet::{
    AckFailure, Acknowledgement, InboundPacket, ReplyOutcome,
};

fn host() -> HostState {
    HostState::instantiate(
        "admin1".to_string(),
        HostInstantiateMsg {
            name_registry_address: "mem1".to_string(),
            version_control_address: "vc1".to_string(),
        },
        "osmosis".to_string(),
        "1.0.0".to_string(),
    )
    .expect("well-formed addresses")
}

fn swap() -> Action {
    Action::Swap {
        offer_asset: "juno".to_string(),
        ask_asset: "osmo".to_string(),
        amount: 42,
    }
}

fn packet(os_id: u32, payload: Vec<u8>) -> InboundPacket {
    InboundPacket { channel_id: "channel7".to_string(), sequence: 3, os_id, payload }
}

#[test]
fn known_proxy_gets_one_ack_and_one_dispatch() {
    let mut h = host();
    h.register_proxy(&"admin1".to_string(), 7, "proxy7".to_string()).expect("fresh tenant");
    let payload = encode_action(&swap()).expect("encodable");
    let r = h.handle_packet(packet(7, payload));
    assert_eq!(r.ack, Acknowledgement::Failure { kind: AckFailure::ActionNotFinalized });
    assert_eq!(r.calls.len(), 1);
    assert_eq!(r.calls[0].correlation_id, 0);
    assert_eq!(r.calls[0].instruction.proxy, "proxy7");
    assert_eq!(r.calls[0].instruction.action, swap());
}

#[test]
fn malformed_payload_still_gets_an_ack() {
    let mut h = host();
    let r = h.handle_packet(packet(7, vec![0xde, 0xad, 0xbe, 0xef]));
    assert_eq!(r.ack, Acknowledgement::Failure { kind: AckFailure::MalformedPayload });
    assert_eq!(r.calls.len(), 0);
}

#[test]
fn unknown_proxy_still_gets_an_ack() {
    let mut h = host();
    let payload = encode_action(&swap()).expect("encodable");
    let r = h.handle_packet(packet(9, payload));
    assert_eq!(r.ack, Acknowledgement::Failure { kind: AckFailure::UnknownProxy });
    assert_eq!(r.calls.len(), 0);
}

#[test]
fn reply_consumes_the_correlation_and_keeps_the_ack() {
    let mut h = host();
    h.register_proxy(&"admin1".to_string(), 7, "proxy7".to_string()).expect("fresh tenant");
    let payload = encode_action(&swap()).expect("encodable");
    let r = h.handle_packet(packet(7, payload));
    let committed_ack = r.ack;
    let id = r.calls[0].correlation_id;

    let reply = h.reply(id, ReplyOutcome::Success { data: vec![1] }).expect("pending id");
    assert!(reply.finalized);
    assert_eq!(reply.failure, None);
    assert_eq!(reply.os_id, 7);
    assert_eq!(reply.sequence, 3);
    // The acknowledgement committed at receive time is untouched by the
    // reply: a documented limitation of the protocol.
    assert_eq!(r.ack, committed_ack);
    assert_eq!(r.ack, Acknowledgement::Failure { kind: AckFailure::ActionNotFinalized });

    // The id is single-use: a second reply under it is a fatal local error.
    let again = h.reply(id, ReplyOutcome::Success { data: vec![] });
    assert_eq!(again.err(), Some(HostError::UnknownCorrelation));
}

#[test]
fn failed_reply_surfaces_the_failure() {
    let mut h = host();
    h.register_proxy(&"admin1".to_string(), 7, "proxy7".to_string()).expect("fresh tenant");
    let payload = encode_action(&swap()).expect("encodable");
    let r = h.handle_packet(packet(7, payload));
    let reply = h
        .reply(r.calls[0].correlation_id, ReplyOutcome::Failure { error: "out of gas".to_string() })
        .expect("pending id");
    assert!(!reply.finalized);
    assert_eq!(reply.failure, Some("out of gas".to_string()));
}

#[test]
fn reply_with_unknown_id_is_an_error() {
    let mut h = host();
    let r = h.reply(55, ReplyOutcome::Success { data: vec![] });
    assert_eq!(r.err(), Some(HostError::UnknownCorrelation));
}

#[test]
fn correlation_ids_are_fresh_per_dispatch() {
    let mut h = host();
    h.register_proxy(&"admin1".to_string(), 7, "proxy7".to_string()).expect("fresh tenant");
    let payload = encode_action(&swap()).expect("encodable");
    let r1 = h.handle_packet(packet(7, payload.clone()));
    let r2 = h.handle_packet(packet(7, payload));
    assert_eq!(r1.calls[0].correlation_id, 0);
    assert_eq!(r2.calls[0].correlation_id, 1);
}

#[test]
fn ack_messages_are_human_readable() {
    let ack = Acknowledgement::Failure { kind: AckFailure::MalformedPayload };
    assert_eq!(ack.message(), "packet payload could not be decoded");
    let ack = Acknowledgement::Failure { kind: AckFailure::UnknownProxy };
    assert_eq!(ack.message(), "no proxy is registered for the sending tenant");
    let ack = Acknowledgement::Failure { kind: AckFailure::ActionNotFinalized };
    assert_eq!(ack.message(), "action dispatched; outcome not finalized");
    assert_eq!(Acknowledgement::Success.message(), "action succeeded");
}

#[test]
fn host_refuses_action_requests_without_a_handler() {
    let mut h = host();
    let r = h.execute(&"admin1".to_string(), HostExecuteMsg::App { action: swap() });
    assert_eq!(r, Err(HostError::UnsupportedAction));
}

#[test]
fn host_update_config_is_admin_gated() {
    let mut h = host();
    let r = h.execute(
        &"intruder1".to_string(),
        HostExecuteMsg::UpdateConfig { admin: None, name_registry: None, version_control: None },
    );
    assert_eq!(r, Err(HostError::ConfigError));
    let r = h.execute(
        &"admin1".to_string(),
        HostExecuteMsg::UpdateConfig {
            admin: None,
            name_registry: Some("mem2".to_string()),
            version_control: None,
        },
    );
    assert!(r.is_ok());
    let c = h.query(&HostQueryMsg::Config {});
    assert_eq!(c.name_registry, "mem2");
    assert_eq!(c.chain_tag, "osmosis");
}

#[test]
fn host_query_is_idempotent() {
    let h = host();
    assert_eq!(h.query(&HostQueryMsg::Config {}), h.query(&HostQueryMsg::Config {}));
}

#[test]
fn register_proxy_refuses_duplicates_and_non_admin() {
    let mut h = host();
    h.register_proxy(&"admin1".to_string(), 7, "proxy7".to_string()).expect("fresh tenant");
    let r = h.register_proxy(&"admin1".to_string(), 7, "proxy8".to_string());
    assert_eq!(r, Err(HostError::ConfigError));
    let r = h.register_proxy(&"intruder1".to_string(), 8, "proxy8".to_string());
    assert_eq!(r, Err(HostError::ConfigError));
}
