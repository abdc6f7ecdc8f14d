//! The asynchronous callbacks and the Stage A immediate-reply handler.

use ibc_forwarder::msg::{
    ContractError, ContractState, InstantiateMsg, Reply, ReplyData, RequestPacket, SudoMsg,
};
use ibc_forwarder::state::Forwarder;

fn packet(sequence: Option<u64>, source_channel: Option<&str>) -> RequestPacket {
    RequestPacket {
        sequence,
        source_port: None,
        source_channel: source_channel.map(String::from),
        destination_port: None,
        destination_channel: None,
        data: None,
        timeout_height: None,
        timeout_timestamp: None,
    }
}

fn fresh() -> Forwarder {
    let msg = InstantiateMsg {
        next_contract: String::from("next-contract"),
        remote_chain_connection_id: String::from("conn-0"),
        remote_chain_channel_id: String::from("channel-1"),
        denom: String::from("uatom"),
        ibc_transfer_timeout: 100,
        ica_timeout: 200,
    };
    Forwarder::instantiate(msg, String::from("me")).0
}

#[test]
fn response_callback_requires_sequence() {
    let mut f = fresh();
    let err = f
        .sudo(SudoMsg::Response { request: packet(None, Some("channel-2")), data: vec![1] })
        .unwrap_err();
    assert!(matches!(err, ContractError::MissingSequence));
    assert_eq!(f.state, ContractState::Instantiated);
}

#[test]
fn response_callback_requires_source_channel() {
    let mut f = fresh();
    let err = f
        .sudo(SudoMsg::Response { request: packet(Some(4), None), data: vec![1] })
        .unwrap_err();
    assert!(matches!(err, ContractError::MissingSourceChannel));
}

#[test]
fn response_callback_acknowledges_when_fields_present() {
    let mut f = fresh();
    let resp = f
        .sudo(SudoMsg::Response { request: packet(Some(4), Some("channel-2")), data: vec![1] })
        .unwrap();
    assert_eq!(resp.attributes.len(), 1);
    assert_eq!(resp.attributes[0].key, "method");
    assert_eq!(resp.attributes[0].value, "sudo_response");
    assert!(resp.messages.is_empty());
    // no phase transition is attached to a positive acknowledgment
    assert_eq!(f.state, ContractState::Instantiated);
}

#[test]
fn error_callback_validates_and_reports() {
    let mut f = fresh();
    let err = f
        .sudo(SudoMsg::Error { request: packet(None, None), details: String::from("boom") })
        .unwrap_err();
    assert!(matches!(err, ContractError::MissingSequence));
    let err2 = f
        .sudo(SudoMsg::Error { request: packet(Some(9), None), details: String::from("boom") })
        .unwrap_err();
    assert!(matches!(err2, ContractError::MissingSourceChannel));
    let resp = f
        .sudo(SudoMsg::Error {
            request: packet(Some(9), Some("channel-2")),
            details: String::from("boom"),
        })
        .unwrap();
    assert_eq!(resp.attributes[0].value, "sudo_error");
}

#[test]
fn unknown_callback_shape_is_a_no_op() {
    let mut f = fresh();
    let resp = f.sudo(SudoMsg::Other {}).unwrap();
    assert!(resp.attributes.is_empty());
    assert!(resp.messages.is_empty());
    assert_eq!(f.state, ContractState::Instantiated);
}

#[test]
fn open_ack_with_unparseable_version_errs_without_change() {
    let mut f = fresh();
    let err = f
        .sudo(SudoMsg::OpenAck {
            port_id: String::from("icacontroller-me.ica"),
            channel_id: String::from("channel-2"),
            counterparty_channel_id: String::from("channel-3"),
            counterparty_version: String::from("not json"),
        })
        .unwrap_err();
    assert!(matches!(err, ContractError::ParseOpenAckFailed));
    assert_eq!(f.state, ContractState::Instantiated);
}

#[test]
fn open_ack_with_missing_field_errs() {
    let mut f = fresh();
    // five of the six expected fields
    let version = "{\"version\":\"v\",\"controller_connection_id\":\"c\",\
                   \"host_connection_id\":\"h\",\"address\":\"a\",\"encoding\":\"e\"}";
    let err = f
        .sudo(SudoMsg::OpenAck {
            port_id: String::from("icacontroller-me.ica"),
            channel_id: String::from("channel-2"),
            counterparty_channel_id: String::from("channel-3"),
            counterparty_version: String::from(version),
        })
        .unwrap_err();
    assert!(matches!(err, ContractError::ParseOpenAckFailed));
}

fn reply_with(id: u64, result: Result<ReplyData, String>) -> Reply {
    Reply { id, result }
}

#[test]
fn reply_rejects_unknown_reply_id() {
    let mut f = fresh();
    let err = f
        .reply(reply_with(2, Ok(ReplyData { data: Some(vec![]) })))
        .unwrap_err();
    assert!(matches!(err, ContractError::UnsupportedReplyId(2)));
}

#[test]
fn reply_without_pending_payload_errs() {
    let mut f = fresh();
    let err = f
        .reply(reply_with(1, Ok(ReplyData { data: Some(vec![]) })))
        .unwrap_err();
    assert!(matches!(err, ContractError::MissingReplyPayload));
}

#[test]
fn reply_with_failed_submission_reports_diagnostic() {
    let mut f = fresh();
    f.save_reply_payload(ibc_forwarder::msg::SudoPayload {
        message: String::from("try_forward_funds"),
        port_id: String::from("icacontroller-me.ica"),
    });
    let err = f
        .reply(reply_with(1, Err(String::from("out of gas"))))
        .unwrap_err();
    match err {
        ContractError::SubmitFailed(d) => assert_eq!(d, "out of gas"),
        other => panic!("unexpected error: {other:?}"),
    }
}

#[test]
fn reply_without_data_errs() {
    let mut f = fresh();
    f.save_reply_payload(ibc_forwarder::msg::SudoPayload {
        message: String::from("try_forward_funds"),
        port_id: String::from("icacontroller-me.ica"),
    });
    let err = f.reply(reply_with(1, Ok(ReplyData { data: None }))).unwrap_err();
    assert!(matches!(err, ContractError::MissingReplyData));
}

#[test]
fn reply_with_garbage_data_errs() {
    let mut f = fresh();
    f.save_reply_payload(ibc_forwarder::msg::SudoPayload {
        message: String::from("try_forward_funds"),
        port_id: String::from("icacontroller-me.ica"),
    });
    let err = f
        .reply(reply_with(1, Ok(ReplyData { data: Some(vec![0xff, 0x00]) })))
        .unwrap_err();
    assert!(matches!(err, ContractError::ParseResponseFailed));
}

#[test]
fn stage_a_rekeys_pending_payload_under_channel_and_sequence() {
    let mut f = fresh();
    let payload = ibc_forwarder::msg::SudoPayload {
        message: String::from("try_forward_funds"),
        port_id: String::from("icacontroller-me.ica"),
    };
    f.save_reply_payload(payload);
    // the reply data is the JSON form of the dispatch mechanism's response
    let response = neutron_sdk::bindings::msg::MsgSubmitTxResponse {
        sequence_id: 5,
        channel: String::from("channel-7"),
    };
    let bytes = serde_json_wasm::to_vec(&response).unwrap();
    let resp = f.reply(reply_with(1, Ok(ReplyData { data: Some(bytes) }))).unwrap();
    assert!(resp.attributes.is_empty());
    assert!(resp.messages.is_empty());
    // the lookup by (channel, sequence) finds exactly the pending payload
    let got = f.get_sudo_payload(&String::from("channel-7"), 5).unwrap();
    assert_eq!(got.message, "try_forward_funds");
    assert_eq!(got.port_id, "icacontroller-me.ica");
    // a different pair finds nothing
    assert!(f.get_sudo_payload(&String::from("channel-7"), 6).is_none());
    assert!(f.get_sudo_payload(&String::from("channel-8"), 5).is_none());
}

#[test]
fn stage_a_direct_handlers_roundtrip() {
    let mut f = fresh();
    let payload = ibc_forwarder::msg::SudoPayload {
        message: String::from("try_forward_funds"),
        port_id: String::from("icacontroller-me.ica"),
    };
    f.save_reply_payload(payload);
    let read_back = f.read_reply_payload().unwrap();
    assert_eq!(read_back.message, "try_forward_funds");
    f.save_sudo_payload(String::from("channel-9"), 42, read_back);
    let got = f.get_sudo_payload(&String::from("channel-9"), 42).unwrap();
    assert_eq!(got.port_id, "icacontroller-me.ica");
}
