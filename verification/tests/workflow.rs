//! End-to-end scenarios of the forwarding workflow.

use ibc_forwarder::msg::{
    ContractState, ExecuteMsg, InstantiateMsg, NeutronTx, QueryMsg, QueryResponse, RequestPacket,
    SudoMsg,
};
use ibc_forwarder::state::Forwarder;
use prost::Message;

fn base_msg() -> InstantiateMsg {
    InstantiateMsg {
        next_contract: String::from("next-contract"),
        remote_chain_connection_id: String::from("conn-0"),
        remote_chain_channel_id: String::from("channel-1"),
        denom: String::from("uatom"),
        ibc_transfer_timeout: 100,
        ica_timeout: 200,
    }
}

fn open_ack_version(address: &str, controller_connection_id: &str) -> String {
    format!(
        "{{\"version\":\"ics27-1\",\"controller_connection_id\":\"{}\",\"host_connection_id\":\"conn-host\",\"address\":\"{}\",\"encoding\":\"proto3\",\"tx_type\":\"sdk_multi_msg\"}}",
        controller_connection_id, address
    )
}

fn own_port_id() -> String {
    neutron_sdk::interchain_txs::helpers::get_port_id("me", "ica")
}

#[test]
fn instantiate_starts_instantiated_with_absent_deposit_address() {
    let (f, resp) = Forwarder::instantiate(base_msg(), String::from("me"));
    assert_eq!(f.state, ContractState::Instantiated);
    assert!(resp.messages.is_empty());
    assert_eq!(resp.attributes.len(), 3);
    assert_eq!(resp.attributes[0].key, "method");
    assert_eq!(resp.attributes[0].value, "ibc_forwarder_instantiate");
    match f.query(QueryMsg::DepositAddress {}).unwrap() {
        QueryResponse::DepositAddress(d) => assert!(d.is_none()),
        other => panic!("unexpected response: {other:?}"),
    }
    match f.query(QueryMsg::ContractState {}).unwrap() {
        QueryResponse::ContractState(s) => assert_eq!(s, Some(ContractState::Instantiated)),
        other => panic!("unexpected response: {other:?}"),
    }
}

#[test]
fn instantiate_fee_schedule_has_empty_receive_bucket() {
    let (f, _) = Forwarder::instantiate(base_msg(), String::from("me"));
    let fee = &f.remote_chain_info.ibc_fee;
    assert!(fee.recv_fee.is_empty());
    assert_eq!(fee.ack_fee.len(), 1);
    assert_eq!(fee.ack_fee[0].denom, "untrn");
    assert_eq!(fee.ack_fee[0].amount, 10000u128);
    assert_eq!(fee.timeout_fee.len(), 1);
    assert_eq!(fee.timeout_fee[0].denom, "untrn");
    assert_eq!(fee.timeout_fee[0].amount, 10000u128);
}

#[test]
fn registration_tick_emits_one_request_and_keeps_phase() {
    let (mut f, _) = Forwarder::instantiate(base_msg(), String::from("me"));
    let resp = f.try_tick(0, None).unwrap();
    assert_eq!(resp.messages.len(), 1);
    assert!(resp.messages[0].reply_id.is_none());
    match &resp.messages[0].msg {
        NeutronTx::RegisterInterchainAccount { connection_id, interchain_account_id } => {
            assert_eq!(connection_id, "conn-0");
            assert_eq!(interchain_account_id, "ica");
        }
        other => panic!("unexpected message: {other:?}"),
    }
    // the record exists, but holds no address yet, and the phase is unmoved
    assert_eq!(f.state, ContractState::Instantiated);
    match f.query(QueryMsg::DepositAddress {}).unwrap() {
        QueryResponse::DepositAddress(d) => assert!(d.is_none()),
        other => panic!("unexpected response: {other:?}"),
    }
    match f.query(QueryMsg::IcaAddress {}) {
        Err(e) => assert!(matches!(e, ibc_forwarder::msg::ContractError::IcaNotCreated)),
        Ok(other) => panic!("unexpected response: {other:?}"),
    }
}

#[test]
fn open_ack_populates_record_and_advances_phase() {
    let (mut f, _) = Forwarder::instantiate(base_msg(), String::from("me"));
    f.try_tick(0, None).unwrap();
    let resp = f
        .sudo(SudoMsg::OpenAck {
            port_id: own_port_id(),
            channel_id: String::from("channel-2"),
            counterparty_channel_id: String::from("channel-3"),
            counterparty_version: open_ack_version("remoteAddr1", "conn-1"),
        })
        .unwrap();
    assert_eq!(resp.attributes.len(), 1);
    assert_eq!(resp.attributes[0].value, "sudo_open_ack");
    assert_eq!(f.state, ContractState::IcaCreated);
    match f.query(QueryMsg::DepositAddress {}).unwrap() {
        QueryResponse::DepositAddress(d) => assert_eq!(d.as_deref(), Some("remoteAddr1")),
        other => panic!("unexpected response: {other:?}"),
    }
    match f.query(QueryMsg::IcaAddress {}).unwrap() {
        QueryResponse::IcaAddress(a) => assert_eq!(a, "remoteAddr1"),
        other => panic!("unexpected response: {other:?}"),
    }
    let ica = f.get_ica("ica").unwrap();
    assert_eq!(ica.address, "remoteAddr1");
    assert_eq!(ica.controller_connection_id, "conn-1");
}

#[test]
fn open_ack_after_repeated_registration_still_advances() {
    let (mut f, _) = Forwarder::instantiate(base_msg(), String::from("me"));
    f.try_tick(0, None).unwrap();
    f.try_tick(0, None).unwrap();
    f.try_tick(0, None).unwrap();
    assert_eq!(f.state, ContractState::Instantiated);
    f.sudo(SudoMsg::OpenAck {
        port_id: own_port_id(),
        channel_id: String::from("channel-2"),
        counterparty_channel_id: String::from("channel-3"),
        counterparty_version: open_ack_version("remoteAddr1", "conn-1"),
    })
    .unwrap();
    assert_eq!(f.state, ContractState::IcaCreated);
}

fn forwarder_with_ica() -> Forwarder {
    let (mut f, _) = Forwarder::instantiate(base_msg(), String::from("me"));
    f.try_tick(0, None).unwrap();
    f.sudo(SudoMsg::OpenAck {
        port_id: own_port_id(),
        channel_id: String::from("channel-2"),
        counterparty_channel_id: String::from("channel-3"),
        counterparty_version: open_ack_version("remoteAddr1", "conn-1"),
    })
    .unwrap();
    f
}

#[test]
fn forwarding_tick_not_ready_errs_and_changes_nothing() {
    let mut f = forwarder_with_ica();
    let err = f.try_tick(1_000, None).unwrap_err();
    assert!(matches!(err, ibc_forwarder::msg::ContractError::NotReady));
    assert_eq!(f.state, ContractState::IcaCreated);
    assert!(f.reply_payload.is_none());
}

#[test]
fn forwarding_tick_builds_submission_with_summed_timeout() {
    let mut f = forwarder_with_ica();
    let now: u64 = 1_700_000_000_000_000_000;
    let resp = f
        .execute(ExecuteMsg::Tick {}, now, Some(String::from("destAddr1")))
        .unwrap();
    assert_eq!(resp.attributes.len(), 1);
    assert_eq!(resp.attributes[0].value, "try_forward_funds");
    assert_eq!(resp.messages.len(), 1);
    assert_eq!(resp.messages[0].reply_id, Some(1));
    let submit = &resp.messages[0].msg;
    match submit {
        NeutronTx::SubmitTx { connection_id, interchain_account_id, msgs, memo, timeout, fee } => {
            assert_eq!(connection_id, "conn-1");
            assert_eq!(interchain_account_id, "ica");
            assert_eq!(memo, "");
            assert_eq!(*timeout, 200);
            assert!(fee.recv_fee.is_empty());
            assert_eq!(fee.ack_fee[0].denom, "untrn");
            assert_eq!(msgs.len(), 1);
            assert_eq!(msgs[0].type_url, "/ibc.applications.transfer.v1.MsgTransfer");
            let decoded =
                cosmos_sdk_proto::ibc::applications::transfer::v1::MsgTransfer::decode(
                    msgs[0].value.as_slice(),
                )
                .unwrap();
            assert_eq!(decoded.source_port, "transfer");
            assert_eq!(decoded.source_channel, "channel-1");
            assert_eq!(decoded.sender, "remoteAddr1");
            assert_eq!(decoded.receiver, "destAddr1");
            let token = decoded.token.unwrap();
            assert_eq!(token.denom, "uatom");
            assert_eq!(token.amount, "10");
            assert_eq!(decoded.timeout_timestamp, now + (100 + 200) * 1_000_000_000);
            assert!(decoded.timeout_height.is_none());
        }
        other => panic!("unexpected message: {other:?}"),
    }
    // the pending payload was persisted for Stage A
    let pending = f.read_reply_payload().unwrap();
    assert_eq!(pending.message, "try_forward_funds");
    assert_eq!(pending.port_id, own_port_id());
    // the phase does not move on submission
    assert_eq!(f.state, ContractState::IcaCreated);
}

#[test]
fn forwarding_tick_without_record_errs() {
    let (mut f, _) = Forwarder::instantiate(base_msg(), String::from("me"));
    // confirm an account under a foreign port id: the phase advances but the
    // derived key has no record at all
    f.sudo(SudoMsg::OpenAck {
        port_id: String::from("icacontroller-other.ica"),
        channel_id: String::from("channel-2"),
        counterparty_channel_id: String::from("channel-3"),
        counterparty_version: open_ack_version("remoteAddr1", "conn-1"),
    })
    .unwrap();
    assert_eq!(f.state, ContractState::IcaCreated);
    let err = f.try_tick(0, Some(String::from("destAddr1"))).unwrap_err();
    assert!(matches!(err, ibc_forwarder::msg::ContractError::AccountNotFound));
    assert_eq!(f.state, ContractState::IcaCreated);
}

#[test]
fn forwarding_tick_with_unconfirmed_record_self_heals() {
    let (mut f, _) = Forwarder::instantiate(base_msg(), String::from("me"));
    f.try_tick(0, None).unwrap();
    // the phase advances, but the record under the derived key stays empty
    f.sudo(SudoMsg::OpenAck {
        port_id: String::from("icacontroller-other.ica"),
        channel_id: String::from("channel-2"),
        counterparty_channel_id: String::from("channel-3"),
        counterparty_version: open_ack_version("remoteAddr1", "conn-1"),
    })
    .unwrap();
    let resp = f.try_tick(0, Some(String::from("destAddr1"))).unwrap();
    assert!(resp.messages.is_empty());
    assert_eq!(resp.attributes.len(), 2);
    assert_eq!(resp.attributes[1].key, "error");
    assert_eq!(resp.attributes[1].value, "no_ica_found");
    assert_eq!(f.state, ContractState::Instantiated);
}

#[test]
fn timeout_after_submission_reverts_to_instantiated() {
    let mut f = forwarder_with_ica();
    f.try_tick(1_000, Some(String::from("destAddr1"))).unwrap();
    let resp = f
        .sudo(SudoMsg::Timeout {
            request: RequestPacket {
                sequence: Some(1),
                source_port: None,
                source_channel: None,
                destination_port: None,
                destination_channel: None,
                data: None,
                timeout_height: None,
                timeout_timestamp: None,
            },
        })
        .unwrap();
    assert!(resp.attributes.is_empty());
    assert!(resp.messages.is_empty());
    assert_eq!(f.state, ContractState::Instantiated);
}

#[test]
fn timeout_from_any_phase_resets() {
    for phase in [ContractState::Instantiated, ContractState::IcaCreated, ContractState::Complete]
    {
        let (mut f, _) = Forwarder::instantiate(base_msg(), String::from("me"));
        f.state = phase;
        f.sudo(SudoMsg::Timeout {
            request: RequestPacket {
                sequence: None,
                source_port: None,
                source_channel: None,
                destination_port: None,
                destination_channel: None,
                data: None,
                timeout_height: None,
                timeout_timestamp: None,
            },
        })
        .unwrap();
        assert_eq!(f.state, ContractState::Instantiated);
    }
}

#[test]
fn complete_tick_is_idempotent() {
    let (mut f, _) = Forwarder::instantiate(base_msg(), String::from("me"));
    f.state = ContractState::Complete;
    let first = f.try_tick(0, None).unwrap();
    assert!(first.messages.is_empty());
    assert_eq!(first.attributes.len(), 1);
    assert_eq!(first.attributes[0].key, "contract_state");
    assert_eq!(first.attributes[0].value, "completed");
    let second = f.try_tick(0, None).unwrap();
    assert_eq!(first, second);
    assert_eq!(f.state, ContractState::Complete);
}

#[test]
fn ica_address_query_before_registration_errs() {
    let (f, _) = Forwarder::instantiate(base_msg(), String::from("me"));
    let err = f.query(QueryMsg::IcaAddress {}).unwrap_err();
    assert!(matches!(err, ibc_forwarder::msg::ContractError::AccountNotFound));
    let err2 = f.get_ica("ica").unwrap_err();
    assert!(matches!(err2, ibc_forwarder::msg::ContractError::AccountNotFound));
}

#[test]
fn remote_chain_info_query_returns_configuration() {
    let (f, _) = Forwarder::instantiate(base_msg(), String::from("me"));
    match f.query(QueryMsg::RemoteChainInfo {}).unwrap() {
        QueryResponse::RemoteChainInfo(Some(ci)) => {
            assert_eq!(ci.connection_id, "conn-0");
            assert_eq!(ci.channel_id, "channel-1");
            assert_eq!(ci.denom, "uatom");
            assert_eq!(ci.ibc_transfer_timeout, 100);
            assert_eq!(ci.ica_timeout, 200);
        }
        other => panic!("unexpected response: {other:?}"),
    }
}
