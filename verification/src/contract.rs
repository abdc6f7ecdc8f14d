//! The workflow's entry points: creation, the tick driver and its two step
//! handlers, the query surface, the asynchronous callback handlers and the
//! immediate-reply (Stage A) correlation handler.

use vstd::prelude::*;
use vstd::string::StringExecFns;

use crate::codec::{
    derive_port_id, msg_transfer_proto_bytes, parse_open_ack_version, parse_reply_data,
    port_key_of, spec_parse_open_ack, submit_tx_response_of, to_proto_msg_transfer,
};
use crate::msg::{
    attr_is, Attribute, Coin, ContractError, ContractState, ExecuteMsg, IbcFee, InstantiateMsg,
    MsgTransfer, NeutronTx, OutMsg, ProtobufAny, QueryMsg, QueryResponse, RemoteChainInfo,
    RemoteChainInfoView, Reply, RequestPacket, Response, SudoMsg, SudoPayload,
};
use crate::state::{
    open_ack_next, opt_string_view, rekey_next, tick_next, timeout_next, AccountInfo, AccountStore,
    CallbackStore, Forwarder, StateView,
};

verus! {

/// The fixed label under which the delegated account is registered.
pub const INTERCHAIN_ACCOUNT_ID: &'static str = "ica";

/// The reply id under which Stage A expects the immediate reply.
pub const SUDO_PAYLOAD_REPLY_ID: u64 = 1;

fn attr(key: &str, value: &str) -> (a: Attribute)
    ensures
        a.key@ == key@,
        a.value@ == value@,
{
    Attribute { key: String::from_str(key), value: String::from_str(value) }
}

/// The fixed fee schedule: an empty receive bucket and one local gas-fee coin
/// in each of the acknowledgment and timeout buckets.
pub open spec fn fee_is_default(f: IbcFee) -> bool {
    f@.recv_fee.len() == 0 && f@.ack_fee.len() == 1 && f@.ack_fee[0] == ("untrn"@, 10000u128)
        && f@.timeout_fee.len() == 1 && f@.timeout_fee[0] == ("untrn"@, 10000u128)
}

fn default_fee() -> (f: IbcFee)
    ensures
        fee_is_default(f),
{
    let mut ack_fee: Vec<Coin> = Vec::new();
    ack_fee.push(Coin { denom: String::from_str("untrn"), amount: 10000 });
    let mut timeout_fee: Vec<Coin> = Vec::new();
    timeout_fee.push(Coin { denom: String::from_str("untrn"), amount: 10000 });
    let f = IbcFee { recv_fee: Vec::new(), ack_fee, timeout_fee };
    f
}

/// The timeout arithmetic of the forwarding step stays within the 64-bit
/// nanosecond clock: the host panics otherwise, so the library asks callers
/// to rule it out.
pub open spec fn transfer_timeout_fits(
    block_time_nanos: u64,
    ica_timeout: u64,
    ibc_transfer_timeout: u64,
) -> bool {
    ica_timeout * 1_000_000_000 <= u64::MAX && ibc_transfer_timeout * 1_000_000_000 <= u64::MAX
        && block_time_nanos + ica_timeout * 1_000_000_000 + ibc_transfer_timeout * 1_000_000_000
        <= u64::MAX
}

/// The inner transfer expires two timeout windows after the current block
/// time, so it always outlives the outer account transaction.
pub open spec fn transfer_timeout_ns(
    block_time_nanos: u64,
    ica_timeout: u64,
    ibc_transfer_timeout: u64,
) -> u64 {
    ((block_time_nanos + ica_timeout * 1_000_000_000 + ibc_transfer_timeout * 1_000_000_000)
        as u64)
}

/// A response with one method annotation and no outbound message.
pub open spec fn simple_method_response(r: Response, method: Seq<char>) -> bool {
    r.attributes@.len() == 1 && attr_is(r.attributes@[0], "method"@, method) && r.messages@.len()
        == 0
}

/// The registration response: one method annotation and exactly one outbound
/// registration request against the configured connection, with no reply
/// requested.
pub open spec fn is_register_response(r: Response, cfg: RemoteChainInfoView) -> bool {
    r.attributes@.len() == 1 && attr_is(r.attributes@[0], "method"@, "try_register_ica"@)
        && r.messages@.len() == 1 && r.messages@[0].reply_id is None && (r.messages@[0].msg
        matches NeutronTx::RegisterInterchainAccount { connection_id, interchain_account_id }
        && connection_id@ == cfg.connection_id && interchain_account_id@ == "ica"@)
}

/// The self-healing response of the forwarding step: no outbound message,
/// an informational annotation beside the method one.
pub open spec fn is_self_heal_response(r: Response) -> bool {
    r.attributes@.len() == 2 && attr_is(r.attributes@[0], "method"@, "try_forward_funds"@)
        && attr_is(r.attributes@[1], "error"@, "no_ica_found"@) && r.messages@.len() == 0
}

/// The forwarding response: one submission wrapping the encoded transfer
/// from the delegated account `acc` to `deposit_address`, over the
/// controller connection recorded for the account, carrying the configured
/// fee schedule and the outer timeout, and requesting a reply on success.
pub open spec fn is_forward_response(
    r: Response,
    cfg: RemoteChainInfoView,
    acc: (Seq<char>, Seq<char>),
    deposit_address: Seq<char>,
    block_time_nanos: u64,
) -> bool {
    r.attributes@.len() == 1 && attr_is(r.attributes@[0], "method"@, "try_forward_funds"@)
        && r.messages@.len() == 1 && r.messages@[0].reply_id == Some(SUDO_PAYLOAD_REPLY_ID) && (
    r.messages@[0].msg matches NeutronTx::SubmitTx {
        connection_id,
        interchain_account_id,
        msgs,
        memo,
        timeout,
        fee,
    } && connection_id@ == acc.1 && interchain_account_id@ == "ica"@ && memo@ == ""@ && timeout
        == cfg.ica_timeout && fee@ == cfg.ibc_fee && msgs@.len() == 1
        && msgs@[0].type_url@ == "/ibc.applications.transfer.v1.MsgTransfer"@
        && msgs@[0].value@ == msg_transfer_proto_bytes(
        "transfer"@,
        cfg.channel_id,
        cfg.denom,
        "10"@,
        acc.0,
        deposit_address,
        transfer_timeout_ns(block_time_nanos, cfg.ica_timeout, cfg.ibc_transfer_timeout),
    ))
}

impl Forwarder {
    /// The derived key under which this instance's delegated account lives.
    pub open spec fn own_port_key(self) -> Seq<char> {
        port_key_of(self.own_address@, "ica"@)
    }

    /// Creates the workflow in phase `Instantiated` with the given
    /// configuration, the fixed fee schedule and empty tables, and reports
    /// the creation.
    pub fn instantiate(msg: InstantiateMsg, contract_address: String) -> (r: (Forwarder, Response))
        ensures
            r.0.wf(),
            r.0.state is Instantiated,
            r.0.own_address@ == contract_address@,
            r.0.next_contract@ == msg.next_contract@,
            r.0.remote_chain_info.connection_id@ == msg.remote_chain_connection_id@,
            r.0.remote_chain_info.channel_id@ == msg.remote_chain_channel_id@,
            r.0.remote_chain_info.denom@ == msg.denom@,
            r.0.remote_chain_info.ibc_transfer_timeout == msg.ibc_transfer_timeout,
            r.0.remote_chain_info.ica_timeout == msg.ica_timeout,
            fee_is_default(r.0.remote_chain_info.ibc_fee),
            r.0@.accounts == Map::<Seq<char>, Option<(Seq<char>, Seq<char>)>>::empty(),
            r.0@.reply_payload is None,
            r.0@.callbacks == Map::<(Seq<char>, u64), (Seq<char>, Seq<char>)>::empty(),
            r.1.messages@.len() == 0,
            r.1.attributes@.len() == 3,
            attr_is(r.1.attributes@[0], "method"@, "ibc_forwarder_instantiate"@),
            attr_is(r.1.attributes@[1], "next_contract"@, msg.next_contract@),
            attr_is(r.1.attributes@[2], "contract_state"@, "instantiated"@),
    {
        let next_attr = Attribute {
            key: String::from_str("next_contract"),
            value: msg.next_contract.clone(),
        };
        let forwarder = Forwarder {
            state: ContractState::Instantiated,
            own_address: contract_address,
            next_contract: msg.next_contract,
            remote_chain_info: RemoteChainInfo {
                connection_id: msg.remote_chain_connection_id,
                channel_id: msg.remote_chain_channel_id,
                denom: msg.denom,
                ibc_transfer_timeout: msg.ibc_transfer_timeout,
                ica_timeout: msg.ica_timeout,
                ibc_fee: default_fee(),
            },
            interchain_accounts: AccountStore::empty_store(),
            reply_payload: None,
            sudo_payloads: CallbackStore::empty_store(),
        };
        let mut attributes: Vec<Attribute> = Vec::new();
        attributes.push(attr("method", "ibc_forwarder_instantiate"));
        attributes.push(next_attr);
        attributes.push(attr("contract_state", "instantiated"));
        (forwarder, Response { attributes, messages: Vec::new() })
    }

    /// Dispatches the single `Tick` command to the tick driver.
    pub fn execute(
        &mut self,
        msg: ExecuteMsg,
        block_time_nanos: u64,
        deposit_address: Option<String>,
    ) -> (r: Result<Response, ContractError>)
        requires
            old(self).wf(),
            old(self).state is IcaCreated ==> transfer_timeout_fits(
                block_time_nanos,
                old(self).remote_chain_info.ica_timeout,
                old(self).remote_chain_info.ibc_transfer_timeout,
            ),
        ensures
            final(self).wf(),
            Forwarder::config_unchanged(*old(self), *final(self)),
            final(self)@ == tick_next(
                old(self)@,
                old(self).own_port_key(),
                opt_string_view(deposit_address),
            ),
            deposit_address is None ==> final(self).state == old(self).state,
            old(self).state is Instantiated ==> (r matches Ok(resp) && is_register_response(
                resp,
                old(self).remote_chain_info@,
            )),
            old(self).state is Complete ==> (r matches Ok(resp) && resp.messages@.len() == 0
                && resp.attributes@.len() == 1 && attr_is(
                resp.attributes@[0],
                "contract_state"@,
                "completed"@,
            )),
            old(self).state is IcaCreated ==> forward_outcome(
                old(self)@,
                old(self).remote_chain_info@,
                old(self).own_port_key(),
                opt_string_view(deposit_address),
                block_time_nanos,
                r,
            ),
    {
        match msg {
            ExecuteMsg::Tick {  } => self.try_tick(block_time_nanos, deposit_address),
        }
    }

    /// The advance driver: inspects the current phase and runs the step it
    /// calls for. Safe to call repeatedly: a tick whose step finds its
    /// precondition unmet leaves the phase where it was, and only the
    /// self-healing path ever moves it (backwards, to `Instantiated`).
    pub fn try_tick(&mut self, block_time_nanos: u64, deposit_address: Option<String>) -> (r:
        Result<Response, ContractError>)
        requires
            old(self).wf(),
            old(self).state is IcaCreated ==> transfer_timeout_fits(
                block_time_nanos,
                old(self).remote_chain_info.ica_timeout,
                old(self).remote_chain_info.ibc_transfer_timeout,
            ),
        ensures
            final(self).wf(),
            Forwarder::config_unchanged(*old(self), *final(self)),
            final(self)@ == tick_next(
                old(self)@,
                old(self).own_port_key(),
                opt_string_view(deposit_address),
            ),
            deposit_address is None ==> final(self).state == old(self).state,
            old(self).state is Instantiated ==> (r matches Ok(resp) && is_register_response(
                resp,
                old(self).remote_chain_info@,
            )),
            old(self).state is Complete ==> (r matches Ok(resp) && resp.messages@.len() == 0
                && resp.attributes@.len() == 1 && attr_is(
                resp.attributes@[0],
                "contract_state"@,
                "completed"@,
            )),
            old(self).state is IcaCreated ==> forward_outcome(
                old(self)@,
                old(self).remote_chain_info@,
                old(self).own_port_key(),
                opt_string_view(deposit_address),
                block_time_nanos,
                r,
            ),
    {
        match self.state {
            ContractState::Instantiated => self.try_register_ica(),
            ContractState::IcaCreated => self.try_forward_funds(block_time_nanos, deposit_address),
            ContractState::Complete => {
                let mut attributes: Vec<Attribute> = Vec::new();
                attributes.push(attr("contract_state", "completed"));
                Ok(Response { attributes, messages: Vec::new() })
            },
        }
    }

    /// The registration step: emits one request to open the delegated
    /// account on the configured connection and prepares the record under
    /// the derived key as `absent`, so the later open-acknowledgment only
    /// ever overwrites an existing key. The phase does not change here; only
    /// the open-acknowledgment callback advances it.
    pub fn try_register_ica(&mut self) -> (r: Result<Response, ContractError>)
        requires
            old(self).wf(),
            old(self).state is Instantiated,
        ensures
            final(self).wf(),
            Forwarder::config_unchanged(*old(self), *final(self)),
            final(self).state == old(self).state,
            final(self)@ == (StateView {
                accounts: old(self)@.accounts.insert(old(self).own_port_key(), None),
                ..old(self)@
            }),
            r matches Ok(resp) && is_register_response(resp, old(self).remote_chain_info@),
    {
        let register_msg = NeutronTx::RegisterInterchainAccount {
            connection_id: self.remote_chain_info.connection_id.clone(),
            interchain_account_id: String::from_str(INTERCHAIN_ACCOUNT_ID),
        };
        let key = derive_port_id(self.own_address.as_str(), INTERCHAIN_ACCOUNT_ID);
        self.interchain_accounts.save(key, None);
        let mut attributes: Vec<Attribute> = Vec::new();
        attributes.push(attr("method", "try_register_ica"));
        let mut messages: Vec<OutMsg> = Vec::new();
        messages.push(OutMsg { msg: register_msg, reply_id: None });
        Ok(Response { attributes, messages })
    }

    /// The forwarding step: requires the downstream collaborator to be
    /// ready, loads the delegated account, builds and encodes the transfer,
    /// wraps it in a remote-execution envelope, persists the pending payload
    /// and submits with a reply requested on success. Not-ready is
    /// recoverable; a record holding no address yet self-heals by resetting
    /// the phase.
    pub fn try_forward_funds(
        &mut self,
        block_time_nanos: u64,
        deposit_address: Option<String>,
    ) -> (r: Result<Response, ContractError>)
        requires
            old(self).wf(),
            old(self).state is IcaCreated,
            transfer_timeout_fits(
                block_time_nanos,
                old(self).remote_chain_info.ica_timeout,
                old(self).remote_chain_info.ibc_transfer_timeout,
            ),
        ensures
            final(self).wf(),
            Forwarder::config_unchanged(*old(self), *final(self)),
            final(self)@ == tick_next(
                old(self)@,
                old(self).own_port_key(),
                opt_string_view(deposit_address),
            ),
            forward_outcome(
                old(self)@,
                old(self).remote_chain_info@,
                old(self).own_port_key(),
                opt_string_view(deposit_address),
                block_time_nanos,
                r,
            ),
    {
        let deposit = match deposit_address {
            Some(d) => d,
            None => {
                return Err(ContractError::NotReady);
            },
        };
        let ghost gdep = deposit@;
        let port_id = derive_port_id(self.own_address.as_str(), INTERCHAIN_ACCOUNT_ID);
        let entry = self.interchain_accounts.load(&port_id);
        match entry {
            None => Err(ContractError::AccountNotFound),
            Some(None) => {
                self.state = ContractState::Instantiated;
                let mut attributes: Vec<Attribute> = Vec::new();
                attributes.push(attr("method", "try_forward_funds"));
                attributes.push(attr("error", "no_ica_found"));
                Ok(Response { attributes, messages: Vec::new() })
            },
            Some(Some(account)) => {
                let t1 = self.remote_chain_info.ica_timeout * 1_000_000_000;
                let t2 = self.remote_chain_info.ibc_transfer_timeout * 1_000_000_000;
                let timeout_timestamp = block_time_nanos + t1 + t2;
                let transfer_msg = MsgTransfer {
                    source_port: String::from_str("transfer"),
                    source_channel: self.remote_chain_info.channel_id.clone(),
                    denom: self.remote_chain_info.denom.clone(),
                    amount: String::from_str("10"),
                    sender: account.address.clone(),
                    receiver: deposit,
                    timeout_timestamp,
                };
                let protobuf_msg = match to_proto_msg_transfer(&transfer_msg) {
                    Ok(p) => p,
                    Err(e) => {
                        return Err(e);
                    },
                };
                let mut msgs: Vec<ProtobufAny> = Vec::new();
                msgs.push(protobuf_msg);
                let submit_msg = NeutronTx::SubmitTx {
                    connection_id: account.controller_connection_id,
                    interchain_account_id: String::from_str(INTERCHAIN_ACCOUNT_ID),
                    msgs,
                    memo: String::from_str(""),
                    timeout: self.remote_chain_info.ica_timeout,
                    fee: self.remote_chain_info.ibc_fee.duplicate(),
                };
                let submsg = self.msg_with_sudo_callback(
                    submit_msg,
                    SudoPayload { message: String::from_str("try_forward_funds"), port_id },
                );
                let mut attributes: Vec<Attribute> = Vec::new();
                attributes.push(attr("method", "try_forward_funds"));
                let mut messages: Vec<OutMsg> = Vec::new();
                messages.push(submsg);
                Ok(Response { attributes, messages })
            },
        }
    }

    /// Persists the pending payload and wraps the request so that a reply is
    /// delivered, on success only, under the Stage A reply id.
    pub fn msg_with_sudo_callback(&mut self, msg: NeutronTx, payload: SudoPayload) -> (r: OutMsg)
        requires
            old(self).wf(),
        ensures
            final(self).wf(),
            Forwarder::config_unchanged(*old(self), *final(self)),
            final(self).state == old(self).state,
            final(self)@ == (StateView { reply_payload: Some(payload@), ..old(self)@ }),
            r.msg == msg,
            r.reply_id == Some(SUDO_PAYLOAD_REPLY_ID),
    {
        self.save_reply_payload(payload);
        OutMsg { msg, reply_id: Some(SUDO_PAYLOAD_REPLY_ID) }
    }

    /// Answers the read-only queries: phase, configuration snapshot, deposit
    /// address (this instance's delegated account address, absent until the
    /// account is confirmed) and the account address itself (an error until
    /// confirmed).
    pub fn query(&self, msg: QueryMsg) -> (r: Result<QueryResponse, ContractError>)
        requires
            self.wf(),
        ensures
            (msg matches QueryMsg::ContractState {  } ==> (r matches Ok(
                QueryResponse::ContractState(s),
            ) && s == Some(self.state))),
            (msg matches QueryMsg::RemoteChainInfo {  } ==> (r matches Ok(
                QueryResponse::RemoteChainInfo(c),
            ) && (c matches Some(ci) && ci@ == self.remote_chain_info@))),
            (msg matches QueryMsg::DepositAddress {  } ==> (r matches Ok(
                QueryResponse::DepositAddress(d),
            ) && opt_string_view(d) == deposit_address_of(self@, self.own_port_key()))),
            (msg matches QueryMsg::IcaAddress {  } ==> ica_address_outcome(
                self@,
                self.own_port_key(),
                r,
            )),
    {
        match msg {
            QueryMsg::ContractState {  } => Ok(QueryResponse::ContractState(Some(self.state))),
            QueryMsg::RemoteChainInfo {  } => Ok(
                QueryResponse::RemoteChainInfo(Some(self.remote_chain_info.duplicate())),
            ),
            QueryMsg::DepositAddress {  } => {
                let key = derive_port_id(self.own_address.as_str(), INTERCHAIN_ACCOUNT_ID);
                let ica = match self.interchain_accounts.load(&key) {
                    Some(entry) => match entry {
                        Some(account) => Some(account.address),
                        None => None,
                    },
                    None => None,
                };
                Ok(QueryResponse::DepositAddress(ica))
            },
            QueryMsg::IcaAddress {  } => {
                let account = match self.get_ica(INTERCHAIN_ACCOUNT_ID) {
                    Ok(a) => a,
                    Err(e) => {
                        return Err(e);
                    },
                };
                Ok(QueryResponse::IcaAddress(account.address))
            },
        }
    }

    /// Loads the confirmed delegated account registered under the given
    /// label, erring while none is confirmed (or none was ever requested).
    pub fn get_ica(&self, interchain_account_id: &str) -> (r: Result<AccountInfo, ContractError>)
        requires
            self.wf(),
        ensures
            ica_account_outcome(
                self@,
                port_key_of(self.own_address@, interchain_account_id@),
                r,
            ),
    {
        let key = derive_port_id(self.own_address.as_str(), interchain_account_id);
        match self.interchain_accounts.load(&key) {
            None => Err(ContractError::AccountNotFound),
            Some(None) => Err(ContractError::IcaNotCreated),
            Some(Some(account)) => Ok(account),
        }
    }

    /// Dispatches an asynchronous callback to its handler; shapes beyond the
    /// four understood ones are accepted as a no-op.
    pub fn sudo(&mut self, msg: SudoMsg) -> (r: Result<Response, ContractError>)
        requires
            old(self).wf(),
        ensures
            final(self).wf(),
            Forwarder::config_unchanged(*old(self), *final(self)),
            (msg matches SudoMsg::Timeout { request } ==> final(self)@ == timeout_next(old(self)@)
                && (r matches Ok(resp) && resp.attributes@.len() == 0 && resp.messages@.len()
                == 0)),
            (msg matches SudoMsg::OpenAck {
                port_id,
                channel_id,
                counterparty_channel_id,
                counterparty_version,
            } ==> open_ack_outcome(old(self)@, final(self)@, port_id@, counterparty_version@, r)),
            (msg matches SudoMsg::Response { request, data } ==> *final(self) == *old(self)
                && packet_ack_outcome(request.sequence, opt_string_view(request.source_channel), r, "sudo_response"@)),
            (msg matches SudoMsg::Error { request, details } ==> *final(self) == *old(self)
                && packet_ack_outcome(request.sequence, opt_string_view(request.source_channel), r, "sudo_error"@)),
            (msg matches SudoMsg::Other {  } ==> *final(self) == *old(self) && (r matches Ok(resp)
                && resp.attributes@.len() == 0 && resp.messages@.len() == 0)),
    {
        match msg {
            SudoMsg::Response { request, data } => self.sudo_response(request, data),
            SudoMsg::Error { request, details } => self.sudo_error(request, details),
            SudoMsg::Timeout { request } => self.sudo_timeout(request),
            SudoMsg::OpenAck {
                port_id,
                channel_id,
                counterparty_channel_id,
                counterparty_version,
            } => self.sudo_open_ack(
                port_id,
                channel_id,
                counterparty_channel_id,
                counterparty_version,
            ),
            SudoMsg::Other {  } => Ok(Response { attributes: Vec::new(), messages: Vec::new() }),
        }
    }

    /// The one-time confirmation that the delegated account exists: parses
    /// the structured version text, overwrites the record under the callback
    /// port id with the (address, controller connection id) pair and
    /// advances the phase to `IcaCreated`. This is the only path past
    /// `Instantiated`. Parse failure reports an error and changes nothing.
    pub fn sudo_open_ack(
        &mut self,
        port_id: String,
        _channel_id: String,
        _counterparty_channel_id: String,
        counterparty_version: String,
    ) -> (r: Result<Response, ContractError>)
        requires
            old(self).wf(),
        ensures
            final(self).wf(),
            Forwarder::config_unchanged(*old(self), *final(self)),
            open_ack_outcome(old(self)@, final(self)@, port_id@, counterparty_version@, r),
    {
        let parsed_version = match parse_open_ack_version(counterparty_version.as_str()) {
            Ok(v) => v,
            Err(e) => {
                return Err(e);
            },
        };
        self.interchain_accounts.save(
            port_id,
            Some(
                AccountInfo {
                    address: parsed_version.address,
                    controller_connection_id: parsed_version.controller_connection_id,
                },
            ),
        );
        self.state = ContractState::IcaCreated;
        let mut attributes: Vec<Attribute> = Vec::new();
        attributes.push(attr("method", "sudo_open_ack"));
        Ok(Response { attributes, messages: Vec::new() })
    }

    /// A positive acknowledgment of a submitted packet: validates that the
    /// correlation fields are present (their absence closes the channel,
    /// surfaced as an error) and acknowledges. No phase transition happens
    /// here.
    pub fn sudo_response(&mut self, request: RequestPacket, _data: Vec<u8>) -> (r: Result<
        Response,
        ContractError,
    >)
        requires
            old(self).wf(),
        ensures
            *final(self) == *old(self),
            packet_ack_outcome(
                request.sequence,
                opt_string_view(request.source_channel),
                r,
                "sudo_response"@,
            ),
    {
        if request.sequence.is_none() {
            return Err(ContractError::MissingSequence);
        }
        if request.source_channel.is_none() {
            return Err(ContractError::MissingSourceChannel);
        }
        let mut attributes: Vec<Attribute> = Vec::new();
        attributes.push(attr("method", "sudo_response"));
        Ok(Response { attributes, messages: Vec::new() })
    }

    /// A negative acknowledgment: same validation as the positive one; the
    /// diagnostic detail is informational only.
    pub fn sudo_error(&mut self, request: RequestPacket, _details: String) -> (r: Result<
        Response,
        ContractError,
    >)
        requires
            old(self).wf(),
        ensures
            *final(self) == *old(self),
            packet_ack_outcome(
                request.sequence,
                opt_string_view(request.source_channel),
                r,
                "sudo_error"@,
            ),
    {
        if request.sequence.is_none() {
            return Err(ContractError::MissingSequence);
        }
        if request.source_channel.is_none() {
            return Err(ContractError::MissingSourceChannel);
        }
        let mut attributes: Vec<Attribute> = Vec::new();
        attributes.push(attr("method", "sudo_error"));
        Ok(Response { attributes, messages: Vec::new() })
    }

    /// A packet timed out; the ordered channel is closed for good. Recovery
    /// is to reset the phase to `Instantiated` unconditionally, so the next
    /// tick reopens a fresh account. Anticipated, not an error.
    pub fn sudo_timeout(&mut self, _request: RequestPacket) -> (r: Result<Response, ContractError>)
        requires
            old(self).wf(),
        ensures
            final(self).wf(),
            Forwarder::config_unchanged(*old(self), *final(self)),
            final(self)@ == timeout_next(old(self)@),
            final(self).state is Instantiated,
            r matches Ok(resp) && resp.attributes@.len() == 0 && resp.messages@.len() == 0,
    {
        self.state = ContractState::Instantiated;
        Ok(Response { attributes: Vec::new(), messages: Vec::new() })
    }

    /// Stores the pending payload in the transient reply slot.
    pub fn save_reply_payload(&mut self, payload: SudoPayload)
        requires
            old(self).wf(),
        ensures
            final(self).wf(),
            Forwarder::config_unchanged(*old(self), *final(self)),
            final(self).state == old(self).state,
            final(self)@ == (StateView { reply_payload: Some(payload@), ..old(self)@ }),
    {
        self.reply_payload = Some(payload);
    }

    /// Reads the pending payload back from the transient reply slot.
    pub fn read_reply_payload(&self) -> (r: Result<SudoPayload, ContractError>)
        ensures
            match r {
                Ok(p) => self@.reply_payload == Some(p@),
                Err(e) => self@.reply_payload is None && e is MissingReplyPayload,
            },
    {
        match &self.reply_payload {
            Some(p) => Ok(p.duplicate()),
            None => Err(ContractError::MissingReplyPayload),
        }
    }

    /// Re-keys a payload under the (channel id, sequence id) pair assigned
    /// to the in-flight packet.
    pub fn save_sudo_payload(&mut self, channel_id: String, seq_id: u64, payload: SudoPayload)
        requires
            old(self).wf(),
        ensures
            final(self).wf(),
            Forwarder::config_unchanged(*old(self), *final(self)),
            final(self).state == old(self).state,
            final(self)@ == (StateView {
                callbacks: old(self)@.callbacks.insert((channel_id@, seq_id), payload@),
                ..old(self)@
            }),
    {
        self.sudo_payloads.save(channel_id, seq_id, payload);
    }

    /// Looks a re-keyed payload up by the (channel id, sequence id) pair a
    /// later callback carries.
    pub fn get_sudo_payload(&self, channel_id: &String, sequence_id: u64) -> (r: Option<
        SudoPayload,
    >)
        requires
            self.wf(),
        ensures
            match r {
                Some(p) => self@.callbacks.contains_key((channel_id@, sequence_id)) && p@
                    == self@.callbacks[(channel_id@, sequence_id)],
                None => !self@.callbacks.contains_key((channel_id@, sequence_id)),
            },
    {
        self.sudo_payloads.load(channel_id, sequence_id)
    }

    /// The immediate-reply entry point: accepts only the Stage A reply id.
    pub fn reply(&mut self, msg: Reply) -> (r: Result<Response, ContractError>)
        requires
            old(self).wf(),
        ensures
            final(self).wf(),
            Forwarder::config_unchanged(*old(self), *final(self)),
            msg.id != SUDO_PAYLOAD_REPLY_ID ==> *final(self) == *old(self) && (r matches Err(
                ContractError::UnsupportedReplyId(id),
            ) && id == msg.id),
            msg.id == SUDO_PAYLOAD_REPLY_ID ==> stage_a_outcome(
                old(self)@,
                msg,
                final(self)@,
                r,
            ),
    {
        let id = msg.id;
        if id != SUDO_PAYLOAD_REPLY_ID {
            return Err(ContractError::UnsupportedReplyId(id));
        }
        self.prepare_sudo_payload(msg)
    }

    /// Stage A of the correlation engine: reads the pending payload back,
    /// extracts the (channel id, sequence id) the packet was assigned from
    /// the reply data, and re-persists the same payload under that pair, the
    /// key by which the eventual asynchronous callback is addressed.
    pub fn prepare_sudo_payload(&mut self, msg: Reply) -> (r: Result<Response, ContractError>)
        requires
            old(self).wf(),
        ensures
            final(self).wf(),
            Forwarder::config_unchanged(*old(self), *final(self)),
            stage_a_outcome(old(self)@, msg, final(self)@, r),
    {
        let payload = match self.read_reply_payload() {
            Ok(p) => p,
            Err(e) => {
                return Err(e);
            },
        };
        let reply_data = match msg.result {
            Ok(d) => d,
            Err(e) => {
                return Err(ContractError::SubmitFailed(e));
            },
        };
        let bytes = match reply_data.data {
            Some(b) => b,
            None => {
                return Err(ContractError::MissingReplyData);
            },
        };
        let parsed = match parse_reply_data(&bytes) {
            Ok(p) => p,
            Err(e) => {
                return Err(e);
            },
        };
        let (channel_id, seq_id) = parsed;
        self.save_sudo_payload(channel_id, seq_id, payload);
        Ok(Response { attributes: Vec::new(), messages: Vec::new() })
    }
}

/// Outcome of the forwarding step, as a function of the prior state, the
/// configuration, the derived key, the readiness answer and the block time:
/// not-ready errs without mutation, a missing record errs, an unconfirmed
/// record self-heals, a confirmed record produces exactly the submission.
pub open spec fn forward_outcome(
    pre: StateView,
    cfg: RemoteChainInfoView,
    port_key: Seq<char>,
    deposit_address: Option<Seq<char>>,
    block_time_nanos: u64,
    r: Result<Response, ContractError>,
) -> bool {
    match deposit_address {
        None => r matches Err(e) && e is NotReady,
        Some(dep) => {
            if !pre.accounts.contains_key(port_key) {
                r matches Err(e) && e is AccountNotFound
            } else {
                match pre.accounts[port_key] {
                    None => r matches Ok(resp) && is_self_heal_response(resp),
                    Some(acc) => r matches Ok(resp) && is_forward_response(
                        resp,
                        cfg,
                        acc,
                        dep,
                        block_time_nanos,
                    ),
                }
            }
        },
    }
}

/// Outcome of an open-acknowledgment callback: on a parseable version text
/// the record under the callback's port id is populated and the phase is
/// `IcaCreated`; otherwise an error and no change.
pub open spec fn open_ack_outcome(
    pre: StateView,
    post: StateView,
    port_id: Seq<char>,
    counterparty_version: Seq<char>,
    r: Result<Response, ContractError>,
) -> bool {
    match spec_parse_open_ack(counterparty_version) {
        Some(v) => post == open_ack_next(pre, port_id, v.address, v.controller_connection_id) && (
        r matches Ok(resp) && simple_method_response(resp, "sudo_open_ack"@)),
        None => post == pre && (r matches Err(e) && e is ParseOpenAckFailed),
    }
}

/// Outcome of a positive or negative packet acknowledgment: both correlation
/// fields must be present, the sequence id checked first; then a method
/// annotation and nothing else.
pub open spec fn packet_ack_outcome(
    sequence: Option<u64>,
    source_channel: Option<Seq<char>>,
    r: Result<Response, ContractError>,
    method: Seq<char>,
) -> bool {
    match sequence {
        None => r matches Err(e) && e is MissingSequence,
        Some(_) => match source_channel {
            None => r matches Err(e) && e is MissingSourceChannel,
            Some(_) => r matches Ok(resp) && simple_method_response(resp, method),
        },
    }
}

/// Outcome of Stage A: the payload must be pending, the reply successful
/// with data, the data parseable; then the state is re-keyed and the reply
/// answered silently, every failure leaving the state untouched.
pub open spec fn stage_a_outcome(
    pre: StateView,
    msg: Reply,
    post: StateView,
    r: Result<Response, ContractError>,
) -> bool {
    if pre.reply_payload is None {
        post == pre && (r matches Err(e) && e is MissingReplyPayload)
    } else {
        match msg.result {
            Err(e) => post == pre && (r matches Err(ContractError::SubmitFailed(d)) && d@ == e@),
            Ok(reply_data) => match reply_data.data {
                None => post == pre && (r matches Err(e2) && e2 is MissingReplyData),
                Some(bytes) => match submit_tx_response_of(bytes@) {
                    None => post == pre && (r matches Err(e3) && e3 is ParseResponseFailed),
                    Some(cq) => post == rekey_next(pre, cq.0, cq.1) && (r matches Ok(resp)
                        && resp.attributes@.len() == 0 && resp.messages@.len() == 0),
                },
            },
        }
    }
}

/// The deposit address a state answers: the delegated account's remote
/// address once confirmed, absent before.
pub open spec fn deposit_address_of(s: StateView, port_key: Seq<char>) -> Option<Seq<char>> {
    if s.accounts.contains_key(port_key) {
        match s.accounts[port_key] {
            Some(acc) => Some(acc.0),
            None => None,
        }
    } else {
        None
    }
}

/// Outcome of reading the confirmed account: the pair once confirmed, a
/// distinct error for a missing record and for an unconfirmed one.
pub open spec fn ica_account_outcome(
    s: StateView,
    port_key: Seq<char>,
    r: Result<AccountInfo, ContractError>,
) -> bool {
    if !s.accounts.contains_key(port_key) {
        r matches Err(e) && e is AccountNotFound
    } else {
        match s.accounts[port_key] {
            None => r matches Err(e) && e is IcaNotCreated,
            Some(acc) => r matches Ok(a) && a.address@ == acc.0 && a.controller_connection_id@
                == acc.1,
        }
    }
}

/// Outcome of the account-address query, built on `ica_account_outcome`.
pub open spec fn ica_address_outcome(
    s: StateView,
    port_key: Seq<char>,
    r: Result<QueryResponse, ContractError>,
) -> bool {
    if !s.accounts.contains_key(port_key) {
        r matches Err(e) && e is AccountNotFound
    } else {
        match s.accounts[port_key] {
            None => r matches Err(e) && e is IcaNotCreated,
            Some(acc) => r matches Ok(QueryResponse::IcaAddress(a)) && a@ == acc.0,
        }
    }
}

} // verus!
