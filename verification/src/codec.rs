//! The wire-format boundary of the library: parsing the JSON payloads that
//! arrive with callbacks and replies, encoding the outbound transfer
//! instruction, and deriving the account key.

use vstd::prelude::*;
use vstd::string::StringExecFns;
use prost::Message;

use crate::msg::{ContractError, MsgTransfer, OpenAckVersion, OpenAckVersionView, ProtobufAny};
use crate::state::opt_string_view;

verus! {

/// Name for the result of parsing a text as a JSON object whose values are
/// all strings: `None` when the text is not such an object, otherwise the
/// key/value pairs.
pub uninterp spec fn json_string_map_of(s: Seq<char>) -> Option<Seq<(Seq<char>, Seq<char>)>>;

/// Name for the result of parsing submission-reply bytes into the (channel
/// id, sequence id) pair assigned to the in-flight packet.
pub uninterp spec fn submit_tx_response_of(data: Seq<u8>) -> Option<(Seq<char>, u64)>;

/// Name for the wire encoding of a transfer instruction with the given
/// fields.
pub uninterp spec fn msg_transfer_proto_bytes(
    source_port: Seq<char>,
    source_channel: Seq<char>,
    denom: Seq<char>,
    amount: Seq<char>,
    sender: Seq<char>,
    receiver: Seq<char>,
    timeout_timestamp: u64,
) -> Seq<u8>;

/// Spec-level image of parsed key/value pairs.
pub open spec fn pairs_view(v: Seq<(String, String)>) -> Seq<(Seq<char>, Seq<char>)> {
    v.map_values(|p: (String, String)| (p.0@, p.1@))
}

pub open spec fn distinct_pair_keys(m: Seq<(Seq<char>, Seq<char>)>) -> bool {
    forall|i: int, j: int| 0 <= i < j < m.len() ==> m[i].0 != m[j].0
}

/// Relies on serde_json_wasm::from_str deserializing into a
/// std::collections::BTreeMap<String, String>: the outcome is a function of
/// the text alone; it succeeds exactly when the text is one JSON object all
/// of whose values are strings, and the map hands out each key once.
#[verifier::external_body]
fn parse_json_string_map(s: &str) -> (r: Option<Vec<(String, String)>>)
    ensures
        match r {
            Some(v) => json_string_map_of(s@) == Some(pairs_view(v@)) && distinct_pair_keys(
                pairs_view(v@),
            ),
            None => json_string_map_of(s@) is None,
        },
{
    match serde_json_wasm::from_str::<std::collections::BTreeMap<String, String>>(s) {
        Ok(m) => Some(m.into_iter().collect()),
        Err(_) => None,
    }
}

/// Relies on serde_json_wasm::from_slice for neutron-sdk's
/// MsgSubmitTxResponse: the outcome is a function of the bytes alone,
/// yielding the source channel id and the per-channel sequence id that the
/// dispatch mechanism assigned to the submission.
#[verifier::external_body]
fn parse_submit_tx_response(data: &Vec<u8>) -> (r: Option<(String, u64)>)
    ensures
        match r {
            Some(p) => submit_tx_response_of(data@) == Some((p.0@, p.1)),
            None => submit_tx_response_of(data@) is None,
        },
{
    match serde_json_wasm::from_slice::<neutron_sdk::bindings::msg::MsgSubmitTxResponse>(data) {
        Ok(resp) => Some((resp.channel, resp.sequence_id)),
        Err(_) => None,
    }
}

/// Relies on prost's Message::encode_to_vec for cosmos-sdk-proto's
/// MsgTransfer: the deterministic wire encoding of the transfer instruction
/// built from these fields, with the token set to the given denomination and
/// amount and no timeout height.
#[verifier::external_body]
fn encode_msg_transfer(msg: &MsgTransfer) -> (r: Vec<u8>)
    ensures
        r@ == msg_transfer_proto_bytes(
            msg.source_port@,
            msg.source_channel@,
            msg.denom@,
            msg.amount@,
            msg.sender@,
            msg.receiver@,
            msg.timeout_timestamp,
        ),
{
    cosmos_sdk_proto::ibc::applications::transfer::v1::MsgTransfer {
        source_port: msg.source_port.clone(),
        source_channel: msg.source_channel.clone(),
        token: Some(cosmos_sdk_proto::cosmos::base::v1beta1::Coin {
            denom: msg.denom.clone(),
            amount: msg.amount.clone(),
        }),
        sender: msg.sender.clone(),
        receiver: msg.receiver.clone(),
        timeout_height: None,
        timeout_timestamp: msg.timeout_timestamp,
    }.encode_to_vec()
}

/// Encodes the transfer instruction into the remote chain's native wire
/// format, tagged with its type URL.
pub fn to_proto_msg_transfer(msg: &MsgTransfer) -> (r: Result<ProtobufAny, ContractError>)
    ensures
        r is Ok,
        (r matches Ok(p) ==> p.type_url@ == "/ibc.applications.transfer.v1.MsgTransfer"@
            && p.value@ == msg_transfer_proto_bytes(
            msg.source_port@,
            msg.source_channel@,
            msg.denom@,
            msg.amount@,
            msg.sender@,
            msg.receiver@,
            msg.timeout_timestamp,
        )),
{
    let value = encode_msg_transfer(msg);
    Ok(
        ProtobufAny {
            type_url: String::from_str("/ibc.applications.transfer.v1.MsgTransfer"),
            value,
        },
    )
}

/// First value stored under `k`, scanning the pairs front to back.
pub open spec fn pairs_lookup(m: Seq<(Seq<char>, Seq<char>)>, k: Seq<char>) -> Option<Seq<char>>
    decreases m.len(),
{
    if m.len() == 0 {
        None
    } else if m[0].0 == k {
        Some(m[0].1)
    } else {
        pairs_lookup(m.drop_first(), k)
    }
}

fn lookup_field(fields: &Vec<(String, String)>, key: &String) -> (r: Option<String>)
    ensures
        opt_string_view(r) == pairs_lookup(pairs_view(fields@), key@),
{
    let n = fields.len();
    let mut i: usize = 0;
    proof {
        assert(pairs_view(fields@).skip(0) =~= pairs_view(fields@));
    }
    while i < n
        invariant
            n == fields@.len(),
            i <= n,
            pairs_lookup(pairs_view(fields@), key@) == pairs_lookup(
                pairs_view(fields@).skip(i as int),
                key@,
            ),
        decreases n - i,
    {
        let hit = fields[i].0 == *key;
        proof {
            assert(pairs_view(fields@).skip(i as int)[0] == pairs_view(fields@)[i as int]);
        }
        if hit {
            return Some(fields[i].1.clone());
        }
        proof {
            assert(pairs_view(fields@).skip(i as int).drop_first() =~= pairs_view(fields@).skip(
                i as int + 1,
            ));
        }
        i += 1;
    }
    None
}

/// The open-acknowledgment payload a text denotes: a JSON object holding the
/// six expected string fields and nothing else.
pub open spec fn spec_parse_open_ack(s: Seq<char>) -> Option<OpenAckVersionView> {
    match json_string_map_of(s) {
        None => None,
        Some(m) => {
            if m.len() == 6 && pairs_lookup(m, "version"@) is Some && pairs_lookup(
                m,
                "controller_connection_id"@,
            ) is Some && pairs_lookup(m, "host_connection_id"@) is Some && pairs_lookup(
                m,
                "address"@,
            ) is Some && pairs_lookup(m, "encoding"@) is Some && pairs_lookup(
                m,
                "tx_type"@,
            ) is Some {
                Some(
                    OpenAckVersionView {
                        version: pairs_lookup(m, "version"@).unwrap(),
                        controller_connection_id: pairs_lookup(
                            m,
                            "controller_connection_id"@,
                        ).unwrap(),
                        host_connection_id: pairs_lookup(m, "host_connection_id"@).unwrap(),
                        address: pairs_lookup(m, "address"@).unwrap(),
                        encoding: pairs_lookup(m, "encoding"@).unwrap(),
                        tx_type: pairs_lookup(m, "tx_type"@).unwrap(),
                    },
                )
            } else {
                None
            }
        },
    }
}

/// Parses the structured version text delivered with an open-acknowledgment
/// callback. Succeeds exactly on the payloads `spec_parse_open_ack` accepts.
pub fn parse_open_ack_version(s: &str) -> (r: Result<OpenAckVersion, ContractError>)
    ensures
        match r {
            Ok(v) => spec_parse_open_ack(s@) == Some(v@),
            Err(e) => spec_parse_open_ack(s@) is None && e is ParseOpenAckFailed,
        },
{
    let fields = match parse_json_string_map(s) {
        Some(fields) => fields,
        None => {
            return Err(ContractError::ParseOpenAckFailed);
        },
    };
    if fields.len() != 6 {
        return Err(ContractError::ParseOpenAckFailed);
    }
    let version = match lookup_field(&fields, &String::from_str("version")) {
        Some(x) => x,
        None => {
            return Err(ContractError::ParseOpenAckFailed);
        },
    };
    let controller_connection_id = match lookup_field(
        &fields,
        &String::from_str("controller_connection_id"),
    ) {
        Some(x) => x,
        None => {
            return Err(ContractError::ParseOpenAckFailed);
        },
    };
    let host_connection_id = match lookup_field(&fields, &String::from_str("host_connection_id")) {
        Some(x) => x,
        None => {
            return Err(ContractError::ParseOpenAckFailed);
        },
    };
    let address = match lookup_field(&fields, &String::from_str("address")) {
        Some(x) => x,
        None => {
            return Err(ContractError::ParseOpenAckFailed);
        },
    };
    let encoding = match lookup_field(&fields, &String::from_str("encoding")) {
        Some(x) => x,
        None => {
            return Err(ContractError::ParseOpenAckFailed);
        },
    };
    let tx_type = match lookup_field(&fields, &String::from_str("tx_type")) {
        Some(x) => x,
        None => {
            return Err(ContractError::ParseOpenAckFailed);
        },
    };
    Ok(
        OpenAckVersion {
            version,
            controller_connection_id,
            host_connection_id,
            address,
            encoding,
            tx_type,
        },
    )
}

/// Reads back the (channel id, sequence id) pair from the data of a
/// successful submission reply. Succeeds exactly when the bytes parse.
pub fn parse_reply_data(data: &Vec<u8>) -> (r: Result<(String, u64), ContractError>)
    ensures
        match r {
            Ok(p) => submit_tx_response_of(data@) == Some((p.0@, p.1)),
            Err(e) => submit_tx_response_of(data@) is None && e is ParseResponseFailed,
        },
{
    match parse_submit_tx_response(data) {
        Some(p) => Ok(p),
        None => Err(ContractError::ParseResponseFailed),
    }
}

/// The derived account key: the controller port identifier built from an
/// address and an account label.
pub open spec fn port_key_of(addr: Seq<char>, interchain_account_id: Seq<char>) -> Seq<char> {
    "icacontroller-"@ + addr + "."@ + interchain_account_id
}

/// Builds the derived account key for `addr` and the given account label.
pub fn derive_port_id(addr: &str, interchain_account_id: &str) -> (r: String)
    ensures
        r@ == port_key_of(addr@, interchain_account_id@),
{
    let mut s = String::from_str("icacontroller-");
    s.append(addr);
    s.append(".");
    s.append(interchain_account_id);
    s
}

} // verus!
