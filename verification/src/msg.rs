//! Messages, configuration records and responses of the forwarding workflow,
//! together with their spec-level views.

use vstd::prelude::*;

verus! {

/// A coin amount in minor units of some denomination.
#[derive(Debug, PartialEq, Eq)]
pub struct Coin {
    pub denom: String,
    pub amount: u128,
}

impl View for Coin {
    type V = (Seq<char>, u128);

    open spec fn view(&self) -> (Seq<char>, u128) {
        (self.denom@, self.amount)
    }
}

impl Coin {
    pub fn duplicate(&self) -> (r: Coin)
        ensures
            r@ == self@,
    {
        Coin { denom: self.denom.clone(), amount: self.amount }
    }
}

/// Spec-level image of a coin sequence.
pub open spec fn coins_view(s: Seq<Coin>) -> Seq<(Seq<char>, u128)> {
    s.map_values(|c: Coin| c@)
}

/// The fee schedule attached to every remote-execution submission: a receive
/// bucket (empty by policy), an acknowledgment bucket and a timeout bucket.
#[derive(Debug, PartialEq, Eq)]
pub struct IbcFee {
    pub recv_fee: Vec<Coin>,
    pub ack_fee: Vec<Coin>,
    pub timeout_fee: Vec<Coin>,
}

/// Spec-level image of a fee schedule.
pub struct FeeView {
    pub recv_fee: Seq<(Seq<char>, u128)>,
    pub ack_fee: Seq<(Seq<char>, u128)>,
    pub timeout_fee: Seq<(Seq<char>, u128)>,
}

impl View for IbcFee {
    type V = FeeView;

    open spec fn view(&self) -> FeeView {
        FeeView {
            recv_fee: coins_view(self.recv_fee@),
            ack_fee: coins_view(self.ack_fee@),
            timeout_fee: coins_view(self.timeout_fee@),
        }
    }
}

pub fn duplicate_coins(v: &Vec<Coin>) -> (r: Vec<Coin>)
    ensures
        coins_view(r@) == coins_view(v@),
{
    let mut r: Vec<Coin> = Vec::new();
    let mut i: usize = 0;
    while i < v.len()
        invariant
            i <= v.len(),
            r@.len() == i,
            forall|j: int| 0 <= j < i ==> r@[j]@ == v@[j]@,
        decreases v.len() - i,
    {
        r.push(v[i].duplicate());
        i += 1;
    }
    proof {
        assert(coins_view(r@) =~= coins_view(v@));
    }
    r
}

impl IbcFee {
    pub fn duplicate(&self) -> (r: IbcFee)
        ensures
            r@ == self@,
    {
        let r = IbcFee {
            recv_fee: duplicate_coins(&self.recv_fee),
            ack_fee: duplicate_coins(&self.ack_fee),
            timeout_fee: duplicate_coins(&self.timeout_fee),
        };
        r
    }
}

/// Immutable remote-chain connection parameters, written once at creation.
#[derive(Debug, PartialEq, Eq)]
pub struct RemoteChainInfo {
    /// Connection from the local chain to the remote chain on which the
    /// delegated account is opened.
    pub connection_id: String,
    pub channel_id: String,
    pub denom: String,
    /// Timeout in seconds for the inner fund transfer sent from the delegated
    /// account onward; added on top of the account timeout below.
    pub ibc_transfer_timeout: u64,
    /// Timeout in seconds for submissions over the delegated account's
    /// (ordered) channel; a timeout closes that channel.
    pub ica_timeout: u64,
    pub ibc_fee: IbcFee,
}

/// Spec-level image of the configuration record.
pub struct RemoteChainInfoView {
    pub connection_id: Seq<char>,
    pub channel_id: Seq<char>,
    pub denom: Seq<char>,
    pub ibc_transfer_timeout: u64,
    pub ica_timeout: u64,
    pub ibc_fee: FeeView,
}

impl View for RemoteChainInfo {
    type V = RemoteChainInfoView;

    open spec fn view(&self) -> RemoteChainInfoView {
        RemoteChainInfoView {
            connection_id: self.connection_id@,
            channel_id: self.channel_id@,
            denom: self.denom@,
            ibc_transfer_timeout: self.ibc_transfer_timeout,
            ica_timeout: self.ica_timeout,
            ibc_fee: self.ibc_fee@,
        }
    }
}

impl RemoteChainInfo {
    pub fn duplicate(&self) -> (r: RemoteChainInfo)
        ensures
            r@ == self@,
    {
        RemoteChainInfo {
            connection_id: self.connection_id.clone(),
            channel_id: self.channel_id.clone(),
            denom: self.denom.clone(),
            ibc_transfer_timeout: self.ibc_transfer_timeout,
            ica_timeout: self.ica_timeout,
            ibc_fee: self.ibc_fee.duplicate(),
        }
    }
}

/// Creation parameters of the workflow.
#[derive(Debug, PartialEq, Eq)]
pub struct InstantiateMsg {
    /// Address of the downstream collaborator that will receive the funds.
    pub next_contract: String,
    pub remote_chain_connection_id: String,
    pub remote_chain_channel_id: String,
    pub denom: String,
    /// Timeout in seconds for the inner fund transfer; see `RemoteChainInfo`.
    pub ibc_transfer_timeout: u64,
    /// Timeout in seconds for submissions over the delegated account channel.
    pub ica_timeout: u64,
}

/// The single no-argument command that drives the state machine.
#[derive(Debug, PartialEq, Eq)]
pub enum ExecuteMsg {
    Tick {},
}

/// The persisted workflow phase.
#[derive(Clone, Copy, Debug, PartialEq, Eq, Structural)]
pub enum ContractState {
    /// Ready to request the delegated account.
    Instantiated,
    /// The delegated account exists; funds are ready to be forwarded.
    IcaCreated,
    /// The forwarding workflow is complete.
    Complete,
}

/// Read-only projections of state for external observers.
#[derive(Debug, PartialEq, Eq)]
pub enum QueryMsg {
    ContractState {},
    DepositAddress {},
    RemoteChainInfo {},
    IcaAddress {},
}

/// Answers to the query surface, one variant per query.
#[derive(Debug, PartialEq, Eq)]
pub enum QueryResponse {
    ContractState(Option<ContractState>),
    DepositAddress(Option<String>),
    RemoteChainInfo(Option<RemoteChainInfo>),
    IcaAddress(String),
}

/// The structured payload of an open-acknowledgment callback, carrying the
/// address generated for the delegated account.
#[derive(Debug, PartialEq, Eq)]
pub struct OpenAckVersion {
    pub version: String,
    pub controller_connection_id: String,
    pub host_connection_id: String,
    pub address: String,
    pub encoding: String,
    pub tx_type: String,
}

/// Spec-level image of an open-acknowledgment payload.
pub struct OpenAckVersionView {
    pub version: Seq<char>,
    pub controller_connection_id: Seq<char>,
    pub host_connection_id: Seq<char>,
    pub address: Seq<char>,
    pub encoding: Seq<char>,
    pub tx_type: Seq<char>,
}

impl View for OpenAckVersion {
    type V = OpenAckVersionView;

    open spec fn view(&self) -> OpenAckVersionView {
        OpenAckVersionView {
            version: self.version@,
            controller_connection_id: self.controller_connection_id@,
            host_connection_id: self.host_connection_id@,
            address: self.address@,
            encoding: self.encoding@,
            tx_type: self.tx_type@,
        }
    }
}

/// The pending context written right before a submission and read back when
/// the immediate reply arrives: a step label and the derived account key.
#[derive(Debug, PartialEq, Eq)]
pub struct SudoPayload {
    pub message: String,
    pub port_id: String,
}

impl View for SudoPayload {
    type V = (Seq<char>, Seq<char>);

    open spec fn view(&self) -> (Seq<char>, Seq<char>) {
        (self.message@, self.port_id@)
    }
}

impl SudoPayload {
    pub fn duplicate(&self) -> (r: SudoPayload)
        ensures
            r@ == self@,
    {
        SudoPayload { message: self.message.clone(), port_id: self.port_id.clone() }
    }
}

/// Height bound carried by a request packet; unused by this workflow.
#[derive(Debug, PartialEq, Eq)]
pub struct RequestPacketTimeoutHeight {
    pub revision_number: Option<u64>,
    pub revision_height: Option<u64>,
}

/// The correlation fields delivered with asynchronous callbacks.
#[derive(Debug, PartialEq, Eq)]
pub struct RequestPacket {
    pub sequence: Option<u64>,
    pub source_port: Option<String>,
    pub source_channel: Option<String>,
    pub destination_port: Option<String>,
    pub destination_channel: Option<String>,
    pub data: Option<Vec<u8>>,
    pub timeout_height: Option<RequestPacketTimeoutHeight>,
    pub timeout_timestamp: Option<u64>,
}

/// The asynchronous callback shapes delivered by the host runtime. Any shape
/// beyond the four the workflow understands arrives as `Other`.
#[derive(Debug, PartialEq, Eq)]
pub enum SudoMsg {
    Response { request: RequestPacket, data: Vec<u8> },
    Error { request: RequestPacket, details: String },
    Timeout { request: RequestPacket },
    OpenAck {
        port_id: String,
        channel_id: String,
        counterparty_channel_id: String,
        counterparty_version: String,
    },
    Other {},
}

/// The data of a successful immediate reply.
#[derive(Debug, PartialEq, Eq)]
pub struct ReplyData {
    pub data: Option<Vec<u8>>,
}

/// The immediate reply handed back by the dispatch mechanism for a submission
/// that requested one.
#[derive(Debug, PartialEq, Eq)]
pub struct Reply {
    pub id: u64,
    pub result: Result<ReplyData, String>,
}

/// A fund-transfer instruction from the delegated account to the destination,
/// ready for wire encoding.
#[derive(Debug, PartialEq, Eq)]
pub struct MsgTransfer {
    pub source_port: String,
    pub source_channel: String,
    pub denom: String,
    pub amount: String,
    pub sender: String,
    pub receiver: String,
    pub timeout_timestamp: u64,
}

/// A wire-encoded message together with its type URL.
#[derive(Debug, PartialEq, Eq)]
pub struct ProtobufAny {
    pub type_url: String,
    pub value: Vec<u8>,
}

/// An outbound request against the remote chain.
#[derive(Debug, PartialEq, Eq)]
pub enum NeutronTx {
    RegisterInterchainAccount {
        connection_id: String,
        interchain_account_id: String,
    },
    SubmitTx {
        connection_id: String,
        interchain_account_id: String,
        msgs: Vec<ProtobufAny>,
        memo: String,
        timeout: u64,
        fee: IbcFee,
    },
}

/// An outbound request, optionally asking for an immediate reply on success
/// under the given reply id.
#[derive(Debug, PartialEq, Eq)]
pub struct OutMsg {
    pub msg: NeutronTx,
    pub reply_id: Option<u64>,
}

/// A key/value annotation on a response.
#[derive(Debug, PartialEq, Eq)]
pub struct Attribute {
    pub key: String,
    pub value: String,
}

/// What a unit of work hands back to the host: annotations plus the outbound
/// requests to dispatch.
#[derive(Debug, PartialEq, Eq)]
pub struct Response {
    pub attributes: Vec<Attribute>,
    pub messages: Vec<OutMsg>,
}

/// Holds when an attribute has the given key and value.
pub open spec fn attr_is(a: Attribute, k: Seq<char>, v: Seq<char>) -> bool {
    a.key@ == k && a.value@ == v
}

/// The error taxonomy of the workflow.
#[derive(Debug, PartialEq, Eq)]
pub enum ContractError {
    /// The downstream collaborator is not ready; retry on a later tick.
    NotReady,
    /// No delegated-account record exists under the derived key.
    AccountNotFound,
    /// The delegated account is not confirmed yet.
    IcaNotCreated,
    /// The open-acknowledgment payload could not be parsed.
    ParseOpenAckFailed,
    /// A response or error callback arrived without a sequence id.
    MissingSequence,
    /// A response or error callback arrived without a source channel id.
    MissingSourceChannel,
    /// An immediate reply arrived under an unknown reply id.
    UnsupportedReplyId(u64),
    /// The submission itself failed; its diagnostic is carried along.
    SubmitFailed(String),
    /// A successful immediate reply carried no data.
    MissingReplyData,
    /// The immediate reply's data could not be parsed.
    ParseResponseFailed,
    /// No pending payload was stored before the immediate reply arrived.
    MissingReplyPayload,
}

} // verus!
