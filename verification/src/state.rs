//! The persisted state of the workflow: the phase, the delegated-account
//! records and the two payload tables of the reply-correlation engine,
//! modelled as an explicit state object with a map-valued view.

use vstd::prelude::*;

use crate::msg::{ContractState, RemoteChainInfo, SudoPayload};

verus! {

/// A confirmed delegated account: its remote address and the controller
/// connection id it was opened over.
#[derive(Debug, PartialEq, Eq)]
pub struct AccountInfo {
    pub address: String,
    pub controller_connection_id: String,
}

impl AccountInfo {
    pub fn duplicate(&self) -> (r: AccountInfo)
        ensures
            r == *self,
    {
        AccountInfo {
            address: self.address.clone(),
            controller_connection_id: self.controller_connection_id.clone(),
        }
    }
}

/// Spec-level image of a delegated-account record: `None` while registration
/// awaits confirmation, the (address, controller connection id) pair after.
pub open spec fn account_view(v: Option<AccountInfo>) -> Option<(Seq<char>, Seq<char>)> {
    match v {
        Some(a) => Some((a.address@, a.controller_connection_id@)),
        None => None,
    }
}

pub fn duplicate_opt_account(v: &Option<AccountInfo>) -> (r: Option<AccountInfo>)
    ensures
        account_view(r) == account_view(*v),
{
    match v {
        Some(a) => Some(a.duplicate()),
        None => None,
    }
}

/// One row of the delegated-account table, keyed by a derived account key.
#[derive(Debug, PartialEq, Eq)]
pub struct AccountEntry {
    pub key: String,
    pub value: Option<AccountInfo>,
}

/// Holds when no two rows share a key.
pub open spec fn distinct_account_keys(s: Seq<AccountEntry>) -> bool {
    forall|i: int, j: int| 0 <= i < j < s.len() ==> s[i].key@ != s[j].key@
}

/// The map a row sequence denotes; later rows win, though well-formed stores
/// never hold a key twice.
pub open spec fn accounts_map_of(s: Seq<AccountEntry>) -> Map<
    Seq<char>,
    Option<(Seq<char>, Seq<char>)>,
>
    decreases s.len(),
{
    if s.len() == 0 {
        Map::empty()
    } else {
        accounts_map_of(s.drop_last()).insert(
            s.last().key@,
            account_view(s.last().value),
        )
    }
}

proof fn lemma_accounts_contains(s: Seq<AccountEntry>, k: Seq<char>)
    ensures
        accounts_map_of(s).contains_key(k) <==> exists|i: int|
            0 <= i < s.len() && s[i].key@ == k,
    decreases s.len(),
{
    if s.len() == 0 {
    } else {
        lemma_accounts_contains(s.drop_last(), k);
        if s.last().key@ == k {
            assert(s[s.len() - 1].key@ == k);
        } else {
            if accounts_map_of(s).contains_key(k) {
                let i = choose|i: int| 0 <= i < s.drop_last().len() && s.drop_last()[i].key@ == k;
                assert(s[i].key@ == k);
            }
            if exists|i: int| 0 <= i < s.len() && s[i].key@ == k {
                let i = choose|i: int| 0 <= i < s.len() && s[i].key@ == k;
                assert(i < s.len() - 1);
                assert(s.drop_last()[i].key@ == k);
            }
        }
    }
}

proof fn lemma_accounts_value(s: Seq<AccountEntry>, i: int)
    requires
        distinct_account_keys(s),
        0 <= i < s.len(),
    ensures
        accounts_map_of(s).contains_key(s[i].key@),
        accounts_map_of(s)[s[i].key@] == account_view(s[i].value),
    decreases s.len(),
{
    if i == s.len() - 1 {
    } else {
        assert(distinct_account_keys(s.drop_last()));
        assert(s.drop_last()[i] == s[i]);
        lemma_accounts_value(s.drop_last(), i);
        assert(s[i].key@ != s.last().key@);
    }
}

proof fn lemma_accounts_update(s: Seq<AccountEntry>, i: int, e: AccountEntry)
    requires
        distinct_account_keys(s),
        0 <= i < s.len(),
        e.key@ == s[i].key@,
    ensures
        accounts_map_of(s.update(i, e)) == accounts_map_of(s).insert(
            e.key@,
            account_view(e.value),
        ),
    decreases s.len(),
{
    let t = s.update(i, e);
    if i == s.len() - 1 {
        assert(t.drop_last() =~= s.drop_last());
        assert(t.last() == e);
        assert(accounts_map_of(t) =~= accounts_map_of(s).insert(e.key@, account_view(e.value)));
    } else {
        assert(distinct_account_keys(s.drop_last()));
        assert(s.drop_last()[i] == s[i]);
        lemma_accounts_update(s.drop_last(), i, e);
        assert(t.drop_last() =~= s.drop_last().update(i, e));
        assert(t.last() == s.last());
        assert(s[i].key@ != s.last().key@);
        assert(accounts_map_of(t) =~= accounts_map_of(s).insert(e.key@, account_view(e.value)));
    }
}

/// The delegated-account table: an association list with unique keys, seen as
/// a map from derived account key to optional (address, connection id) pair.
#[derive(Debug, PartialEq, Eq)]
pub struct AccountStore {
    pub entries: Vec<AccountEntry>,
}

impl View for AccountStore {
    type V = Map<Seq<char>, Option<(Seq<char>, Seq<char>)>>;

    open spec fn view(&self) -> Map<Seq<char>, Option<(Seq<char>, Seq<char>)>> {
        accounts_map_of(self.entries@)
    }
}

impl AccountStore {
    pub open spec fn wf(self) -> bool {
        distinct_account_keys(self.entries@)
    }

    pub fn empty_store() -> (r: AccountStore)
        ensures
            r.wf(),
            r@ == Map::<Seq<char>, Option<(Seq<char>, Seq<char>)>>::empty(),
    {
        AccountStore { entries: Vec::new() }
    }

    /// Reads the record under `key`: `None` when no record exists at all,
    /// `Some(record)` otherwise.
    pub fn load(&self, key: &String) -> (r: Option<Option<AccountInfo>>)
        requires
            self.wf(),
        ensures
            match r {
                Some(v) => self@.contains_key(key@) && account_view(v) == self@[key@],
                None => !self@.contains_key(key@),
            },
    {
        let n = self.entries.len();
        let mut i: usize = 0;
        while i < n
            invariant
                self.wf(),
                n == self.entries@.len(),
                i <= n,
                forall|j: int| 0 <= j < i ==> self.entries@[j].key@ != key@,
            decreases n - i,
        {
            if self.entries[i].key == *key {
                proof {
                    lemma_accounts_value(self.entries@, i as int);
                }
                return Some(duplicate_opt_account(&self.entries[i].value));
            }
            i += 1;
        }
        proof {
            lemma_accounts_contains(self.entries@, key@);
        }
        None
    }

    /// Writes (or overwrites) the record under `key`.
    pub fn save(&mut self, key: String, value: Option<AccountInfo>)
        requires
            old(self).wf(),
        ensures
            final(self).wf(),
            final(self)@ == old(self)@.insert(key@, account_view(value)),
    {
        let ghost gkey = key@;
        let ghost gvalue = account_view(value);
        let n = self.entries.len();
        let mut i: usize = 0;
        while i < n
            invariant
                self.wf(),
                *self == *old(self),
                n == self.entries@.len(),
                i <= n,
                forall|j: int| 0 <= j < i ==> self.entries@[j].key@ != gkey,
                key@ == gkey,
                account_view(value) == gvalue,
            decreases n - i,
        {
            if self.entries[i].key == key {
                let e = AccountEntry { key, value };
                let ghost ge = e;
                self.entries.set(i, e);
                proof {
                    lemma_accounts_update(old(self).entries@, i as int, ge);
                    assert(final(self).wf());
                }
                return;
            }
            i += 1;
        }
        self.entries.push(AccountEntry { key, value });
        proof {
            assert(self.entries@.drop_last() =~= old(self).entries@);
            assert(self.entries@.last().key@ == gkey);
            assert(account_view(self.entries@.last().value) == gvalue);
            lemma_accounts_contains(old(self).entries@, gkey);
            assert forall|a: int, b: int|
                0 <= a < b < self.entries@.len() implies self.entries@[a].key@
                != self.entries@[b].key@ by {
                if b == self.entries@.len() - 1 {
                    assert(old(self).entries@[a].key@ != gkey);
                } else {
                    assert(old(self).entries@[a] == self.entries@[a]);
                    assert(old(self).entries@[b] == self.entries@[b]);
                }
            }
        }
    }
}

/// One row of the correlation table, keyed by the (channel id, sequence id)
/// pair a submitted packet was assigned.
#[derive(Debug, PartialEq, Eq)]
pub struct CallbackEntry {
    pub channel_id: String,
    pub sequence_id: u64,
    pub payload: SudoPayload,
}

pub open spec fn distinct_callback_keys(s: Seq<CallbackEntry>) -> bool {
    forall|i: int, j: int|
        0 <= i < j < s.len() ==> (s[i].channel_id@, s[i].sequence_id) != (
        s[j].channel_id@,
        s[j].sequence_id,
        )
}

pub open spec fn callbacks_map_of(s: Seq<CallbackEntry>) -> Map<
    (Seq<char>, u64),
    (Seq<char>, Seq<char>),
>
    decreases s.len(),
{
    if s.len() == 0 {
        Map::empty()
    } else {
        callbacks_map_of(s.drop_last()).insert(
            (s.last().channel_id@, s.last().sequence_id),
            s.last().payload@,
        )
    }
}

proof fn lemma_callbacks_contains(s: Seq<CallbackEntry>, k: (Seq<char>, u64))
    ensures
        callbacks_map_of(s).contains_key(k) <==> exists|i: int|
            0 <= i < s.len() && (s[i].channel_id@, s[i].sequence_id) == k,
    decreases s.len(),
{
    if s.len() == 0 {
    } else {
        lemma_callbacks_contains(s.drop_last(), k);
        if (s.last().channel_id@, s.last().sequence_id) == k {
            assert((s[s.len() - 1].channel_id@, s[s.len() - 1].sequence_id) == k);
        } else {
            if callbacks_map_of(s).contains_key(k) {
                let i = choose|i: int|
                    0 <= i < s.drop_last().len() && (
                    s.drop_last()[i].channel_id@,
                    s.drop_last()[i].sequence_id,
                    ) == k;
                assert((s[i].channel_id@, s[i].sequence_id) == k);
            }
            if exists|i: int| 0 <= i < s.len() && (s[i].channel_id@, s[i].sequence_id) == k {
                let i = choose|i: int|
                    0 <= i < s.len() && (s[i].channel_id@, s[i].sequence_id) == k;
                assert(i < s.len() - 1);
                assert((s.drop_last()[i].channel_id@, s.drop_last()[i].sequence_id) == k);
            }
        }
    }
}

proof fn lemma_callbacks_value(s: Seq<CallbackEntry>, i: int)
    requires
        distinct_callback_keys(s),
        0 <= i < s.len(),
    ensures
        callbacks_map_of(s).contains_key((s[i].channel_id@, s[i].sequence_id)),
        callbacks_map_of(s)[(s[i].channel_id@, s[i].sequence_id)] == s[i].payload@,
    decreases s.len(),
{
    if i == s.len() - 1 {
    } else {
        assert(distinct_callback_keys(s.drop_last()));
        assert(s.drop_last()[i] == s[i]);
        lemma_callbacks_value(s.drop_last(), i);
        assert((s[i].channel_id@, s[i].sequence_id) != (s.last().channel_id@, s.last().sequence_id));
    }
}

proof fn lemma_callbacks_update(s: Seq<CallbackEntry>, i: int, e: CallbackEntry)
    requires
        distinct_callback_keys(s),
        0 <= i < s.len(),
        (e.channel_id@, e.sequence_id) == (s[i].channel_id@, s[i].sequence_id),
    ensures
        callbacks_map_of(s.update(i, e)) == callbacks_map_of(s).insert(
            (e.channel_id@, e.sequence_id),
            e.payload@,
        ),
    decreases s.len(),
{
    let t = s.update(i, e);
    if i == s.len() - 1 {
        assert(t.drop_last() =~= s.drop_last());
        assert(t.last() == e);
        assert(callbacks_map_of(t) =~= callbacks_map_of(s).insert(
            (e.channel_id@, e.sequence_id),
            e.payload@,
        ));
    } else {
        assert(distinct_callback_keys(s.drop_last()));
        assert(s.drop_last()[i] == s[i]);
        lemma_callbacks_update(s.drop_last(), i, e);
        assert(t.drop_last() =~= s.drop_last().update(i, e));
        assert(t.last() == s.last());
        assert((s[i].channel_id@, s[i].sequence_id) != (s.last().channel_id@, s.last().sequence_id));
        assert(callbacks_map_of(t) =~= callbacks_map_of(s).insert(
            (e.channel_id@, e.sequence_id),
            e.payload@,
        ));
    }
}

/// The correlation table written by the immediate-reply stage and consulted
/// by whoever resolves a later asynchronous callback: an association list
/// with unique (channel id, sequence id) keys, seen as a map to payloads.
#[derive(Debug, PartialEq, Eq)]
pub struct CallbackStore {
    pub entries: Vec<CallbackEntry>,
}

impl View for CallbackStore {
    type V = Map<(Seq<char>, u64), (Seq<char>, Seq<char>)>;

    open spec fn view(&self) -> Map<(Seq<char>, u64), (Seq<char>, Seq<char>)> {
        callbacks_map_of(self.entries@)
    }
}

impl CallbackStore {
    pub open spec fn wf(self) -> bool {
        distinct_callback_keys(self.entries@)
    }

    pub fn empty_store() -> (r: CallbackStore)
        ensures
            r.wf(),
            r@ == Map::<(Seq<char>, u64), (Seq<char>, Seq<char>)>::empty(),
    {
        CallbackStore { entries: Vec::new() }
    }

    /// Reads the payload re-keyed under `(channel_id, sequence_id)`.
    pub fn load(&self, channel_id: &String, sequence_id: u64) -> (r: Option<SudoPayload>)
        requires
            self.wf(),
        ensures
            match r {
                Some(p) => self@.contains_key((channel_id@, sequence_id)) && p@ == self@[
                    (channel_id@, sequence_id)
                ],
                None => !self@.contains_key((channel_id@, sequence_id)),
            },
    {
        let n = self.entries.len();
        let mut i: usize = 0;
        while i < n
            invariant
                self.wf(),
                n == self.entries@.len(),
                i <= n,
                forall|j: int|
                    0 <= j < i ==> (self.entries@[j].channel_id@, self.entries@[j].sequence_id) != (
                    channel_id@,
                    sequence_id,
                    ),
            decreases n - i,
        {
            if self.entries[i].channel_id == *channel_id && self.entries[i].sequence_id
                == sequence_id {
                proof {
                    lemma_callbacks_value(self.entries@, i as int);
                }
                return Some(self.entries[i].payload.duplicate());
            }
            i += 1;
        }
        proof {
            lemma_callbacks_contains(self.entries@, (channel_id@, sequence_id));
        }
        None
    }

    /// Writes (or overwrites) the payload under `(channel_id, sequence_id)`.
    pub fn save(&mut self, channel_id: String, sequence_id: u64, payload: SudoPayload)
        requires
            old(self).wf(),
        ensures
            final(self).wf(),
            final(self)@ == old(self)@.insert((channel_id@, sequence_id), payload@),
    {
        let ghost gkey = (channel_id@, sequence_id);
        let ghost gvalue = payload@;
        let n = self.entries.len();
        let mut i: usize = 0;
        while i < n
            invariant
                self.wf(),
                *self == *old(self),
                n == self.entries@.len(),
                i <= n,
                forall|j: int|
                    0 <= j < i ==> (self.entries@[j].channel_id@, self.entries@[j].sequence_id)
                    != gkey,
                (channel_id@, sequence_id) == gkey,
                payload@ == gvalue,
            decreases n - i,
        {
            if self.entries[i].channel_id == channel_id && self.entries[i].sequence_id
                == sequence_id {
                let e = CallbackEntry { channel_id, sequence_id, payload };
                let ghost ge = e;
                self.entries.set(i, e);
                proof {
                    lemma_callbacks_update(old(self).entries@, i as int, ge);
                    assert(final(self).wf());
                }
                return;
            }
            i += 1;
        }
        self.entries.push(CallbackEntry { channel_id, sequence_id, payload });
        proof {
            assert(self.entries@.drop_last() =~= old(self).entries@);
            lemma_callbacks_contains(old(self).entries@, gkey);
            assert forall|a: int, b: int|
                0 <= a < b < self.entries@.len() implies (
                self.entries@[a].channel_id@,
                self.entries@[a].sequence_id,
            ) != (self.entries@[b].channel_id@, self.entries@[b].sequence_id) by {
                if b == self.entries@.len() - 1 {
                } else {
                    assert(old(self).entries@[a] == self.entries@[a]);
                    assert(old(self).entries@[b] == self.entries@[b]);
                }
            }
        }
    }
}

/// The whole persisted state of one workflow instance.
#[derive(Debug, PartialEq, Eq)]
pub struct Forwarder {
    /// Current phase of the state machine.
    pub state: ContractState,
    /// This instance's own address; the derived account key is built from it.
    pub own_address: String,
    /// Address of the downstream collaborator queried for readiness.
    pub next_contract: String,
    /// Immutable remote-chain connection parameters.
    pub remote_chain_info: RemoteChainInfo,
    /// Delegated-account records by derived account key.
    pub interchain_accounts: AccountStore,
    /// The transient payload written right before a submission.
    pub reply_payload: Option<SudoPayload>,
    /// Payloads re-keyed by (channel id, sequence id) during Stage A.
    pub sudo_payloads: CallbackStore,
}

/// Spec-level image of the mutable protocol state: the phase and the three
/// correlation-relevant tables. The immutable configuration is stated
/// separately in each contract.
pub struct StateView {
    pub phase: ContractState,
    pub accounts: Map<Seq<char>, Option<(Seq<char>, Seq<char>)>>,
    pub reply_payload: Option<(Seq<char>, Seq<char>)>,
    pub callbacks: Map<(Seq<char>, u64), (Seq<char>, Seq<char>)>,
}

pub open spec fn opt_payload_view(p: Option<SudoPayload>) -> Option<(Seq<char>, Seq<char>)> {
    match p {
        Some(q) => Some(q@),
        None => None,
    }
}

pub open spec fn opt_string_view(o: Option<String>) -> Option<Seq<char>> {
    match o {
        Some(s) => Some(s@),
        None => None,
    }
}

impl View for Forwarder {
    type V = StateView;

    open spec fn view(&self) -> StateView {
        StateView {
            phase: self.state,
            accounts: self.interchain_accounts@,
            reply_payload: opt_payload_view(self.reply_payload),
            callbacks: self.sudo_payloads@,
        }
    }
}

impl Forwarder {
    /// Structural well-formedness: both tables hold each key at most once.
    pub open spec fn wf(self) -> bool {
        self.interchain_accounts.wf() && self.sudo_payloads.wf()
    }

    /// The configuration, identity and collaborator address never change
    /// after creation; every transition promises this.
    pub open spec fn config_unchanged(pre: Forwarder, post: Forwarder) -> bool {
        post.own_address@ == pre.own_address@ && post.next_contract@ == pre.next_contract@
            && post.remote_chain_info@ == pre.remote_chain_info@
    }
}

/// State effect of one tick, as a function of the phase, the derived account
/// key and the downstream readiness answer.
pub open spec fn tick_next(s: StateView, port_key: Seq<char>, dep: Option<Seq<char>>) -> StateView {
    match s.phase {
        ContractState::Instantiated => StateView {
            accounts: s.accounts.insert(port_key, None),
            ..s
        },
        ContractState::IcaCreated => {
            if dep is None {
                s
            } else if !s.accounts.contains_key(port_key) {
                s
            } else {
                match s.accounts[port_key] {
                    None => StateView { phase: ContractState::Instantiated, ..s },
                    Some(_) => StateView {
                        reply_payload: Some(("try_forward_funds"@, port_key)),
                        ..s
                    },
                }
            }
        },
        ContractState::Complete => s,
    }
}

/// State effect of a successful open-acknowledgment callback.
pub open spec fn open_ack_next(
    s: StateView,
    port_id: Seq<char>,
    address: Seq<char>,
    controller_connection_id: Seq<char>,
) -> StateView {
    StateView {
        phase: ContractState::IcaCreated,
        accounts: s.accounts.insert(port_id, Some((address, controller_connection_id))),
        ..s
    }
}

/// State effect of a timeout callback.
pub open spec fn timeout_next(s: StateView) -> StateView {
    StateView { phase: ContractState::Instantiated, ..s }
}

/// State effect of Stage A: the pending payload, if any, is re-keyed under
/// the (channel id, sequence id) the packet was assigned.
pub open spec fn rekey_next(s: StateView, channel_id: Seq<char>, sequence_id: u64) -> StateView {
    match s.reply_payload {
        Some(p) => StateView {
            callbacks: s.callbacks.insert((channel_id, sequence_id), p),
            ..s
        },
        None => s,
    }
}

} // verus!
