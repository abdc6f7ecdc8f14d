//! The protocol-level guarantees of the workflow, proved over the spec-level
//! transition functions that every entry point's contract is stated against.

use vstd::prelude::*;

use crate::state::{open_ack_next, rekey_next, tick_next, timeout_next, StateView};

verus! {

/// A record is populated once it holds the confirmed (address, controller
/// connection id) pair.
pub open spec fn record_populated(
    accounts: Map<Seq<char>, Option<(Seq<char>, Seq<char>)>>,
    k: Seq<char>,
) -> bool {
    accounts.contains_key(k) && accounts[k] is Some
}

/// The given state with its transient reply slot replaced.
pub open spec fn with_reply(s: StateView, p: Option<(Seq<char>, Seq<char>)>) -> StateView {
    StateView { reply_payload: p, ..s }
}

/// Invoking the driver with no precondition met for the next phase never
/// moves the phase: in particular, a forwarding tick finding the downstream
/// collaborator not ready leaves the phase exactly where it was.
pub proof fn lemma_tick_not_ready_preserves_phase(s: StateView, port_key: Seq<char>)
    ensures
        tick_next(s, port_key, None).phase == s.phase,
{
}

/// A tick never moves the phase forward at all: it either keeps the phase or
/// (on the self-healing path) resets it to `Instantiated`. Every forward
/// move belongs to a callback.
pub proof fn lemma_tick_never_advances_phase(
    s: StateView,
    port_key: Seq<char>,
    dep: Option<Seq<char>>,
)
    ensures
        tick_next(s, port_key, dep).phase == s.phase || tick_next(
            s,
            port_key,
            dep,
        ).phase is Instantiated,
{
}

/// The open-acknowledgment callback deterministically populates the record
/// under its port id and sets the phase to `IcaCreated`, whatever the prior
/// state — however many times registration was re-issued before it arrived.
pub proof fn lemma_open_ack_promotes(
    s: StateView,
    port_id: Seq<char>,
    address: Seq<char>,
    controller_connection_id: Seq<char>,
)
    ensures
        open_ack_next(s, port_id, address, controller_connection_id).phase is IcaCreated,
        record_populated(
            open_ack_next(s, port_id, address, controller_connection_id).accounts,
            port_id,
        ),
        open_ack_next(s, port_id, address, controller_connection_id).accounts[port_id] == Some(
            (address, controller_connection_id),
        ),
{
}

/// The open-acknowledgment callback is the only transition that populates a
/// record or reaches `IcaCreated`: a tick (registration included), a timeout
/// and Stage A re-keying all leave an unpopulated record unpopulated, and
/// none of them ends in `IcaCreated` unless the phase already was there.
pub proof fn lemma_only_open_ack_populates(
    s: StateView,
    port_key: Seq<char>,
    dep: Option<Seq<char>>,
    channel_id: Seq<char>,
    sequence_id: u64,
    k: Seq<char>,
)
    requires
        !record_populated(s.accounts, k),
    ensures
        !record_populated(tick_next(s, port_key, dep).accounts, k),
        !record_populated(timeout_next(s).accounts, k),
        !record_populated(rekey_next(s, channel_id, sequence_id).accounts, k),
        tick_next(s, port_key, dep).phase is IcaCreated ==> s.phase is IcaCreated,
        !(timeout_next(s).phase is IcaCreated),
        rekey_next(s, channel_id, sequence_id).phase == s.phase,
{
}

/// A timeout callback always ends in phase `Instantiated`, whatever the
/// phase was before, and touches nothing else.
pub proof fn lemma_timeout_resets_phase(s: StateView)
    ensures
        timeout_next(s).phase is Instantiated,
        timeout_next(s).accounts == s.accounts,
        timeout_next(s).callbacks == s.callbacks,
        timeout_next(s).reply_payload == s.reply_payload,
{
}

/// Re-keying correctness: after Stage A processes a reply assigned channel
/// `channel_id` and sequence `sequence_id`, the lookup by that pair returns
/// exactly the payload that was pending under the original reply id, and
/// every other entry of the correlation table is untouched.
pub proof fn lemma_rekeying_correlates(s: StateView, channel_id: Seq<char>, sequence_id: u64)
    requires
        s.reply_payload is Some,
    ensures
        rekey_next(s, channel_id, sequence_id).callbacks.contains_key(
            (channel_id, sequence_id),
        ) && rekey_next(s, channel_id, sequence_id).callbacks[(channel_id, sequence_id)]
            == s.reply_payload.unwrap(),
        forall|other: (Seq<char>, u64)|
            other != (channel_id, sequence_id) && s.callbacks.contains_key(other)
                ==> rekey_next(s, channel_id, sequence_id).callbacks.contains_key(other)
                && rekey_next(s, channel_id, sequence_id).callbacks[other] == s.callbacks[other],
{
}

/// The original reply-id entry is no longer the lookup path of the later
/// callbacks: the state effect of every Stage B step is oblivious to the
/// transient reply slot — replacing the slot before the step and after the
/// step gives the same state.
pub proof fn lemma_stage_b_ignores_reply_slot(
    s: StateView,
    p: Option<(Seq<char>, Seq<char>)>,
    port_id: Seq<char>,
    address: Seq<char>,
    controller_connection_id: Seq<char>,
)
    ensures
        timeout_next(with_reply(s, p)) == with_reply(timeout_next(s), p),
        open_ack_next(with_reply(s, p), port_id, address, controller_connection_id) == with_reply(
            open_ack_next(s, port_id, address, controller_connection_id),
            p,
        ),
{
}

/// Idempotence at completion: a tick in phase `Complete` changes nothing, so
/// an immediately repeated tick ends in the same state — and, by the
/// driver's contract, with the same observable response.
pub proof fn lemma_tick_idempotent_when_complete(
    s: StateView,
    port_key: Seq<char>,
    dep: Option<Seq<char>>,
)
    requires
        s.phase is Complete,
    ensures
        tick_next(s, port_key, dep) == s,
        tick_next(tick_next(s, port_key, dep), port_key, dep) == tick_next(s, port_key, dep),
{
}

} // verus!
