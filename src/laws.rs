//! Properties of the server's decision, over the models of the store and requests.
use crate::chain::{anchor_of, lookup, signed_bytes, zero_anchor, StoreModel};
use crate::client::{client_wf, sent_args, well_formed_request, ClientModel};
use crate::identity::{compressed, key_from_x_parity, key_wf, KeyModel};
use crate::server::{
    commit_spec, fresh, precheck, prepare_spec, record_of, send_outcome, signed_over, Rejection,
    FRESHNESS_WINDOW_MS,
};
use crate::types::ArgsModel;
use vstd::prelude::*;

verus! {

/// The compressed key of the sender a request names.
pub open spec fn sender_key(a: ArgsModel) -> Seq<u8> {
    compressed(key_from_x_parity(a.sender_x, a.sender_p).unwrap())
}

/// The store after handling `msgs` in order, the `i`-th at server time `nows[i]`.
pub open spec fn run(s: StoreModel, msgs: Seq<ArgsModel>, nows: Seq<i64>) -> StoreModel
    decreases msgs.len(),
{
    if msgs.len() == 0 || nows.len() != msgs.len() {
        s
    } else {
        send_outcome(
            run(s, msgs.drop_last(), nows.drop_last()),
            msgs.last(),
            nows.last(),
        ).1
    }
}

/// Accepting a message moves its sender's anchor to that message's signature
/// and appends exactly its record.
pub proof fn lemma_accept_moves_anchor(s: StoreModel, a: ArgsModel, now: i64)
    requires
        send_outcome(s, a, now).0 is Ok,
    ensures
        anchor_of(send_outcome(s, a, now).1.chain, sender_key(a)) == a.signature,
        send_outcome(s, a, now).1.log.len() == s.log.len() + 1,
{
}

/// After a run of messages whose last one is accepted, the anchor of its
/// sender is that message's signature.
pub proof fn lemma_chain_follows_last_accepted(s: StoreModel, msgs: Seq<ArgsModel>, nows: Seq<i64>)
    requires
        msgs.len() > 0,
        nows.len() == msgs.len(),
        send_outcome(run(s, msgs.drop_last(), nows.drop_last()), msgs.last(), nows.last()).0 is Ok,
    ensures
        anchor_of(run(s, msgs, nows).chain, sender_key(msgs.last())) == msgs.last().signature,
{
    lemma_accept_moves_anchor(run(s, msgs.drop_last(), nows.drop_last()), msgs.last(), nows.last());
}

/// A refused request leaves the store as it was.
pub proof fn lemma_refusal_changes_nothing(s: StoreModel, a: ArgsModel, now: i64)
    requires
        send_outcome(s, a, now).0 is Err,
    ensures
        send_outcome(s, a, now).1 == s,
{
}

/// A message accepted at `s`, resubmitted unchanged at `t` where its sender's
/// anchor has moved, is judged over other bytes than those it signed; unless
/// its signature also covers those bytes, it is refused as unsigned and the
/// store stays as it is.
pub proof fn lemma_replay_after_anchor_moved(
    s: StoreModel,
    t: StoreModel,
    a: ArgsModel,
    now1: i64,
    now2: i64,
)
    requires
        send_outcome(s, a, now1).0 is Ok,
        precheck(a, now2) is Ok,
        anchor_of(t.chain, sender_key(a)) != anchor_of(s.chain, sender_key(a)),
        !signed_over(sender_key(a), anchor_of(t.chain, sender_key(a)), a),
    ensures
        signed_bytes(anchor_of(t.chain, sender_key(a)), a.timestamp, a.data) != signed_bytes(
            anchor_of(s.chain, sender_key(a)),
            a.timestamp,
            a.data,
        ),
        send_outcome(t, a, now2).0 == Err::<(), Rejection>(Rejection::UnsignedData),
        send_outcome(t, a, now2).1 == t,
{
    let k = sender_key(a);
    let at = anchor_of(t.chain, k);
    let as_ = anchor_of(s.chain, k);
    if at.len() == as_.len() {
        assert(!(at =~= as_));
        let i = choose|i: int| 0 <= i < at.len() && at[i] != as_[i];
        assert(signed_bytes(at, a.timestamp, a.data)[i] == at[i]);
        assert(signed_bytes(as_, a.timestamp, a.data)[i] == as_[i]);
    } else {
        assert(signed_bytes(at, a.timestamp, a.data).len() != signed_bytes(
            as_,
            a.timestamp,
            a.data,
        ).len());
    }
}

/// A sender with no chain entry is accepted exactly when its signature covers
/// the 64-zero-byte anchor, and is then entered with that signature.
pub proof fn lemma_first_message(s: StoreModel, a: ArgsModel, now: i64)
    requires
        precheck(a, now) is Ok,
        !s.chain.contains_key(sender_key(a)),
    ensures
        send_outcome(s, a, now).0 is Ok <==> signed_over(sender_key(a), zero_anchor(), a),
        send_outcome(s, a, now).0 is Ok ==> send_outcome(s, a, now).1.chain == s.chain.insert(
            sender_key(a),
            a.signature,
        ),
{
}

/// Once a first message is accepted, the next one from that sender is judged
/// over the first one's signature, not the zero anchor: one whose signature
/// does not cover that anchor is refused as unsigned.
pub proof fn lemma_second_message_uses_first_signature(
    s: StoreModel,
    a1: ArgsModel,
    a2: ArgsModel,
    now1: i64,
    now2: i64,
)
    requires
        !s.chain.contains_key(sender_key(a1)),
        send_outcome(s, a1, now1).0 is Ok,
        precheck(a2, now2) is Ok,
        sender_key(a2) == sender_key(a1),
        !signed_over(sender_key(a2), a1.signature, a2),
    ensures
        send_outcome(send_outcome(s, a1, now1).1, a2, now2).0 == Err::<(), Rejection>(
            Rejection::UnsignedData,
        ),
{
    lemma_accept_moves_anchor(s, a1, now1);
}

/// A timestamp one past the window on either side is refused as stale
/// before the store is read; one just inside it passes the freshness check.
pub proof fn lemma_freshness_boundary(s: StoreModel, a: ArgsModel, now: i64)
    requires
        i64::MIN + FRESHNESS_WINDOW_MS + 1 <= now <= i64::MAX - FRESHNESS_WINDOW_MS - 1,
    ensures
        !fresh((now - FRESHNESS_WINDOW_MS - 1) as i64, now),
        !fresh((now + FRESHNESS_WINDOW_MS + 1) as i64, now),
        fresh((now - FRESHNESS_WINDOW_MS + 1) as i64, now),
        fresh((now + FRESHNESS_WINDOW_MS - 1) as i64, now),
        !fresh(a.timestamp, now) ==> send_outcome(s, a, now).0 == Err::<(), Rejection>(
            Rejection::StaleTimestamp,
        ) && send_outcome(s, a, now).1 == s,
{
}

/// Two messages from one sender, both verified against the same anchor and
/// then committed one after the other: the first succeeds and the second is
/// refused as unsigned, whenever the first one's signature is not itself that
/// anchor.
pub proof fn lemma_concurrent_race(
    s: StoreModel,
    a1: ArgsModel,
    a2: ArgsModel,
    now1: i64,
    now2: i64,
)
    requires
        prepare_spec(s, a1, now1) is Ok,
        prepare_spec(s, a2, now2) is Ok,
        sender_key(a1) == sender_key(a2),
        lookup(s.chain, sender_key(a1)) != Some(a1.signature),
    ensures
        ({
            let first = prepare_spec(s, a1, now1).unwrap();
            let second = prepare_spec(s, a2, now2).unwrap();
            let (r1, s1) = commit_spec(s, first);
            let (r2, s2) = commit_spec(s1, second);
            &&& r1 is Ok
            &&& r2 == Err::<(), Rejection>(Rejection::UnsignedData)
            &&& s2 == s1
        }),
{
}

/// What a client signs is what the server verifies: a fresh request built by
/// a client whose anchor is the server's anchor for its key, and that has
/// what `Client::send_message_at` ensures of it, is accepted; its signature
/// becomes the anchor and its record is appended.
pub proof fn lemma_client_request_accepted(
    c: ClientModel,
    s: StoreModel,
    receiver: KeyModel,
    save_send_date: bool,
    plain: Seq<u8>,
    timestamp: i64,
    now: i64,
)
    requires
        client_wf(c),
        key_wf(receiver),
        fresh(timestamp, now),
        anchor_of(s.chain, compressed(c.public)) == c.anchor,
        well_formed_request(c, plain, sent_args(c, receiver, save_send_date, plain, timestamp)),
    ensures
        ({
            let a = sent_args(c, receiver, save_send_date, plain, timestamp);
            &&& sender_key(a) == compressed(c.public)
            &&& send_outcome(s, a, now).0 is Ok
            &&& send_outcome(s, a, now).1.chain == s.chain.insert(compressed(c.public), a.signature)
            &&& send_outcome(s, a, now).1.log == s.log.push(record_of(a))
        }),
{
    let a = sent_args(c, receiver, save_send_date, plain, timestamp);
    assert(key_from_x_parity(a.sender_x, a.sender_p) == Some(c.public));
    assert(key_from_x_parity(a.receiver_x, a.receiver_p) == Some(receiver));
}

/// Whether every message of a run was accepted.
pub open spec fn all_accepted(s: StoreModel, msgs: Seq<ArgsModel>, nows: Seq<i64>) -> bool
    decreases msgs.len(),
{
    if msgs.len() == 0 || nows.len() != msgs.len() {
        true
    } else {
        &&& all_accepted(s, msgs.drop_last(), nows.drop_last())
        &&& send_outcome(run(s, msgs.drop_last(), nows.drop_last()), msgs.last(), nows.last()).0 is Ok
    }
}

/// After N accepted messages, the log has grown by N records, and the anchor
/// of the last message's sender is that message's signature.
pub proof fn lemma_run_of_accepted(s: StoreModel, msgs: Seq<ArgsModel>, nows: Seq<i64>)
    requires
        nows.len() == msgs.len(),
        all_accepted(s, msgs, nows),
    ensures
        run(s, msgs, nows).log.len() == s.log.len() + msgs.len(),
        msgs.len() > 0 ==> anchor_of(run(s, msgs, nows).chain, sender_key(msgs.last()))
            == msgs.last().signature,
    decreases msgs.len(),
{
    if msgs.len() > 0 {
        lemma_run_of_accepted(s, msgs.drop_last(), nows.drop_last());
        lemma_accept_moves_anchor(run(s, msgs.drop_last(), nows.drop_last()), msgs.last(), nows.last());
    }
}

} // verus!
