//! Properties of the contract and the indexer that span several calls,
//! stated over the models that the functions' own `ensures` use.
use crate::contract::{
    authorized_where_needed, downvote_spec, get_feedback_spec, initialize_spec, permissions_kept, read_defined,
    send_spec, state_of, update_binary_spec, upvote_spec, vote_defined, vote_lifetime_defined,
    vote_write_lifetimes, FeedbackState,
};
use crate::encoding::{hex_decoded, hex_lower, hex_value, lower_hex_digits};
use crate::error::Error;
use crate::events::{topic_name, EventKind};
use crate::host::sha256_digest;
use soroban_sdk::Env;
use crate::indexer::{
    call_for, first_match, no_match, served_as, voted_row, CallArgs, Feedback, FeedbackHttp, SimulationCall, SimulationRequest,
    adjust_table, apply_steps, distinct_hashes, index_event, kind_of_topic, mirrors, planned_steps, table_first_match, vote_delta,
    IndexStep, RowView, CONTRACT_ADDRESS,
};
use vstd::prelude::*;
use vstd::utf8::{decode_utf8, valid_utf8};

verus! {

/// A call of one of the contract's entry points, with its arguments as the
/// model sees them.
pub enum Call {
    Initialize { admin: Seq<char> },
    Send { from: Seq<char>, message: Seq<u8> },
    Upvote { from: Seq<char>, hash: Seq<u8> },
    Downvote { from: Seq<char>, hash: Seq<u8> },
    UpdateBinary { wasm: Seq<u8> },
    GetFeedback { hash: Seq<u8> },
}

/// The state after one call, whatever it returned.
pub open spec fn apply_call(s: FeedbackState, call: Call) -> FeedbackState {
    match call {
        Call::Initialize { admin } => initialize_spec(s, admin).0,
        Call::Send { from, message } => send_spec(s, from, message).0,
        Call::Upvote { from, hash } => upvote_spec(s, from, hash).0,
        Call::Downvote { from, hash } => downvote_spec(s, from, hash).0,
        Call::UpdateBinary { wasm } => update_binary_spec(s, wasm).0,
        Call::GetFeedback { hash } => s,
    }
}

/// The state after a sequence of calls, in order.
pub open spec fn apply_calls(s: FeedbackState, calls: Seq<Call>) -> FeedbackState
    decreases calls.len(),
{
    if calls.len() == 0 {
        s
    } else {
        apply_calls(apply_call(s, calls[0]), calls.drop_first())
    }
}

/// Initialization happens once: after a successful `initialize`, every later
/// `initialize` is refused with `AlreadyInitialized` and changes nothing.
pub proof fn law_initialize_once(s: FeedbackState, first: Seq<char>, second: Seq<char>)
    requires
        initialize_spec(s, first).1 is Ok,
    ensures
        initialize_spec(s, first).0.admin == Some(first),
        initialize_spec(initialize_spec(s, first).0, second) == (
            initialize_spec(s, first).0,
            Err::<(), Error>(Error::AlreadyInitialized),
        ),
{
}

/// Once recorded, the administrator stays, whatever calls follow and
/// whatever they return; so every later `initialize` is refused.
pub proof fn law_admin_permanent(s: FeedbackState, calls: Seq<Call>, admin: Seq<char>)
    requires
        s.admin == Some(admin),
    ensures
        apply_calls(s, calls).admin == Some(admin),
        initialize_spec(apply_calls(s, calls), admin).1 == Err::<(), Error>(Error::AlreadyInitialized),
    decreases calls.len(),
{
    if calls.len() > 0 {
        law_admin_permanent(apply_call(s, calls[0]), calls.drop_first(), admin);
    }
}

/// Before initialization every other call is refused with `NotInitialized`
/// and changes nothing, not even the required authorizations.
pub proof fn law_uninitialized_refuses(s: FeedbackState, from: Seq<char>, message: Seq<u8>, hash: Seq<u8>, wasm: Seq<u8>)
    requires
        s.admin is None,
    ensures
        send_spec(s, from, message) == (s, Err::<(), Error>(Error::NotInitialized)),
        upvote_spec(s, from, hash) == (s, Err::<(), Error>(Error::NotInitialized)),
        downvote_spec(s, from, hash) == (s, Err::<(), Error>(Error::NotInitialized)),
        get_feedback_spec(s, hash) == Err::<i32, Error>(Error::NotInitialized),
        update_binary_spec(s, wasm) == (s, Err::<(), Error>(Error::NotInitialized)),
        vote_defined(s, hash, 1),
        vote_defined(s, hash, -1),
        read_defined(s, hash),
{
}

/// Only `initialize` touches the administrator.
pub proof fn law_admin_kept(s: FeedbackState, from: Seq<char>, message: Seq<u8>, hash: Seq<u8>, wasm: Seq<u8>)
    ensures
        send_spec(s, from, message).0.admin == s.admin,
        upvote_spec(s, from, hash).0.admin == s.admin,
        downvote_spec(s, from, hash).0.admin == s.admin,
        update_binary_spec(s, wasm).0.admin == s.admin,
{
}

/// Nobody posts or votes in another's name: an accepted message or vote
/// required the authorization of the address it is recorded under.
pub proof fn law_changes_need_authorization(s: FeedbackState, from: Seq<char>, message: Seq<u8>, hash: Seq<u8>)
    ensures
        send_spec(s, from, message).1 is Ok ==> {
            &&& send_spec(s, from, message).0.auths == s.auths.push(from)
            &&& send_spec(s, from, message).0.events.last().1 == from
        },
        upvote_spec(s, from, hash).1 is Ok ==> {
            &&& upvote_spec(s, from, hash).0.auths == s.auths.push(from)
            &&& upvote_spec(s, from, hash).0.events.last().1 == from
        },
        downvote_spec(s, from, hash).1 is Ok ==> {
            &&& downvote_spec(s, from, hash).0.auths == s.auths.push(from)
            &&& downvote_spec(s, from, hash).0.events.last().1 == from
        },
{
}

/// Only the administrator replaces the code: `update_binary` succeeds only
/// after requiring the recorded administrator's authorization, and then the
/// contract runs the Wasm given; no other call touches the code.
pub proof fn law_code_only_by_admin(s: FeedbackState, from: Seq<char>, message: Seq<u8>, hash: Seq<u8>, wasm: Seq<u8>, admin: Seq<char>)
    ensures
        update_binary_spec(s, wasm).1 is Ok ==> {
            &&& s.admin is Some
            &&& update_binary_spec(s, wasm).0.auths == s.auths.push(s.admin->0)
            &&& update_binary_spec(s, wasm).0.code == Some(wasm)
            &&& update_binary_spec(s, wasm).0.votes == s.votes
            &&& update_binary_spec(s, wasm).0.events == s.events
        },
        update_binary_spec(s, wasm).1 is Err ==> update_binary_spec(s, wasm).0 == s,
        initialize_spec(s, admin).0.code == s.code,
        send_spec(s, from, message).0.code == s.code,
        upvote_spec(s, from, hash).0.code == s.code,
        downvote_spec(s, from, hash).0.code == s.code,
{
}

/// A message that was accepted reads back, by its SHA-256 digest, with one
/// vote.
pub proof fn law_send_then_read(s: FeedbackState, from: Seq<char>, message: Seq<u8>)
    requires
        send_spec(s, from, message).1 is Ok,
    ensures
        read_defined(send_spec(s, from, message).0, sha256_digest(message)),
        get_feedback_spec(send_spec(s, from, message).0, sha256_digest(message)) == Ok::<i32, Error>(1),
{
}

/// A message is accepted once: after it was accepted, sending it again, by
/// anyone, is refused with `MessageAlreadyExists`, and the counts, events,
/// administrator and code stay as they were.
pub proof fn law_send_once(s: FeedbackState, first: Seq<char>, second: Seq<char>, message: Seq<u8>)
    requires
        send_spec(s, first, message).1 is Ok,
    ensures
        ({
            let after = send_spec(s, first, message).0;
            let again = send_spec(after, second, message);
            &&& again.1 == Err::<(), Error>(Error::MessageAlreadyExists)
            &&& again.0.votes == after.votes
            &&& again.0.events == after.events
            &&& again.0.admin == after.admin
            &&& again.0.code == after.code
        }),
{
}

/// An upvote adds one to the count that `get_feedback` reads, a downvote
/// takes one from it.
pub proof fn law_vote_counts(s: FeedbackState, from: Seq<char>, hash: Seq<u8>)
    requires
        s.admin is Some,
        s.votes.contains_key(hash),
    ensures
        vote_defined(s, hash, 1) ==> get_feedback_spec(upvote_spec(s, from, hash).0, hash)
            == Ok::<i32, Error>((s.votes[hash] + 1) as i32),
        vote_defined(s, hash, -1) ==> get_feedback_spec(downvote_spec(s, from, hash).0, hash)
            == Ok::<i32, Error>((s.votes[hash] - 1) as i32),
{
}

/// A downvote undoes an upvote and an upvote undoes a downvote, whoever casts
/// them: the counts are back where they were.
pub proof fn law_votes_cancel(s: FeedbackState, voter: Seq<char>, other: Seq<char>, hash: Seq<u8>)
    ensures
        vote_defined(s, hash, 1) ==> {
            &&& vote_defined(upvote_spec(s, voter, hash).0, hash, -1)
            &&& downvote_spec(upvote_spec(s, voter, hash).0, other, hash).0.votes == s.votes
        },
        vote_defined(s, hash, -1) ==> {
            &&& vote_defined(downvote_spec(s, voter, hash).0, hash, 1)
            &&& upvote_spec(downvote_spec(s, voter, hash).0, other, hash).0.votes == s.votes
        },
{
    if s.admin is Some {
        if vote_defined(s, hash, 1) {
            let up = upvote_spec(s, voter, hash).0;
            assert(downvote_spec(up, other, hash).0.votes =~= s.votes);
        }
        if vote_defined(s, hash, -1) {
            let down = downvote_spec(s, voter, hash).0;
            assert(upvote_spec(down, other, hash).0.votes =~= s.votes);
        }
    }
}

/// Calls on one message leave the counts of every other message alone.
pub proof fn law_other_messages_kept(s: FeedbackState, from: Seq<char>, message: Seq<u8>, hash: Seq<u8>, other: Seq<u8>)
    requires
        hash != other,
        sha256_digest(message) != other,
    ensures
        send_spec(s, from, message).0.votes.contains_key(other) == s.votes.contains_key(other),
        send_spec(s, from, message).0.votes[other] == s.votes[other],
        upvote_spec(s, from, hash).0.votes.contains_key(other) == s.votes.contains_key(other),
        upvote_spec(s, from, hash).0.votes[other] == s.votes[other],
        downvote_spec(s, from, hash).0.votes.contains_key(other) == s.votes.contains_key(other),
        downvote_spec(s, from, hash).0.votes[other] == s.votes[other],
{
}

/// Every accepted message or vote publishes exactly one event, appended to
/// the earlier ones; a refused call, `initialize` and `update_binary` publish
/// none.
pub proof fn law_one_event_per_change(s: FeedbackState, from: Seq<char>, message: Seq<u8>, hash: Seq<u8>, admin: Seq<char>, wasm: Seq<u8>)
    ensures
        send_spec(s, from, message).0.events.len() == s.events.len() + if send_spec(s, from, message).1 is Ok { 1int } else { 0int },
        upvote_spec(s, from, hash).0.events.len() == s.events.len() + if upvote_spec(s, from, hash).1 is Ok { 1int } else { 0int },
        downvote_spec(s, from, hash).0.events.len() == s.events.len() + if downvote_spec(s, from, hash).1 is Ok { 1int } else { 0int },
        send_spec(s, from, message).0.events.subrange(0, s.events.len() as int) == s.events,
        upvote_spec(s, from, hash).0.events.subrange(0, s.events.len() as int) == s.events,
        downvote_spec(s, from, hash).0.events.subrange(0, s.events.len() as int) == s.events,
        initialize_spec(s, admin).0.events == s.events,
        update_binary_spec(s, wasm).0.events == s.events,
{
    assert(send_spec(s, from, message).0.events.subrange(0, s.events.len() as int) =~= s.events);
    assert(upvote_spec(s, from, hash).0.events.subrange(0, s.events.len() as int) =~= s.events);
    assert(downvote_spec(s, from, hash).0.events.subrange(0, s.events.len() as int) =~= s.events);
}

/// A refused call leaves the administrator, the counts, the events and the
/// code as they were (a duplicate message still required its poster's
/// authorization).
pub proof fn law_refusal_changes_nothing(s: FeedbackState, from: Seq<char>, message: Seq<u8>, hash: Seq<u8>, admin: Seq<char>, wasm: Seq<u8>)
    ensures
        initialize_spec(s, admin).1 is Err ==> initialize_spec(s, admin).0 == s,
        send_spec(s, from, message).1 is Err ==> {
            let after = send_spec(s, from, message).0;
            &&& after.admin == s.admin
            &&& after.votes == s.votes
            &&& after.events == s.events
            &&& after.code == s.code
        },
        upvote_spec(s, from, hash).1 is Err ==> upvote_spec(s, from, hash).0 == s,
        downvote_spec(s, from, hash).1 is Err ==> downvote_spec(s, from, hash).0 == s,
        update_binary_spec(s, wasm).1 is Err ==> update_binary_spec(s, wasm).0 == s,
{
}

/// The indexer recognizes the first topic of every kind of event that the
/// contract publishes as that kind.
pub proof fn law_topics_recognized(kind: EventKind)
    ensures
        kind_of_topic(topic_name(kind)) == Some(kind),
{
    let f = topic_name(EventKind::Feedback);
    let u = topic_name(EventKind::Upvote);
    let d = topic_name(EventKind::Downvote);
    assert(f.len() != u.len());
    assert(f[0] != d[0]);
    assert(u.len() != d.len());
}

/// The indexer mirrors the contract: the event of an accepted message makes a
/// row whose count is the count that the contract recorded, and the event of
/// an accepted vote changes the row's count by the amount the contract's count
/// changed.
pub proof fn law_index_follows_contract(s: FeedbackState, from: Seq<char>, message: Seq<u8>, hash: Seq<u8>)
    ensures
        send_spec(s, from, message).1 is Ok ==> {
            let after = send_spec(s, from, message).0;
            let event = after.events.last();
            &&& event == (topic_name(EventKind::Feedback), from, sha256_digest(message), Some(message))
            &&& planned_steps(CONTRACT_ADDRESS@, event.0) == seq![
                IndexStep::RecordFeedback { votes: after.votes[sha256_digest(message)] },
            ]
        },
        upvote_spec(s, from, hash).1 is Ok && vote_defined(s, hash, 1) ==> {
            let after = upvote_spec(s, from, hash).0;
            let event = after.events.last();
            &&& event == (topic_name(EventKind::Upvote), from, hash, None::<Seq<u8>>)
            &&& planned_steps(CONTRACT_ADDRESS@, event.0).contains(IndexStep::AdjustVotes { upvote: true })
            &&& after.votes[hash] == s.votes[hash] + vote_delta(true)
        },
        downvote_spec(s, from, hash).1 is Ok && vote_defined(s, hash, -1) ==> {
            let after = downvote_spec(s, from, hash).0;
            let event = after.events.last();
            &&& event == (topic_name(EventKind::Downvote), from, hash, None::<Seq<u8>>)
            &&& planned_steps(CONTRACT_ADDRESS@, event.0).contains(IndexStep::AdjustVotes { upvote: false })
            &&& after.votes[hash] == s.votes[hash] + vote_delta(false)
        },
{
    law_topics_recognized(EventKind::Feedback);
    law_topics_recognized(EventKind::Upvote);
    law_topics_recognized(EventKind::Downvote);
    if upvote_spec(s, from, hash).1 is Ok {
        let steps = planned_steps(CONTRACT_ADDRESS@, topic_name(EventKind::Upvote));
        assert(steps[1] == IndexStep::AdjustVotes { upvote: true });
    }
    if downvote_spec(s, from, hash).1 is Ok {
        let steps = planned_steps(CONTRACT_ADDRESS@, topic_name(EventKind::Downvote));
        assert(steps[0] == IndexStep::AdjustVotes { upvote: false });
    }
}

/// A vote one way and a vote the other way leave a count where it was.
pub proof fn law_index_votes_cancel(votes: int, upvote: bool)
    ensures
        votes + vote_delta(upvote) + vote_delta(!upvote) == votes,
{
}

/// Each hexadecimal digit that the encoder writes reads back as its value.
proof fn lemma_digit_round_trip(d: int)
    requires
        0 <= d < 16,
    ensures
        hex_value(lower_hex_digits()[d]) == Some(d as u8),
{
    let digits = lower_hex_digits();
    assert(digits[0] == '0' && digits[1] == '1' && digits[2] == '2' && digits[3] == '3');
    assert(digits[4] == '4' && digits[5] == '5' && digits[6] == '6' && digits[7] == '7');
    assert(digits[8] == '8' && digits[9] == '9' && digits[10] == 'a' && digits[11] == 'b');
    assert(digits[12] == 'c' && digits[13] == 'd' && digits[14] == 'e' && digits[15] == 'f');
}

/// A hash as the indexer serves it (lower-case hexadecimal) reads back, in a
/// vote request, as the same bytes.
pub proof fn law_hex_round_trip(bytes: Seq<u8>)
    ensures
        hex_decoded(hex_lower(bytes)) == Some(bytes),
    decreases bytes.len(),
{
    if bytes.len() > 0 {
        let text = hex_lower(bytes);
        let b = bytes[0];
        let high = (b / 16) as int;
        let low = (b % 16) as int;
        lemma_digit_round_trip(high);
        lemma_digit_round_trip(low);
        law_hex_round_trip(bytes.drop_first());
        assert(text.subrange(2, text.len() as int) =~= hex_lower(bytes.drop_first()));
        assert(((high * 16 + low) as u8) == b);
        assert(seq![b] + bytes.drop_first() =~= bytes);
    }
}

/// In a table with one row per hash, a vote changes the count of that row
/// only.
proof fn lemma_adjust_single_row(table: Seq<RowView>, hash: Seq<u8>, k: int, upvote: bool)
    requires
        distinct_hashes(table),
        0 <= k < table.len(),
        table[k].1 == hash,
    ensures
        adjust_table(table, hash, upvote) == table.update(
            k,
            (table[k].0, table[k].1, table[k].2, (table[k].3 + vote_delta(upvote)) as i32),
        ),
{
    assert(table_first_match(table, hash, k));
    let c = choose|c: int| table_first_match(table, hash, c);
    assert(table_first_match(table, hash, c));
    assert(c == k);
    let row = (table[k].0, table[k].1, table[k].2, (table[k].3 + vote_delta(upvote)) as i32);
    assert(table.map_values(|r: RowView| if r.1 == hash { row } else { r }) =~= table.update(k, row));
}

/// In a table with one row per hash, a vote one way and a vote the other way
/// on a hash leave the table as it was.
pub proof fn law_index_adjust_round_trip(table: Seq<RowView>, hash: Seq<u8>, k: int, upvote: bool)
    requires
        distinct_hashes(table),
        0 <= k < table.len(),
        table[k].1 == hash,
        i32::MIN <= table[k].3 + vote_delta(upvote) <= i32::MAX,
    ensures
        adjust_table(adjust_table(table, hash, upvote), hash, !upvote) == table,
{
    lemma_adjust_single_row(table, hash, k, upvote);
    let once = adjust_table(table, hash, upvote);
    assert(distinct_hashes(once));
    lemma_adjust_single_row(once, hash, k, !upvote);
    assert(adjust_table(once, hash, !upvote) =~= table);
}

/// The messages table mirrors the contract: when it holds exactly one row
/// per recorded hash with its count, indexing the event of an accepted
/// message or vote keeps it so for the counts after the call.
pub proof fn law_index_mirrors_contract(s: FeedbackState, table: Seq<RowView>, from: Seq<char>, message: Seq<u8>, hash: Seq<u8>)
    requires
        mirrors(table, s.votes),
    ensures
        send_spec(s, from, message).1 is Ok ==> {
            let after = send_spec(s, from, message).0;
            mirrors(index_event(table, after.events.last()), after.votes)
        },
        upvote_spec(s, from, hash).1 is Ok && vote_defined(s, hash, 1) ==> {
            let after = upvote_spec(s, from, hash).0;
            mirrors(index_event(table, after.events.last()), after.votes)
        },
        downvote_spec(s, from, hash).1 is Ok && vote_defined(s, hash, -1) ==> {
            let after = downvote_spec(s, from, hash).0;
            mirrors(index_event(table, after.events.last()), after.votes)
        },
{
    reveal_with_fuel(apply_steps, 3);
    law_topics_recognized(EventKind::Feedback);
    law_topics_recognized(EventKind::Upvote);
    law_topics_recognized(EventKind::Downvote);
    if send_spec(s, from, message).1 is Ok {
        let digest = sha256_digest(message);
        let after = send_spec(s, from, message).0;
        let next = table.push((from, digest, message, 1i32));
        assert(index_event(table, after.events.last()) == next);
        assert forall|i: int| 0 <= i < next.len() implies after.votes.contains_key(#[trigger] next[i].1)
            && after.votes[next[i].1] == next[i].3 by {
            if i < table.len() {
                assert(s.votes.contains_key(table[i].1));
            }
        }
        assert forall|h: Seq<u8>| #[trigger] after.votes.contains_key(h) implies exists|i: int|
            0 <= i < next.len() && next[i].1 == h by {
            if h == digest {
                assert(next[table.len() as int].1 == h);
            } else {
                assert(s.votes.contains_key(h));
                let i = choose|i: int| 0 <= i < table.len() && table[i].1 == h;
                assert(next[i].1 == h);
            }
        }
        assert forall|i: int, j: int| 0 <= i < next.len() && 0 <= j < next.len() && i != j implies next[i].1
            != next[j].1 by {
            if i < table.len() && j == table.len() {
                assert(s.votes.contains_key(table[i].1));
            } else if j < table.len() && i == table.len() {
                assert(s.votes.contains_key(table[j].1));
            }
        }
    }
    if upvote_spec(s, from, hash).1 is Ok && vote_defined(s, hash, 1) {
        lemma_vote_mirrors(s, table, from, hash, EventKind::Upvote, true);
    }
    if downvote_spec(s, from, hash).1 is Ok && vote_defined(s, hash, -1) {
        lemma_vote_mirrors(s, table, from, hash, EventKind::Downvote, false);
    }
}

/// The vote half of `law_index_mirrors_contract`.
proof fn lemma_vote_mirrors(s: FeedbackState, table: Seq<RowView>, from: Seq<char>, hash: Seq<u8>, kind: EventKind, upvote: bool)
    requires
        mirrors(table, s.votes),
        s.admin is Some,
        kind == (if upvote { EventKind::Upvote } else { EventKind::Downvote }),
        vote_defined(s, hash, vote_delta(upvote)),
    ensures
        ({
            let after = crate::contract::vote_spec(s, from, hash, kind, vote_delta(upvote)).0;
            mirrors(index_event(table, after.events.last()), after.votes)
        }),
{
    reveal_with_fuel(apply_steps, 3);
    law_topics_recognized(kind);
    let after = crate::contract::vote_spec(s, from, hash, kind, vote_delta(upvote)).0;
    assert(s.votes.contains_key(hash));
    let k = choose|i: int| 0 <= i < table.len() && table[i].1 == hash;
    lemma_adjust_single_row(table, hash, k, upvote);
    let next = table.update(k, (table[k].0, table[k].1, table[k].2, (table[k].3 + vote_delta(upvote)) as i32));
    if upvote {
        assert(planned_steps(CONTRACT_ADDRESS@, topic_name(kind)) == seq![
            IndexStep::RecordVote { upvote: true },
            IndexStep::AdjustVotes { upvote: true },
        ]);
    } else {
        assert(planned_steps(CONTRACT_ADDRESS@, topic_name(kind)) == seq![
            IndexStep::AdjustVotes { upvote: false },
            IndexStep::RecordVote { upvote: true },
        ]);
    }
    assert(index_event(table, after.events.last()) == next);
    assert forall|i: int| 0 <= i < next.len() implies after.votes.contains_key(#[trigger] next[i].1)
        && after.votes[next[i].1] == next[i].3 by {
        assert(s.votes.contains_key(table[i].1));
    }
    assert forall|h: Seq<u8>| #[trigger] after.votes.contains_key(h) implies exists|i: int|
        0 <= i < next.len() && next[i].1 == h by {
        assert(s.votes.contains_key(h));
        let i = choose|i: int| 0 <= i < table.len() && table[i].1 == h;
        assert(next[i].1 == h);
    }
}

/// What indexing a sequence of events, in order, does to the messages table.
pub open spec fn index_events(table: Seq<RowView>, events: Seq<(Seq<char>, Seq<char>, Seq<u8>, Option<Seq<u8>>)>) -> Seq<RowView>
    decreases events.len(),
{
    if events.len() == 0 {
        table
    } else {
        index_events(index_event(table, events[0]), events.drop_first())
    }
}

/// A call that does not abort for want of a count.
pub open spec fn call_defined(s: FeedbackState, call: Call) -> bool {
    match call {
        Call::Upvote { hash, .. } => vote_defined(s, hash, 1),
        Call::Downvote { hash, .. } => vote_defined(s, hash, -1),
        Call::GetFeedback { hash } => read_defined(s, hash),
        _ => true,
    }
}

/// A sequence of calls none of which aborts for want of a count.
pub open spec fn calls_defined(s: FeedbackState, calls: Seq<Call>) -> bool
    decreases calls.len(),
{
    calls.len() == 0 || (call_defined(s, calls[0]) && calls_defined(apply_call(s, calls[0]), calls.drop_first()))
}

/// The index keeps mirroring the contract over any sequence of calls, with
/// any outcomes: when the messages table holds exactly one row per recorded
/// hash with its count, indexing the events that the calls published, in
/// order, leaves it holding exactly one row per hash recorded after them,
/// with its count.
pub proof fn law_index_mirrors_calls(s: FeedbackState, table: Seq<RowView>, calls: Seq<Call>)
    requires
        mirrors(table, s.votes),
        calls_defined(s, calls),
    ensures
        s.events.len() <= apply_calls(s, calls).events.len(),
        apply_calls(s, calls).events.subrange(0, s.events.len() as int) == s.events,
        mirrors(
            index_events(table, apply_calls(s, calls).events.skip(s.events.len() as int)),
            apply_calls(s, calls).votes,
        ),
    decreases calls.len(),
{
    let fin = apply_calls(s, calls);
    if calls.len() == 0 {
        assert(fin.events.subrange(0, s.events.len() as int) =~= s.events);
        assert(fin.events.skip(s.events.len() as int) =~= Seq::empty());
    } else {
        let call = calls[0];
        let s1 = apply_call(s, call);
        let rest = calls.drop_first();
        assert(fin == apply_calls(s1, rest));
        let published = match call {
            Call::Send { from, message } => send_spec(s, from, message).1 is Ok,
            Call::Upvote { from, hash } => upvote_spec(s, from, hash).1 is Ok,
            Call::Downvote { from, hash } => downvote_spec(s, from, hash).1 is Ok,
            _ => false,
        };
        if published {
            let e = s1.events.last();
            match call {
                Call::Send { from, message } => {
                    law_index_mirrors_contract(s, table, from, message, Seq::empty());
                },
                Call::Upvote { from, hash } => {
                    law_index_mirrors_contract(s, table, from, Seq::empty(), hash);
                },
                Call::Downvote { from, hash } => {
                    law_index_mirrors_contract(s, table, from, Seq::empty(), hash);
                },
                _ => {},
            }
            assert(s1.events == s.events.push(e));
            let table1 = index_event(table, e);
            law_index_mirrors_calls(s1, table1, rest);
            assert(fin.events.subrange(0, s.events.len() as int) =~= s1.events.subrange(0, s.events.len() as int));
            assert(s1.events.subrange(0, s.events.len() as int) =~= s.events);
            let tail = fin.events.skip(s.events.len() as int);
            assert(tail[0] == fin.events[s.events.len() as int]);
            assert(fin.events.subrange(0, s1.events.len() as int)[s.events.len() as int] == e);
            assert(tail.drop_first() =~= fin.events.skip(s1.events.len() as int));
        } else {
            assert(s1.events == s.events && s1.votes == s.votes);
            law_index_mirrors_calls(s1, table, rest);
        }
    }
}

/// On one host handle, what an accepted upvote leaves behind (as its
/// `ensures` states it) lets another authorized address downvote the same
/// message, and that downvote brings every count back: the upvote keeps the
/// administrator, the network's limits and every other address's
/// authorization. The voter's own authorization is used up by the upvote, as
/// the host uses it up for the current contract call.
pub proof fn law_upvote_then_downvote(before: Env, after: Env, voter: Seq<char>, other: Seq<char>, hash: Seq<u8>)
    requires
        vote_defined(state_of(before), hash, 1),
        vote_lifetime_defined(before),
        authorized_where_needed(before, voter),
        upvote_spec(state_of(before), voter, hash).1 is Ok,
        state_of(after) == upvote_spec(state_of(before), voter, hash).0,
        vote_write_lifetimes(before, after, hash),
        permissions_kept(before, after, voter),
        other != voter,
        authorized_where_needed(before, other),
    ensures
        vote_defined(state_of(after), hash, -1),
        vote_lifetime_defined(after),
        authorized_where_needed(after, other),
        downvote_spec(state_of(after), other, hash).1 is Ok,
        downvote_spec(state_of(after), other, hash).0.votes == state_of(before).votes,
{
    law_votes_cancel(state_of(before), voter, other, hash);
}

/// Whether a character is a lower-case hexadecimal digit.
pub open spec fn is_lower_hex_digit(c: char) -> bool {
    ('0' <= c && c <= '9') || ('a' <= c && c <= 'f')
}

/// The lower-case spelling of bytes has two digits a byte, each a lower-case
/// hexadecimal digit.
proof fn lemma_hex_lower_shape(bytes: Seq<u8>)
    ensures
        hex_lower(bytes).len() == 2 * bytes.len(),
        forall|i: int| 0 <= i < hex_lower(bytes).len() ==> is_lower_hex_digit(#[trigger] hex_lower(bytes)[i]),
    decreases bytes.len(),
{
    if bytes.len() > 0 {
        let digits = lower_hex_digits();
        assert forall|d: int| 0 <= d < 16 implies is_lower_hex_digit(#[trigger] digits[d]) by {
            assert(digits[0] == '0' && digits[1] == '1' && digits[2] == '2' && digits[3] == '3');
            assert(digits[4] == '4' && digits[5] == '5' && digits[6] == '6' && digits[7] == '7');
            assert(digits[8] == '8' && digits[9] == '9' && digits[10] == 'a' && digits[11] == 'b');
            assert(digits[12] == 'c' && digits[13] == 'd' && digits[14] == 'e' && digits[15] == 'f');
        }
        lemma_hex_lower_shape(bytes.drop_first());
        let b = bytes[0];
        let text = hex_lower(bytes);
        let rest = hex_lower(bytes.drop_first());
        assert(text =~= seq![digits[(b / 16) as int], digits[(b % 16) as int]] + rest);
        assert forall|i: int| 0 <= i < text.len() implies is_lower_hex_digit(#[trigger] text[i]) by {
            if i >= 2 {
                assert(text[i] == rest[i - 2]);
            }
        }
    }
}

/// A messages row is served with its poster and its count as they are, its
/// hash spelled in lower-case hexadecimal, two digits a byte, that reads back
/// as the same bytes, and its text decoded from UTF-8 whatever its length;
/// `Invalid text` is served only for bytes that are not UTF-8.
pub proof fn law_served_row(row: Feedback, http: FeedbackHttp)
    requires
        served_as(row, http),
    ensures
        http.from@ == row.source@,
        http.votes == row.votes,
        http.hash@.len() == 2 * row.hash@.len(),
        forall|i: int| 0 <= i < http.hash@.len() ==> is_lower_hex_digit(#[trigger] http.hash@[i]),
        hex_decoded(http.hash@) == Some(row.hash@),
        valid_utf8(row.text@) ==> http.text@ == decode_utf8(row.text@),
        !valid_utf8(row.text@) ==> http.text@ == seq!['I', 'n', 'v', 'a', 'l', 'i', 'd', ' ', 't', 'e', 'x', 't'],
{
    lemma_hex_lower_shape(row.hash@);
    law_hex_round_trip(row.hash@);
}

/// A simulated send is made from the requesting account, at its sequence, to
/// the contract function `send`, with the request's message whole; a
/// simulated vote is made exactly when the hash spells 32 bytes, from the
/// requesting account, at its sequence, to `upvote` or `downvote` as asked,
/// with those bytes.
pub proof fn law_simulated_call(request: SimulationRequest, call: Option<SimulationCall>)
    requires
        call_for(request, call),
    ensures
        request matches SimulationRequest::Send(send) ==> {
            &&& call matches Some(c)
            &&& c.from@ == send.from@
            &&& c.sequence == send.sequence
            &&& c.function@ == seq!['s', 'e', 'n', 'd']
            &&& c.args matches CallArgs::Send { message }
            &&& message@ == send.message@
        },
        request matches SimulationRequest::Vote(vote) ==> (call is Some <==> (hex_decoded(vote.hash@) matches Some(
            bytes,
        ) && bytes.len() == 32)),
        request matches SimulationRequest::Vote(vote) ==> (call matches Some(c) ==> {
            &&& c.from@ == vote.from@
            &&& c.sequence == vote.sequence
            &&& vote.upvote ==> c.function@ == seq!['u', 'p', 'v', 'o', 't', 'e']
            &&& !vote.upvote ==> c.function@ == seq!['d', 'o', 'w', 'n', 'v', 'o', 't', 'e']
            &&& c.args matches CallArgs::Vote { hash }
            &&& hex_decoded(vote.hash@) == Some(hash@)
        }),
{
}

/// A vote on a hash changes by one the count of the first row with that hash,
/// up for an upvote and down for a downvote, and keeps that row's poster, hash
/// and text; where no row has the hash nothing is updated.
pub proof fn law_vote_update(rows: Seq<Feedback>, hash: Seq<u8>, upvote: bool, updated: Option<Feedback>)
    requires
        updated is None <==> no_match(rows, hash),
        forall|k: int| #[trigger] first_match(rows, hash, k) ==> (updated matches Some(row) && voted_row(rows[k], row, upvote)),
    ensures
        updated is None <==> (forall|j: int| 0 <= j < rows.len() ==> rows[j].hash@ != hash),
        forall|k: int|
            0 <= k < rows.len() && rows[k].hash@ == hash && (forall|j: int| 0 <= j < k ==> rows[j].hash@ != hash)
                ==> {
                &&& updated matches Some(row)
                &&& row.source@ == rows[k].source@
                &&& row.hash@ == hash
                &&& row.text@ == rows[k].text@
                &&& row.votes == if upvote { rows[k].votes + 1 } else { rows[k].votes - 1 }
            },
{
    assert forall|k: int|
        0 <= k < rows.len() && rows[k].hash@ == hash && (forall|j: int| 0 <= j < k ==> rows[j].hash@ != hash) implies {
        &&& updated matches Some(row)
        &&& row.source@ == rows[k].source@
        &&& row.hash@ == hash
        &&& row.text@ == rows[k].text@
        &&& row.votes == if upvote { rows[k].votes + 1 } else { rows[k].votes - 1 }
    } by {
        assert(first_match(rows, hash, k));
    }
}

/// Only events of the indexed contract are indexed: `feedback` adds a row
/// with one vote, `upvote` records the vote and adds one to the count,
/// `downvote` takes one from the count and records the vote, and any other
/// first topic does nothing.
pub proof fn law_indexed_topics(contract: Seq<u8>, topic: Seq<char>)
    ensures
        contract != CONTRACT_ADDRESS@ ==> planned_steps(contract, topic) == Seq::<IndexStep>::empty(),
        contract == CONTRACT_ADDRESS@ && topic == seq!['f', 'e', 'e', 'd', 'b', 'a', 'c', 'k'] ==> planned_steps(
            contract,
            topic,
        ) == seq![IndexStep::RecordFeedback { votes: 1 }],
        contract == CONTRACT_ADDRESS@ && topic == seq!['u', 'p', 'v', 'o', 't', 'e'] ==> planned_steps(contract, topic)
            == seq![IndexStep::RecordVote { upvote: true }, IndexStep::AdjustVotes { upvote: true }],
        contract == CONTRACT_ADDRESS@ && topic == seq!['d', 'o', 'w', 'n', 'v', 'o', 't', 'e'] ==> planned_steps(
            contract,
            topic,
        ) == seq![IndexStep::AdjustVotes { upvote: false }, IndexStep::RecordVote { upvote: true }],
        topic != seq!['f', 'e', 'e', 'd', 'b', 'a', 'c', 'k'] && topic != seq!['u', 'p', 'v', 'o', 't', 'e'] && topic
            != seq!['d', 'o', 'w', 'n', 'v', 'o', 't', 'e'] ==> planned_steps(contract, topic) == Seq::<IndexStep>::empty(),
{
    law_topics_recognized(EventKind::Feedback);
    law_topics_recognized(EventKind::Upvote);
    law_topics_recognized(EventKind::Downvote);
    assert(topic_name(EventKind::Feedback) =~= seq!['f', 'e', 'e', 'd', 'b', 'a', 'c', 'k']);
    assert(topic_name(EventKind::Upvote) =~= seq!['u', 'p', 'v', 'o', 't', 'e']);
    assert(topic_name(EventKind::Downvote) =~= seq!['d', 'o', 'w', 'n', 'v', 'o', 't', 'e']);
}

} // verus!
