//! The feedback contract: an administrator initializes it once, then anyone
//! may post a message (recorded by its SHA-256 hash with one vote) and vote
//! for or against a recorded message, each in their own name; only the
//! administrator may replace the contract's code.
use crate::error::Error;
use crate::events::{self, topic_name, EventKind};
use crate::host::{
    address_key, authorizes, bytes_contents, contract_wasm, get_hash, hash_contents, instance_ttl, max_entry_ttl,
    new_temporary_ttl, published_events, require_auth, required_auths, same_lifetimes, same_permissions,
    sha256_digest, temporary_ttls, update_contract_wasm, wasm_uploaded,
};
use crate::storage::{
    bump_instance, bumped_instance_ttl, bumped_votes_ttl, check_votes_lifetime, feedback_key_name, has_admin,
    has_votes, read_admin, read_votes, stored_admin, stored_votes, votes_lifetime_allowed, votes_ttl,
    write_admin, write_votes, written_votes_ttl,
};
use soroban_sdk::{Address, Bytes, BytesN, Env};
use vstd::prelude::*;

verus! {

/// What the contract holds and has done: the administrator's strkey once
/// initialized, the vote count of each recorded message hash, the events
/// published so far (first topic, poster or voter, hash, data), the addresses
/// whose authorization was required, and the Wasm hash of its code.
#[verifier::ext_equal]
pub struct FeedbackState {
    pub admin: Option<Seq<char>>,
    pub votes: Map<Seq<u8>, i32>,
    pub events: Seq<(Seq<char>, Seq<char>, Seq<u8>, Option<Seq<u8>>)>,
    pub auths: Seq<Seq<char>>,
    pub code: Option<Seq<u8>>,
}

/// The contract state that a host handle shows.
pub open spec fn state_of(env: Env) -> FeedbackState {
    FeedbackState {
        admin: stored_admin(env),
        votes: stored_votes(env),
        events: published_events(env),
        auths: required_auths(env),
        code: contract_wasm(env),
    }
}

/// The result of `initialize`: an administrator is recorded only once.
pub open spec fn initialize_spec(s: FeedbackState, admin: Seq<char>) -> (FeedbackState, Result<(), Error>) {
    if s.admin is Some {
        (s, Err(Error::AlreadyInitialized))
    } else {
        (FeedbackState { admin: Some(admin), ..s }, Ok(()))
    }
}

/// The result of `send` of a message by `from`: once initialized, `from`'s
/// authorization is required; then the message is recorded by its SHA-256
/// digest with one vote, unless the digest is recorded already.
pub open spec fn send_spec(s: FeedbackState, from: Seq<char>, message: Seq<u8>) -> (FeedbackState, Result<(), Error>) {
    let hash = sha256_digest(message);
    let authorized = FeedbackState { auths: s.auths.push(from), ..s };
    if s.admin is None {
        (s, Err(Error::NotInitialized))
    } else if s.votes.contains_key(hash) {
        (authorized, Err(Error::MessageAlreadyExists))
    } else {
        (
            FeedbackState {
                votes: s.votes.insert(hash, 1),
                events: s.events.push((topic_name(EventKind::Feedback), from, hash, Some(message))),
                ..authorized
            },
            Ok(()),
        )
    }
}

/// Where `send` does not abort: the host must let a new count live its full
/// lifetime.
pub open spec fn send_defined(s: FeedbackState, message: Seq<u8>, lifetime_allowed: bool) -> bool {
    (s.admin is Some && !s.votes.contains_key(sha256_digest(message))) ==> lifetime_allowed
}

/// Where a vote on `hash` does not abort for want of a count: before
/// initialization, or on a recorded hash whose count stays within `i32` after
/// the step `delta`.
pub open spec fn vote_defined(s: FeedbackState, hash: Seq<u8>, delta: int) -> bool {
    s.admin is Some ==> {
        &&& s.votes.contains_key(hash)
        &&& i32::MIN <= s.votes[hash] + delta <= i32::MAX
    }
}

/// Where a vote does not abort for want of lifetime: before initialization,
/// or where the host lets a count live its full lifetime.
pub open spec fn vote_lifetime_defined(env: Env) -> bool {
    stored_admin(env) is Some ==> votes_lifetime_allowed(env)
}

/// The result of a vote of `delta` (one up or one down) on `hash` by `from`:
/// once initialized, `from`'s authorization is required and the count moves.
pub open spec fn vote_spec(s: FeedbackState, from: Seq<char>, hash: Seq<u8>, kind: EventKind, delta: int) -> (FeedbackState, Result<(), Error>) {
    if s.admin is None {
        (s, Err(Error::NotInitialized))
    } else {
        (
            FeedbackState {
                votes: s.votes.insert(hash, (s.votes[hash] + delta) as i32),
                events: s.events.push((topic_name(kind), from, hash, None)),
                auths: s.auths.push(from),
                ..s
            },
            Ok(()),
        )
    }
}

/// The result of `upvote`: the count of `hash` grows by one.
pub open spec fn upvote_spec(s: FeedbackState, from: Seq<char>, hash: Seq<u8>) -> (FeedbackState, Result<(), Error>) {
    vote_spec(s, from, hash, EventKind::Upvote, 1)
}

/// The result of `downvote`: the count of `hash` shrinks by one.
pub open spec fn downvote_spec(s: FeedbackState, from: Seq<char>, hash: Seq<u8>) -> (FeedbackState, Result<(), Error>) {
    vote_spec(s, from, hash, EventKind::Downvote, -1)
}

/// Where `get_feedback` does not abort: before initialization, or on a
/// recorded hash.
pub open spec fn read_defined(s: FeedbackState, hash: Seq<u8>) -> bool {
    s.admin is Some ==> s.votes.contains_key(hash)
}

/// The result of `get_feedback`: the count of `hash`.
pub open spec fn get_feedback_spec(s: FeedbackState, hash: Seq<u8>) -> Result<i32, Error> {
    if s.admin is None {
        Err(Error::NotInitialized)
    } else {
        Ok(s.votes[hash])
    }
}

/// The result of `update_binary`: refused before initialization; then the
/// administrator's authorization is required and the code becomes the Wasm
/// with hash `wasm`.
pub open spec fn update_binary_spec(s: FeedbackState, wasm: Seq<u8>) -> (FeedbackState, Result<(), Error>) {
    match s.admin {
        None => (s, Err(Error::NotInitialized)),
        Some(admin) => (FeedbackState { auths: s.auths.push(admin), code: Some(wasm), ..s }, Ok(())),
    }
}

/// The lifetimes after the count of `hash` was written and extended: that
/// count's lifetime is extended from what the write left, and every other
/// lifetime and the network's limits stay.
pub open spec fn vote_write_lifetimes(old: Env, new: Env, hash: Seq<u8>) -> bool {
    &&& votes_ttl(new, hash) == bumped_votes_ttl(written_votes_ttl(old, hash))
    &&& temporary_ttls(new).remove((feedback_key_name(), hash)) == temporary_ttls(old).remove((feedback_key_name(), hash))
    &&& instance_ttl(new) == instance_ttl(old)
    &&& max_entry_ttl(new) == max_entry_ttl(old)
    &&& new_temporary_ttl(new) == new_temporary_ttl(old)
}

/// The authorizations of every address but `used`, and the uploaded code,
/// stay available.
pub open spec fn permissions_kept(old: Env, new: Env, used: Seq<char>) -> bool {
    &&& forall|a: Seq<char>| a != used ==> #[trigger] authorizes(new, a) == authorizes(old, a)
    &&& forall|h: Seq<u8>| #[trigger] wasm_uploaded(new, h) == wasm_uploaded(old, h)
}

/// The invocation carries `from`'s authorization wherever the call needs it:
/// once the contract is initialized.
pub open spec fn authorized_where_needed(env: Env, from: Seq<char>) -> bool {
    stored_admin(env) is Some ==> authorizes(env, from)
}

/// The contract.
pub struct Feedback;

impl Feedback {
    /// Records `admin` as the administrator, once, and extends the lifetime
    /// of the instance.
    pub fn initialize(env: &mut Env, admin: Address) -> (r: Result<(), Error>)
        ensures
            state_of(*final(env)) == initialize_spec(state_of(*old(env)), address_key(admin)).0,
            r == initialize_spec(state_of(*old(env)), address_key(admin)).1,
            instance_ttl(*final(env)) == if r is Ok {
                bumped_instance_ttl(*old(env))
            } else {
                instance_ttl(*old(env))
            },
            temporary_ttls(*final(env)) == temporary_ttls(*old(env)),
            max_entry_ttl(*final(env)) == max_entry_ttl(*old(env)),
            new_temporary_ttl(*final(env)) == new_temporary_ttl(*old(env)),
            same_permissions(*old(env), *final(env)),
    {
        if has_admin(env) {
            return Err(Error::AlreadyInitialized);
        }
        write_admin(env, &admin);
        bump_instance(env);
        Ok(())
    }

    /// Records `message` by its hash with one vote, authorized by `from`, and
    /// publishes a `feedback` event; the count's lifetime is then extended.
    pub fn send(env: &mut Env, from: Address, message: Bytes) -> (r: Result<(), Error>)
        requires
            send_defined(state_of(*old(env)), bytes_contents(message), votes_lifetime_allowed(*old(env))),
            authorized_where_needed(*old(env), address_key(from)),
        ensures
            state_of(*final(env)) == send_spec(state_of(*old(env)), address_key(from), bytes_contents(message)).0,
            r == send_spec(state_of(*old(env)), address_key(from), bytes_contents(message)).1,
            r is Ok ==> vote_write_lifetimes(*old(env), *final(env), sha256_digest(bytes_contents(message))),
            r is Err ==> same_lifetimes(*old(env), *final(env)),
            permissions_kept(*old(env), *final(env), address_key(from)),
    {
        if !has_admin(env) {
            return Err(Error::NotInitialized);
        }
        require_auth(env, &from);
        let hash = get_hash(env, &message);
        if has_votes(env, &hash) {
            return Err(Error::MessageAlreadyExists);
        }
        write_votes(env, &hash, 1);
        events::new_feedback(env, &from, hash, message);
        Ok(())
    }

    /// Adds one vote to the message with hash `hash`, authorized by `from`,
    /// and publishes an `upvote` event; the count's lifetime is then
    /// extended.
    pub fn upvote(env: &mut Env, from: Address, hash: BytesN<32>) -> (r: Result<(), Error>)
        requires
            vote_defined(state_of(*old(env)), hash_contents(hash), 1),
            vote_lifetime_defined(*old(env)),
            authorized_where_needed(*old(env), address_key(from)),
        ensures
            state_of(*final(env)) == upvote_spec(state_of(*old(env)), address_key(from), hash_contents(hash)).0,
            r == upvote_spec(state_of(*old(env)), address_key(from), hash_contents(hash)).1,
            r is Ok ==> vote_write_lifetimes(*old(env), *final(env), hash_contents(hash)),
            r is Err ==> same_lifetimes(*old(env), *final(env)),
            permissions_kept(*old(env), *final(env), address_key(from)),
    {
        if !has_admin(env) {
            return Err(Error::NotInitialized);
        }
        require_auth(env, &from);
        let votes = read_votes(env, &hash);
        write_votes(env, &hash, votes + 1);
        events::upvote(env, &from, hash);
        Ok(())
    }

    /// Takes one vote from the message with hash `hash`, authorized by
    /// `from`, and publishes a `downvote` event; the count's lifetime is then
    /// extended.
    pub fn downvote(env: &mut Env, from: Address, hash: BytesN<32>) -> (r: Result<(), Error>)
        requires
            vote_defined(state_of(*old(env)), hash_contents(hash), -1),
            vote_lifetime_defined(*old(env)),
            authorized_where_needed(*old(env), address_key(from)),
        ensures
            state_of(*final(env)) == downvote_spec(state_of(*old(env)), address_key(from), hash_contents(hash)).0,
            r == downvote_spec(state_of(*old(env)), address_key(from), hash_contents(hash)).1,
            r is Ok ==> vote_write_lifetimes(*old(env), *final(env), hash_contents(hash)),
            r is Err ==> same_lifetimes(*old(env), *final(env)),
            permissions_kept(*old(env), *final(env), address_key(from)),
    {
        if !has_admin(env) {
            return Err(Error::NotInitialized);
        }
        require_auth(env, &from);
        let votes = read_votes(env, &hash);
        write_votes(env, &hash, votes - 1);
        events::downvote(env, &from, hash);
        Ok(())
    }

    /// Replaces the contract's code by the uploaded Wasm with hash `hash`,
    /// authorized by the administrator.
    pub fn update_binary(env: &mut Env, hash: BytesN<32>) -> (r: Result<(), Error>)
        requires
            stored_admin(*old(env)) matches Some(admin) ==> authorizes(*old(env), admin) && wasm_uploaded(
                *old(env),
                hash_contents(hash),
            ),
        ensures
            state_of(*final(env)) == update_binary_spec(state_of(*old(env)), hash_contents(hash)).0,
            r == update_binary_spec(state_of(*old(env)), hash_contents(hash)).1,
            same_lifetimes(*old(env), *final(env)),
            stored_admin(*old(env)) matches Some(admin) ==> permissions_kept(*old(env), *final(env), admin),
            stored_admin(*old(env)) is None ==> same_permissions(*old(env), *final(env)),
    {
        if !has_admin(env) {
            return Err(Error::NotInitialized);
        }
        let admin = read_admin(env);
        require_auth(env, &admin);
        update_contract_wasm(env, hash);
        Ok(())
    }

    /// The vote count of the message with hash `hash`.
    pub fn get_feedback(env: &Env, hash: BytesN<32>) -> (r: Result<i32, Error>)
        requires
            read_defined(state_of(*env), hash_contents(hash)),
        ensures
            r == get_feedback_spec(state_of(*env), hash_contents(hash)),
    {
        if !has_admin(env) {
            return Err(Error::NotInitialized);
        }
        Ok(read_votes(env, &hash))
    }

    /// `send` where it is defined; `None`, with nothing changed, where it
    /// would abort: when the network does not let a new count live its full
    /// lifetime.
    pub fn checked_send(env: &mut Env, from: Address, message: Bytes) -> (r: Option<Result<(), Error>>)
        requires
            authorized_where_needed(*old(env), address_key(from)),
        ensures
            send_defined(state_of(*old(env)), bytes_contents(message), votes_lifetime_allowed(*old(env))) ==> {
                &&& r == Some(send_spec(state_of(*old(env)), address_key(from), bytes_contents(message)).1)
                &&& state_of(*final(env)) == send_spec(state_of(*old(env)), address_key(from), bytes_contents(message)).0
            },
            !send_defined(state_of(*old(env)), bytes_contents(message), votes_lifetime_allowed(*old(env))) ==> {
                &&& r is None
                &&& state_of(*final(env)) == state_of(*old(env))
            },
    {
        if has_admin(env) && !check_votes_lifetime(env) {
            let hash = get_hash(env, &message);
            if !has_votes(env, &hash) {
                return None;
            }
        }
        Some(Self::send(env, from, message))
    }

    /// `upvote` where it is defined; `None`, with nothing changed, where it
    /// would abort: on an unrecorded hash, on a count of `i32::MAX`, or when
    /// the network does not let the count live its full lifetime.
    pub fn checked_upvote(env: &mut Env, from: Address, hash: BytesN<32>) -> (r: Option<Result<(), Error>>)
        requires
            authorized_where_needed(*old(env), address_key(from)),
        ensures
            (vote_defined(state_of(*old(env)), hash_contents(hash), 1) && vote_lifetime_defined(*old(env))) ==> {
                &&& r == Some(upvote_spec(state_of(*old(env)), address_key(from), hash_contents(hash)).1)
                &&& state_of(*final(env)) == upvote_spec(state_of(*old(env)), address_key(from), hash_contents(hash)).0
            },
            !(vote_defined(state_of(*old(env)), hash_contents(hash), 1) && vote_lifetime_defined(*old(env))) ==> {
                &&& r is None
                &&& state_of(*final(env)) == state_of(*old(env))
            },
    {
        if has_admin(env) {
            if !has_votes(env, &hash) || !check_votes_lifetime(env) {
                return None;
            }
            if read_votes(env, &hash) == i32::MAX {
                return None;
            }
        }
        Some(Self::upvote(env, from, hash))
    }

    /// `downvote` where it is defined; `None`, with nothing changed, where it
    /// would abort: on an unrecorded hash, on a count of `i32::MIN`, or when
    /// the network does not let the count live its full lifetime.
    pub fn checked_downvote(env: &mut Env, from: Address, hash: BytesN<32>) -> (r: Option<Result<(), Error>>)
        requires
            authorized_where_needed(*old(env), address_key(from)),
        ensures
            (vote_defined(state_of(*old(env)), hash_contents(hash), -1) && vote_lifetime_defined(*old(env))) ==> {
                &&& r == Some(downvote_spec(state_of(*old(env)), address_key(from), hash_contents(hash)).1)
                &&& state_of(*final(env)) == downvote_spec(state_of(*old(env)), address_key(from), hash_contents(hash)).0
            },
            !(vote_defined(state_of(*old(env)), hash_contents(hash), -1) && vote_lifetime_defined(*old(env))) ==> {
                &&& r is None
                &&& state_of(*final(env)) == state_of(*old(env))
            },
    {
        if has_admin(env) {
            if !has_votes(env, &hash) || !check_votes_lifetime(env) {
                return None;
            }
            if read_votes(env, &hash) == i32::MIN {
                return None;
            }
        }
        Some(Self::downvote(env, from, hash))
    }

    /// `get_feedback` where it is defined; `None` where it would abort: on an
    /// unrecorded hash after initialization.
    pub fn checked_get_feedback(env: &Env, hash: BytesN<32>) -> (r: Option<Result<i32, Error>>)
        ensures
            read_defined(state_of(*env), hash_contents(hash)) ==> r == Some(
                get_feedback_spec(state_of(*env), hash_contents(hash)),
            ),
            !read_defined(state_of(*env), hash_contents(hash)) ==> r is None,
    {
        if has_admin(env) && !has_votes(env, &hash) {
            return None;
        }
        Some(Self::get_feedback(env, hash))
    }
}

} // verus!
