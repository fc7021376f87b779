//! Storage of the contract: the administrator in instance storage under the
//! key `Admin`, the vote count of each message in temporary storage under the
//! key `Feedback(hash)`, and how long the host keeps each of them.
use crate::host::{
    address_key, extend_instance_ttl, extend_temporary_ttl, hash_contents, instance_ttl, max_entry_ttl, max_ttl,
    new_temporary_ttl, same_auths, same_code, same_events, same_lifetimes, same_permissions, same_storage,
    temporary_ttls, instance_addresses, instance_get_address,
    instance_has, instance_set_address, is_symbol, published_events, temporary_counts, temporary_get_count,
    temporary_has, temporary_set_count,
};
use soroban_sdk::{Address, BytesN, Env};
use vstd::prelude::*;

verus! {

/// Ledgers closed in a day, at about five seconds a ledger.
pub const DAY_IN_LEDGERS: u32 = 17280;

/// How long instance storage is kept after a write: about thirty days.
pub const INSTANCE_LEDGER_LIFE: u32 = 30 * DAY_IN_LEDGERS;

/// Instance storage is extended once fewer ledgers than this remain.
pub const INSTANCE_LEDGER_TTL_THRESHOLD: u32 = INSTANCE_LEDGER_LIFE - DAY_IN_LEDGERS;

/// How long a vote count is kept after a write: about thirty days.
pub const TEMPORARY_LEDGER_LIFE: u32 = 30 * DAY_IN_LEDGERS;

/// A vote count is extended once fewer ledgers than this remain.
pub const TEMPORARY_LEDGER_TTL_THRESHOLD: u32 = TEMPORARY_LEDGER_LIFE - DAY_IN_LEDGERS;

/// The name of the key of the administrator.
pub open spec fn admin_key_name() -> Seq<char> {
    seq!['A', 'd', 'm', 'i', 'n']
}

/// The name of the keys of the vote counts.
pub open spec fn feedback_key_name() -> Seq<char> {
    seq!['F', 'e', 'e', 'd', 'b', 'a', 'c', 'k']
}

/// The administrator that the contract recorded, by strkey.
pub open spec fn stored_admin(env: Env) -> Option<Seq<char>> {
    if instance_addresses(env).contains_key(admin_key_name()) {
        Some(instance_addresses(env)[admin_key_name()])
    } else {
        None
    }
}

/// The vote count of each recorded message, by the bytes of its hash.
pub open spec fn stored_votes(env: Env) -> Map<Seq<u8>, i32> {
    Map::new(
        |hash: Seq<u8>| temporary_counts(env).contains_key((feedback_key_name(), hash)),
        |hash: Seq<u8>| temporary_counts(env)[(feedback_key_name(), hash)],
    )
}

/// The name of the key of the administrator, `Admin`.
fn admin_key() -> (name: &'static str)
    ensures
        name@ == admin_key_name(),
        is_symbol(name@),
{
    let name = "Admin";
    proof {
        reveal_strlit("Admin");
        assert(name@ =~= admin_key_name());
    }
    name
}

/// The name of the keys of the vote counts, `Feedback`.
fn feedback_key() -> (name: &'static str)
    ensures
        name@ == feedback_key_name(),
        is_symbol(name@),
{
    let name = "Feedback";
    proof {
        reveal_strlit("Feedback");
        assert(name@ =~= feedback_key_name());
    }
    name
}

/// Whether an administrator is recorded.
pub fn has_admin(env: &Env) -> (present: bool)
    ensures
        present == (stored_admin(*env) is Some),
{
    instance_has(env, admin_key())
}

/// Records `admin` as the administrator.
pub fn write_admin(env: &mut Env, admin: &Address)
    ensures
        stored_admin(*final(env)) == Some(address_key(*admin)),
        stored_votes(*final(env)) == stored_votes(*old(env)),
        temporary_counts(*final(env)) == temporary_counts(*old(env)),
        same_lifetimes(*old(env), *final(env)),
        same_permissions(*old(env), *final(env)),
        same_events(*old(env), *final(env)),
        same_auths(*old(env), *final(env)),
        same_code(*old(env), *final(env)),
{
    instance_set_address(env, admin_key(), admin);
    assert(stored_votes(*final(env)) =~= stored_votes(*old(env)));
}

/// The recorded administrator.
pub fn read_admin(env: &Env) -> (admin: Address)
    requires
        stored_admin(*env) is Some,
    ensures
        stored_admin(*env) == Some(address_key(admin)),
{
    instance_get_address(env, admin_key())
}

/// Whether a vote count is recorded for `hash`.
pub fn has_votes(env: &Env, hash: &BytesN<32>) -> (present: bool)
    ensures
        present == stored_votes(*env).contains_key(hash_contents(*hash)),
{
    temporary_has(env, feedback_key(), hash)
}

/// The vote count recorded for `hash`.
pub fn read_votes(env: &Env, hash: &BytesN<32>) -> (votes: i32)
    requires
        stored_votes(*env).contains_key(hash_contents(*hash)),
    ensures
        votes == stored_votes(*env)[hash_contents(*hash)],
{
    temporary_get_count(env, feedback_key(), hash)
}

/// The ledgers that the vote count of `hash` still lives.
pub open spec fn votes_ttl(env: Env, hash: Seq<u8>) -> u32 {
    temporary_ttls(env)[(feedback_key_name(), hash)]
}

/// The lifetime of the instance after `bump_instance`.
pub open spec fn bumped_instance_ttl(env: Env) -> u32 {
    if instance_ttl(env) <= INSTANCE_LEDGER_TTL_THRESHOLD {
        vstd::math::max(
            instance_ttl(env) as int,
            vstd::math::min(INSTANCE_LEDGER_LIFE as int, max_entry_ttl(env) as int),
        ) as u32
    } else {
        instance_ttl(env)
    }
}

/// Whether the network lets a vote count live `TEMPORARY_LEDGER_LIFE`
/// ledgers; the host aborts an extension beyond its maximum.
pub open spec fn votes_lifetime_allowed(env: Env) -> bool {
    TEMPORARY_LEDGER_LIFE <= max_entry_ttl(env)
}

/// Whether the network lets a vote count live `TEMPORARY_LEDGER_LIFE` ledgers.
pub fn check_votes_lifetime(env: &Env) -> (allowed: bool)
    ensures
        allowed == votes_lifetime_allowed(*env),
{
    TEMPORARY_LEDGER_LIFE <= max_ttl(env)
}

/// Extends the lifetime of the vote count of `hash`: when it has at most
/// `TEMPORARY_LEDGER_TTL_THRESHOLD` ledgers left, it then lives
/// `TEMPORARY_LEDGER_LIFE` ledgers; otherwise it is unchanged.
pub fn bump_temporary(env: &mut Env, hash: &BytesN<32>)
    requires
        stored_votes(*old(env)).contains_key(hash_contents(*hash)),
        votes_lifetime_allowed(*old(env)),
    ensures
        temporary_ttls(*final(env)) == if votes_ttl(*old(env), hash_contents(*hash)) <= TEMPORARY_LEDGER_TTL_THRESHOLD {
            temporary_ttls(*old(env)).insert((feedback_key_name(), hash_contents(*hash)), TEMPORARY_LEDGER_LIFE)
        } else {
            temporary_ttls(*old(env))
        },
        instance_ttl(*final(env)) == instance_ttl(*old(env)),
        max_entry_ttl(*final(env)) == max_entry_ttl(*old(env)),
        new_temporary_ttl(*final(env)) == new_temporary_ttl(*old(env)),
        same_permissions(*old(env), *final(env)),
        same_storage(*old(env), *final(env)),
        same_events(*old(env), *final(env)),
        same_auths(*old(env), *final(env)),
        same_code(*old(env), *final(env)),
{
    extend_temporary_ttl(env, feedback_key(), hash, TEMPORARY_LEDGER_TTL_THRESHOLD, TEMPORARY_LEDGER_LIFE);
}

/// Extends the lifetime of the contract instance and its storage: when it
/// has at most `INSTANCE_LEDGER_TTL_THRESHOLD` ledgers left, it then lives
/// `INSTANCE_LEDGER_LIFE` ledgers, or the network's maximum if that is less,
/// unless it already lives longer; otherwise it is unchanged.
pub fn bump_instance(env: &mut Env)
    ensures
        instance_ttl(*final(env)) == bumped_instance_ttl(*old(env)),
        temporary_ttls(*final(env)) == temporary_ttls(*old(env)),
        max_entry_ttl(*final(env)) == max_entry_ttl(*old(env)),
        new_temporary_ttl(*final(env)) == new_temporary_ttl(*old(env)),
        same_permissions(*old(env), *final(env)),
        same_storage(*old(env), *final(env)),
        same_events(*old(env), *final(env)),
        same_auths(*old(env), *final(env)),
        same_code(*old(env), *final(env)),
{
    extend_instance_ttl(env, INSTANCE_LEDGER_TTL_THRESHOLD, INSTANCE_LEDGER_LIFE);
}

/// The lifetime of the count of `hash` right after it is written: the count
/// keeps its lifetime, and a new count gets the network's minimum.
pub open spec fn written_votes_ttl(env: Env, hash: Seq<u8>) -> u32 {
    if stored_votes(env).contains_key(hash) {
        votes_ttl(env, hash)
    } else {
        new_temporary_ttl(env)
    }
}

/// A count's lifetime after `bump_temporary`.
pub open spec fn bumped_votes_ttl(ttl: u32) -> u32 {
    if ttl <= TEMPORARY_LEDGER_TTL_THRESHOLD {
        TEMPORARY_LEDGER_LIFE
    } else {
        ttl
    }
}

/// Records `votes` as the count of `hash` and extends its lifetime: a count
/// with at most `TEMPORARY_LEDGER_TTL_THRESHOLD` ledgers left after the write
/// then lives `TEMPORARY_LEDGER_LIFE` ledgers.
pub fn write_votes(env: &mut Env, hash: &BytesN<32>, votes: i32)
    requires
        votes_lifetime_allowed(*old(env)),
    ensures
        stored_votes(*final(env)) == stored_votes(*old(env)).insert(hash_contents(*hash), votes),
        instance_addresses(*final(env)) == instance_addresses(*old(env)),
        votes_ttl(*final(env), hash_contents(*hash)) == bumped_votes_ttl(written_votes_ttl(*old(env), hash_contents(*hash))),
        temporary_ttls(*final(env)).remove((feedback_key_name(), hash_contents(*hash)))
            == temporary_ttls(*old(env)).remove((feedback_key_name(), hash_contents(*hash))),
        instance_ttl(*final(env)) == instance_ttl(*old(env)),
        max_entry_ttl(*final(env)) == max_entry_ttl(*old(env)),
        new_temporary_ttl(*final(env)) == new_temporary_ttl(*old(env)),
        same_permissions(*old(env), *final(env)),
        same_events(*old(env), *final(env)),
        same_auths(*old(env), *final(env)),
        same_code(*old(env), *final(env)),
{
    temporary_set_count(env, feedback_key(), hash, votes);
    let ghost written = *env;
    bump_temporary(env, hash);
    proof {
        let k = (feedback_key_name(), hash_contents(*hash));
        assert(temporary_ttls(*env).remove(k) =~= temporary_ttls(written).remove(k));
    }
    assert(stored_votes(*final(env)) =~= stored_votes(*old(env)).insert(hash_contents(*hash), votes));
}

} // verus!
