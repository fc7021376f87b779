//! The contract's view of the Soroban host.
//!
//! Everything in this file is trusted: the declarations make the host's types
//! usable in verified code, the `uninterp` functions name what the host holds
//! for the contract, and the wrappers are the only places that call the host.
//!
//! The host state is modelled per `Env` value. An `Env` is a handle that the
//! host hands to one contract invocation; the names below describe the storage
//! and the event buffer of the contract on whose behalf that handle runs.
//! Storage writes go through `&mut Env` so that verified code sees the handle's
//! contents change; the host itself mutates through a shared reference.
//! Temporary entries expire once the ledger passes their lifetime; the model
//! describes a handle within one invocation, during which the ledger does
//! not advance.
use soroban_sdk::{Address, Bytes, BytesN, Env, Symbol};
use vstd::prelude::*;

verus! {

/// The host environment handle of `soroban_sdk`.
#[verifier::external_type_specification]
#[verifier::external_body]
pub struct ExEnv(Env);

/// An account or contract address of `soroban_sdk`.
#[verifier::external_type_specification]
#[verifier::external_body]
pub struct ExAddress(Address);

/// A host-held byte string of `soroban_sdk`.
#[verifier::external_type_specification]
#[verifier::external_body]
pub struct ExBytes(Bytes);

/// A host-held byte array of fixed length of `soroban_sdk`.
#[verifier::external_type_specification]
#[verifier::external_body]
pub struct ExBytesN<const N: usize>(BytesN<N>);

/// The bytes that a `Bytes` value holds.
pub uninterp spec fn bytes_contents(b: Bytes) -> Seq<u8>;

/// The 32 bytes that a `BytesN<32>` value holds.
pub uninterp spec fn hash_contents(h: BytesN<32>) -> Seq<u8>;

/// The strkey (`G...` or `C...`) that identifies an address.
pub uninterp spec fn address_key(a: Address) -> Seq<char>;

/// The SHA-256 digest of a byte string.
pub uninterp spec fn sha256_digest(data: Seq<u8>) -> Seq<u8>;

/// The addresses held in the contract's instance storage, each under the key
/// `(Symbol(name),)`, by name, as strkeys.
pub uninterp spec fn instance_addresses(env: Env) -> Map<Seq<char>, Seq<char>>;

/// The `i32` counts held in the contract's temporary storage, each under the
/// key `(Symbol(name), hash)`, by name and the bytes of the hash.
pub uninterp spec fn temporary_counts(env: Env) -> Map<(Seq<char>, Seq<u8>), i32>;

/// The ledgers that each entry of the contract's temporary storage still
/// lives past the current one (its live-until ledger minus the current
/// ledger), by the same keys as `temporary_counts`.
pub uninterp spec fn temporary_ttls(env: Env) -> Map<(Seq<char>, Seq<u8>), u32>;

/// The ledgers that the contract instance still lives past the current one.
pub uninterp spec fn instance_ttl(env: Env) -> u32;

/// The most ledgers past the current one that the network lets an entry live
/// (the network's maximum live-until ledger minus the current ledger).
pub uninterp spec fn max_entry_ttl(env: Env) -> u32;

/// The characters that a `Symbol` may hold.
pub open spec fn symbol_char(c: char) -> bool {
    ||| 'a' <= c <= 'z'
    ||| 'A' <= c <= 'Z'
    ||| '0' <= c <= '9'
    ||| c == '_'
}

/// Whether `Symbol::new` accepts a name: at most 32 characters, each a letter,
/// a digit or `_`.
pub open spec fn is_symbol(name: Seq<char>) -> bool {
    &&& name.len() <= 32
    &&& forall|i: int| 0 <= i < name.len() ==> symbol_char(#[trigger] name[i])
}

/// The contract events published so far through this handle, in order, each
/// as its first topic, the strkey of its second topic, the bytes of its third
/// topic, and its data: the bytes of a `Bytes`, or `None` for `()`.
pub uninterp spec fn published_events(env: Env) -> Seq<(Seq<char>, Seq<char>, Seq<u8>, Option<Seq<u8>>)>;

/// Whether the invocation carries an authorization from the address (by
/// strkey) that `require_auth` can still use: the transaction's signatures,
/// or a test host that mocks them.
pub uninterp spec fn authorizes(env: Env, address: Seq<char>) -> bool;

/// Whether a Wasm with the given hash was uploaded to the ledger.
pub uninterp spec fn wasm_uploaded(env: Env, hash: Seq<u8>) -> bool;

/// The lifetime, in ledgers past the current one, that the host gives a new
/// temporary entry: the network's minimum temporary lifetime.
pub uninterp spec fn new_temporary_ttl(env: Env) -> u32;

/// The addresses whose authorization this invocation has required so far, in
/// order, by strkey.
pub uninterp spec fn required_auths(env: Env) -> Seq<Seq<char>>;

/// The hash of the Wasm that the current contract runs, or `None` while it
/// runs another kind of executable (a built-in or a native test contract).
pub uninterp spec fn contract_wasm(env: Env) -> Option<Seq<u8>>;

/// Two handles show the same instance and temporary storage contents.
pub open spec fn same_storage(a: Env, b: Env) -> bool {
    &&& instance_addresses(a) == instance_addresses(b)
    &&& temporary_counts(a) == temporary_counts(b)
}

/// Two handles show the same lifetimes and the same network maximum.
pub open spec fn same_lifetimes(a: Env, b: Env) -> bool {
    &&& temporary_ttls(a) == temporary_ttls(b)
    &&& instance_ttl(a) == instance_ttl(b)
    &&& max_entry_ttl(a) == max_entry_ttl(b)
    &&& new_temporary_ttl(a) == new_temporary_ttl(b)
}

/// Two handles show the same available authorizations and uploaded code.
pub open spec fn same_permissions(a: Env, b: Env) -> bool {
    &&& forall|x: Seq<char>| #[trigger] authorizes(b, x) == authorizes(a, x)
    &&& forall|h: Seq<u8>| #[trigger] wasm_uploaded(b, h) == wasm_uploaded(a, h)
}

/// Two handles show the same published events.
pub open spec fn same_events(a: Env, b: Env) -> bool {
    published_events(a) == published_events(b)
}

/// Two handles show the same required authorizations.
pub open spec fn same_auths(a: Env, b: Env) -> bool {
    required_auths(a) == required_auths(b)
}

/// Two handles show the same contract code.
pub open spec fn same_code(a: Env, b: Env) -> bool {
    contract_wasm(a) == contract_wasm(b)
}

/// `Crypto::sha256`: the SHA-256 digest of `text`, converted from `Hash<32>`
/// to `BytesN<32>`. The contract claims that the digest's bytes are
/// `sha256_digest` of the input's bytes.
#[verifier::external_body]
pub(crate) fn get_hash(env: &Env, text: &Bytes) -> (hash: BytesN<32>)
    ensures
        hash_contents(hash) == sha256_digest(bytes_contents(*text)),
{
    env.crypto().sha256(text).into()
}

/// `Instance::has` on the key `(Symbol::new(env, name),)`. Claims that the
/// answer is whether an address is held under that name. (The contract never
/// writes anything but an address there.)
#[verifier::external_body]
pub(crate) fn instance_has(env: &Env, name: &str) -> (present: bool)
    requires
        is_symbol(name@),
    ensures
        present == instance_addresses(*env).contains_key(name@),
{
    env.storage().instance().has(&(Symbol::new(env, name),))
}

/// `Instance::set` of `address` under the key `(Symbol::new(env, name),)`.
/// Claims that afterwards the name holds that address, every other name is
/// unchanged, and everything else modelled is untouched (instance storage
/// lives inside the instance entry, whose lifetime a write keeps).
#[verifier::external_body]
pub(crate) fn instance_set_address(env: &mut Env, name: &str, address: &Address)
    requires
        is_symbol(name@),
    ensures
        instance_addresses(*final(env)) == instance_addresses(*old(env)).insert(name@, address_key(*address)),
        temporary_counts(*final(env)) == temporary_counts(*old(env)),
        same_lifetimes(*old(env), *final(env)),
        same_permissions(*old(env), *final(env)),
        same_events(*old(env), *final(env)),
        same_auths(*old(env), *final(env)),
        same_code(*old(env), *final(env)),
{
    env.storage().instance().set(&(Symbol::new(env, name),), address)
}

/// `Instance::get` of an address under the key `(Symbol::new(env, name),)`,
/// unwrapped; the entry must exist (the unwrap panics otherwise). Claims that
/// the address returned is the one held.
#[verifier::external_body]
pub(crate) fn instance_get_address(env: &Env, name: &str) -> (address: Address)
    requires
        is_symbol(name@),
        instance_addresses(*env).contains_key(name@),
    ensures
        address_key(address) == instance_addresses(*env)[name@],
{
    env.storage().instance().get(&(Symbol::new(env, name),)).unwrap()
}

/// `Instance::extend_ttl`. The host refuses a threshold above the target.
/// Claims what the host's `extend_ttl` does for a persistent entry: when the
/// instance has at most `threshold` ledgers left, its lifetime becomes
/// `extend_to` ledgers, clamped to the network's maximum, unless it already
/// lives longer; otherwise it is unchanged. Storage contents, the temporary
/// lifetimes, events, authorizations and code are untouched. Left unsaid: the
/// call extends the lifetime of the contract's code in the same way.
#[verifier::external_body]
pub(crate) fn extend_instance_ttl(env: &mut Env, threshold: u32, extend_to: u32)
    requires
        threshold <= extend_to,
    ensures
        instance_ttl(*final(env)) == if instance_ttl(*old(env)) <= threshold {
            vstd::math::max(
                instance_ttl(*old(env)) as int,
                vstd::math::min(extend_to as int, max_entry_ttl(*old(env)) as int),
            ) as u32
        } else {
            instance_ttl(*old(env))
        },
        max_entry_ttl(*final(env)) == max_entry_ttl(*old(env)),
        new_temporary_ttl(*final(env)) == new_temporary_ttl(*old(env)),
        temporary_ttls(*final(env)) == temporary_ttls(*old(env)),
        same_permissions(*old(env), *final(env)),
        same_storage(*old(env), *final(env)),
        same_events(*old(env), *final(env)),
        same_auths(*old(env), *final(env)),
        same_code(*old(env), *final(env)),
{
    env.storage().instance().extend_ttl(threshold, extend_to)
}

/// `Temporary::has` on the key `(Symbol::new(env, name), hash)`. Claims that
/// the answer is whether a count is held under that key. (The contract never
/// writes anything but an `i32` there.)
#[verifier::external_body]
pub(crate) fn temporary_has(env: &Env, name: &str, hash: &BytesN<32>) -> (present: bool)
    requires
        is_symbol(name@),
    ensures
        present == temporary_counts(*env).contains_key((name@, hash_contents(*hash))),
{
    env.storage().temporary().has(&(Symbol::new(env, name), hash.clone()))
}

/// `Temporary::set` of `count` under the key `(Symbol::new(env, name), hash)`.
/// Claims that afterwards the key holds `count`; every other key keeps its
/// count and its lifetime; the key written keeps its lifetime, or, when new,
/// gets the network's minimum temporary lifetime; everything else modelled is
/// untouched.
#[verifier::external_body]
pub(crate) fn temporary_set_count(env: &mut Env, name: &str, hash: &BytesN<32>, count: i32)
    requires
        is_symbol(name@),
    ensures
        temporary_counts(*final(env)) == temporary_counts(*old(env)).insert((name@, hash_contents(*hash)), count),
        instance_addresses(*final(env)) == instance_addresses(*old(env)),
        temporary_ttls(*final(env)).remove((name@, hash_contents(*hash))) == temporary_ttls(*old(env)).remove(
            (name@, hash_contents(*hash)),
        ),
        temporary_ttls(*final(env))[(name@, hash_contents(*hash))] == if temporary_counts(*old(env)).contains_key(
            (name@, hash_contents(*hash)),
        ) {
            temporary_ttls(*old(env))[(name@, hash_contents(*hash))]
        } else {
            new_temporary_ttl(*old(env))
        },
        instance_ttl(*final(env)) == instance_ttl(*old(env)),
        max_entry_ttl(*final(env)) == max_entry_ttl(*old(env)),
        new_temporary_ttl(*final(env)) == new_temporary_ttl(*old(env)),
        same_permissions(*old(env), *final(env)),
        same_events(*old(env), *final(env)),
        same_auths(*old(env), *final(env)),
        same_code(*old(env), *final(env)),
{
    env.storage().temporary().set(&(Symbol::new(env, name), hash.clone()), &count)
}

/// `Temporary::get` of an `i32` under the key `(Symbol::new(env, name), hash)`,
/// unwrapped; the entry must exist (the unwrap panics otherwise). Claims that
/// the count returned is the one held.
#[verifier::external_body]
pub(crate) fn temporary_get_count(env: &Env, name: &str, hash: &BytesN<32>) -> (count: i32)
    requires
        is_symbol(name@),
        temporary_counts(*env).contains_key((name@, hash_contents(*hash))),
    ensures
        count == temporary_counts(*env)[(name@, hash_contents(*hash))],
{
    env.storage().temporary().get(&(Symbol::new(env, name), hash.clone())).unwrap()
}

/// `Temporary::extend_ttl` on the key `(Symbol::new(env, name), hash)`. The
/// host refuses (aborts on) a missing entry, a threshold above the target, and
/// a target beyond the network's maximum lifetime. Claims what the host's
/// `extend_ttl` does for a temporary entry: when the entry has at most
/// `threshold` ledgers left, its lifetime becomes `extend_to` ledgers;
/// otherwise it is unchanged. Everything else modelled is untouched.
#[verifier::external_body]
pub(crate) fn extend_temporary_ttl(env: &mut Env, name: &str, hash: &BytesN<32>, threshold: u32, extend_to: u32)
    requires
        is_symbol(name@),
        threshold <= extend_to,
        temporary_counts(*old(env)).contains_key((name@, hash_contents(*hash))),
        extend_to <= max_entry_ttl(*old(env)),
    ensures
        temporary_ttls(*final(env)) == if temporary_ttls(*old(env))[(name@, hash_contents(*hash))] <= threshold {
            temporary_ttls(*old(env)).insert((name@, hash_contents(*hash)), extend_to)
        } else {
            temporary_ttls(*old(env))
        },
        instance_ttl(*final(env)) == instance_ttl(*old(env)),
        max_entry_ttl(*final(env)) == max_entry_ttl(*old(env)),
        new_temporary_ttl(*final(env)) == new_temporary_ttl(*old(env)),
        same_permissions(*old(env), *final(env)),
        same_storage(*old(env), *final(env)),
        same_events(*old(env), *final(env)),
        same_auths(*old(env), *final(env)),
        same_code(*old(env), *final(env)),
{
    env.storage().temporary().extend_ttl(&(Symbol::new(env, name), hash.clone()), threshold, extend_to)
}

/// `Events::publish` with the topics `(topic, from, hash)` and `text` as data.
/// Claims that one event is appended to the published ones and that
/// everything else modelled is untouched.
#[verifier::external_body]
#[allow(deprecated)]
pub(crate) fn publish_with_text(env: &mut Env, topic: &str, from: &Address, hash: BytesN<32>, text: Bytes)
    ensures
        published_events(*final(env)) == published_events(*old(env)).push(
            (topic@, address_key(*from), hash_contents(hash), Some(bytes_contents(text))),
        ),
        same_storage(*old(env), *final(env)),
        same_lifetimes(*old(env), *final(env)),
        same_permissions(*old(env), *final(env)),
        same_auths(*old(env), *final(env)),
        same_code(*old(env), *final(env)),
{
    env.events().publish((topic, from, hash), text)
}

/// `Events::publish` with the topics `(topic, from, hash)` and no data.
/// Claims that one event is appended to the published ones and that
/// everything else modelled is untouched.
#[verifier::external_body]
#[allow(deprecated)]
pub(crate) fn publish_without_data(env: &mut Env, topic: &str, from: &Address, hash: BytesN<32>)
    ensures
        published_events(*final(env)) == published_events(*old(env)).push(
            (topic@, address_key(*from), hash_contents(hash), None),
        ),
        same_storage(*old(env), *final(env)),
        same_lifetimes(*old(env), *final(env)),
        same_permissions(*old(env), *final(env)),
        same_auths(*old(env), *final(env)),
        same_code(*old(env), *final(env)),
{
    env.events().publish((topic, from, hash), ())
}

/// `Address::require_auth`, in the invocation that `env` serves. The host
/// aborts the invocation unless it carries the address's authorization; it
/// then records that the invocation required it, and uses up that
/// authorization for the current contract call. Claims that on return the
/// address was added to the required authorizations, that the authorizations
/// of every other address and the uploaded code are unchanged, and that
/// everything else modelled is untouched.
#[verifier::external_body]
#[allow(unused_variables)]
pub(crate) fn require_auth(env: &mut Env, address: &Address)
    requires
        authorizes(*old(env), address_key(*address)),
    ensures
        required_auths(*final(env)) == required_auths(*old(env)).push(address_key(*address)),
        forall|a: Seq<char>| a != address_key(*address) ==> #[trigger] authorizes(*final(env), a) == authorizes(*old(env), a),
        forall|h: Seq<u8>| #[trigger] wasm_uploaded(*final(env), h) == wasm_uploaded(*old(env), h),
        same_storage(*old(env), *final(env)),
        same_lifetimes(*old(env), *final(env)),
        same_events(*old(env), *final(env)),
        same_code(*old(env), *final(env)),
{
    address.require_auth()
}

/// `Deployer::update_current_contract_wasm`. The host aborts the invocation
/// when no Wasm with that hash was uploaded; otherwise it replaces the current
/// contract's executable by that Wasm, keeping its storage and lifetime.
/// Claims that on return the contract runs that Wasm, that the uploaded code
/// and available authorizations are unchanged, and that everything else
/// modelled is untouched (the host publishes a system event, which is no
/// contract event).
#[verifier::external_body]
pub(crate) fn update_contract_wasm(env: &mut Env, hash: BytesN<32>)
    requires
        wasm_uploaded(*old(env), hash_contents(hash)),
    ensures
        contract_wasm(*final(env)) == Some(hash_contents(hash)),
        forall|h: Seq<u8>| #[trigger] wasm_uploaded(*final(env), h) == wasm_uploaded(*old(env), h),
        forall|a: Seq<char>| #[trigger] authorizes(*final(env), a) == authorizes(*old(env), a),
        same_storage(*old(env), *final(env)),
        same_lifetimes(*old(env), *final(env)),
        same_events(*old(env), *final(env)),
        same_auths(*old(env), *final(env)),
{
    env.deployer().update_current_contract_wasm(hash)
}

/// `Storage::max_ttl`: the network's maximum live-until ledger minus the
/// current ledger. Claims that it is `max_entry_ttl`.
#[verifier::external_body]
pub(crate) fn max_ttl(env: &Env) -> (ttl: u32)
    ensures
        ttl == max_entry_ttl(*env),
{
    env.storage().max_ttl()
}

} // verus!
