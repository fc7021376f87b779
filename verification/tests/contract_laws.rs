use feedback::contract::Feedback;
use feedback::error::Error;
use feedback::events::EventKind;
use feedback::storage::{
    DAY_IN_LEDGERS, INSTANCE_LEDGER_LIFE, INSTANCE_LEDGER_TTL_THRESHOLD, TEMPORARY_LEDGER_LIFE,
    TEMPORARY_LEDGER_TTL_THRESHOLD,
};
use soroban_sdk::testutils::{Address as _, ContractFunctionSet, EnvTestConfig, Events as _, Ledger as _};
use soroban_sdk::testutils::storage::{Instance as _, Temporary as _};
use soroban_sdk::xdr::{ContractEventBody, ScVal};
use soroban_sdk::{Address, Bytes, BytesN, Env, Symbol, Val};

struct Host;

impl ContractFunctionSet for Host {
    fn call(&self, _func: &str, _env: Env, _args: &[Val]) -> Option<Val> {
        None
    }
}

fn setup() -> (Env, Address) {
    let env = Env::new_with_config(EnvTestConfig { capture_snapshot_at_drop: false });
    env.mock_all_auths();
    let id = env.register(Host, ());
    (env, id)
}

fn run<T>(env: &Env, id: &Address, f: impl FnOnce(&mut Env) -> T) -> T {
    let mut e = env.clone();
    env.as_contract(id, || f(&mut e))
}

fn events_of_last_call(env: &Env) -> usize {
    env.events().all().events().len()
}

fn bytes(env: &Env, text: &str) -> Bytes {
    Bytes::from_slice(env, text.as_bytes())
}

fn hash_of(env: &Env, message: &Bytes) -> BytesN<32> {
    env.crypto().sha256(message).to_bytes()
}

fn initialized() -> (Env, Address, Address) {
    let (env, id) = setup();
    let admin = Address::generate(&env);
    assert_eq!(run(&env, &id, |e| Feedback::initialize(e, admin.clone())), Ok(()));
    (env, id, admin)
}

#[test]
fn initialize_only_once() {
    let (env, id, _admin) = initialized();
    let other = Address::generate(&env);
    assert_eq!(run(&env, &id, |e| Feedback::initialize(e, other.clone())), Err(Error::AlreadyInitialized));
    assert_eq!(events_of_last_call(&env), 0);
}

#[test]
fn every_call_refused_before_initialize() {
    let (env, id) = setup();
    let user = Address::generate(&env);
    let message = bytes(&env, "hello");
    let hash = hash_of(&env, &message);
    assert_eq!(run(&env, &id, |e| Feedback::send(e, user.clone(), message.clone())), Err(Error::NotInitialized));
    assert_eq!(run(&env, &id, |e| Feedback::upvote(e, user.clone(), hash.clone())), Err(Error::NotInitialized));
    assert_eq!(run(&env, &id, |e| Feedback::downvote(e, user.clone(), hash.clone())), Err(Error::NotInitialized));
    assert_eq!(run(&env, &id, |e| Feedback::get_feedback(e, hash.clone())), Err(Error::NotInitialized));
    assert_eq!(run(&env, &id, |e| Feedback::update_binary(e, hash.clone())), Err(Error::NotInitialized));
    assert!(env.auths().is_empty());
    assert_eq!(
        run(&env, &id, |e| Feedback::checked_upvote(e, user.clone(), hash.clone())),
        Some(Err(Error::NotInitialized))
    );
    assert_eq!(
        run(&env, &id, |e| Feedback::checked_get_feedback(e, hash.clone())),
        Some(Err(Error::NotInitialized))
    );
}

#[test]
fn sent_message_reads_one_vote() {
    let (env, id, _admin) = initialized();
    let user = Address::generate(&env);
    let message = bytes(&env, "hello");
    let hash = hash_of(&env, &message);
    assert_eq!(run(&env, &id, |e| Feedback::send(e, user.clone(), message.clone())), Ok(()));
    assert_eq!(events_of_last_call(&env), 1);
    assert_eq!(run(&env, &id, |e| Feedback::get_feedback(e, hash.clone())), Ok(1));
}

#[test]
fn message_recorded_under_its_sha256() {
    let (env, id, _admin) = initialized();
    let user = Address::generate(&env);
    let message = bytes(&env, "abc");
    assert_eq!(run(&env, &id, |e| Feedback::send(e, user.clone(), message.clone())), Ok(()));
    let digest: [u8; 32] = [
        0xba, 0x78, 0x16, 0xbf, 0x8f, 0x01, 0xcf, 0xea, 0x41, 0x41, 0x40, 0xde, 0x5d, 0xae, 0x22, 0x23,
        0xb0, 0x03, 0x61, 0xa3, 0x96, 0x17, 0x7a, 0x9c, 0xb4, 0x10, 0xff, 0x61, 0xf2, 0x00, 0x15, 0xad,
    ];
    let hash = BytesN::from_array(&env, &digest);
    assert_eq!(run(&env, &id, |e| Feedback::get_feedback(e, hash.clone())), Ok(1));
}

#[test]
fn same_message_accepted_once() {
    let (env, id, _admin) = initialized();
    let first = Address::generate(&env);
    let second = Address::generate(&env);
    let message = bytes(&env, "twice");
    let hash = hash_of(&env, &message);
    assert_eq!(run(&env, &id, |e| Feedback::send(e, first.clone(), message.clone())), Ok(()));
    assert_eq!(
        run(&env, &id, |e| Feedback::send(e, second.clone(), message.clone())),
        Err(Error::MessageAlreadyExists)
    );
    assert_eq!(events_of_last_call(&env), 0);
    assert_eq!(run(&env, &id, |e| Feedback::get_feedback(e, hash.clone())), Ok(1));
}

#[test]
fn votes_add_and_cancel() {
    let (env, id, _admin) = initialized();
    let user = Address::generate(&env);
    let voter = Address::generate(&env);
    let message = bytes(&env, "vote on me");
    let hash = hash_of(&env, &message);
    assert_eq!(run(&env, &id, |e| Feedback::send(e, user.clone(), message.clone())), Ok(()));
    assert_eq!(run(&env, &id, |e| Feedback::upvote(e, voter.clone(), hash.clone())), Ok(()));
    assert_eq!(events_of_last_call(&env), 1);
    assert_eq!(run(&env, &id, |e| Feedback::get_feedback(e, hash.clone())), Ok(2));
    assert_eq!(run(&env, &id, |e| Feedback::downvote(e, user.clone(), hash.clone())), Ok(()));
    assert_eq!(events_of_last_call(&env), 1);
    assert_eq!(run(&env, &id, |e| Feedback::get_feedback(e, hash.clone())), Ok(1));
}

#[test]
fn votes_on_one_message_leave_others() {
    let (env, id, _admin) = initialized();
    let user = Address::generate(&env);
    let a = bytes(&env, "first message");
    let b = bytes(&env, "second message");
    let hash_a = hash_of(&env, &a);
    let hash_b = hash_of(&env, &b);
    assert_eq!(run(&env, &id, |e| Feedback::send(e, user.clone(), a.clone())), Ok(()));
    assert_eq!(run(&env, &id, |e| Feedback::send(e, user.clone(), b.clone())), Ok(()));
    assert_eq!(run(&env, &id, |e| Feedback::downvote(e, user.clone(), hash_a.clone())), Ok(()));
    assert_eq!(run(&env, &id, |e| Feedback::get_feedback(e, hash_a.clone())), Ok(0));
    assert_eq!(run(&env, &id, |e| Feedback::get_feedback(e, hash_b.clone())), Ok(1));
}

#[test]
fn unknown_hash_is_not_readable_or_votable() {
    let (env, id, _admin) = initialized();
    let user = Address::generate(&env);
    let hash = hash_of(&env, &bytes(&env, "never sent"));
    assert_eq!(run(&env, &id, |e| Feedback::checked_get_feedback(e, hash.clone())), None);
    assert_eq!(run(&env, &id, |e| Feedback::checked_upvote(e, user.clone(), hash.clone())), None);
    assert_eq!(run(&env, &id, |e| Feedback::checked_downvote(e, user.clone(), hash.clone())), None);
}

#[test]
fn checked_votes_on_a_recorded_hash() {
    let (env, id, _admin) = initialized();
    let user = Address::generate(&env);
    let message = bytes(&env, "checked");
    let hash = hash_of(&env, &message);
    assert_eq!(run(&env, &id, |e| Feedback::send(e, user.clone(), message.clone())), Ok(()));
    assert_eq!(run(&env, &id, |e| Feedback::checked_upvote(e, user.clone(), hash.clone())), Some(Ok(())));
    assert_eq!(run(&env, &id, |e| Feedback::checked_downvote(e, user.clone(), hash.clone())), Some(Ok(())));
    assert_eq!(run(&env, &id, |e| Feedback::checked_downvote(e, user.clone(), hash.clone())), Some(Ok(())));
    assert_eq!(run(&env, &id, |e| Feedback::checked_get_feedback(e, hash.clone())), Some(Ok(0)));
}

#[test]
fn error_codes() {
    assert_eq!(Error::AlreadyInitialized.code(), 0);
    assert_eq!(Error::NotInitialized.code(), 1);
    assert_eq!(Error::NoAdminAuth.code(), 2);
    assert_eq!(Error::MessageAlreadyExists.code(), 3);
}

#[test]
fn event_topics() {
    assert_eq!(EventKind::Feedback.topic(), "feedback");
    assert_eq!(EventKind::Upvote.topic(), "upvote");
    assert_eq!(EventKind::Downvote.topic(), "downvote");
}

#[test]
fn lifetime_constants() {
    assert_eq!(DAY_IN_LEDGERS, 17280);
    assert_eq!(INSTANCE_LEDGER_LIFE, 518400);
    assert_eq!(INSTANCE_LEDGER_TTL_THRESHOLD, 501120);
    assert_eq!(TEMPORARY_LEDGER_LIFE, 518400);
    assert_eq!(TEMPORARY_LEDGER_TTL_THRESHOLD, 501120);
}

#[test]
fn events_carry_topic_hash_and_text() {
    let (env, id, _admin) = initialized();
    let user = Address::generate(&env);
    let message = bytes(&env, "hello");
    let hash = hash_of(&env, &message);
    assert_eq!(run(&env, &id, |e| Feedback::send(e, user.clone(), message.clone())), Ok(()));
    let all = env.events().all();
    assert_eq!(all.events().len(), 1);
    let ContractEventBody::V0(body) = &all.events()[0].body;
    assert_eq!(body.topics.len(), 3);
    assert!(matches!(&body.topics[0], ScVal::String(s) if s.0.to_utf8_string_lossy() == "feedback"));
    assert!(matches!(&body.topics[1], ScVal::Address(_)));
    assert!(matches!(&body.topics[2], ScVal::Bytes(b) if b.0.as_vec() == &hash.to_array().to_vec()));
    assert!(matches!(&body.data, ScVal::Bytes(b) if b.0.as_vec() == &b"hello".to_vec()));

    assert_eq!(run(&env, &id, |e| Feedback::downvote(e, user.clone(), hash.clone())), Ok(()));
    let all = env.events().all();
    let ContractEventBody::V0(body) = &all.events()[0].body;
    assert!(matches!(&body.topics[0], ScVal::String(s) if s.0.to_utf8_string_lossy() == "downvote"));
    assert!(matches!(&body.data, ScVal::Void));
}

#[test]
fn storage_keys_match_the_contract_layout() {
    let (env, id, _admin) = initialized();
    let user = Address::generate(&env);
    let message = bytes(&env, "layout");
    let hash = hash_of(&env, &message);
    assert_eq!(run(&env, &id, |e| Feedback::send(e, user.clone(), message.clone())), Ok(()));
    let (has_admin, votes) = env.as_contract(&id, || {
        let admin_key = (Symbol::new(&env, "Admin"),);
        let votes_key = (Symbol::new(&env, "Feedback"), hash.clone());
        (
            env.storage().instance().has(&admin_key),
            env.storage().temporary().get::<_, i32>(&votes_key),
        )
    });
    assert!(has_admin);
    assert_eq!(votes, Some(1));
}

#[test]
fn writes_extend_lifetimes() {
    let (env, id, _admin) = initialized();
    let instance_ttl = env.as_contract(&id, || env.storage().instance().get_ttl());
    assert_eq!(instance_ttl, INSTANCE_LEDGER_LIFE);
    let user = Address::generate(&env);
    let message = bytes(&env, "lifetime");
    let hash = hash_of(&env, &message);
    assert_eq!(run(&env, &id, |e| Feedback::send(e, user.clone(), message.clone())), Ok(()));
    let votes_ttl = env.as_contract(&id, || {
        env.storage().temporary().get_ttl(&(Symbol::new(&env, "Feedback"), hash.clone()))
    });
    assert_eq!(votes_ttl, TEMPORARY_LEDGER_LIFE);
    assert_eq!(run(&env, &id, |e| Feedback::upvote(e, user.clone(), hash.clone())), Ok(()));
    let votes_ttl = env.as_contract(&id, || {
        env.storage().temporary().get_ttl(&(Symbol::new(&env, "Feedback"), hash.clone()))
    });
    assert_eq!(votes_ttl, TEMPORARY_LEDGER_LIFE);
}

#[test]
fn posting_requires_the_posters_authorization() {
    let (env, id, _admin) = initialized();
    let user = Address::generate(&env);
    let message = bytes(&env, "signed");
    assert_eq!(run(&env, &id, |e| Feedback::send(e, user.clone(), message.clone())), Ok(()));
    let auths = env.auths();
    assert_eq!(auths.len(), 1);
    assert_eq!(auths[0].0, user);
}

#[test]
fn checked_send_where_lifetimes_fit() {
    let (env, id, _admin) = initialized();
    let user = Address::generate(&env);
    let message = bytes(&env, "checked send");
    let hash = hash_of(&env, &message);
    assert_eq!(run(&env, &id, |e| Feedback::checked_send(e, user.clone(), message.clone())), Some(Ok(())));
    assert_eq!(
        run(&env, &id, |e| Feedback::checked_send(e, user.clone(), message.clone())),
        Some(Err(Error::MessageAlreadyExists))
    );
    assert_eq!(run(&env, &id, |e| Feedback::get_feedback(e, hash.clone())), Ok(1));
}

#[test]
fn short_network_lifetime_refuses_new_counts() {
    let (env, id, _admin) = initialized();
    let user = Address::generate(&env);
    let message = bytes(&env, "before");
    let hash = hash_of(&env, &message);
    assert_eq!(run(&env, &id, |e| Feedback::send(e, user.clone(), message.clone())), Ok(()));
    env.ledger().set_max_entry_ttl(TEMPORARY_LEDGER_LIFE - 1);
    let other = bytes(&env, "after");
    assert_eq!(run(&env, &id, |e| Feedback::checked_send(e, user.clone(), other.clone())), None);
    assert_eq!(run(&env, &id, |e| Feedback::checked_upvote(e, user.clone(), hash.clone())), None);
    assert_eq!(run(&env, &id, |e| Feedback::checked_downvote(e, user.clone(), hash.clone())), None);
    assert_eq!(
        run(&env, &id, |e| Feedback::checked_send(e, user.clone(), message.clone())),
        Some(Err(Error::MessageAlreadyExists))
    );
    assert_eq!(run(&env, &id, |e| Feedback::get_feedback(e, hash.clone())), Ok(1));
}

/// The smallest module the host accepts: no code, only the interface
/// version (protocol 20, no pre-release) in its `contractenvmetav0` section.
fn minimal_contract_wasm() -> Vec<u8> {
    let mut wasm = vec![0x00, 0x61, 0x73, 0x6d, 0x01, 0x00, 0x00, 0x00];
    let name = b"contractenvmetav0";
    let meta: [u8; 12] = [0, 0, 0, 0, 0, 0, 0, 20, 0, 0, 0, 0];
    wasm.push(0x00);
    wasm.push((1 + name.len() + meta.len()) as u8);
    wasm.push(name.len() as u8);
    wasm.extend_from_slice(name);
    wasm.extend_from_slice(&meta);
    wasm
}

#[test]
fn administrator_replaces_the_code() {
    let (env, id, admin) = initialized();
    let wasm = Bytes::from_slice(&env, &minimal_contract_wasm());
    let hash = env.deployer().upload_contract_wasm(wasm);
    assert_eq!(run(&env, &id, |e| Feedback::update_binary(e, hash.clone())), Ok(()));
    let auths = env.auths();
    assert_eq!(auths.len(), 1);
    assert_eq!(auths[0].0, admin);
}
