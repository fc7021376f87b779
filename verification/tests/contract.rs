use feedback::contract::Feedback;
use feedback::error::Error;
use soroban_sdk::testutils::{Address as _, ContractFunctionSet, EnvTestConfig, Events as _};
use soroban_sdk::{Address, Bytes, BytesN, Env, Val};

const MESSAGE: &str = "I would like to start seeing mainnet soroban apps interconnected!";

/// A contract instance with no functions of its own, in whose name the
/// library's contract functions run.
struct Host;

impl ContractFunctionSet for Host {
    fn call(&self, _func: &str, _env: Env, _args: &[Val]) -> Option<Val> {
        None
    }
}

fn setup() -> (Env, Address) {
    let env = Env::new_with_config(EnvTestConfig { capture_snapshot_at_drop: false });
    env.mock_all_auths();
    let id = env.register(Host, ());
    (env, id)
}

/// What a contract client does with a result: the value, or the panic that
/// reports the contract error.
fn client<T>(r: Result<T, Error>) -> T {
    match r {
        Ok(v) => v,
        Err(e) => panic!("HostError: Error(Contract, #{})", e.code()),
    }
}

fn initialize(env: &Env, id: &Address, admin: &Address) -> Result<(), Error> {
    let mut e = env.clone();
    env.as_contract(id, || Feedback::initialize(&mut e, admin.clone()))
}

fn send(env: &Env, id: &Address, from: &Address, message: &Bytes) -> Result<(), Error> {
    let mut e = env.clone();
    env.as_contract(id, || Feedback::send(&mut e, from.clone(), message.clone()))
}

fn upvote(env: &Env, id: &Address, from: &Address, hash: &BytesN<32>) -> Result<(), Error> {
    let mut e = env.clone();
    env.as_contract(id, || Feedback::checked_upvote(&mut e, from.clone(), hash.clone()))
        .expect("upvote on a recorded hash")
}

fn downvote(env: &Env, id: &Address, from: &Address, hash: &BytesN<32>) -> Result<(), Error> {
    let mut e = env.clone();
    env.as_contract(id, || Feedback::checked_downvote(&mut e, from.clone(), hash.clone()))
        .expect("downvote on a recorded hash")
}

fn get_feedback(env: &Env, id: &Address, hash: &BytesN<32>) -> Option<Result<i32, Error>> {
    let e = env.clone();
    env.as_contract(id, || Feedback::checked_get_feedback(&e, hash.clone()))
}

fn event_count(env: &Env) -> usize {
    env.events().all().events().len()
}

fn message(env: &Env) -> Bytes {
    Bytes::from_slice(env, MESSAGE.as_bytes())
}

fn hash_of(env: &Env, message: &Bytes) -> BytesN<32> {
    env.crypto().sha256(message).to_bytes()
}

#[test]
#[should_panic(expected = "HostError: Error(Contract, #1)")]
fn not_initialize() {
    let (env, id) = setup();
    let message = message(&env);
    let user1 = Address::generate(&env);
    client(send(&env, &id, &user1, &message));
}

#[test]
#[should_panic(expected = "HostError: Error(Contract, #3)")]
fn feedback_double() {
    let (env, id) = setup();
    let admin = Address::generate(&env);
    let message = message(&env);
    let hash = hash_of(&env, &message);

    client(initialize(&env, &id, &admin));

    let user1 = Address::generate(&env);
    client(send(&env, &id, &user1, &message));

    let user2 = Address::generate(&env);
    client(send(&env, &id, &user2, &message));

    assert_eq!(client(get_feedback(&env, &id, &hash).unwrap()), 1);
    assert_eq!(event_count(&env), 2);
}

#[test]
fn feedback_upvote() {
    let (env, id) = setup();
    let admin = Address::generate(&env);
    let message = message(&env);
    let hash = hash_of(&env, &message);
    let mut events = 0;

    client(initialize(&env, &id, &admin));
    events += event_count(&env);

    let user1 = Address::generate(&env);
    client(send(&env, &id, &user1, &message));
    events += event_count(&env);

    let user2 = Address::generate(&env);
    client(upvote(&env, &id, &user2, &hash));
    events += event_count(&env);
    client(upvote(&env, &id, &user2, &hash));
    events += event_count(&env);

    assert_eq!(client(get_feedback(&env, &id, &hash).unwrap()), 3);
    assert_eq!(events, 3);
}

#[test]
fn feedback_downvote() {
    let (env, id) = setup();
    let admin = Address::generate(&env);
    let message = message(&env);
    let hash = hash_of(&env, &message);
    let mut events = 0;

    client(initialize(&env, &id, &admin));
    events += event_count(&env);

    let user1 = Address::generate(&env);
    client(send(&env, &id, &user1, &message));
    events += event_count(&env);

    let user2 = Address::generate(&env);
    client(upvote(&env, &id, &user2, &hash));
    events += event_count(&env);
    client(upvote(&env, &id, &user2, &hash));
    events += event_count(&env);

    assert_eq!(client(get_feedback(&env, &id, &hash).unwrap()), 3);

    client(downvote(&env, &id, &user2, &hash));
    events += event_count(&env);
    client(downvote(&env, &id, &user2, &hash));
    events += event_count(&env);
    client(downvote(&env, &id, &user1, &hash));
    events += event_count(&env);

    assert_eq!(client(get_feedback(&env, &id, &hash).unwrap()), 0);

    client(downvote(&env, &id, &user1, &hash));
    events += event_count(&env);
    client(downvote(&env, &id, &user1, &hash));
    events += event_count(&env);

    assert_eq!(client(get_feedback(&env, &id, &hash).unwrap()), -2);
    assert_eq!(events, 8);
}
