//! The events that the contract publishes, one per accepted message or vote.
use crate::host::{
    address_key, bytes_contents, hash_contents, publish_with_text, publish_without_data, published_events,
    same_auths, same_code, same_lifetimes, same_permissions, same_storage,
};
use soroban_sdk::{Address, Bytes, BytesN, Env};
use vstd::prelude::*;

verus! {

/// What an event of the contract announces.
#[derive(Copy, Clone, Debug, PartialEq, Eq, Structural)]
pub enum EventKind {
    /// A new message, published with its text.
    Feedback,
    /// A vote for a message.
    Upvote,
    /// A vote against a message.
    Downvote,
}

/// The first topic of an event of the given kind.
pub open spec fn topic_name(kind: EventKind) -> Seq<char> {
    match kind {
        EventKind::Feedback => seq!['f', 'e', 'e', 'd', 'b', 'a', 'c', 'k'],
        EventKind::Upvote => seq!['u', 'p', 'v', 'o', 't', 'e'],
        EventKind::Downvote => seq!['d', 'o', 'w', 'n', 'v', 'o', 't', 'e'],
    }
}

impl EventKind {
    /// The first topic of an event of this kind.
    pub fn topic(&self) -> (t: &'static str)
        ensures
            t@ == topic_name(*self),
    {
        match self {
            EventKind::Feedback => {
                proof {
                    reveal_strlit("feedback");
                }
                "feedback"
            },
            EventKind::Upvote => {
                proof {
                    reveal_strlit("upvote");
                }
                "upvote"
            },
            EventKind::Downvote => {
                proof {
                    reveal_strlit("downvote");
                }
                "downvote"
            },
        }
    }
}

/// Announces a new message: topics `("feedback", from, hash)`, data `text`.
pub fn new_feedback(env: &mut Env, from: &Address, hash: BytesN<32>, text: Bytes)
    ensures
        published_events(*final(env)) == published_events(*old(env)).push(
            (topic_name(EventKind::Feedback), address_key(*from), hash_contents(hash), Some(bytes_contents(text))),
        ),
        same_storage(*old(env), *final(env)),
        same_lifetimes(*old(env), *final(env)),
        same_permissions(*old(env), *final(env)),
        same_auths(*old(env), *final(env)),
        same_code(*old(env), *final(env)),
{
    publish_with_text(env, EventKind::Feedback.topic(), from, hash, text)
}

/// Announces a vote for a message: topics `("upvote", from, hash)`.
pub fn upvote(env: &mut Env, from: &Address, hash: BytesN<32>)
    ensures
        published_events(*final(env)) == published_events(*old(env)).push(
            (topic_name(EventKind::Upvote), address_key(*from), hash_contents(hash), None),
        ),
        same_storage(*old(env), *final(env)),
        same_lifetimes(*old(env), *final(env)),
        same_permissions(*old(env), *final(env)),
        same_auths(*old(env), *final(env)),
        same_code(*old(env), *final(env)),
{
    publish_without_data(env, EventKind::Upvote.topic(), from, hash)
}

/// Announces a vote against a message: topics `("downvote", from, hash)`.
pub fn downvote(env: &mut Env, from: &Address, hash: BytesN<32>)
    ensures
        published_events(*final(env)) == published_events(*old(env)).push(
            (topic_name(EventKind::Downvote), address_key(*from), hash_contents(hash), None),
        ),
        same_storage(*old(env), *final(env)),
        same_lifetimes(*old(env), *final(env)),
        same_permissions(*old(env), *final(env)),
        same_auths(*old(env), *final(env)),
        same_code(*old(env), *final(env)),
{
    publish_without_data(env, EventKind::Downvote.topic(), from, hash)
}

} // verus!
