//! The links of a key-value provider whose backing store is Redis: every
//! linked actor gets a client for the store that its link names.

use crate::link::{settings, LinkDefinition};
use crate::registry::{address_in, store_address, LinkRegistry, PutOutcome};
use crate::table::TextMap;
use vstd::prelude::*;

verus! {

#[verifier::external_type_specification]
#[verifier::external_body]
pub struct ExRedisClient(redis::Client);

#[verifier::external_type_specification]
#[verifier::external_body]
pub struct ExRedisError(redis::RedisError);

/// Whether a text is an address that a Redis client can be made for.
pub uninterp spec fn is_redis_address(address: Seq<char>) -> bool;

/// Calls `redis::Client::open`, which checks the address and opens no
/// connection yet. The contract names whether the address passes; nothing is
/// promised of the client.
#[verifier::external_body]
pub(crate) fn open_client(address: &str) -> (outcome: Result<redis::Client, redis::RedisError>)
    ensures
        outcome is Ok == is_redis_address(address@),
{
    redis::Client::open(address)
}

/// Writes a `redis::RedisError` out in words.
#[verifier::external_body]
pub(crate) fn error_text(error: &redis::RedisError) -> String {
    format!("{}", error)
}

/// What is reported when no client could be made, for the reason given.
pub open spec fn connect_failure(reason: Seq<char>) -> Seq<char> {
    "Failed to connect to redis: "@ + reason
}

/// Makes the client for the store at `address`.
pub fn open_store(address: &str) -> (opened: Result<redis::Client, String>)
    ensures
        opened is Ok == is_redis_address(address@),
        opened matches Err(text) ==> exists|reason: Seq<char>| text@ == connect_failure(reason),
{
    match open_client(address) {
        Ok(client) => Ok(client),
        Err(error) => {
            let reason = error_text(&error);
            let text = String::from_str("Failed to connect to redis: ").concat(reason.as_str());
            assert(text@ == connect_failure(reason@));
            Err(text)
        },
    }
}

/// Makes the client for the store that `config` names under `URL`, or for the
/// store at `redis://0.0.0.0:6379/` where it names none.
pub fn initialize_client(config: &TextMap<String>) -> (opened: Result<redis::Client, String>)
    ensures
        opened is Ok == is_redis_address(store_address(settings(config@))),
        opened matches Err(text) ==> exists|reason: Seq<char>| text@ == connect_failure(reason),
{
    let address = address_in(config);
    open_store(address.as_str())
}

/// Takes a put of a link definition. For an actor that is linked already
/// nothing changes and `Ok(false)` comes back. For a new link a client for its
/// store is made, and the link is recorded together with the client. Where
/// no client can be made nothing changes either: the actor stays unlinked,
/// and the reason comes back.
pub fn put_link(
    links: &mut LinkRegistry<redis::Client>,
    ld: LinkDefinition,
) -> (done: Result<bool, String>)
    ensures
        final(links)@.consistent(),
        old(links)@.is_linked(ld.actor_id@) ==> done == Ok::<bool, String>(false) && final(links)@
            == old(links)@,
        !old(links)@.is_linked(ld.actor_id@) ==> match done {
            Ok(fresh) => {
                &&& fresh
                &&& is_redis_address(store_address(ld@.values))
                &&& exists|client: redis::Client|
                    final(links)@ == old(links)@.after_put(ld@, client)
            },
            Err(text) => {
                &&& !is_redis_address(store_address(ld@.values))
                &&& final(links)@ == old(links)@
                &&& exists|reason: Seq<char>| text@ == connect_failure(reason)
            },
        },
{
    match links.plan_put(&ld) {
        PutOutcome::AlreadyLinked => Ok(false),
        PutOutcome::Provision { address } => {
            match open_store(address.as_str()) {
                Ok(client) => {
                    links.put(ld, client);
                    Ok(true)
                },
                Err(text) => Err(text),
            }
        },
    }
}

/// Takes a delete of a link definition: the link of its actor goes, and the
/// client with it. It reports whether there was a link.
pub fn del_link(links: &mut LinkRegistry<redis::Client>, ld: &LinkDefinition) -> (was_linked: bool)
    ensures
        final(links)@ == old(links)@.after_del(ld.actor_id@),
        was_linked == old(links)@.is_linked(ld.actor_id@),
{
    let was_linked = links.is_linked(ld.actor_id.as_str());
    links.del(ld.actor_id.as_str());
    was_linked
}

} // verus!
