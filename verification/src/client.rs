//! What a lattice client decides before it sends and after it hears back:
//! where an invocation goes, what it holds, and what the caller gets when the
//! bus fails.

use crate::entity::{begins_with_m, EntityView, WasmCloudEntity};
use crate::invocation::{
    failure_of, metadata_of, EnvelopeError, Invocation, InvocationResponse, ResponseView,
};
use crate::link::{settings, LinkDefinition, LinkView, ReferenceMap, ReferenceType};
use crate::subject::{
    actor_subject, actor_topic, lattice_root, linkdefs_subject, provider_subject, provider_topic,
    refmaps_subject, CacheVerb, LinkVerb,
};
use crate::table::TextMap;
use crate::text::starts_with_char;
use crate::token::{is_seed, public_key_of, HostKey};
use vstd::prelude::*;
use vstd::slice::slice_to_vec;

verus! {

/// Why a client could not make an invocation.
#[derive(Clone, Copy, Debug, PartialEq, Eq, Structural)]
pub enum ClientError {
    /// The host seed is no signing key.
    InvalidSeed,
    /// The invocation is too long to be hashed.
    TooLarge,
}

/// Where an invocation goes, and between which entities.
#[derive(Debug)]
pub struct Route {
    pub subject: String,
    pub target: WasmCloudEntity,
    pub origin: WasmCloudEntity,
}

/// What a `Route` stands for.
pub struct RouteView {
    pub subject: Seq<char>,
    pub target: EntityView,
    pub origin: EntityView,
}

impl View for Route {
    type V = RouteView;

    open spec fn view(&self) -> RouteView {
        RouteView { subject: self.subject@, target: self.target@, origin: self.origin@ }
    }
}

/// An invocation that is ready to be sent, and the subject to send it on.
#[derive(Debug)]
pub struct PendingCall {
    pub subject: String,
    pub invocation: Invocation,
}

/// What came of a request on the bus.
#[derive(Debug)]
pub enum Delivery {
    /// The receiver answered with a response.
    Answered(InvocationResponse),
    /// The receiver answered, with what is no response; the text says why.
    Unreadable(String),
    /// The bus did not deliver or did not answer; the text says why.
    Unreachable(String),
}

/// Whether a text has the shape of an actor's public key: 56 characters,
/// of which the first is `M`.
pub open spec fn actor_shaped(text: Seq<char>) -> bool {
    text.len() == 56 && begins_with_m(text)
}

/// The link name that a binding stands for: `default` where it is empty.
pub open spec fn link_or_default(binding: Seq<char>) -> Seq<char> {
    if binding.len() == 0 {
        "default"@
    } else {
        binding
    }
}

/// The route of a call by `actor_key` in `namespace`. A namespace shaped
/// like an actor's key is the actor that is called; the caller is then an actor
/// if its key begins with `M`, and else the provider `provider_key`. Any
/// other namespace is the contract of the provider `provider_key` that is
/// called, under the link that `binding` names, by the actor `actor_key`.
pub open spec fn route_of(
    actor_key: Seq<char>,
    binding: Seq<char>,
    namespace: Seq<char>,
    prefix: Seq<char>,
    provider_key: Seq<char>,
) -> RouteView {
    let provider = EntityView::Capability {
        id: provider_key,
        contract_id: namespace,
        link_name: link_or_default(binding),
    };
    if actor_shaped(namespace) {
        RouteView {
            subject: actor_topic(prefix, namespace),
            target: EntityView::Actor(namespace),
            origin: if begins_with_m(actor_key) {
                EntityView::Actor(actor_key)
            } else {
                provider
            },
        }
    } else {
        RouteView {
            subject: provider_topic(prefix, provider_key, link_or_default(binding)),
            target: provider,
            origin: EntityView::Actor(actor_key),
        }
    }
}

/// Whether `text` has the shape of an actor's public key.
pub fn is_actor_key(text: &str) -> (shaped: bool)
    ensures
        shaped == actor_shaped(text@),
{
    text.unicode_len() == 56 && starts_with_char(text, 'M')
}

/// Decides where a call goes and which entities it is between.
pub fn route(
    actor_key: &str,
    binding: &str,
    namespace: &str,
    prefix: &str,
    provider_key: &str,
) -> (found: Route)
    ensures
        found@ == route_of(actor_key@, binding@, namespace@, prefix@, provider_key@),
{
    let link = if binding.is_empty() {
        "default"
    } else {
        binding
    };
    if is_actor_key(namespace) {
        let origin = if starts_with_char(actor_key, 'M') {
            WasmCloudEntity::actor(actor_key)
        } else {
            WasmCloudEntity::capability(provider_key, namespace, link)
        };
        Route {
            subject: actor_subject(prefix, namespace),
            target: WasmCloudEntity::actor(namespace),
            origin,
        }
    } else {
        Route {
            subject: provider_subject(prefix, provider_key, link),
            target: WasmCloudEntity::capability(provider_key, namespace, link),
            origin: WasmCloudEntity::actor(actor_key),
        }
    }
}

/// Makes the signed invocation for a call and finds the subject to send it
/// on. The invocation holds the payload as it is, is addressed as `route_of`
/// says, and is signed with the key that `seed` stands for, so that it passes
/// validation wherever that key's host is trusted. It fails with
/// `InvalidSeed` exactly where `seed` is no seed, and with `TooLarge` exactly
/// where the seed is one and the call is too long to be hashed.
pub fn prepare_invocation(
    actor_key: &str,
    binding: &str,
    operation: &str,
    namespace: &str,
    payload: &[u8],
    seed: &str,
    prefix: &str,
    provider_key: &str,
) -> (prepared: Result<PendingCall, ClientError>)
    ensures
        ({
            let planned = route_of(actor_key@, binding@, namespace@, prefix@, provider_key@);
            let fits = metadata_of(planned.origin, planned.target, operation@, payload@) is Some;
            match prepared {
                Ok(call) => {
                    &&& is_seed(seed@)
                    &&& fits
                    &&& call.subject@ == planned.subject
                    &&& call.invocation@.target == planned.target
                    &&& call.invocation@.origin == planned.origin
                    &&& call.invocation@.operation == operation@
                    &&& call.invocation@.msg == payload@
                    &&& call.invocation@.id.len() == 36
                    &&& call.invocation@.host_id == public_key_of(seed@)
                    &&& call.invocation@.is_sealed()
                },
                Err(ClientError::InvalidSeed) => !is_seed(seed@),
                Err(ClientError::TooLarge) => is_seed(seed@) && !fits,
            }
        }),
{
    let found = route(actor_key, binding, namespace, prefix, provider_key);
    let hostkey = match HostKey::from_seed(seed) {
        Some(key) => key,
        None => { return Err(ClientError::InvalidSeed); },
    };
    let Route { subject, target, origin } = found;
    match Invocation::new(&hostkey, origin, target, operation, slice_to_vec(payload)) {
        Ok(invocation) => Ok(PendingCall { subject, invocation }),
        Err(EnvelopeError::TooLarge) => Err(ClientError::TooLarge),
    }
}

/// What the caller of `inv` gets for what came of the request: the response
/// that arrived, or an error response to `inv` that says what failed.
pub open spec fn conclusion(inv_id: Seq<char>, delivery: Delivery) -> ResponseView {
    match delivery {
        Delivery::Answered(response) => response@,
        Delivery::Unreadable(reason) => failure_of(inv_id, reason@),
        Delivery::Unreachable(reason) => failure_of(inv_id, "RPC failure: "@ + reason@),
    }
}

/// Turns what came of a request into the response for the caller. A failure
/// of the bus becomes an error response to `inv`; it is never passed on as a
/// failure of the call itself.
pub fn conclude_invocation(inv: &Invocation, delivery: Delivery) -> (response: InvocationResponse)
    ensures
        response@ == conclusion(inv@.id, delivery),
{
    match delivery {
        Delivery::Answered(response) => response,
        Delivery::Unreadable(reason) => InvocationResponse::error(inv, reason.as_str()),
        Delivery::Unreachable(reason) => {
            let text = String::from_str("RPC failure: ").concat(reason.as_str());
            InvocationResponse::error(inv, text.as_str())
        },
    }
}

/// The link definition to publish, and the subject to publish it on, so that
/// the provider links `actor` with the configuration `values`.
pub fn link_put_message(
    actor: &str,
    provider_key: &str,
    link_name: &str,
    contract_id: &str,
    prefix: &str,
    values: TextMap<String>,
) -> (message: (String, LinkDefinition))
    ensures
        message.0@ == provider_topic(prefix@, provider_key@, link_name@) + ".linkdefs."@
            + LinkVerb::Put.word(),
        message.1@ == (LinkView {
            actor_id: actor@,
            provider_id: provider_key@,
            link_name: link_name@,
            contract_id: contract_id@,
            values: settings(values@),
        }),
{
    let subject = linkdefs_subject(prefix, provider_key, link_name, LinkVerb::Put);
    (subject, LinkDefinition::new(actor, provider_key, link_name, contract_id, values))
}

/// The link definition to publish, and the subject to publish it on, so that
/// the provider drops its link with `actor`. It carries no configuration.
pub fn link_del_message(
    actor: &str,
    provider_key: &str,
    link_name: &str,
    contract_id: &str,
    prefix: &str,
) -> (message: (String, LinkDefinition))
    ensures
        message.0@ == provider_topic(prefix@, provider_key@, link_name@) + ".linkdefs."@
            + LinkVerb::Del.word(),
        message.1@ == (LinkView {
            actor_id: actor@,
            provider_id: provider_key@,
            link_name: link_name@,
            contract_id: contract_id@,
            values: Map::empty(),
        }),
{
    let subject = linkdefs_subject(prefix, provider_key, link_name, LinkVerb::Del);
    let values: TextMap<String> = TextMap::new();
    assert(settings(values@) =~= Map::<Seq<char>, Seq<char>>::empty());
    (subject, LinkDefinition::new(actor, provider_key, link_name, contract_id, values))
}

/// The reference map to publish, and the subject to publish it on, so that
/// `source` becomes a name of `target`.
pub fn reference_map_message(
    prefix: &str,
    source: ReferenceType,
    target: WasmCloudEntity,
) -> (message: (String, ReferenceMap))
    ensures
        message.0@ == lattice_root(prefix@) + ".refmaps."@ + CacheVerb::Put.word(),
        message.1.kind == source,
        message.1.target == target,
{
    (refmaps_subject(prefix, CacheVerb::Put), ReferenceMap { kind: source, target })
}

} // verus!
