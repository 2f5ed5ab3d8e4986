//! Addresses of the two kinds of endpoint that can send or receive an
//! invocation: actors and capability providers.

use crate::text::{lowercase, replace_char, substitute, to_lowercase};
use vstd::prelude::*;

verus! {

/// An endpoint of an invocation.
#[derive(Debug, PartialEq, Eq, Hash)]
pub enum WasmCloudEntity {
    /// An actor, known by its public key.
    Actor(String),
    /// One instance of a capability provider, bound under a link name.
    Capability { id: String, contract_id: String, link_name: String },
}

/// What a `WasmCloudEntity` stands for.
pub enum EntityView {
    Actor(Seq<char>),
    Capability { id: Seq<char>, contract_id: Seq<char>, link_name: Seq<char> },
}

/// A contract id or link name as it appears inside a URL: `:` becomes `/`,
/// a space becomes `_`, and the rest is lower-cased.
pub open spec fn normalized(part: Seq<char>) -> Seq<char> {
    lowercase(substitute(substitute(part, ':', '/'), ' ', '_'))
}

impl EntityView {
    /// The URL of the endpoint.
    pub open spec fn url(self) -> Seq<char> {
        match self {
            EntityView::Actor(public_key) => "wasmbus://"@ + public_key,
            EntityView::Capability { id, contract_id, link_name } => provider_url(
                normalized(contract_id),
                normalized(link_name),
                id,
            ),
        }
    }

    /// The public key of the actor or the id of the provider.
    pub open spec fn key(self) -> Seq<char> {
        match self {
            EntityView::Actor(public_key) => public_key,
            EntityView::Capability { id, .. } => id,
        }
    }
}

/// Whether a key begins with `M`, as the public key of an actor does.
pub open spec fn begins_with_m(key: Seq<char>) -> bool {
    key.len() > 0 && key[0] == 'M'
}

impl View for WasmCloudEntity {
    type V = EntityView;

    open spec fn view(&self) -> EntityView {
        match self {
            WasmCloudEntity::Actor(public_key) => EntityView::Actor(public_key@),
            WasmCloudEntity::Capability { id, contract_id, link_name } => EntityView::Capability {
                id: id@,
                contract_id: contract_id@,
                link_name: link_name@,
            },
        }
    }
}

impl Clone for WasmCloudEntity {
    fn clone(&self) -> (copy: Self)
        ensures
            copy@ == self@,
    {
        match self {
            WasmCloudEntity::Actor(public_key) => WasmCloudEntity::Actor(public_key.clone()),
            WasmCloudEntity::Capability { id, contract_id, link_name } => {
                WasmCloudEntity::Capability {
                    id: id.clone(),
                    contract_id: contract_id.clone(),
                    link_name: link_name.clone(),
                }
            },
        }
    }
}

/// Normalizes one component of a capability URL.
pub fn normalize(part: &str) -> (out: String)
    ensures
        out@ == normalized(part@),
{
    proof {
        reveal_strlit("/");
        reveal_strlit("_");
    }
    let slashed = replace_char(part, ':', "/");
    let underscored = replace_char(slashed.as_str(), ' ', "_");
    to_lowercase(underscored.as_str())
}

/// The URL of a provider from its parts as they stand in the URL: contract
/// id and link name, both already normalized, and id.
pub open spec fn provider_url(contract: Seq<char>, link: Seq<char>, id: Seq<char>) -> Seq<char> {
    "wasmbus://"@ + contract + "/"@ + link + "/"@ + id
}

/// Lays out the URL of a provider: `wasmbus://`, then the normalized contract
/// id, the normalized link name and the id, with a `/` between them.
pub fn capability_url(contract: &str, link: &str, id: &str) -> (url: String)
    ensures
        url@ == provider_url(contract@, link@, id@),
        url@ == "wasmbus://"@ + contract@ + "/"@ + link@ + "/"@ + id@,
{
    let mut url = String::from_str("wasmbus://");
    url.append(contract);
    url.append("/");
    url.append(link);
    url.append("/");
    url.append(id);
    url
}

impl WasmCloudEntity {
    /// The actor with the given public key.
    pub fn actor(id: &str) -> (entity: WasmCloudEntity)
        ensures
            entity@ == EntityView::Actor(id@),
    {
        WasmCloudEntity::Actor(id.to_owned())
    }

    /// The provider `id` of contract `contract_id`, bound as `link_name`.
    pub fn capability(id: &str, contract_id: &str, link_name: &str) -> (entity: WasmCloudEntity)
        ensures
            entity@ == (EntityView::Capability {
                id: id@,
                contract_id: contract_id@,
                link_name: link_name@,
            }),
    {
        WasmCloudEntity::Capability {
            id: id.to_owned(),
            contract_id: contract_id.to_owned(),
            link_name: link_name.to_owned(),
        }
    }

    /// The URL of the entity: `wasmbus://` followed by the public key of an
    /// actor, or by the normalized contract id, the normalized link name and
    /// the id of a provider, separated by `/`.
    pub fn url(&self) -> (url: String)
        ensures
            url@ == self@.url(),
            self@ is Actor ==> url@ == "wasmbus://"@ + self@.key(),
    {
        match self {
            WasmCloudEntity::Actor(public_key) => {
                String::from_str("wasmbus://").concat(public_key.as_str())
            },
            WasmCloudEntity::Capability { id, contract_id, link_name } => {
                let contract = normalize(contract_id.as_str());
                let link = normalize(link_name.as_str());
                capability_url(contract.as_str(), link.as_str(), id.as_str())
            },
        }
    }

    /// The public key of an actor, the id of a provider.
    pub fn key(&self) -> (key: String)
        ensures
            key@ == self@.key(),
    {
        match self {
            WasmCloudEntity::Actor(public_key) => public_key.clone(),
            WasmCloudEntity::Capability { id, .. } => id.clone(),
        }
    }
}

} // verus!
