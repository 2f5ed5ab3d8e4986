//! The subjects on the bus under which invocations, link definitions, claims
//! and reference maps travel.

use vstd::prelude::*;

verus! {

/// What is done with a link definition.
#[derive(Clone, Copy, Debug, PartialEq, Eq, Structural)]
pub enum LinkVerb {
    Get,
    Put,
    Del,
}

/// What is done with a cache of claims or of reference maps.
#[derive(Clone, Copy, Debug, PartialEq, Eq, Structural)]
pub enum CacheVerb {
    Get,
    Put,
}

impl LinkVerb {
    pub open spec fn word(self) -> Seq<char> {
        match self {
            LinkVerb::Get => "get"@,
            LinkVerb::Put => "put"@,
            LinkVerb::Del => "del"@,
        }
    }

    fn as_word(self) -> (word: &'static str)
        ensures
            word@ == self.word(),
    {
        match self {
            LinkVerb::Get => "get",
            LinkVerb::Put => "put",
            LinkVerb::Del => "del",
        }
    }
}

impl CacheVerb {
    pub open spec fn word(self) -> Seq<char> {
        match self {
            CacheVerb::Get => "get"@,
            CacheVerb::Put => "put"@,
        }
    }

    fn as_word(self) -> (word: &'static str)
        ensures
            word@ == self.word(),
    {
        match self {
            CacheVerb::Get => "get",
            CacheVerb::Put => "put",
        }
    }
}

/// `wasmbus.rpc.{prefix}`
pub open spec fn lattice_root(prefix: Seq<char>) -> Seq<char> {
    "wasmbus.rpc."@ + prefix
}

/// `wasmbus.rpc.{prefix}.{public_key}`
pub open spec fn actor_topic(prefix: Seq<char>, public_key: Seq<char>) -> Seq<char> {
    lattice_root(prefix) + "."@ + public_key
}

/// `wasmbus.rpc.{prefix}.{provider_key}.{link_name}`
pub open spec fn provider_topic(
    prefix: Seq<char>,
    provider_key: Seq<char>,
    link_name: Seq<char>,
) -> Seq<char> {
    lattice_root(prefix) + "."@ + provider_key + "."@ + link_name
}

fn lattice_root_of(prefix: &str) -> (subject: String)
    ensures
        subject@ == lattice_root(prefix@),
{
    String::from_str("wasmbus.rpc.").concat(prefix)
}

/// The subject on which the actor `public_key` takes invocations.
pub fn actor_subject(prefix: &str, public_key: &str) -> (subject: String)
    ensures
        subject@ == actor_topic(prefix@, public_key@),
{
    let mut subject = lattice_root_of(prefix);
    subject.append(".");
    subject.append(public_key);
    subject
}

/// The subject on which the provider `provider_key`, bound as `link_name`,
/// takes invocations.
pub fn provider_subject(prefix: &str, provider_key: &str, link_name: &str) -> (subject: String)
    ensures
        subject@ == provider_topic(prefix@, provider_key@, link_name@),
{
    let mut subject = lattice_root_of(prefix);
    subject.append(".");
    subject.append(provider_key);
    subject.append(".");
    subject.append(link_name);
    subject
}

/// The subject for querying, putting or deleting the links of a provider:
/// the provider's subject, then `.linkdefs.` and the verb.
pub fn linkdefs_subject(
    prefix: &str,
    provider_key: &str,
    link_name: &str,
    verb: LinkVerb,
) -> (subject: String)
    ensures
        subject@ == provider_topic(prefix@, provider_key@, link_name@) + ".linkdefs."@
            + verb.word(),
{
    let mut subject = provider_subject(prefix, provider_key, link_name);
    subject.append(".linkdefs.");
    subject.append(verb.as_word());
    subject
}

/// The subject that asks a provider to shut down.
pub fn shutdown_subject(prefix: &str, provider_key: &str, link_name: &str) -> (subject: String)
    ensures
        subject@ == provider_topic(prefix@, provider_key@, link_name@) + ".shutdown"@,
{
    let mut subject = provider_subject(prefix, provider_key, link_name);
    subject.append(".shutdown");
    subject
}

/// The subject that asks a provider whether it is alive.
pub fn health_subject(prefix: &str, provider_key: &str, link_name: &str) -> (subject: String)
    ensures
        subject@ == provider_topic(prefix@, provider_key@, link_name@) + ".health"@,
{
    let mut subject = provider_subject(prefix, provider_key, link_name);
    subject.append(".health");
    subject
}

/// The subject of the claims cache: `wasmbus.rpc.{prefix}.claims.` and the
/// verb.
pub fn claims_subject(prefix: &str, verb: CacheVerb) -> (subject: String)
    ensures
        subject@ == lattice_root(prefix@) + ".claims."@ + verb.word(),
{
    let mut subject = lattice_root_of(prefix);
    subject.append(".claims.");
    subject.append(verb.as_word());
    subject
}

/// The subject of the cache of reference maps: `wasmbus.rpc.{prefix}.refmaps.`
/// and the verb.
pub fn refmaps_subject(prefix: &str, verb: CacheVerb) -> (subject: String)
    ensures
        subject@ == lattice_root(prefix@) + ".refmaps."@ + verb.word(),
{
    let mut subject = lattice_root_of(prefix);
    subject.append(".refmaps.");
    subject.append(verb.as_word());
    subject
}

} // verus!
