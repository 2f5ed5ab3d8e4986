//! What a provider is told by its host when it starts, and the subjects that
//! it listens on.

use crate::subject::{
    health_subject, linkdefs_subject, provider_subject, provider_topic, shutdown_subject, LinkVerb,
};
use crate::table::TextMap;
use vstd::prelude::*;

verus! {

/// What the host hands to a provider at its start.
#[derive(Debug)]
pub struct HostData {
    pub host_id: String,
    pub lattice_rpc_prefix: String,
    pub link_name: String,
    pub lattice_rpc_user_jwt: String,
    pub lattice_rpc_user_seed: String,
    pub lattice_rpc_url: String,
    pub provider_key: String,
    pub env_values: TextMap<String>,
    pub invocation_seed: String,
    pub instance_id: String,
}

/// The subjects of one provider instance.
#[derive(Debug, PartialEq, Eq)]
pub struct ProviderSubjects {
    /// Invocations of the provider.
    pub rpc: String,
    /// Queries for the provider's links.
    pub linkdefs_get: String,
    /// Links that are put.
    pub linkdefs_put: String,
    /// Links that are deleted.
    pub linkdefs_del: String,
    /// The request to shut down.
    pub shutdown: String,
    /// The question whether the provider is alive.
    pub health: String,
}

/// What a `ProviderSubjects` stands for.
pub struct SubjectsView {
    pub rpc: Seq<char>,
    pub linkdefs_get: Seq<char>,
    pub linkdefs_put: Seq<char>,
    pub linkdefs_del: Seq<char>,
    pub shutdown: Seq<char>,
    pub health: Seq<char>,
}

impl View for ProviderSubjects {
    type V = SubjectsView;

    open spec fn view(&self) -> SubjectsView {
        SubjectsView {
            rpc: self.rpc@,
            linkdefs_get: self.linkdefs_get@,
            linkdefs_put: self.linkdefs_put@,
            linkdefs_del: self.linkdefs_del@,
            shutdown: self.shutdown@,
            health: self.health@,
        }
    }
}

/// The subjects of the provider `provider_key` that is bound as `link_name`
/// in the lattice `prefix`: the subject for invocations, and that subject
/// followed by `.linkdefs.get`, `.linkdefs.put`, `.linkdefs.del`, `.shutdown`
/// and `.health`.
pub open spec fn subjects_of(
    prefix: Seq<char>,
    provider_key: Seq<char>,
    link_name: Seq<char>,
) -> SubjectsView {
    let rpc = provider_topic(prefix, provider_key, link_name);
    SubjectsView {
        rpc,
        linkdefs_get: rpc + ".linkdefs."@ + LinkVerb::Get.word(),
        linkdefs_put: rpc + ".linkdefs."@ + LinkVerb::Put.word(),
        linkdefs_del: rpc + ".linkdefs."@ + LinkVerb::Del.word(),
        shutdown: rpc + ".shutdown"@,
        health: rpc + ".health"@,
    }
}

impl HostData {
    /// The subjects that the provider listens on.
    pub fn subjects(&self) -> (subjects: ProviderSubjects)
        ensures
            subjects@ == subjects_of(
                self.lattice_rpc_prefix@,
                self.provider_key@,
                self.link_name@,
            ),
    {
        let prefix = self.lattice_rpc_prefix.as_str();
        let key = self.provider_key.as_str();
        let link = self.link_name.as_str();
        ProviderSubjects {
            rpc: provider_subject(prefix, key, link),
            linkdefs_get: linkdefs_subject(prefix, key, link, LinkVerb::Get),
            linkdefs_put: linkdefs_subject(prefix, key, link, LinkVerb::Put),
            linkdefs_del: linkdefs_subject(prefix, key, link, LinkVerb::Del),
            shutdown: shutdown_subject(prefix, key, link),
            health: health_subject(prefix, key, link),
        }
    }
}

} // verus!
