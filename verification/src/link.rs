//! Link definitions, which bind an actor to a provider under a link name, and
//! reference maps, which give an entity another name.

use crate::entity::WasmCloudEntity;
use crate::table::TextMap;
use vstd::prelude::*;

verus! {

/// The binding of one actor to one provider instance, with the configuration
/// that the provider is to use for that actor.
#[derive(Debug)]
pub struct LinkDefinition {
    pub actor_id: String,
    pub provider_id: String,
    pub link_name: String,
    pub contract_id: String,
    pub values: TextMap<String>,
}

/// What a `LinkDefinition` stands for.
pub struct LinkView {
    pub actor_id: Seq<char>,
    pub provider_id: Seq<char>,
    pub link_name: Seq<char>,
    pub contract_id: Seq<char>,
    pub values: Map<Seq<char>, Seq<char>>,
}

/// A configuration as a map from text to text.
pub open spec fn settings(values: Map<Seq<char>, String>) -> Map<Seq<char>, Seq<char>> {
    values.map_values(|value: String| value@)
}

impl View for LinkDefinition {
    type V = LinkView;

    open spec fn view(&self) -> LinkView {
        LinkView {
            actor_id: self.actor_id@,
            provider_id: self.provider_id@,
            link_name: self.link_name@,
            contract_id: self.contract_id@,
            values: settings(self.values@),
        }
    }
}

impl Clone for LinkDefinition {
    fn clone(&self) -> (copy: Self)
        ensures
            copy@ == self@,
    {
        LinkDefinition {
            actor_id: self.actor_id.clone(),
            provider_id: self.provider_id.clone(),
            link_name: self.link_name.clone(),
            contract_id: self.contract_id.clone(),
            values: self.values.clone(),
        }
    }
}

impl LinkDefinition {
    /// The link of `actor` to `provider`, bound as `link` under `contract`,
    /// with the configuration `values`.
    pub fn new(
        actor: &str,
        provider: &str,
        link: &str,
        contract: &str,
        values: TextMap<String>,
    ) -> (ld: LinkDefinition)
        ensures
            ld@ == (LinkView {
                actor_id: actor@,
                provider_id: provider@,
                link_name: link@,
                contract_id: contract@,
                values: settings(values@),
            }),
    {
        LinkDefinition {
            actor_id: actor.to_owned(),
            provider_id: provider.to_owned(),
            link_name: link.to_owned(),
            contract_id: contract.to_owned(),
            values,
        }
    }
}

/// The answer to a query for the links of a provider.
#[derive(Debug)]
pub struct LinkDefinitionList {
    pub link_definitions: Vec<LinkDefinition>,
}

/// What kind of name a reference map gives.
#[derive(Debug, PartialEq, Eq)]
pub enum ReferenceType {
    /// An OCI image reference.
    OCI(String),
    /// A call alias.
    CallAlias(String),
}

/// Another name for an entity.
#[derive(Debug, PartialEq, Eq)]
pub struct ReferenceMap {
    pub kind: ReferenceType,
    pub target: WasmCloudEntity,
}

} // verus!
