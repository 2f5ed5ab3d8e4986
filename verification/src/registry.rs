//! The links that a provider holds, and for each linked actor the connection
//! to the backing store that was opened for it.

use crate::dispatch::{accept, acceptance, no_client, no_such_operation, Operation};
use crate::invocation::{failure_of, Invocation, InvocationResponse, InvocationView, ResponseView};
use crate::link::{settings, LinkDefinition, LinkDefinitionList, LinkView};
use crate::table::{as_map, distinct_keys, holds_at, lemma_entry_is_mapped, TextMap};
use vstd::prelude::*;

verus! {

/// The links of a provider and the connections that go with them, both by
/// actor id. `C` is whatever stands for an open connection.
#[derive(Debug)]
pub struct LinkRegistry<C> {
    links: TextMap<LinkDefinition>,
    connections: TextMap<C>,
}

/// What a `LinkRegistry` stands for: the links and the connections as maps
/// from actor ids.
pub struct RegistryView<C> {
    pub links: Map<Seq<char>, LinkView>,
    pub connections: Map<Seq<char>, C>,
}

/// Links as a map from actor ids to what the definitions stand for.
pub open spec fn link_views(links: Map<Seq<char>, LinkDefinition>) -> Map<Seq<char>, LinkView> {
    links.map_values(|ld: LinkDefinition| ld@)
}

/// Adding a link to the links adds what it stands for.
pub proof fn lemma_link_views_insert(
    links: Map<Seq<char>, LinkDefinition>,
    actor: Seq<char>,
    ld: LinkDefinition,
)
    ensures
        link_views(links.insert(actor, ld)) == link_views(links).insert(actor, ld@),
        link_views(links).dom() == links.dom(),
{
    assert(link_views(links.insert(actor, ld)) =~= link_views(links).insert(actor, ld@));
    assert(link_views(links).dom() =~= links.dom());
}

/// Taking a link out of the links takes out what it stands for.
pub proof fn lemma_link_views_remove(links: Map<Seq<char>, LinkDefinition>, actor: Seq<char>)
    ensures
        link_views(links.remove(actor)) == link_views(links).remove(actor),
{
    assert(link_views(links.remove(actor)) =~= link_views(links).remove(actor));
}

/// Whether `list` holds a definition that stands for `ld`.
pub open spec fn lists(list: Seq<LinkDefinition>, ld: LinkView) -> bool {
    exists|i: int| 0 <= i < list.len() && #[trigger] list[i]@ == ld
}

/// What a put of a link definition asks of the one who put it.
#[derive(Debug, PartialEq, Eq)]
pub enum PutOutcome {
    /// The actor is linked already: nothing has changed, nothing is to be done.
    AlreadyLinked,
    /// The link is new: a connection to the store at `address` is to be
    /// opened, and the link put together with it.
    Provision { address: String },
}

/// The address of the store where the configuration names none.
pub open spec fn default_address() -> Seq<char> {
    "redis://0.0.0.0:6379/"@
}

/// The address of the store that a configuration names under `URL`.
pub open spec fn store_address(values: Map<Seq<char>, Seq<char>>) -> Seq<char> {
    if values.contains_key("URL"@) {
        values["URL"@]
    } else {
        default_address()
    }
}

/// Finds the address of the store in the configuration of a link.
pub fn address_in(values: &TextMap<String>) -> (address: String)
    ensures
        address@ == store_address(settings(values@)),
{
    match values.get("URL") {
        Some(address) => address.clone(),
        None => String::from_str("redis://0.0.0.0:6379/"),
    }
}

impl<C> RegistryView<C> {
    /// Whether `actor` is linked.
    pub open spec fn is_linked(self, actor: Seq<char>) -> bool {
        self.links.contains_key(actor)
    }

    /// Whether `actor` has a connection.
    pub open spec fn is_connected(self, actor: Seq<char>) -> bool {
        self.connections.contains_key(actor)
    }

    /// Whether links and connections are in step: an actor has a connection
    /// exactly when it is linked, and every link is kept under the id of its
    /// own actor.
    pub open spec fn consistent(self) -> bool {
        &&& forall|actor: Seq<char>| #[trigger] self.is_connected(actor) == self.is_linked(actor)
        &&& forall|actor: Seq<char>| #[trigger]
            self.is_linked(actor) ==> self.links[actor].actor_id == actor
    }

    /// The registry after a put of `ld` with the connection that was opened
    /// for it: for an actor that is linked already nothing changes; a new
    /// link is added together with its connection.
    pub open spec fn after_put(self, ld: LinkView, connection: C) -> RegistryView<C> {
        if self.is_linked(ld.actor_id) {
            self
        } else {
            RegistryView {
                links: self.links.insert(ld.actor_id, ld),
                connections: self.connections.insert(ld.actor_id, connection),
            }
        }
    }

    /// The registry after the link of `actor` was deleted: neither the link
    /// nor the connection is left.
    pub open spec fn after_del(self, actor: Seq<char>) -> RegistryView<C> {
        RegistryView { links: self.links.remove(actor), connections: self.connections.remove(actor) }
    }
}

impl<C> View for LinkRegistry<C> {
    type V = RegistryView<C>;

    closed spec fn view(&self) -> RegistryView<C> {
        RegistryView { links: link_views(self.links@), connections: self.connections@ }
    }
}

impl<C> LinkRegistry<C> {
    /// An actor has a connection exactly when it is linked, and every link is
    /// kept under the id of its own actor.
    #[verifier::type_invariant]
    spec fn links_and_connections_in_step(self) -> bool {
        self@.consistent()
    }

    /// The registry of a provider that has no links yet.
    pub fn new() -> (registry: Self)
        ensures
            registry@.links == Map::<Seq<char>, LinkView>::empty(),
            registry@.connections == Map::<Seq<char>, C>::empty(),
            registry@.consistent(),
    {
        let registry = LinkRegistry { links: TextMap::new(), connections: TextMap::new() };
        assert(registry@.links =~= Map::<Seq<char>, LinkView>::empty());
        registry
    }

    /// Whether `actor_id` is linked, and so has a connection.
    pub fn is_linked(&self, actor_id: &str) -> (linked: bool)
        ensures
            linked == self@.is_linked(actor_id@),
            linked == self@.is_connected(actor_id@),
            self@.consistent(),
    {
        proof {
            use_type_invariant(self);
        }
        let linked = self.links.contains_key(actor_id);
        assert(self@.is_connected(actor_id@) == self@.is_linked(actor_id@));
        linked
    }

    /// Says what a put of `ld` asks for. For an actor that is linked already
    /// it asks for nothing: the put is to be dropped. For a new link it asks
    /// for a connection to the store that the link names, with which the link
    /// is then put.
    pub fn plan_put(&self, ld: &LinkDefinition) -> (outcome: PutOutcome)
        ensures
            match outcome {
                PutOutcome::AlreadyLinked => self@.is_linked(ld.actor_id@),
                PutOutcome::Provision { address } => {
                    &&& !self@.is_linked(ld.actor_id@)
                    &&& address@ == store_address(ld@.values)
                },
            },
            self@.consistent(),
    {
        proof {
            use_type_invariant(self);
        }
        if self.links.contains_key(ld.actor_id.as_str()) {
            PutOutcome::AlreadyLinked
        } else {
            PutOutcome::Provision { address: address_in(&ld.values) }
        }
    }

    /// Takes a put of a link definition together with the connection that was
    /// opened for it. For an actor that is linked already nothing changes,
    /// whatever the definition holds: the link and the connection that are
    /// there stay, and the new connection is handed back. A new link is
    /// recorded together with its connection.
    pub fn put(&mut self, ld: LinkDefinition, connection: C) -> (refused: Option<C>)
        ensures
            final(self)@ == old(self)@.after_put(ld@, connection),
            final(self)@.consistent(),
            refused == if old(self)@.is_linked(ld.actor_id@) {
                Some(connection)
            } else {
                None
            },
    {
        proof {
            use_type_invariant(&*self);
        }
        if self.links.contains_key(ld.actor_id.as_str()) {
            return Some(connection);
        }
        let mut taken = LinkRegistry::new();
        std::mem::swap(&mut taken, self);
        let LinkRegistry { mut links, mut connections } = taken;
        connections.insert(ld.actor_id.clone(), connection);
        links.insert(ld.actor_id.clone(), ld);
        proof {
            lemma_link_views_insert(old(self).links@, ld.actor_id@, ld);
            lemma_put_keeps_consistent(old(self)@, ld@, connection);
        }
        *self = LinkRegistry { links, connections };
        None
    }

    /// Deletes the link of `actor_id` together with its connection, which is
    /// handed back to be closed. Where the actor is not linked nothing
    /// changes.
    pub fn del(&mut self, actor_id: &str) -> (closed: Option<C>)
        ensures
            final(self)@ == old(self)@.after_del(actor_id@),
            final(self)@.consistent(),
            closed == if old(self)@.is_linked(actor_id@) {
                Some(old(self)@.connections[actor_id@])
            } else {
                None
            },
    {
        proof {
            use_type_invariant(&*self);
            assert(self@.is_connected(actor_id@) == self@.is_linked(actor_id@));
        }
        let mut taken = LinkRegistry::new();
        std::mem::swap(&mut taken, self);
        let LinkRegistry { mut links, mut connections } = taken;
        links.remove(actor_id);
        let closed = connections.remove(actor_id);
        proof {
            lemma_link_views_remove(old(self).links@, actor_id@);
            lemma_del_keeps_consistent(old(self)@, actor_id@);
        }
        *self = LinkRegistry { links, connections };
        closed
    }

    /// The connection of `actor_id`, which an actor has exactly when it is
    /// linked.
    pub fn connection(&self, actor_id: &str) -> (found: Option<&C>)
        ensures
            match found {
                Some(connection) => self@.is_linked(actor_id@) && *connection
                    == self@.connections[actor_id@],
                None => !self@.is_linked(actor_id@),
            },
            self@.is_connected(actor_id@) == self@.is_linked(actor_id@),
    {
        proof {
            use_type_invariant(self);
        }
        let found = self.connections.get(actor_id);
        assert(self@.is_connected(actor_id@) == self@.is_linked(actor_id@));
        found
    }

    /// The link of `actor_id`.
    pub fn link(&self, actor_id: &str) -> (found: Option<&LinkDefinition>)
        ensures
            match found {
                Some(ld) => self@.is_linked(actor_id@) && ld@ == self@.links[actor_id@],
                None => !self@.is_linked(actor_id@),
            },
    {
        self.links.get(actor_id)
    }

    /// The links, each with the id of its actor.
    pub fn links(&self) -> (list: &Vec<(String, LinkDefinition)>)
        ensures
            distinct_keys(list@),
            link_views(as_map(list@)) == self@.links,
    {
        self.links.entries()
    }

    /// The links as the answer to a query for them: every link once, in no
    /// order that is promised.
    pub fn link_definitions(&self) -> (list: LinkDefinitionList)
        ensures
            forall|i: int|
                0 <= i < list.link_definitions@.len() ==> {
                    &&& self@.is_linked(#[trigger] list.link_definitions@[i].actor_id@)
                    &&& self@.links[list.link_definitions@[i].actor_id@]
                        == list.link_definitions@[i]@
                },
            forall|actor: Seq<char>| #[trigger]
                self@.is_linked(actor) ==> lists(list.link_definitions@, self@.links[actor]),
            forall|i: int, j: int|
                0 <= i < j < list.link_definitions@.len() ==> #[trigger] list.link_definitions@[i].actor_id@
                    != #[trigger] list.link_definitions@[j].actor_id@,
    {
        proof {
            use_type_invariant(self);
        }
        let entries = self.links.entries();
        let mut found: Vec<LinkDefinition> = Vec::new();
        let mut i: usize = 0;
        while i < entries.len()
            invariant
                i <= entries.len(),
                found.len() == i,
                forall|j: int| 0 <= j < i ==> #[trigger] found@[j]@ == entries@[j].1@,
            decreases entries.len() - i,
        {
            found.push(entries[i].1.clone());
            i += 1;
        }
        proof {
            assert forall|j: int| 0 <= j < found@.len() implies {
                &&& self@.is_linked(#[trigger] found@[j].actor_id@)
                &&& self@.links[found@[j].actor_id@] == found@[j]@
                &&& found@[j].actor_id@ == entries@[j].0@
            } by {
                lemma_entry_is_mapped(entries@, j);
                assert(self@.is_linked(entries@[j].0@));
                assert(found@[j]@ == entries@[j].1@);
            }
            assert forall|actor: Seq<char>| #[trigger] self@.is_linked(actor) implies lists(
                found@,
                self@.links[actor],
            ) by {
                let j = choose|j: int| holds_at(entries@, actor, j);
                assert(holds_at(entries@, actor, j));
                lemma_entry_is_mapped(entries@, j);
                assert(found@[j]@ == entries@[j].1@);
                assert(0 <= j < found@.len() && found@[j]@ == self@.links[actor]);
            }
        }
        LinkDefinitionList { link_definitions: found }
    }

    /// Decides whether the provider takes up `inv`: it does for an operation
    /// that it has, called by a linked actor, whose connection it hands out
    /// with the operation. Else it answers with an error response to `inv`,
    /// which for an actor that is not linked says that there is no client for
    /// it.
    pub fn accept(&self, inv: &Invocation) -> (taken: Result<(Operation, &C), InvocationResponse>)
        ensures
            match taken {
                Ok((operation, connection)) => {
                    &&& self@.is_linked(inv@.origin.key())
                    &&& *connection == self@.connections[inv@.origin.key()]
                    &&& acceptance(inv@, true) == Ok::<Operation, ResponseView>(operation)
                },
                Err(response) => Err::<Operation, ResponseView>(response@) == acceptance(
                    inv@,
                    self@.is_linked(inv@.origin.key()),
                ),
            },
    {
        let actor = inv.origin.key();
        let connection = self.connection(actor.as_str());
        match accept(inv, connection.is_some()) {
            Ok(operation) => match connection {
                Some(connection) => Ok((operation, connection)),
                None => unreached(),
            },
            Err(response) => Err(response),
        }
    }
}

/// A put for an actor that is not linked links it, with the definition that
/// was put and the connection that was opened for it.
pub proof fn lemma_put_links<C>(registry: RegistryView<C>, ld: LinkView, connection: C)
    requires
        !registry.is_linked(ld.actor_id),
    ensures
        registry.after_put(ld, connection).is_linked(ld.actor_id),
        registry.after_put(ld, connection).links[ld.actor_id] == ld,
        registry.after_put(ld, connection).is_connected(ld.actor_id),
        registry.after_put(ld, connection).connections[ld.actor_id] == connection,
{
}

/// A delete for an actor that is not linked changes nothing.
pub proof fn lemma_del_of_unlinked_changes_nothing<C>(registry: RegistryView<C>, actor: Seq<char>)
    requires
        registry.consistent(),
        !registry.is_linked(actor),
    ensures
        registry.after_del(actor) == registry,
{
    assert(registry.is_connected(actor) == registry.is_linked(actor));
    assert(registry.links.remove(actor) =~= registry.links);
    assert(registry.connections.remove(actor) =~= registry.connections);
}

/// A put keeps links and connections in step.
pub proof fn lemma_put_keeps_consistent<C>(registry: RegistryView<C>, ld: LinkView, connection: C)
    requires
        registry.consistent(),
    ensures
        registry.after_put(ld, connection).consistent(),
{
    let after = registry.after_put(ld, connection);
    assert forall|other: Seq<char>| #[trigger] after.is_connected(other) == after.is_linked(
        other,
    ) by {
        assert(registry.is_connected(other) == registry.is_linked(other));
    }
    assert forall|other: Seq<char>| #[trigger] after.is_linked(other) implies after.links[other].actor_id
        == other by {
        if other != ld.actor_id {
            assert(registry.is_linked(other));
        } else if registry.is_linked(ld.actor_id) {
            assert(registry.is_linked(other));
        }
    }
}

/// A delete keeps links and connections in step.
pub proof fn lemma_del_keeps_consistent<C>(registry: RegistryView<C>, actor: Seq<char>)
    requires
        registry.consistent(),
    ensures
        registry.after_del(actor).consistent(),
{
    let after = registry.after_del(actor);
    assert forall|other: Seq<char>| #[trigger] after.is_connected(other) == after.is_linked(
        other,
    ) by {
        assert(registry.is_connected(other) == registry.is_linked(other));
    }
    assert forall|other: Seq<char>| #[trigger] after.is_linked(other) implies after.links[other].actor_id
        == other by {
        assert(registry.is_linked(other));
    }
}

/// A put for an actor that is linked already changes nothing: neither the
/// link that is there nor the connection that goes with it.
pub proof fn lemma_second_put_changes_nothing<C>(
    registry: RegistryView<C>,
    first: LinkView,
    opened_first: C,
    second: LinkView,
    opened_second: C,
)
    requires
        first.actor_id == second.actor_id,
    ensures
        registry.after_put(first, opened_first).after_put(second, opened_second)
            == registry.after_put(first, opened_first),
{
}

/// After the link of an actor was deleted, neither the link nor its
/// connection is left, and a call from that actor is answered with the error
/// that the provider has no client for it.
pub proof fn lemma_del_unlinks<C>(
    registry: RegistryView<C>,
    actor: Seq<char>,
    inv: InvocationView,
)
    requires
        inv.origin.key() == actor,
    ensures
        !registry.after_del(actor).is_linked(actor),
        !registry.after_del(actor).is_connected(actor),
        acceptance(inv, registry.after_del(actor).is_linked(inv.origin.key())) == Err::<
            Operation,
            ResponseView,
        >(failure_of(inv.id, no_client())),
{
}

/// A call is answered with the error that the provider has no client for
/// its actor exactly when that actor is not linked.
pub proof fn lemma_no_client_iff_unlinked<C>(registry: RegistryView<C>, inv: InvocationView)
    ensures
        acceptance(inv, registry.is_linked(inv.origin.key())) == Err::<Operation, ResponseView>(
            failure_of(inv.id, no_client()),
        ) <==> !registry.is_linked(inv.origin.key()),
{
    reveal_strlit("No client for this actor. Did the host configure it?");
    reveal_strlit("No such operation");
    assert(no_client().len() != no_such_operation().len());
}

} // verus!
