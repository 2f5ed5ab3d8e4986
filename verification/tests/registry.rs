use lattice_rpc::dispatch::{reply_to, Exchange, KvRequest, KvResponse, Operation, Progress};
use lattice_rpc::entity::WasmCloudEntity;
use lattice_rpc::invocation::{Invocation, InvocationResponse};
use lattice_rpc::keyvalue::{ClearArgs, DelArgs, GetArgs, GetResponse, SetArgs, SetResponse};
use lattice_rpc::link::LinkDefinition;
use lattice_rpc::registry::{address_in, LinkRegistry, PutOutcome};
use lattice_rpc::store::{StoreCommand, StoreReply};
use lattice_rpc::table::TextMap;
use lattice_rpc::token::HostKey;
use std::cell::RefCell;
use std::collections::HashMap;
use wascap::prelude::KeyPair;

/// A store that lives in memory, for the tests.
#[derive(Debug, PartialEq)]
struct MemoryStore {
    serial: u32,
    texts: RefCell<HashMap<String, String>>,
}

impl MemoryStore {
    fn open(serial: u32) -> MemoryStore {
        MemoryStore {
            serial,
            texts: RefCell::new(HashMap::new()),
        }
    }

    fn carry_out(&self, command: StoreCommand) -> StoreReply {
        let mut texts = self.texts.borrow_mut();
        match command {
            StoreCommand::Put { key, value } => {
                texts.insert(key, value);
                StoreReply::Done
            }
            StoreCommand::Delete { key } => {
                texts.remove(&key);
                StoreReply::Done
            }
            StoreCommand::Exists { key } => StoreReply::Flag(texts.contains_key(&key)),
            StoreCommand::Get { key } => match texts.get(&key) {
                Some(value) => StoreReply::Text(value.clone()),
                None => StoreReply::Failed("nil".to_string()),
            },
            other => StoreReply::Failed(format!("not supported here: {:?}", other)),
        }
    }
}

/// The result of a call, or the response that refused it.
fn dispatch(
    registry: &LinkRegistry<MemoryStore>,
    inv: &Invocation,
    request: KvRequest,
) -> Result<KvResponse, InvocationResponse> {
    let (operation, store) = registry.accept(inv)?;
    assert_eq!(operation.as_name(), inv.operation);
    let mut exchange = Exchange::begin(request);
    loop {
        let reply = store.carry_out(exchange.command());
        match exchange.resume(reply) {
            Progress::Ask(next) => exchange = next,
            Progress::Finish(response) => return Ok(response),
            Progress::Fail(reason) => return Err(reply_to(inv, Err(reason))),
        }
    }
}

fn set(key: &str, value: &str) -> KvRequest {
    KvRequest::SetValue(SetArgs {
        key: key.to_string(),
        value: value.to_string(),
        expires: 0,
    })
}

fn get(key: &str) -> KvRequest {
    KvRequest::Get(GetArgs {
        key: key.to_string(),
    })
}

fn link(actor: &str, url: Option<&str>) -> LinkDefinition {
    let mut values = TextMap::new();
    if let Some(url) = url {
        values.insert("URL".to_string(), url.to_string());
    }
    LinkDefinition::new(actor, "P1", "default", "wasmcloud:keyvalue", values)
}

fn call_from(actor: &str, operation: &str) -> Invocation {
    Invocation::new(
        &HostKey::from_seed(&KeyPair::new_server().seed().unwrap()).unwrap(),
        WasmCloudEntity::actor(actor),
        WasmCloudEntity::capability("P1", "wasmcloud:keyvalue", "default"),
        operation,
        vec![],
    )
    .unwrap()
}

#[test]
fn new_registry_has_no_links() {
    let registry: LinkRegistry<MemoryStore> = LinkRegistry::new();
    assert!(!registry.is_linked("A1"));
    assert!(registry.connection("A1").is_none());
    assert!(registry.link("A1").is_none());
    assert!(registry.links().is_empty());
}

#[test]
fn a_new_link_asks_for_a_connection_to_its_store() {
    let registry: LinkRegistry<MemoryStore> = LinkRegistry::new();
    assert_eq!(
        registry.plan_put(&link("A1", Some("mem://"))),
        PutOutcome::Provision {
            address: "mem://".to_string()
        }
    );
    assert!(!registry.is_linked("A1"));
    assert!(registry.links().is_empty());
}

#[test]
fn put_records_the_link_together_with_its_connection() {
    let mut registry: LinkRegistry<MemoryStore> = LinkRegistry::new();
    assert_eq!(
        registry.put(link("A1", Some("mem://")), MemoryStore::open(1)),
        None
    );
    assert!(registry.is_linked("A1"));
    assert_eq!(registry.connection("A1").unwrap().serial, 1);
    assert_eq!(registry.link("A1").unwrap().provider_id, "P1");
    assert_eq!(registry.links().len(), 1);
}

#[test]
fn link_without_an_address_gets_the_default_one() {
    let registry: LinkRegistry<MemoryStore> = LinkRegistry::new();
    assert_eq!(
        registry.plan_put(&link("A1", None)),
        PutOutcome::Provision {
            address: "redis://0.0.0.0:6379/".to_string()
        }
    );
    assert_eq!(address_in(&TextMap::new()), "redis://0.0.0.0:6379/");
    let mut lower = TextMap::new();
    lower.insert("url".to_string(), "mem://".to_string());
    assert_eq!(address_in(&lower), "redis://0.0.0.0:6379/");
}

#[test]
fn second_put_keeps_the_link_and_the_connection() {
    let mut registry: LinkRegistry<MemoryStore> = LinkRegistry::new();
    registry.put(link("A1", Some("mem://first")), MemoryStore::open(1));

    assert_eq!(
        registry.plan_put(&link("A1", Some("mem://second"))),
        PutOutcome::AlreadyLinked
    );
    assert_eq!(
        registry.put(link("A1", Some("mem://second")), MemoryStore::open(2)),
        Some(MemoryStore::open(2))
    );
    assert_eq!(registry.connection("A1").unwrap().serial, 1);
    assert_eq!(
        registry.link("A1").unwrap().values.get("URL"),
        Some(&"mem://first".to_string())
    );
    assert_eq!(registry.links().len(), 1);
}

#[test]
fn links_and_connections_stay_in_step_through_puts_and_dels() {
    let mut registry: LinkRegistry<MemoryStore> = LinkRegistry::new();
    let actors = ["A1", "A2", "A3", "A4"];
    let in_step = |registry: &LinkRegistry<MemoryStore>| {
        for actor in actors {
            assert_eq!(
                registry.is_linked(actor),
                registry.connection(actor).is_some()
            );
            let refused = registry.accept(&call_from(actor, "Get")).err();
            let no_client = refused.and_then(|r| r.error)
                == Some("No client for this actor. Did the host configure it?".to_string());
            assert_eq!(no_client, !registry.is_linked(actor));
        }
    };
    in_step(&registry);
    registry.put(link("A1", None), MemoryStore::open(1));
    in_step(&registry);
    registry.del("A2");
    in_step(&registry);
    registry.put(link("A2", None), MemoryStore::open(2));
    registry.put(link("A1", None), MemoryStore::open(3));
    in_step(&registry);
    registry.del("A1");
    registry.del("A1");
    in_step(&registry);
    registry.put(link("A3", None), MemoryStore::open(4));
    registry.del("A2");
    in_step(&registry);
    assert!(registry.is_linked("A3"));
    assert!(!registry.is_linked("A1"));
    assert!(!registry.is_linked("A2"));
}

#[test]
fn del_removes_link_and_connection() {
    let mut registry: LinkRegistry<MemoryStore> = LinkRegistry::new();
    registry.put(link("A1", Some("mem://")), MemoryStore::open(1));
    registry.put(link("A2", Some("mem://")), MemoryStore::open(2));

    assert_eq!(registry.del("A1"), Some(MemoryStore::open(1)));
    assert!(!registry.is_linked("A1"));
    assert!(registry.connection("A1").is_none());
    assert!(registry.is_linked("A2"));
    assert_eq!(registry.connection("A2").unwrap().serial, 2);

    let response = registry.accept(&call_from("A1", "Get")).unwrap_err();
    assert_eq!(
        response.error,
        Some("No client for this actor. Did the host configure it?".to_string())
    );
}

#[test]
fn del_of_an_unlinked_actor_changes_nothing() {
    let mut registry: LinkRegistry<MemoryStore> = LinkRegistry::new();
    registry.put(link("A1", Some("mem://")), MemoryStore::open(1));
    assert_eq!(registry.del("A9"), None);
    assert!(registry.is_linked("A1"));
    assert_eq!(registry.connection("A1").unwrap().serial, 1);
}

#[test]
fn an_actor_can_be_linked_again_after_del() {
    let mut registry: LinkRegistry<MemoryStore> = LinkRegistry::new();
    registry.put(link("A1", Some("mem://one")), MemoryStore::open(1));
    registry.del("A1");
    assert_eq!(
        registry.plan_put(&link("A1", Some("mem://two"))),
        PutOutcome::Provision {
            address: "mem://two".to_string()
        }
    );
    assert_eq!(
        registry.put(link("A1", Some("mem://two")), MemoryStore::open(2)),
        None
    );
    assert_eq!(registry.connection("A1").unwrap().serial, 2);
    assert_eq!(
        registry.link("A1").unwrap().values.get("URL"),
        Some(&"mem://two".to_string())
    );
}

#[test]
fn accept_hands_out_operation_and_connection() {
    let mut registry: LinkRegistry<MemoryStore> = LinkRegistry::new();
    registry.put(link("A1", Some("mem://")), MemoryStore::open(7));
    let (operation, connection) = registry.accept(&call_from("A1", "Set")).unwrap();
    assert_eq!(operation, Operation::SetValue);
    assert_eq!(connection.serial, 7);
}

#[test]
fn accept_answers_an_unknown_operation_with_the_id_of_the_call() {
    let mut registry: LinkRegistry<MemoryStore> = LinkRegistry::new();
    registry.put(link("A1", Some("mem://")), MemoryStore::open(7));
    let inv = call_from("A1", "Frobnicate");
    let response = registry.accept(&inv).unwrap_err();
    assert_eq!(response.error, Some("No such operation".to_string()));
    assert_eq!(response.invocation_id, inv.id);
}

#[test]
fn linked_actor_sets_and_gets_through_its_connection() {
    let mut registry: LinkRegistry<MemoryStore> = LinkRegistry::new();
    assert_eq!(
        registry.plan_put(&link("A1", Some("mem://"))),
        PutOutcome::Provision {
            address: "mem://".to_string()
        }
    );
    assert_eq!(
        registry.put(link("A1", Some("mem://")), MemoryStore::open(1)),
        None
    );

    assert_eq!(
        dispatch(&registry, &call_from("A1", "Set"), set("k", "v")),
        Ok(KvResponse::SetValue(SetResponse {
            value: "v".to_string()
        }))
    );
    assert_eq!(
        dispatch(&registry, &call_from("A1", "Get"), get("k")),
        Ok(KvResponse::Get(GetResponse {
            value: "v".to_string(),
            exists: true
        }))
    );
}

#[test]
fn get_of_a_key_that_was_never_set_is_empty_and_no_error() {
    let mut registry: LinkRegistry<MemoryStore> = LinkRegistry::new();
    registry.put(link("A1", Some("mem://")), MemoryStore::open(1));
    assert_eq!(
        dispatch(&registry, &call_from("A1", "Get"), get("nothing")),
        Ok(KvResponse::Get(GetResponse {
            value: String::new(),
            exists: false
        }))
    );
}

#[test]
fn clear_and_del_leave_the_store_in_the_same_state() {
    let mut registry: LinkRegistry<MemoryStore> = LinkRegistry::new();
    for actor in ["A1", "A2"] {
        registry.put(link(actor, Some("mem://")), MemoryStore::open(1));
        dispatch(&registry, &call_from(actor, "Set"), set("k", "v")).unwrap();
        dispatch(&registry, &call_from(actor, "Set"), set("other", "w")).unwrap();
    }
    let cleared = dispatch(
        &registry,
        &call_from("A1", "Clear"),
        KvRequest::Clear(ClearArgs {
            key: "k".to_string(),
        }),
    );
    let deleted = dispatch(
        &registry,
        &call_from("A2", "Del"),
        KvRequest::Del(DelArgs {
            key: "k".to_string(),
        }),
    );
    assert_eq!(cleared, deleted);
    assert_eq!(
        registry.connection("A1").unwrap().texts,
        registry.connection("A2").unwrap().texts
    );
    assert_eq!(
        dispatch(&registry, &call_from("A1", "Get"), get("k")),
        Ok(KvResponse::Get(GetResponse {
            value: String::new(),
            exists: false
        }))
    );
}

#[test]
fn calls_of_actors_do_not_see_each_others_stores() {
    let mut registry: LinkRegistry<MemoryStore> = LinkRegistry::new();
    for (serial, actor) in ["A1", "A2"].into_iter().enumerate() {
        registry.put(link(actor, Some("mem://")), MemoryStore::open(serial as u32));
    }
    dispatch(&registry, &call_from("A1", "Set"), set("k", "v")).unwrap();
    assert_eq!(
        dispatch(&registry, &call_from("A2", "Get"), get("k")),
        Ok(KvResponse::Get(GetResponse {
            value: String::new(),
            exists: false
        }))
    );
}

#[test]
fn call_after_del_is_refused_with_the_id_of_the_call() {
    let mut registry: LinkRegistry<MemoryStore> = LinkRegistry::new();
    registry.put(link("A1", Some("mem://")), MemoryStore::open(1));
    dispatch(&registry, &call_from("A1", "Set"), set("k", "v")).unwrap();
    registry.del("A1");
    let inv = call_from("A1", "Get");
    let refused = dispatch(&registry, &inv, get("k")).unwrap_err();
    assert_eq!(
        refused.error,
        Some("No client for this actor. Did the host configure it?".to_string())
    );
    assert_eq!(refused.invocation_id, inv.id);
}

#[test]
fn link_definitions_lists_every_link_once() {
    let mut registry: LinkRegistry<MemoryStore> = LinkRegistry::new();
    assert!(registry.link_definitions().link_definitions.is_empty());
    registry.put(link("A1", Some("mem://one")), MemoryStore::open(1));
    registry.put(link("A2", Some("mem://two")), MemoryStore::open(2));
    registry.put(link("A1", Some("mem://again")), MemoryStore::open(3));
    registry.put(link("A3", None), MemoryStore::open(4));
    registry.del("A2");
    let list = registry.link_definitions().link_definitions;
    let mut actors: Vec<&str> = list.iter().map(|ld| ld.actor_id.as_str()).collect();
    actors.sort();
    assert_eq!(actors, vec!["A1", "A3"]);
    let first = list.iter().find(|ld| ld.actor_id == "A1").unwrap();
    assert_eq!(first.values.get("URL"), Some(&"mem://one".to_string()));
    assert_eq!(first.provider_id, "P1");
    assert_eq!(first.link_name, "default");
    assert_eq!(first.contract_id, "wasmcloud:keyvalue");
}
