use lattice_rpc::dispatch::{
    accept, operation_named, reply_to, Exchange, KvRequest, KvResponse, Operation, Progress,
};
use lattice_rpc::entity::WasmCloudEntity;
use lattice_rpc::invocation::Invocation;
use lattice_rpc::keyvalue::{
    AddArgs, AddResponse, ClearArgs, DelArgs, DelResponse, GetArgs, GetResponse, KeyExistsArgs,
    ListItemDeleteArgs, ListRangeResponse, ListResponse, PushArgs, RangeArgs, SetAddArgs, SetArgs,
    SetIntersectionArgs, SetOperationResponse, SetQueryArgs, SetQueryResponse, SetRemoveArgs,
    SetResponse, SetUnionArgs,
};
use lattice_rpc::store::{copy_texts, StoreCommand, StoreReply};
use lattice_rpc::token::HostKey;
use wascap::prelude::KeyPair;

fn k() -> String {
    "k".to_string()
}

fn v() -> String {
    "v".to_string()
}

fn finished(progress: Progress) -> KvResponse {
    match progress {
        Progress::Finish(response) => response,
        other => panic!("not finished: {:?}", other),
    }
}

fn failed(progress: Progress) -> String {
    match progress {
        Progress::Fail(reason) => reason,
        other => panic!("not failed: {:?}", other),
    }
}

fn call_of(operation: &str) -> Invocation {
    Invocation::new(
        &HostKey::from_seed(&KeyPair::new_server().seed().unwrap()).unwrap(),
        WasmCloudEntity::actor("MACTOR"),
        WasmCloudEntity::capability("VPROV", "wasmcloud:keyvalue", "default"),
        operation,
        vec![],
    )
    .unwrap()
}

#[test]
fn every_operation_is_found_by_its_name() {
    let all = [
        (Operation::Add, "Add"),
        (Operation::Get, "Get"),
        (Operation::SetValue, "Set"),
        (Operation::Del, "Del"),
        (Operation::Clear, "Clear"),
        (Operation::Range, "Range"),
        (Operation::Push, "Push"),
        (Operation::ListItemDelete, "ListItemDelete"),
        (Operation::SetAdd, "SetAdd"),
        (Operation::SetRemove, "SetRemove"),
        (Operation::SetUnion, "SetUnion"),
        (Operation::SetIntersection, "SetIntersection"),
        (Operation::SetQuery, "SetQuery"),
        (Operation::KeyExists, "KeyExists"),
    ];
    for (operation, name) in all {
        assert_eq!(operation_named(name), Some(operation));
        assert_eq!(operation.as_name(), name);
    }
}

#[test]
fn other_names_are_no_operation() {
    assert_eq!(operation_named(""), None);
    assert_eq!(operation_named("get"), None);
    assert_eq!(operation_named("Get "), None);
    assert_eq!(operation_named("Increment"), None);
    assert_eq!(operation_named("SetIntersect"), None);
}

#[test]
fn unknown_operation_is_answered_with_an_error_that_carries_the_id() {
    let inv = call_of("Frobnicate");
    let response = accept(&inv, true).unwrap_err();
    assert_eq!(response.error, Some("No such operation".to_string()));
    assert_eq!(response.invocation_id, inv.id);
    assert!(response.msg.is_empty());
}

#[test]
fn call_without_a_connection_is_answered_with_no_client() {
    let inv = call_of("Get");
    let response = accept(&inv, false).unwrap_err();
    assert_eq!(
        response.error,
        Some("No client for this actor. Did the host configure it?".to_string())
    );
    assert_eq!(response.invocation_id, inv.id);
    let unknown = call_of("Frobnicate");
    assert_eq!(
        accept(&unknown, false).unwrap_err().error,
        Some("No client for this actor. Did the host configure it?".to_string())
    );
}

#[test]
fn known_operation_with_a_connection_is_taken_up() {
    assert_eq!(accept(&call_of("Get"), true), Ok(Operation::Get));
    assert_eq!(accept(&call_of("SetIntersection"), true), Ok(Operation::SetIntersection));
}

#[test]
fn reply_to_wraps_payload_or_reason_with_the_id() {
    let inv = call_of("Get");
    let ok = reply_to(&inv, Ok(vec![1, 2]));
    assert_eq!(ok.msg, vec![1, 2]);
    assert_eq!(ok.error, None);
    assert_eq!(ok.invocation_id, inv.id);
    let bad = reply_to(&inv, Err("boom".to_string()));
    assert!(bad.msg.is_empty());
    assert_eq!(bad.error, Some("boom".to_string()));
    assert_eq!(bad.invocation_id, inv.id);
}

#[test]
fn get_of_a_missing_key_is_empty_and_marked_missing() {
    let exchange = Exchange::begin(KvRequest::Get(GetArgs { key: k() }));
    assert_eq!(exchange.command(), StoreCommand::Exists { key: k() });
    let response = finished(exchange.resume(StoreReply::Flag(false)));
    assert_eq!(
        response,
        KvResponse::Get(GetResponse {
            value: String::new(),
            exists: false
        })
    );
}

#[test]
fn get_of_a_held_key_fetches_the_value() {
    let exchange = Exchange::begin(KvRequest::Get(GetArgs { key: k() }));
    let fetching = match exchange.resume(StoreReply::Flag(true)) {
        Progress::Ask(next) => next,
        other => panic!("expected another command: {:?}", other),
    };
    assert_eq!(fetching.command(), StoreCommand::Get { key: k() });
    assert_eq!(fetching.request(), &KvRequest::Get(GetArgs { key: k() }));
    let response = finished(fetching.resume(StoreReply::Text(v())));
    assert_eq!(
        response,
        KvResponse::Get(GetResponse {
            value: v(),
            exists: true
        })
    );
}

#[test]
fn get_whose_fetch_fails_is_a_failure_with_the_words_of_the_store() {
    let exchange = Exchange::begin(KvRequest::Get(GetArgs { key: k() }));
    let fetching = match exchange.resume(StoreReply::Flag(true)) {
        Progress::Ask(next) => next,
        other => panic!("expected another command: {:?}", other),
    };
    assert_eq!(
        failed(fetching.resume(StoreReply::Failed("wrong type".to_string()))),
        "wrong type"
    );
}

#[test]
fn get_whose_fetch_brings_no_text_is_a_failure() {
    let exchange = Exchange::begin(KvRequest::Get(GetArgs { key: k() }));
    let fetching = match exchange.resume(StoreReply::Flag(true)) {
        Progress::Ask(next) => next,
        other => panic!("expected another command: {:?}", other),
    };
    assert_eq!(
        failed(fetching.resume(StoreReply::Integer(3))),
        "Unexpected reply from the store"
    );
}

#[test]
fn get_whose_existence_check_fails_is_a_failure() {
    let exchange = Exchange::begin(KvRequest::Get(GetArgs { key: k() }));
    assert_eq!(
        failed(exchange.resume(StoreReply::Failed("connection refused".to_string()))),
        "connection refused"
    );
}

#[test]
fn add_increments_and_returns_the_sum() {
    let exchange = Exchange::begin(KvRequest::Add(AddArgs { key: k(), value: 5 }));
    assert_eq!(
        exchange.command(),
        StoreCommand::Increment { key: k(), amount: 5 }
    );
    assert_eq!(
        finished(exchange.resume(StoreReply::Integer(12))),
        KvResponse::Add(AddResponse { value: 12 })
    );
}

#[test]
fn set_puts_the_value_and_returns_it() {
    let exchange = Exchange::begin(KvRequest::SetValue(SetArgs {
        key: k(),
        value: v(),
        expires: 30,
    }));
    assert_eq!(exchange.command(), StoreCommand::Put { key: k(), value: v() });
    assert_eq!(
        finished(exchange.resume(StoreReply::Done)),
        KvResponse::SetValue(SetResponse { value: v() })
    );
}

#[test]
fn del_deletes_and_returns_the_key() {
    let exchange = Exchange::begin(KvRequest::Del(DelArgs { key: k() }));
    assert_eq!(exchange.command(), StoreCommand::Delete { key: k() });
    assert_eq!(
        finished(exchange.resume(StoreReply::Done)),
        KvResponse::Del(DelResponse { key: k() })
    );
}

#[test]
fn clear_is_the_same_as_del() {
    let clear = Exchange::begin(KvRequest::Clear(ClearArgs { key: k() }));
    let del = Exchange::begin(KvRequest::Del(DelArgs { key: k() }));
    assert_eq!(clear.command(), del.command());
    assert_eq!(
        finished(clear.resume(StoreReply::Done)),
        finished(del.resume(StoreReply::Done))
    );
}

#[test]
fn range_asks_for_the_items_between_start_and_stop() {
    let exchange = Exchange::begin(KvRequest::Range(RangeArgs {
        key: k(),
        start: 0,
        stop: -1,
    }));
    assert_eq!(
        exchange.command(),
        StoreCommand::ListRange { key: k(), start: 0, stop: -1 }
    );
    assert_eq!(
        finished(exchange.resume(StoreReply::Texts(vec!["a".to_string(), "b".to_string()]))),
        KvResponse::ListRange(ListRangeResponse {
            values: vec!["a".to_string(), "b".to_string()]
        })
    );
}

#[test]
fn push_returns_the_new_length() {
    let exchange = Exchange::begin(KvRequest::Push(PushArgs { key: k(), value: v() }));
    assert_eq!(exchange.command(), StoreCommand::ListPush { key: k(), value: v() });
    assert_eq!(
        finished(exchange.resume(StoreReply::Integer(3))),
        KvResponse::List(ListResponse { new_count: 3 })
    );
}

#[test]
fn list_item_delete_returns_how_many_were_removed() {
    let exchange = Exchange::begin(KvRequest::ListItemDelete(ListItemDeleteArgs {
        key: k(),
        value: v(),
    }));
    assert_eq!(exchange.command(), StoreCommand::ListRemove { key: k(), value: v() });
    assert_eq!(
        finished(exchange.resume(StoreReply::Integer(2))),
        KvResponse::List(ListResponse { new_count: 2 })
    );
}

#[test]
fn set_add_and_set_remove_return_the_count() {
    let add = Exchange::begin(KvRequest::SetAdd(SetAddArgs { key: k(), value: v() }));
    assert_eq!(add.command(), StoreCommand::SetAdd { key: k(), value: v() });
    assert_eq!(
        finished(add.resume(StoreReply::Integer(1))),
        KvResponse::SetOperation(SetOperationResponse { new_count: 1 })
    );
    let remove = Exchange::begin(KvRequest::SetRemove(SetRemoveArgs { key: k(), value: v() }));
    assert_eq!(remove.command(), StoreCommand::SetRemove { key: k(), value: v() });
    assert_eq!(
        finished(remove.resume(StoreReply::Integer(0))),
        KvResponse::SetOperation(SetOperationResponse { new_count: 0 })
    );
}

#[test]
fn set_union_and_intersection_ask_for_what_they_are_named_after() {
    let keys = vec!["a".to_string(), "b".to_string()];
    let union = Exchange::begin(KvRequest::SetUnion(SetUnionArgs { keys: keys.clone() }));
    assert_eq!(union.command(), StoreCommand::SetUnion { keys: keys.clone() });
    assert_eq!(
        finished(union.resume(StoreReply::Texts(vec!["x".to_string()]))),
        KvResponse::SetQuery(SetQueryResponse {
            values: vec!["x".to_string()]
        })
    );
    let intersection = Exchange::begin(KvRequest::SetIntersection(SetIntersectionArgs {
        keys: keys.clone(),
    }));
    assert_eq!(
        intersection.command(),
        StoreCommand::SetIntersection { keys: keys.clone() }
    );
    assert_eq!(
        finished(intersection.resume(StoreReply::Texts(vec![]))),
        KvResponse::SetQuery(SetQueryResponse { values: vec![] })
    );
}

#[test]
fn set_query_asks_for_the_members() {
    let exchange = Exchange::begin(KvRequest::SetQuery(SetQueryArgs { key: k() }));
    assert_eq!(exchange.command(), StoreCommand::SetMembers { key: k() });
    assert_eq!(
        finished(exchange.resume(StoreReply::Texts(vec![v()]))),
        KvResponse::SetQuery(SetQueryResponse { values: vec![v()] })
    );
}

#[test]
fn key_exists_reports_the_flag_with_an_empty_value() {
    let exchange = Exchange::begin(KvRequest::KeyExists(KeyExistsArgs { key: k() }));
    assert_eq!(exchange.command(), StoreCommand::Exists { key: k() });
    assert_eq!(
        finished(exchange.resume(StoreReply::Flag(true))),
        KvResponse::Get(GetResponse {
            value: String::new(),
            exists: true
        })
    );
}

#[test]
fn a_failure_of_the_store_is_passed_on_in_its_own_words() {
    let requests = vec![
        KvRequest::Add(AddArgs { key: k(), value: 1 }),
        KvRequest::SetValue(SetArgs { key: k(), value: v(), expires: 0 }),
        KvRequest::Del(DelArgs { key: k() }),
        KvRequest::Clear(ClearArgs { key: k() }),
        KvRequest::Range(RangeArgs { key: k(), start: 0, stop: 1 }),
        KvRequest::Push(PushArgs { key: k(), value: v() }),
        KvRequest::ListItemDelete(ListItemDeleteArgs { key: k(), value: v() }),
        KvRequest::SetAdd(SetAddArgs { key: k(), value: v() }),
        KvRequest::SetRemove(SetRemoveArgs { key: k(), value: v() }),
        KvRequest::SetUnion(SetUnionArgs { keys: vec![k()] }),
        KvRequest::SetIntersection(SetIntersectionArgs { keys: vec![k()] }),
        KvRequest::SetQuery(SetQueryArgs { key: k() }),
        KvRequest::KeyExists(KeyExistsArgs { key: k() }),
    ];
    for request in requests {
        let exchange = Exchange::begin(request);
        assert_eq!(
            failed(exchange.resume(StoreReply::Failed("store is down".to_string()))),
            "store is down"
        );
    }
}

#[test]
fn a_reply_of_the_wrong_kind_is_a_failure() {
    let add = Exchange::begin(KvRequest::Add(AddArgs { key: k(), value: 1 }));
    assert_eq!(
        failed(add.resume(StoreReply::Text("12".to_string()))),
        "Unexpected reply from the store"
    );
    let del = Exchange::begin(KvRequest::Del(DelArgs { key: k() }));
    assert_eq!(
        failed(del.resume(StoreReply::Integer(1))),
        "Unexpected reply from the store"
    );
    let get = Exchange::begin(KvRequest::Get(GetArgs { key: k() }));
    assert_eq!(
        failed(get.resume(StoreReply::Done)),
        "Unexpected reply from the store"
    );
}

#[test]
fn copy_texts_copies_every_text_in_order() {
    let texts = vec!["a".to_string(), String::new(), "c".to_string()];
    assert_eq!(copy_texts(&texts), texts);
    assert_eq!(copy_texts(&vec![]), Vec::<String>::new());
}
