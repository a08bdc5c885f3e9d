use std::collections::HashMap;

use rpc_router::auction::{auction_resource_uri, auction_worker_uri};
use rpc_router::compile::{CompilationService, ComponentCompilationServiceImpl};
use rpc_router::grpc::{
    proto_account_id_string, proto_api_definition_kind_string, proto_component_id_string,
    proto_idempotency_key_string, proto_invocation_context_parent_worker_id_string,
    proto_promise_id_string, proto_worker_id_string, InvocationContext, PromiseId,
    ProtoApiDefinitionKind,
};
use rpc_router::idempotency::{decimal_string, KeyGenerator};
use rpc_router::images::{GolemComponentServiceImage, ShardManagerImage};
use rpc_router::keyvalue::{get_many_outcome, get_outcome};
use rpc_router::model::{AccountId, ComponentId, IdempotencyKey, WorkerId};
use rpc_router::record_data::{deserialize, serialize, SERIALIZATION_VERSION_V1};
use rpc_router::tasks::Task;

fn w1() -> WorkerId {
    WorkerId {
        component_id: ComponentId {
            value: "c1".to_string(),
        },
        worker_name: "w1".to_string(),
    }
}

#[test]
fn decimal_rendering_is_exact() {
    assert_eq!(decimal_string(0), "0");
    assert_eq!(decimal_string(7), "7");
    assert_eq!(decimal_string(42), "42");
    assert_eq!(decimal_string(1234567890), "1234567890");
    assert_eq!(decimal_string(u64::MAX - 1), "18446744073709551614");
}

#[test]
fn fresh_keys_differ_and_count_up() {
    let mut generator = KeyGenerator::new();
    let first = generator.fresh();
    let second = generator.fresh();
    let third = generator.fresh();
    assert_eq!(first.value, "0");
    assert_eq!(second.value, "1");
    assert_eq!(third.value, "2");
    assert_ne!(first.value, second.value);
    assert_ne!(second.value, third.value);
}

#[test]
fn record_framing_round_trips() {
    let framed = serialize(vec![10, 20, 30]);
    assert_eq!(framed, vec![SERIALIZATION_VERSION_V1, 10, 20, 30]);
    assert_eq!(deserialize(&framed), Ok(vec![10, 20, 30]));
}

#[test]
fn record_framing_rejects_unknown_version() {
    let bytes = vec![2u8, 10, 20];
    assert_eq!(
        deserialize(&bytes),
        Err("Unsupported serialization version".to_string())
    );
}

#[test]
fn record_framing_of_empty_payload() {
    let framed = serialize(vec![]);
    assert_eq!(framed, vec![SERIALIZATION_VERSION_V1]);
    assert_eq!(deserialize(&framed), Ok(vec![]));
}

#[test]
fn auction_uris_are_exact() {
    assert_eq!(
        auction_worker_uri(&"comp-9".to_string(), &"123".to_string()),
        "worker://comp-9/auction-123"
    );
    assert_eq!(
        auction_resource_uri(&"comp-9".to_string()),
        "worker://comp-9/auction"
    );
}

#[test]
fn key_value_hits_and_misses() {
    assert_eq!(get_outcome(Ok(vec![1, 2])), Some(vec![1, 2]));
    assert_eq!(get_outcome(Err("Key not found".to_string())), None);
    assert_eq!(
        get_many_outcome(Ok(vec![vec![1], vec![2]])),
        Some(vec![vec![1], vec![2]])
    );
    assert_eq!(get_many_outcome(Err("Key not found".to_string())), None);
}

#[test]
fn compilation_requests_queue_in_order() {
    let mut service = ComponentCompilationServiceImpl::new();
    let id = ComponentId {
        value: "comp-1".to_string(),
    };
    service
        .enqueue_compilation(id, 4)
        .unwrap();
    service
        .enqueue_compilation(
            ComponentId {
                value: "comp-2".to_string(),
            },
            9,
        )
        .unwrap();
    assert_eq!(service.queue.len(), 2);
    assert_eq!(service.queue[0].component.id.value, "comp-1");
    assert_eq!(service.queue[0].component.version, 4);
    assert_eq!(service.queue[1].component.id.value, "comp-2");
    assert_eq!(service.queue[1].component.version, 9);
}

#[test]
fn proto_strings_render_identities() {
    assert_eq!(
        proto_component_id_string(&Some(ComponentId {
            value: "c1".to_string()
        })),
        Some("c1".to_string())
    );
    assert_eq!(proto_component_id_string(&None), None);
    assert_eq!(proto_worker_id_string(&Some(w1())), Some("c1/w1".to_string()));
    assert_eq!(proto_worker_id_string(&None), None);
    assert_eq!(
        proto_idempotency_key_string(&Some(IdempotencyKey {
            value: "k1".to_string()
        })),
        Some("k1".to_string())
    );
    assert_eq!(
        proto_account_id_string(&Some(AccountId {
            value: "a1".to_string()
        })),
        Some("a1".to_string())
    );
    assert_eq!(
        proto_promise_id_string(&Some(PromiseId {
            worker_id: w1(),
            oplog_idx: 42
        })),
        Some("c1/w1/42".to_string())
    );
    assert_eq!(
        proto_invocation_context_parent_worker_id_string(&Some(InvocationContext {
            parent: Some(w1())
        })),
        Some("c1/w1".to_string())
    );
    assert_eq!(
        proto_invocation_context_parent_worker_id_string(&Some(InvocationContext {
            parent: None
        })),
        None
    );
    assert_eq!(proto_invocation_context_parent_worker_id_string(&None), None);
}

#[test]
fn proto_api_definition_kinds_render() {
    assert_eq!(
        proto_api_definition_kind_string(&Some(ProtoApiDefinitionKind::Golem)),
        Some("golem".to_string())
    );
    assert_eq!(
        proto_api_definition_kind_string(&Some(ProtoApiDefinitionKind::OpenAPI)),
        Some("openapi".to_string())
    );
    assert_eq!(proto_api_definition_kind_string(&None), None);
}

#[test]
fn image_descriptions_are_exact() {
    let mut env = HashMap::new();
    env.insert("RUST_LOG".to_string(), "info".to_string());
    let component = GolemComponentServiceImage::new(9090, 8081, env.clone());
    assert_eq!(component.name(), "golemservices/golem-component-service");
    assert_eq!(component.tag(), "latest");
    assert_eq!(component.ready_message(), "server started");
    assert_eq!(component.exposed_ports(), vec![9090, 8081]);
    assert_eq!(component.env_vars.get("RUST_LOG"), Some(&"info".to_string()));

    let shard_manager = ShardManagerImage::new(9020, 9021, env);
    assert_eq!(shard_manager.name(), "golemservices/golem-shard-manager");
    assert_eq!(shard_manager.tag(), "latest");
    assert_eq!(
        shard_manager.ready_message(),
        "Shard Manager is fully operational"
    );
    assert_eq!(shard_manager.exposed_ports(), vec![9020, 9021]);
}

#[test]
fn tasks_compare_and_clone() {
    let task = Task {
        name: "write the report".to_string(),
        description: Some("by noon".to_string()),
    };
    let copy = task.clone();
    assert_eq!(task, copy);
    let bare = Task {
        name: "write the report".to_string(),
        description: None,
    };
    assert_ne!(task, bare);
}
