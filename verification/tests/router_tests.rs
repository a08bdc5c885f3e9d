use rpc_router::demand::{DiagnosticEvent, DiagnosticLog, LoggingDemand};
use rpc_router::doubles::{
    InMemoryActiveWorkers, ScriptedEngine, ScriptedWorkerProxy, StaticShardService,
};
use rpc_router::error::{LocalError, RpcError, RpcErrorKind, WorkerProxyError};
use rpc_router::model::{AccountId, CallingConvention, IdempotencyKey, WitValue, WorkerId};
use rpc_router::rpc::{
    create_services, DirectWorkerInvocationRpc, RecoveryCell, RemoteInvocationRpc, RpcMock,
};

fn wid(component: &str, name: &str) -> WorkerId {
    WorkerId {
        component_id: rpc_router::model::ComponentId {
            value: component.to_string(),
        },
        worker_name: name.to_string(),
    }
}

fn acct() -> AccountId {
    AccountId {
        value: "account-1".to_string(),
    }
}

fn local_router(
    owned: Vec<WorkerId>,
    cached: Vec<WorkerId>,
    engine: ScriptedEngine,
) -> DirectWorkerInvocationRpc<
    StaticShardService,
    InMemoryActiveWorkers,
    ScriptedEngine,
    ScriptedWorkerProxy,
    u32,
> {
    create_services(
        StaticShardService { owned },
        InMemoryActiveWorkers::new(cached),
        engine,
        ScriptedWorkerProxy::new(vec![], vec![]),
        7u32,
    )
}

fn remote_router(
    proxy: ScriptedWorkerProxy,
) -> DirectWorkerInvocationRpc<
    StaticShardService,
    InMemoryActiveWorkers,
    ScriptedEngine,
    ScriptedWorkerProxy,
    u32,
> {
    create_services(
        StaticShardService { owned: vec![] },
        InMemoryActiveWorkers::new(vec![]),
        ScriptedEngine::new(vec![], vec![]),
        proxy,
        7u32,
    )
}

#[test]
fn local_hit_returns_value_and_one_demand_pair() {
    let w1 = wid("c1", "w1");
    let engine = ScriptedEngine::new(vec![Ok(vec![WitValue::U64(3)])], vec![]);
    let mut router = local_router(vec![w1.clone()], vec![w1.clone()], engine);

    let result = router.invoke_and_await(
        &w1,
        None,
        "add".to_string(),
        vec![WitValue::U64(1), WitValue::U64(2)],
        &acct(),
    );

    assert_eq!(result, Ok(WitValue::Tuple(vec![WitValue::U64(3)])));
    assert_eq!(
        router.events.entries,
        vec![
            DiagnosticEvent::Opened {
                worker_id: w1.clone()
            },
            DiagnosticEvent::Dispatched {
                worker_id: w1.clone(),
                local: true
            },
            DiagnosticEvent::Completed {
                worker_id: w1.clone(),
                error: None
            },
            DiagnosticEvent::Closed { worker_id: w1 },
        ]
    );
    // The handle was already cached: nothing was created.
    assert!(router.active_workers.creations.is_empty());
    // Exactly one execution reached the engine, with the call intact.
    assert_eq!(router.engine.calls.len(), 1);
    assert_eq!(router.engine.calls[0].function_name, "add");
    assert_eq!(
        router.engine.calls[0].function_params,
        vec![WitValue::U64(1), WitValue::U64(2)]
    );
    assert_eq!(
        router.engine.calls[0].calling_convention,
        CallingConvention::Component
    );
    assert!(router.engine.calls[0].awaits_response);
}

#[test]
fn local_miss_creates_exactly_once_across_two_calls() {
    let w1 = wid("c1", "w1");
    let engine = ScriptedEngine::new(vec![], vec![Ok(()), Ok(())]);
    let mut router = local_router(vec![w1.clone()], vec![], engine);

    let first = router.invoke(&w1, None, "init".to_string(), vec![], &acct());
    let second = router.invoke(&w1, None, "init".to_string(), vec![], &acct());

    assert_eq!(first, Ok(()));
    assert_eq!(second, Ok(()));
    assert_eq!(router.active_workers.creations, vec![w1]);
    assert_eq!(router.engine.calls.len(), 2);
}

#[test]
fn remote_delegate_forwards_key_unchanged_and_maps_not_found() {
    let w2 = wid("c1", "w2");
    let proxy = ScriptedWorkerProxy::new(
        vec![Err(WorkerProxyError::NotFound("worker w2 is nowhere".to_string()))],
        vec![],
    );
    let mut router = remote_router(proxy);

    let k = IdempotencyKey {
        value: "key-17".to_string(),
    };
    let result = router.invoke_and_await(&w2, Some(k), "get".to_string(), vec![], &acct());

    assert_eq!(
        result,
        Err(RpcError::NotFound {
            details: "worker w2 is nowhere".to_string()
        })
    );
    assert_eq!(router.remote_rpc.worker_proxy.requests.len(), 1);
    let request = &router.remote_rpc.worker_proxy.requests[0];
    assert_eq!(
        request.idempotency_key,
        Some(IdempotencyKey {
            value: "key-17".to_string()
        })
    );
    assert_eq!(request.worker_id, w2);
    assert_eq!(request.function_name, "get");
    assert!(request.awaits_response);
    // Nothing local was touched.
    assert!(router.engine.calls.is_empty());
    assert!(router.active_workers.creations.is_empty());
}

#[test]
fn proxy_unauthorized_becomes_denied() {
    let w2 = wid("c1", "w2");
    let proxy = ScriptedWorkerProxy::new(
        vec![Err(WorkerProxyError::Unauthorized("bad token".to_string()))],
        vec![],
    );
    let mut router = remote_router(proxy);

    let result = router.invoke_and_await(&w2, None, "get".to_string(), vec![], &acct());

    assert_eq!(
        result,
        Err(RpcError::Denied {
            details: "bad token".to_string()
        })
    );
}

#[test]
fn locality_is_transparent_for_equivalent_outcomes() {
    let w = wid("c1", "w");

    let engine = ScriptedEngine::new(
        vec![Ok(vec![WitValue::Text("answer".to_string())])],
        vec![],
    );
    let mut local = local_router(vec![w.clone()], vec![w.clone()], engine);
    let local_result =
        local.invoke_and_await(&w, None, "get".to_string(), vec![], &acct());

    let proxy = ScriptedWorkerProxy::new(
        vec![Ok(WitValue::Tuple(vec![WitValue::Text("answer".to_string())]))],
        vec![],
    );
    let mut remote = remote_router(proxy);
    let remote_result =
        remote.invoke_and_await(&w, None, "get".to_string(), vec![], &acct());

    assert_eq!(local_result, remote_result);

    let engine = ScriptedEngine::new(
        vec![Err(LocalError::Other {
            details: "engine fault".to_string(),
        })],
        vec![],
    );
    let mut local = local_router(vec![w.clone()], vec![w.clone()], engine);
    let local_result = local.invoke_and_await(&w, None, "get".to_string(), vec![], &acct());

    let proxy = ScriptedWorkerProxy::new(
        vec![Err(WorkerProxyError::InternalError(LocalError::Other {
            details: "engine fault".to_string(),
        }))],
        vec![],
    );
    let mut remote = remote_router(proxy);
    let remote_result = remote.invoke_and_await(&w, None, "get".to_string(), vec![], &acct());

    assert_eq!(local_result, remote_result);
}

#[test]
fn demand_pair_is_emitted_on_failure_too() {
    let w1 = wid("c1", "w1");
    let mut cache = InMemoryActiveWorkers::new(vec![]);
    cache.spawn_failures = vec![LocalError::InvalidAccount];
    let mut router = create_services(
        StaticShardService {
            owned: vec![w1.clone()],
        },
        cache,
        ScriptedEngine::new(vec![], vec![]),
        ScriptedWorkerProxy::new(vec![], vec![]),
        7u32,
    );

    let result = router.invoke_and_await(&w1, None, "add".to_string(), vec![], &acct());

    assert_eq!(
        result,
        Err(RpcError::Denied {
            details: "Invalid account".to_string()
        })
    );
    assert_eq!(
        router.events.entries,
        vec![
            DiagnosticEvent::Opened {
                worker_id: w1.clone()
            },
            DiagnosticEvent::Dispatched {
                worker_id: w1.clone(),
                local: true
            },
            DiagnosticEvent::Completed {
                worker_id: w1.clone(),
                error: Some(RpcErrorKind::Denied)
            },
            DiagnosticEvent::Closed { worker_id: w1 },
        ]
    );
    assert!(router.engine.calls.is_empty());
}

#[test]
fn generated_keys_are_fresh_and_supplied_keys_pass_through() {
    let w1 = wid("c1", "w1");
    let engine = ScriptedEngine::new(
        vec![Ok(vec![]), Ok(vec![]), Ok(vec![])],
        vec![],
    );
    let mut router = local_router(vec![w1.clone()], vec![w1.clone()], engine);

    router
        .invoke_and_await(&w1, None, "f".to_string(), vec![], &acct())
        .unwrap();
    router
        .invoke_and_await(&w1, None, "f".to_string(), vec![], &acct())
        .unwrap();
    let supplied = IdempotencyKey {
        value: "mine".to_string(),
    };
    router
        .invoke_and_await(&w1, Some(supplied), "f".to_string(), vec![], &acct())
        .unwrap();

    let keys: Vec<&str> = router
        .engine
        .calls
        .iter()
        .map(|c| c.idempotency_key.value.as_str())
        .collect();
    assert_eq!(keys[0], "0");
    assert_eq!(keys[1], "1");
    assert_ne!(keys[0], keys[1]);
    assert_eq!(keys[2], "mine");
}

#[test]
fn recovery_first_attachment_wins() {
    let mut cell: RecoveryCell<u32> = RecoveryCell::empty();
    assert_eq!(cell.try_get(), None);
    cell.attach(1);
    cell.attach(2);
    assert_eq!(cell.try_get(), Some(&1));
    assert_eq!(*cell.get(), 1);
}

#[test]
fn router_recovery_is_attached_by_construction_order() {
    let w1 = wid("c1", "w1");
    let mut router = local_router(
        vec![w1.clone()],
        vec![w1],
        ScriptedEngine::new(vec![], vec![]),
    );
    assert_eq!(router.try_recovery_management(), Some(&7u32));
    assert_eq!(*router.recovery_management(), 7u32);
    router.set_recovery_management(9u32);
    assert_eq!(*router.recovery_management(), 7u32);
}

#[test]
fn explicit_demand_lease_is_symmetric() {
    let w1 = wid("c1", "w1");
    let mut log = DiagnosticLog::new();
    let demand = LoggingDemand::new(w1.clone(), &mut log);
    assert_eq!(
        log.entries,
        vec![DiagnosticEvent::Opened {
            worker_id: w1.clone()
        }]
    );
    demand.release(&mut log);
    assert_eq!(
        log.entries,
        vec![
            DiagnosticEvent::Opened {
                worker_id: w1.clone()
            },
            DiagnosticEvent::Closed { worker_id: w1 },
        ]
    );
}

#[test]
fn router_create_demand_release_demand_pair() {
    let w1 = wid("c1", "w1");
    let mut router = local_router(vec![], vec![], ScriptedEngine::new(vec![], vec![]));
    let demand = router.create_demand(&w1);
    router.release_demand(demand);
    assert_eq!(
        router.events.entries,
        vec![
            DiagnosticEvent::Opened {
                worker_id: w1.clone()
            },
            DiagnosticEvent::Closed { worker_id: w1 },
        ]
    );
}

#[test]
fn rpc_mock_is_inert() {
    let mock = RpcMock::new();
    let default_mock = RpcMock::default();
    assert!(matches!(mock, RpcMock));
    assert!(matches!(default_mock, RpcMock));
}

#[test]
fn remote_path_demand_is_indistinguishable() {
    let w1 = wid("c1", "w1");
    let mut log = DiagnosticLog::new();
    let remote = RemoteInvocationRpc::new(ScriptedWorkerProxy::new(vec![], vec![]));
    let demand = remote.create_demand(&w1, &mut log);
    demand.release(&mut log);
    assert_eq!(
        log.entries,
        vec![
            DiagnosticEvent::Opened {
                worker_id: w1.clone()
            },
            DiagnosticEvent::Closed { worker_id: w1 },
        ]
    );
}

#[test]
fn fire_and_forget_remote_maps_limit_exceeded() {
    let w2 = wid("c1", "w2");
    let proxy = ScriptedWorkerProxy::new(
        vec![],
        vec![Err(WorkerProxyError::LimitExceeded("too many workers".to_string()))],
    );
    let mut router = remote_router(proxy);

    let result = router.invoke(&w2, None, "poke".to_string(), vec![], &acct());

    assert_eq!(
        result,
        Err(RpcError::Denied {
            details: "too many workers".to_string()
        })
    );
    let request = &router.remote_rpc.worker_proxy.requests[0];
    assert!(!request.awaits_response);
    assert!(request.idempotency_key.is_some());
}
