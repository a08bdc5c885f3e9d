use rpc_router::error::{
    rpc_error_from_local, rpc_error_from_proxy, rpc_error_from_status,
    rpc_error_from_status_message, rpc_error_from_transport, rpc_error_from_transport_message,
    LocalError, RpcError, WorkerProxyError,
};
use rpc_router::model::{ComponentId, WorkerId};

fn w1() -> WorkerId {
    WorkerId {
        component_id: ComponentId {
            value: "c1".to_string(),
        },
        worker_name: "w1".to_string(),
    }
}

#[test]
fn local_worker_already_exists_is_denied() {
    let e = rpc_error_from_local(LocalError::WorkerAlreadyExists { worker_id: w1() });
    assert_eq!(
        e,
        RpcError::Denied {
            details: "Worker c1/w1 already exists".to_string()
        }
    );
}

#[test]
fn local_worker_not_found_is_not_found() {
    let e = rpc_error_from_local(LocalError::WorkerNotFound { worker_id: w1() });
    assert_eq!(
        e,
        RpcError::NotFound {
            details: "Worker c1/w1 not found".to_string()
        }
    );
}

#[test]
fn local_invalid_account_is_denied() {
    let e = rpc_error_from_local(LocalError::InvalidAccount);
    assert_eq!(
        e,
        RpcError::Denied {
            details: "Invalid account".to_string()
        }
    );
}

#[test]
fn local_other_is_remote_internal() {
    let e = rpc_error_from_local(LocalError::Other {
        details: "oplog unavailable".to_string(),
    });
    assert_eq!(
        e,
        RpcError::RemoteInternalError {
            details: "oplog unavailable".to_string()
        }
    );
}

#[test]
fn proxy_bad_request_joins_lines_into_protocol_error() {
    let e = rpc_error_from_proxy(WorkerProxyError::BadRequest(vec![
        "missing component".to_string(),
        "missing name".to_string(),
    ]));
    assert_eq!(
        e,
        RpcError::ProtocolError {
            details: "missing component, missing name".to_string()
        }
    );
}

#[test]
fn proxy_bad_request_with_no_lines_is_empty_protocol_error() {
    let e = rpc_error_from_proxy(WorkerProxyError::BadRequest(vec![]));
    assert_eq!(
        e,
        RpcError::ProtocolError {
            details: "".to_string()
        }
    );
}

#[test]
fn proxy_unauthorized_limit_and_exists_are_denied() {
    assert_eq!(
        rpc_error_from_proxy(WorkerProxyError::Unauthorized("bad token".to_string())),
        RpcError::Denied {
            details: "bad token".to_string()
        }
    );
    assert_eq!(
        rpc_error_from_proxy(WorkerProxyError::LimitExceeded("too many workers".to_string())),
        RpcError::Denied {
            details: "too many workers".to_string()
        }
    );
    assert_eq!(
        rpc_error_from_proxy(WorkerProxyError::AlreadyExists("w1".to_string())),
        RpcError::Denied {
            details: "w1".to_string()
        }
    );
}

#[test]
fn proxy_not_found_is_not_found() {
    assert_eq!(
        rpc_error_from_proxy(WorkerProxyError::NotFound("no such worker".to_string())),
        RpcError::NotFound {
            details: "no such worker".to_string()
        }
    );
}

#[test]
fn proxy_internal_error_is_mapped_recursively() {
    assert_eq!(
        rpc_error_from_proxy(WorkerProxyError::InternalError(LocalError::WorkerNotFound {
            worker_id: w1()
        })),
        RpcError::NotFound {
            details: "Worker c1/w1 not found".to_string()
        }
    );
    assert_eq!(
        rpc_error_from_proxy(WorkerProxyError::InternalError(LocalError::Other {
            details: "disk full".to_string()
        })),
        RpcError::RemoteInternalError {
            details: "disk full".to_string()
        }
    );
}

#[test]
fn mapping_is_deterministic_across_repeated_runs() {
    for _ in 0..3 {
        assert_eq!(
            rpc_error_from_local(LocalError::InvalidAccount),
            RpcError::Denied {
                details: "Invalid account".to_string()
            }
        );
        assert_eq!(
            rpc_error_from_proxy(WorkerProxyError::NotFound("gone".to_string())),
            RpcError::NotFound {
                details: "gone".to_string()
            }
        );
    }
}

#[test]
fn transport_and_status_messages_get_their_prefixes() {
    assert_eq!(
        rpc_error_from_transport_message("connection refused".to_string()),
        RpcError::ProtocolError {
            details: "gRPC Transport error: connection refused".to_string()
        }
    );
    assert_eq!(
        rpc_error_from_status_message("status: Internal".to_string()),
        RpcError::ProtocolError {
            details: "gRPC error: status: Internal".to_string()
        }
    );
}

#[test]
fn tonic_transport_error_maps_to_protocol_error() {
    let transport_error = tonic::transport::Endpoint::from_shared("\\no scheme").unwrap_err();
    let e = rpc_error_from_transport(&transport_error);
    assert_eq!(
        e,
        RpcError::ProtocolError {
            details: "gRPC Transport error: invalid URI".to_string()
        }
    );
}

#[test]
fn tonic_status_maps_to_protocol_error_with_its_rendering() {
    let status = tonic::Status::new(tonic::Code::Unavailable, "node is down");
    let e = rpc_error_from_status(&status);
    match e {
        RpcError::ProtocolError { details } => {
            assert!(details.starts_with("gRPC error: "));
            assert!(details.contains("node is down"));
            assert!(details.contains("Unavailable"));
        }
        other => panic!("expected a protocol error, got {:?}", other),
    }
}

#[test]
fn messages_carry_the_kind_prefix() {
    assert_eq!(
        RpcError::ProtocolError {
            details: "x".to_string()
        }
        .to_message_string(),
        "Protocol error: x"
    );
    assert_eq!(
        RpcError::Denied {
            details: "x".to_string()
        }
        .to_message_string(),
        "Denied: x"
    );
    assert_eq!(
        RpcError::NotFound {
            details: "x".to_string()
        }
        .to_message_string(),
        "Not found: x"
    );
    assert_eq!(
        RpcError::RemoteInternalError {
            details: "x".to_string()
        }
        .to_message_string(),
        "Remote internal error: x"
    );
}
