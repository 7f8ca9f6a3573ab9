use duihua_background_worker::message::StoredResponse;
use duihua_background_worker::store::{
    connect_from_env, is_retryable_client_error, is_retryable_rpc_status, is_retryable_store_error,
    load_result, map_client_error, Cause, ClientError, Code, ConnectError, Status, StoreError,
    StoreHandle, StoreRequest,
};
use duihua_background_worker::store::{ClaimBackgroundJobsRequest, DEFAULT_TTL_SECONDS};
use tonic::transport::Endpoint;

fn status(code: Code, message: &str) -> Status {
    Status {
        code,
        message: message.to_string(),
    }
}

fn record() -> StoredResponse {
    StoredResponse {
        upstream: "http://model".to_string(),
        response: "{\"status\":\"completed\"}".to_string(),
        input: "[]".to_string(),
        pending_upstream_request: Some("{}".to_string()),
        upstream_authorization: None,
        enqueued_at: None,
    }
}

#[test]
fn unavailable_rpc_errors_are_retryable() {
    let err = map_client_error(ClientError::Rpc(status(Code::Unavailable, "store down")));
    assert!(is_retryable_store_error(&err));
}

#[test]
fn not_found_errors_are_not_retryable() {
    let err = map_client_error(ClientError::NotFound("resp_1".to_string()));
    assert!(!is_retryable_store_error(&err));
}

#[test]
fn serialization_errors_are_not_retryable() {
    let err = map_client_error(ClientError::Serialization("invalid record".to_string()));
    assert!(!is_retryable_store_error(&err));
}

#[test]
fn six_codes_are_retryable() {
    for code in [
        Code::Unavailable,
        Code::DeadlineExceeded,
        Code::ResourceExhausted,
        Code::Aborted,
        Code::Internal,
        Code::Unknown,
    ] {
        assert!(is_retryable_rpc_status(code));
    }
    for code in [
        Code::Success,
        Code::Cancelled,
        Code::InvalidArgument,
        Code::NotFound,
        Code::AlreadyExists,
        Code::PermissionDenied,
        Code::FailedPrecondition,
        Code::OutOfRange,
        Code::Unimplemented,
        Code::DataLoss,
        Code::Unauthenticated,
    ] {
        assert!(!is_retryable_rpc_status(code));
    }
}

#[test]
fn transport_is_retryable_and_configuration_is_not() {
    assert!(is_retryable_client_error(&ClientError::Transport(
        "reset".to_string()
    )));
    assert!(!is_retryable_client_error(&ClientError::Configuration(
        "no endpoint".to_string()
    )));
}

#[test]
fn first_known_cause_of_a_chain_decides() {
    let other = || Cause::Other("context".to_string());
    let retryable = || Cause::Status(status(Code::Internal, "oops"));
    let hopeless = || Cause::Client(ClientError::NotFound("resp_1".to_string()));

    assert!(!is_retryable_store_error(&StoreError::Other(vec![])));
    assert!(!is_retryable_store_error(&StoreError::Other(vec![other()])));
    assert!(is_retryable_store_error(&StoreError::Other(vec![
        other(),
        retryable(),
        hopeless()
    ])));
    assert!(!is_retryable_store_error(&StoreError::Other(vec![
        other(),
        other(),
        hopeless(),
        retryable()
    ])));
}

#[test]
fn missing_records_load_as_none() {
    assert_eq!(load_result(Ok(record())), Ok(Some(record())));
    assert_eq!(
        load_result(Err(ClientError::NotFound("resp_1".to_string()))),
        Ok(None)
    );
    assert_eq!(
        load_result(Err(ClientError::Rpc(status(Code::NotFound, "gone")))),
        Ok(None)
    );
    assert_eq!(
        load_result(Err(ClientError::Rpc(status(Code::Internal, "oops")))),
        Err(StoreError::Client(ClientError::Rpc(status(
            Code::Internal,
            "oops"
        ))))
    );
    assert_eq!(
        load_result(Err(ClientError::Transport("reset".to_string()))),
        Err(StoreError::Client(ClientError::Transport(
            "reset".to_string()
        )))
    );
}

#[test]
fn connects_to_the_default_store() {
    let handle = connect_from_env(None, None).unwrap();
    assert_eq!(
        handle.endpoint.uri().to_string(),
        "http://responses-api-store:50051/"
    );
    assert_eq!(handle.ttl_seconds, 86_400);
    assert_eq!(handle.ttl_seconds, DEFAULT_TTL_SECONDS);
}

#[test]
fn connects_to_the_named_store() {
    let handle = connect_from_env(Some("http://127.0.0.1:50051"), Some("60")).unwrap();
    assert_eq!(handle.endpoint.uri().to_string(), "http://127.0.0.1:50051/");
    assert_eq!(handle.ttl_seconds, 60);
    let handle = connect_from_env(Some("http://127.0.0.1:50051"), Some("a day")).unwrap();
    assert_eq!(handle.ttl_seconds, 86_400);
}

#[test]
fn refuses_what_is_no_endpoint() {
    assert!(matches!(
        connect_from_env(Some("no endpoint at all"), None),
        Err(ConnectError::InvalidEndpoint(_))
    ));
    assert!(matches!(
        StoreHandle::from_endpoint(Endpoint::from_shared("no endpoint".to_string()), None),
        Err(ConnectError::InvalidEndpoint(_))
    ));
}

#[test]
fn requests_carry_what_was_asked_for() {
    let handle = connect_from_env(None, Some("7")).unwrap();
    assert_eq!(
        handle.store("resp_1", &record()),
        StoreRequest::StoreResponse {
            response_id: "resp_1".to_string(),
            response: record(),
            ttl_seconds: Some(7),
        }
    );
    assert_eq!(
        handle.load("resp_1"),
        StoreRequest::GetResponse {
            response_id: "resp_1".to_string(),
            switch: false,
        }
    );
    assert_eq!(
        handle.acknowledge_background_job("group", "1-0"),
        StoreRequest::AcknowledgeBackgroundJob {
            consumer_group: "group".to_string(),
            stream_id: "1-0".to_string(),
        }
    );
    assert_eq!(
        handle.ensure_consumer_group("group", "0"),
        StoreRequest::EnsureConsumerGroup {
            consumer_group: "group".to_string(),
            start_id: "0".to_string(),
        }
    );
    let claim = || ClaimBackgroundJobsRequest {
        consumer_group: "group".to_string(),
        consumer_name: "pod-1".to_string(),
        count: 1,
        block_ms: 0,
        autoclaim_min_idle_ms: 5,
    };
    assert_eq!(
        handle.claim_background_jobs(claim()),
        StoreRequest::ClaimBackgroundJobs(claim())
    );
}
