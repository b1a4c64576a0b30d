use relay_pipeline::error::UserError;

#[test]
fn connection_error_maps_to_unavailable() {
    let e = UserError::ServiceConnectionError;
    assert_eq!(e.status_code(), 503);
    assert_eq!(
        e.message(),
        "At least one of the required services is down\nPlease standby\n"
    );
}

#[test]
fn internal_error_maps_to_server_error() {
    let e = UserError::ServiceInternalError;
    assert_eq!(e.status_code(), 500);
    assert_eq!(
        e.message(),
        "An error inside the facade service occured\nPlease standby\n"
    );
}

#[test]
fn grpc_error_carries_remote_message() {
    let e = UserError::GrpcError("deadline exceeded".to_string());
    assert_eq!(e.status_code(), 500);
    assert_eq!(
        e.message(),
        "A grpc error occured: deadline exceeded\nPlease standby\n"
    );
}

#[test]
fn kafka_error_hides_broker_text() {
    let e = UserError::KafkaError("Message production error".to_string());
    assert_eq!(e.status_code(), 500);
    assert_eq!(e.message(), "A kafka error occured\nPlease standby\n");
}

#[test]
fn error_response_pairs_status_and_body() {
    let r = UserError::ServiceConnectionError.error_response();
    assert_eq!(r.status, 503);
    assert!(r.body.ends_with("\nPlease standby\n"));
    let r = UserError::GrpcError("x".to_string()).error_response();
    assert_eq!(r.status, 500);
    assert_eq!(r.body, "A grpc error occured: x\nPlease standby\n");
}
