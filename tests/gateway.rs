use relay_pipeline::error::UserError;
use relay_pipeline::gateway::{
    endpoint, get_messages, port_variable, producer_settings, ConnectPlan, ConnectionState,
    ReadPath, ReadPhase, ReadStep, Service, ServiceClients,
};

#[test]
fn read_body_has_both_sections() {
    assert_eq!(
        get_messages("x : y", "ab"),
        "Message sequence:\nx : y\nLogged messages:\nab\n"
    );
    assert_eq!(get_messages("", ""), "Message sequence:\n\nLogged messages:\n\n");
}

#[test]
fn read_path_asks_both_stores_in_turn() {
    let mut r = ReadPath::new();
    assert!(matches!(r.first_step(), ReadStep::FetchSequence));
    assert!(matches!(r.step(Ok("x".to_string())), ReadStep::FetchLogged));
    match r.step(Ok("a".to_string())) {
        ReadStep::Finish(Ok(body)) => {
            assert_eq!(body, "Message sequence:\nx\nLogged messages:\na\n")
        }
        other => panic!("unexpected {:?}", other),
    }
    assert_eq!(r.phase, ReadPhase::Finished);
}

#[test]
fn read_path_fails_on_first_store_failure() {
    let mut r = ReadPath::new();
    let s = r.step(Err(UserError::ServiceConnectionError));
    assert!(matches!(s, ReadStep::Finish(Err(UserError::ServiceConnectionError))));
    assert_eq!(r.phase, ReadPhase::Finished);
}

#[test]
fn read_path_fails_on_second_store_failure() {
    let mut r = ReadPath::new();
    r.step(Ok("x".to_string()));
    match r.step(Err(UserError::GrpcError("boom".to_string()))) {
        ReadStep::Finish(Err(UserError::GrpcError(m))) => assert_eq!(m, "boom"),
        other => panic!("unexpected {:?}", other),
    }
}

#[test]
fn endpoints_use_configured_port() {
    match endpoint(Service::Logging, Some("8080".to_string())) {
        Ok(u) => assert_eq!(u, "http://nginx-logging-proxy-service:8080"),
        Err(e) => panic!("unexpected {:?}", e),
    }
    match endpoint(Service::Messaging, Some("81".to_string())) {
        Ok(u) => assert_eq!(u, "http://nginx-messages-proxy-service:81"),
        Err(e) => panic!("unexpected {:?}", e),
    }
    assert!(matches!(
        endpoint(Service::Logging, None),
        Err(UserError::ServiceConnectionError)
    ));
    assert_eq!(port_variable(Service::Logging), "NGINX_LOGGING_SERVICE_PORT");
    assert_eq!(port_variable(Service::Messaging), "NGINX_MESSAGES_SERVICE_PORT");
}

#[test]
fn connection_is_made_once_then_cached() {
    let mut c: ConnectionState<u32> = ConnectionState::new();
    assert!(!c.is_connected());
    assert!(matches!(c.handle(), Err(UserError::ServiceInternalError)));
    match c.plan(Service::Logging, Some("1".to_string())) {
        Ok(ConnectPlan::Dial(u)) => assert_eq!(u, "http://nginx-logging-proxy-service:1"),
        other => panic!("unexpected {:?}", other),
    }
    assert!(c.install(Ok(7)).is_ok());
    assert!(c.is_connected());
    assert!(matches!(c.plan(Service::Logging, None), Ok(ConnectPlan::UseCached)));
    assert_eq!(*c.handle().unwrap(), 7);
}

#[test]
fn failed_connection_is_retried_on_next_use() {
    let mut c: ConnectionState<u32> = ConnectionState::new();
    assert!(matches!(
        c.install(Err("refused".to_string())),
        Err(UserError::ServiceConnectionError)
    ));
    assert!(matches!(c, ConnectionState::Failed(ref m) if m == "refused"));
    assert!(matches!(c.plan(Service::Messaging, Some("2".to_string())), Ok(ConnectPlan::Dial(_))));
    assert!(matches!(
        c.plan(Service::Messaging, None),
        Err(UserError::ServiceConnectionError)
    ));
}

#[test]
fn clients_start_unconnected() {
    let c: ServiceClients<u8, u16> = ServiceClients::new();
    assert!(!c.messaging_client.is_connected());
    assert!(!c.logging_client.is_connected());
}

#[test]
fn producer_is_idempotent_and_transactional() {
    let s = producer_settings();
    assert_eq!(
        s,
        vec![
            ("bootstrap.servers".to_string(), "kafka-service:9092".to_string()),
            ("enable.idempotence".to_string(), "true".to_string()),
            ("transactional.id".to_string(), "facade".to_string()),
        ]
    );
}
