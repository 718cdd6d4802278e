use webcontr::service::{DefinitionError, Param, Rpc, Service, ServiceRequest, ServiceResponse};

fn named(name: &str, ty: &str) -> Param {
    Param::Named { name: name.to_string(), ty: ty.to_string() }
}

fn op(name: &str) -> Rpc {
    Rpc::parse(name.to_string(), &vec![], Some("bool".to_string())).unwrap()
}

#[test]
fn operation_keeps_named_parameters() {
    let rpc = Rpc::parse(
        "hello".to_string(),
        &vec![named("a", "String"), named("b", "String")],
        Some("String".to_string()),
    )
    .unwrap();
    assert_eq!(rpc.ident, "hello");
    assert_eq!(
        rpc.args,
        vec![
            ("a".to_string(), "String".to_string()),
            ("b".to_string(), "String".to_string())
        ]
    );
    assert_eq!(rpc.output, Some("String".to_string()));
}

#[test]
fn receiver_is_rejected() {
    let r = Rpc::parse("ping".to_string(), &vec![named("a", "u8"), Param::Receiver], None);
    assert_eq!(r.err(), Some(DefinitionError::ReceiverParameter));
}

#[test]
fn pattern_is_rejected() {
    let r = Rpc::parse(
        "ping".to_string(),
        &vec![Param::Pattern, Param::Receiver],
        None,
    );
    assert_eq!(r.err(), Some(DefinitionError::PatternParameter));
}

#[test]
fn duplicate_operation_is_rejected() {
    let r = Service::parse("Ping".to_string(), vec![op("ping"), op("pong"), op("ping")]);
    assert_eq!(r.err(), Some(DefinitionError::DuplicateOperation("ping".to_string())));
}

#[test]
fn generated_names() {
    let s = Service::parse("Ping".to_string(), vec![op("ping"), op("pong")]).unwrap();
    assert_eq!(s.rpcs.len(), 2);
    assert_eq!(s.request().ident, "PingRequest");
    assert_eq!(s.response().ident, "PingResponse");
    assert_eq!(s.serve_ident(), "PingServe");
    assert_eq!(s.client_ident(), "PingClient");
}

#[test]
fn tagged_union_shapes() {
    let hello = Rpc::parse(
        "hello".to_string(),
        &vec![named("a", "String"), named("b", "String")],
        Some("String".to_string()),
    )
    .unwrap();
    let reset = Rpc::parse("reset".to_string(), &vec![], None).unwrap();
    let s = Service::parse("Hello".to_string(), vec![hello, reset]).unwrap();

    let request = s.request();
    assert_eq!(request.ident, "HelloRequest");
    assert_eq!(
        request.args,
        vec![
            (
                "hello".to_string(),
                vec![
                    ("a".to_string(), "String".to_string()),
                    ("b".to_string(), "String".to_string())
                ]
            ),
            ("reset".to_string(), vec![]),
        ]
    );

    let response = s.response();
    assert_eq!(response.ident, "HelloResponse");
    assert_eq!(
        response.rpcs,
        vec![
            ("hello".to_string(), "String".to_string()),
            ("reset".to_string(), "()".to_string())
        ]
    );
}

#[test]
fn unions_named_after_the_service() {
    assert_eq!(ServiceRequest::new("Ping", vec![]).ident, "PingRequest");
    let response = ServiceResponse::new("Ping", vec![("ping".to_string(), Some("bool".to_string()))]);
    assert_eq!(response.ident, "PingResponse");
    assert_eq!(response.rpcs, vec![("ping".to_string(), "bool".to_string())]);
}
