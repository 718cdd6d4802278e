use webcontr::service::{Param, Rpc, Service};

fn hello_service() -> Service {
    let hello = Rpc::parse(
        "hello".to_string(),
        &vec![
            Param::Named { name: "a".to_string(), ty: "String".to_string() },
            Param::Named { name: "b".to_string(), ty: "String".to_string() },
        ],
        Some("String".to_string()),
    )
    .unwrap();
    let ping = Rpc::parse("ping".to_string(), &vec![], None).unwrap();
    Service::parse("Hello".to_string(), vec![hello, ping]).unwrap()
}

#[test]
fn request_union_source() {
    let text = hello_service().request().to_source();
    assert_eq!(
        text,
        "#[derive(Debug, serde::Deserialize, serde::Serialize)]\npub enum HelloRequest {\n    #[allow(non_camel_case_types)]\n    hello { a: String, b: String, },\n    #[allow(non_camel_case_types)]\n    ping { },\n}\n"
    );
}

#[test]
fn response_union_source() {
    let text = hello_service().response().to_source();
    assert_eq!(
        text,
        "#[derive(Debug, serde::Deserialize, serde::Serialize)]\npub enum HelloResponse {\n    #[allow(non_camel_case_types)]\n    hello(String),\n    #[allow(non_camel_case_types)]\n    ping(()),\n}\n"
    );
}

#[test]
fn operation_signature_source() {
    let s = hello_service();
    assert_eq!(s.rpcs[0].to_source(), "    async fn hello(&self, a: String, b: String, ) -> String;\n");
    assert_eq!(s.rpcs[1].to_source(), "    async fn ping(&self, );\n");
}

#[test]
fn trait_source() {
    let text = hello_service().trait_source();
    assert!(text.starts_with("#[async_trait::async_trait]\npub trait Hello: Sized + Clone {\n"));
    assert!(text.contains("    async fn hello(&self, a: String, b: String, ) -> String;\n"));
    assert!(text.contains("fn into_serve(self) -> HelloServe<Self>"));
}

#[test]
fn dispatcher_answers_each_variant_with_its_own() {
    let text = hello_service().serve_source();
    assert!(text.contains(
        "HelloRequest::hello { a, b, } => HelloResponse::hello(Hello::hello(&service, a, b, ).await),\n"
    ));
    assert!(text.contains("HelloRequest::ping { } => HelloResponse::ping(Hello::ping(&service, ).await),\n"));
    assert!(text.contains("::webcontr::ResponseErrorKind::InvalidRequest"));
    assert!(text.ends_with("fn name(&self) -> &'static str {\n        \"Hello\"\n    }\n}\n"));
}

#[test]
fn client_source() {
    let text = hello_service().client_source("rt");
    assert!(text.starts_with("pub struct HelloClient {\n    addr: String,\n}\n"));
    assert!(text.contains(
        "    pub async fn hello(&mut self, a: String, b: String, ) -> Result<String, rt::ClientError> {\n"
    ));
    assert!(text.contains("    pub async fn ping(&mut self, ) -> Result<(), rt::ClientError> {\n"));
    assert!(text.contains("rt::client::send_client_req(\"Hello\", req, &self.addr).await?"));
    assert!(text.contains("HelloResponse::ping(response) => Ok(response)"));
}
