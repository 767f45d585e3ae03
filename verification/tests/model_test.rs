use rmcp_typescript::error::BindingError;
use rmcp_typescript::json::JsonValue;
use rmcp_typescript::model::capabilities::{
    JsClientCapabilities, JsExperimentalCapabilities, JsRootsCapabilities,
};
use rmcp_typescript::model::{json_rpc_version_2_0, JsClientInfo, JsImplementation, JsInfo, ProtocolVersion};
use rmcp_typescript::transport::JsTransportEnum;
use rmcp_typescript::protocol::{ClientCapabilities, ClientInfo, Implementation, InitializeResult, RootsCapabilities};

fn sample_capabilities() -> JsClientCapabilities {
    let experimental = JsExperimentalCapabilities::new(JsonValue::Object(vec![(
        "feature".to_string(),
        JsonValue::Object(vec![("enabled".to_string(), JsonValue::Bool(true))]),
    )]));
    JsClientCapabilities::new(experimental, JsRootsCapabilities { list_changed: Some(true) }, None)
}

#[test]
fn implementation_new_and_getters() {
    let imp = JsImplementation::new("my-client".to_string(), "1.0.0".to_string());
    assert_eq!(imp.name(), "my-client");
    assert_eq!(imp.version(), "1.0.0");
}

#[test]
fn implementation_default_is_this_package() {
    let imp = JsImplementation::default();
    assert_eq!(imp.name, "rmcp_typescript");
    assert_eq!(imp.version, "0.1.0");
}

#[test]
fn implementation_round_trip() {
    let imp = JsImplementation::new("typescript-client".to_string(), "0.1.0".to_string());
    let core = imp.to_rust();
    assert_eq!(core, Implementation { name: "typescript-client".to_string(), version: "0.1.0".to_string() });
    assert_eq!(JsImplementation::from_rust(&core), imp);
}

#[test]
fn protocol_version_value_and_text() {
    let v = ProtocolVersion::new("2024-11-05".to_string());
    assert_eq!(v.value(), "2024-11-05");
    assert_eq!(v.to_string(), "2024-11-05");
    assert_eq!(ProtocolVersion::latest().value, "2.0");
    assert_eq!(json_rpc_version_2_0(), "2.0");
}

#[test]
fn info_new_and_getters() {
    let info = JsInfo::new("2.0".to_string(), "my-server".to_string(), "1.0.0".to_string());
    assert_eq!(info.protocol_version(), "2.0");
    assert_eq!(info.name(), "my-server");
    assert_eq!(info.version(), "1.0.0");
}

#[test]
fn info_from_server_answer() {
    let answer = InitializeResult {
        protocol_version: "2024-11-05".to_string(),
        server_info: Implementation { name: "counter".to_string(), version: "0.3.1".to_string() },
    };
    let info = JsInfo::server(answer);
    assert_eq!(info.protocol_version, "2024-11-05");
    assert_eq!(info.name, "counter");
    assert_eq!(info.version, "0.3.1");
}

#[test]
fn info_from_client_request() {
    let request = ClientInfo {
        protocol_version: "2.0".to_string(),
        capabilities: ClientCapabilities { experimental: None, roots: None, sampling: None },
        client_info: Implementation { name: "typescript-client".to_string(), version: "0.1.0".to_string() },
    };
    let info = JsInfo::client(request);
    assert_eq!(info.protocol_version, "2.0");
    assert_eq!(info.name, "typescript-client");
    assert_eq!(info.version, "0.1.0");
}

#[test]
fn client_info_keeps_its_parts() {
    let caps = sample_capabilities();
    let imp = JsImplementation::new("typescript-client".to_string(), "0.1.0".to_string());
    let info = JsClientInfo::new("2.0".to_string(), &caps, &imp).unwrap();
    assert_eq!(info.inner.protocol_version, "2.0");
    assert_eq!(info.protocol_version(), "2.0");
    assert_eq!(info.capabilities(), caps);
    assert_eq!(info.client_info(), imp);
    let core = info.to_rust();
    assert_eq!(core.capabilities.roots, Some(RootsCapabilities { list_changed: Some(true) }));
    assert_eq!(JsClientInfo::from_rust(&core), info);
}

#[test]
fn client_info_reads_version_as_json_string_body() {
    let caps = sample_capabilities();
    let imp = JsImplementation::default();
    let info = JsClientInfo::new("a\\\"b".to_string(), &caps, &imp).unwrap();
    assert_eq!(info.inner.protocol_version, "a\"b");
    assert_eq!(info.protocol_version(), "a\"b");
    let info = JsClientInfo::new("caf\\u00e9".to_string(), &caps, &imp).unwrap();
    assert_eq!(info.inner.protocol_version, "café");
}

#[test]
fn client_info_rejects_bare_quote() {
    let caps = sample_capabilities();
    let imp = JsImplementation::default();
    match JsClientInfo::new("a\"b".to_string(), &caps, &imp) {
        Err(BindingError::InvalidProtocolVersion(m)) => {
            assert_eq!(m, "trailing characters at line 1 column 4")
        }
        _ => panic!("a bare quote must be refused"),
    }
}

#[test]
fn client_info_rejects_control_character() {
    let caps = sample_capabilities();
    let imp = JsImplementation::default();
    match JsClientInfo::new("a\nb".to_string(), &caps, &imp) {
        Err(BindingError::InvalidProtocolVersion(m)) => assert!(m.starts_with("control character")),
        _ => panic!("a control character must be refused"),
    }
}

#[test]
fn client_info_accepts_empty_version() {
    let caps = sample_capabilities();
    let imp = JsImplementation::default();
    let info = JsClientInfo::new(String::new(), &caps, &imp).unwrap();
    assert_eq!(info.inner.protocol_version, "");
    assert_eq!(info.protocol_version(), "");
}

#[test]
fn error_messages() {
    assert_eq!(BindingError::PeerNotInitialized.reason(), "Peer not initialized");
    assert_eq!(BindingError::TransportNotInitialized.reason(), "Transport not initialized");
    assert_eq!(BindingError::TcpStreamNotInitialized.reason(), "TCP stream not initialized");
    assert_eq!(BindingError::StdioNotInitialized.reason(), "STDIO not initialized");
    assert_eq!(BindingError::SseTransportNotInitialized.reason(), "SSE transport not initialized");
    assert_eq!(BindingError::InvalidTransportKind.reason(), "Invalid transport kind");
    assert_eq!(BindingError::InvalidTransportKindString.reason(), "Invalid transport kind string");
    assert_eq!(
        BindingError::SseTransportReferenceNotFound.reason(),
        "SSE transport reference not found"
    );
    assert_eq!(BindingError::InvalidProtocolVersion("bad".to_string()).reason(), "bad");
    assert_eq!(
        BindingError::ServeFailed(JsTransportEnum::Tcp, "refused".to_string()).reason(),
        "TCP Serve IO error: refused"
    );
    assert_eq!(
        BindingError::ServeFailed(JsTransportEnum::Stdio, "closed".to_string()).reason(),
        "STDIO Serve IO error: closed"
    );
    assert_eq!(
        BindingError::ServeFailed(JsTransportEnum::Sse, "gone".to_string()).reason(),
        "SSE Serve IO error: gone"
    );
    assert_eq!(BindingError::Service("timeout".to_string()).reason(), "timeout");
}
