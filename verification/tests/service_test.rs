use rmcp_typescript::error::BindingError;
use rmcp_typescript::json::JsonValue;
use rmcp_typescript::service::{call_tool_param, JsClient};

#[test]
fn client_without_session_has_no_peer() {
    let client: JsClient<u32> = JsClient::new();
    assert!(client.inner.is_none());
    assert_eq!(client.peer(), Err(BindingError::PeerNotInitialized));
    assert_eq!(client.peer().unwrap_err().reason(), "Peer not initialized");
}

#[test]
fn client_with_session_has_its_peer() {
    let mut client: JsClient<u32> = JsClient::new();
    client.set_inner(11);
    assert_eq!(client.peer(), Ok(&11));
    client.set_inner(12);
    assert_eq!(client.peer(), Ok(&12));
}

#[test]
fn tool_call_keeps_object_arguments() {
    let args = JsonValue::Object(vec![("value".to_string(), JsonValue::Number("1".to_string()))]);
    let param = call_tool_param("increment".to_string(), Some(args));
    assert_eq!(param.name, "increment");
    assert_eq!(param.arguments, Some(vec![("value".to_string(), JsonValue::Number("1".to_string()))]));
}

#[test]
fn tool_call_drops_other_arguments() {
    let param = call_tool_param("increment".to_string(), Some(JsonValue::Number("1".to_string())));
    assert_eq!(param.arguments, None);
    let param = call_tool_param("increment".to_string(), Some(JsonValue::Array(vec![])));
    assert_eq!(param.arguments, None);
    let param = call_tool_param("increment".to_string(), None);
    assert_eq!(param.arguments, None);
}
