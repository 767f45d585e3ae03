use rmcp_typescript::error::BindingError;
use rmcp_typescript::transport::sse::JsSseTransport;
use rmcp_typescript::transport::{Connection, JsTransport, JsTransportEnum, JsTransportInner};

type Transport = JsTransport<u32, (u8, u8), String>;

#[test]
fn tcp_transport_kind() {
    let t = Transport::from_tcp();
    assert_eq!(t.kind(), JsTransportEnum::Tcp);
    assert!(t.is_tcp() && !t.is_stdio() && !t.is_sse());
}

#[test]
fn stdio_transport_kind() {
    let t = Transport::from_stdio((0, 1));
    assert_eq!(t.kind(), JsTransportEnum::Stdio);
    assert!(!t.is_tcp() && t.is_stdio() && !t.is_sse());
}

#[test]
fn tcp_transport_holds_no_stream() {
    let mut t = Transport::from_tcp();
    assert!(matches!(t.take_connection(), Err(BindingError::TcpStreamNotInitialized)));
    assert!(matches!(t.take_connection(), Err(BindingError::TransportNotInitialized)));
    assert!(t.inner.is_none());
    assert!(t.is_tcp());
}

#[test]
fn stdio_transport_serves_its_streams_once() {
    let mut t = Transport::from_stdio((3, 4));
    assert!(matches!(t.take_connection(), Ok(Connection::Stdio((3, 4)))));
    assert!(matches!(t.take_connection(), Err(BindingError::TransportNotInitialized)));
    let mut t = Transport { kind: JsTransportEnum::Stdio, inner: Some(JsTransportInner::Stdio(None)) };
    assert!(matches!(t.take_connection(), Err(BindingError::StdioNotInitialized)));
}

#[test]
fn sse_transport_takes_the_handles_connection_once() {
    let mut handle = JsSseTransport { inner: Some("session".to_string()) };
    let mut t = Transport::from_sse(&mut handle).unwrap();
    assert!(handle.inner.is_none());
    assert!(t.is_sse());
    match t.take_connection() {
        Ok(c) => {
            assert_eq!(c.kind(), JsTransportEnum::Sse);
            assert!(matches!(c, Connection::Sse(ref s) if s == "session"));
        }
        Err(_) => panic!("the SSE connection must be served"),
    }
    assert!(matches!(t.take_connection(), Err(BindingError::TransportNotInitialized)));
    assert!(matches!(Transport::from_sse(&mut handle), Err(BindingError::SseTransportNotInitialized)));
}

#[test]
fn transport_with_a_stream_serves_it() {
    let mut t = Transport { kind: JsTransportEnum::Tcp, inner: Some(JsTransportInner::Tcp(Some(7))) };
    match t.take_connection() {
        Ok(c) => {
            assert_eq!(c.kind(), JsTransportEnum::Tcp);
            assert!(matches!(c, Connection::Tcp(7)));
        }
        Err(_) => panic!("the TCP stream must be served"),
    }
    let mut t = Transport { kind: JsTransportEnum::Stdio, inner: Some(JsTransportInner::Stdio(Some((0, 1)))) };
    assert!(matches!(t.take_connection(), Ok(Connection::Stdio((0, 1)))));
}

#[test]
fn kind_names() {
    assert_eq!(JsTransportEnum::from_kind_name(Some("Tcp")), Ok(JsTransportEnum::Tcp));
    assert_eq!(JsTransportEnum::from_kind_name(Some("Stdio")), Ok(JsTransportEnum::Stdio));
    assert_eq!(JsTransportEnum::from_kind_name(Some("Sse")), Ok(JsTransportEnum::Sse));
    assert_eq!(JsTransportEnum::from_kind_name(Some("tcp")), Err(BindingError::InvalidTransportKindString));
    assert_eq!(JsTransportEnum::from_kind_name(Some("Tcp ")), Err(BindingError::InvalidTransportKindString));
    assert_eq!(JsTransportEnum::from_kind_name(None), Err(BindingError::InvalidTransportKindString));
}

#[test]
fn inner_kind_names() {
    type Inner = JsTransportInner<u32, (u8, u8), String>;
    assert!(matches!(Inner::from_kind_name(Some("Tcp")), Ok(JsTransportInner::Tcp(None))));
    assert!(matches!(Inner::from_kind_name(Some("Stdio")), Ok(JsTransportInner::Stdio(None))));
    assert!(matches!(Inner::from_kind_name(Some("Sse")), Ok(JsTransportInner::Sse(None))));
    assert!(matches!(Inner::from_kind_name(Some("Pipe")), Err(BindingError::InvalidTransportKind)));
    assert!(matches!(Inner::from_kind_name(None), Err(BindingError::InvalidTransportKind)));
}

#[test]
fn transport_object_of_each_kind() {
    let t = Transport::from_parts(JsTransportEnum::Tcp, None).unwrap();
    assert!(t.is_tcp());
    assert!(matches!(t.inner, Some(JsTransportInner::Tcp(None))));
    let t = Transport::from_parts(JsTransportEnum::Stdio, Some(Some("ignored".to_string()))).unwrap();
    assert!(t.is_stdio());
    assert!(matches!(t.inner, Some(JsTransportInner::Stdio(None))));
}

#[test]
fn sse_transport_object() {
    assert!(matches!(
        Transport::from_parts(JsTransportEnum::Sse, None),
        Err(BindingError::SseTransportReferenceNotFound)
    ));
    assert!(matches!(
        Transport::from_parts(JsTransportEnum::Sse, Some(None)),
        Err(BindingError::SseTransportNotInitialized)
    ));
    let mut t = Transport::from_parts(JsTransportEnum::Sse, Some(Some("s".to_string()))).unwrap();
    assert!(t.is_sse());
    assert!(matches!(t.inner, Some(JsTransportInner::Sse(Some(ref s))) if s == "s"));
    assert!(matches!(t.take_connection(), Ok(Connection::Sse(ref s)) if s == "s"));
}

#[test]
fn sse_handle_from_start_outcome() {
    let handle = JsSseTransport::start(Ok::<u8, String>(4)).unwrap();
    assert_eq!(handle.inner, Some(4));
    match JsSseTransport::<u8>::start(Err("connection refused".to_string())) {
        Err(e) => assert_eq!(e.reason(), "connection refused"),
        Ok(_) => panic!("a failed start must be an error"),
    }
    let mut handle = JsSseTransport { inner: Some(9u8) };
    assert_eq!(handle.take_inner(), Some(9));
    assert_eq!(handle.take_inner(), None);
}
