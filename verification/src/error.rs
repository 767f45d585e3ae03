//! Errors of the bindings, and the message that JavaScript sees for each.
use vstd::prelude::*;
use vstd::string::StringExecFns;
use crate::transport::JsTransportEnum;

verus! {

/// An error of the bindings.
#[derive(Debug, PartialEq, Eq)]
pub enum BindingError {
    /// A client was used before a connection was made.
    PeerNotInitialized,
    /// A transport was used after its connection was taken.
    TransportNotInitialized,
    /// A TCP transport holds no stream.
    TcpStreamNotInitialized,
    /// A stdio transport holds no streams.
    StdioNotInitialized,
    /// An SSE transport holds no connection.
    SseTransportNotInitialized,
    /// An object names no known transport kind.
    InvalidTransportKind,
    /// An object's `kind` names no known transport kind.
    InvalidTransportKindString,
    /// An SSE transport object refers to no SSE connection.
    SseTransportReferenceNotFound,
    /// The protocol version is not a JSON string body; holds the parser's message.
    InvalidProtocolVersion(String),
    /// Serving over the transport failed; holds the transport kind and the message.
    ServeFailed(JsTransportEnum, String),
    /// The client library or the JSON encoder failed; holds its message.
    Service(String),
}

/// The name by which serve errors refer to a transport kind.
pub open spec fn kind_label(kind: JsTransportEnum) -> Seq<char> {
    match kind {
        JsTransportEnum::Tcp => "TCP"@,
        JsTransportEnum::Stdio => "STDIO"@,
        JsTransportEnum::Sse => "SSE"@,
    }
}

impl BindingError {
    /// The message of an error, as JavaScript sees it.
    pub open spec fn message(self) -> Seq<char> {
        match self {
            BindingError::PeerNotInitialized => "Peer not initialized"@,
            BindingError::TransportNotInitialized => "Transport not initialized"@,
            BindingError::TcpStreamNotInitialized => "TCP stream not initialized"@,
            BindingError::StdioNotInitialized => "STDIO not initialized"@,
            BindingError::SseTransportNotInitialized => "SSE transport not initialized"@,
            BindingError::InvalidTransportKind => "Invalid transport kind"@,
            BindingError::InvalidTransportKindString => "Invalid transport kind string"@,
            BindingError::SseTransportReferenceNotFound => "SSE transport reference not found"@,
            BindingError::InvalidProtocolVersion(m) => m@,
            BindingError::ServeFailed(kind, m) => kind_label(kind) + " Serve IO error: "@ + m@,
            BindingError::Service(m) => m@,
        }
    }

    /// The message of this error.
    pub fn reason(&self) -> (r: String)
        ensures
            r@ == self.message(),
    {
        match self {
            BindingError::PeerNotInitialized => String::from_str("Peer not initialized"),
            BindingError::TransportNotInitialized => String::from_str("Transport not initialized"),
            BindingError::TcpStreamNotInitialized => String::from_str("TCP stream not initialized"),
            BindingError::StdioNotInitialized => String::from_str("STDIO not initialized"),
            BindingError::SseTransportNotInitialized => String::from_str(
                "SSE transport not initialized",
            ),
            BindingError::InvalidTransportKind => String::from_str("Invalid transport kind"),
            BindingError::InvalidTransportKindString => String::from_str(
                "Invalid transport kind string",
            ),
            BindingError::SseTransportReferenceNotFound => String::from_str(
                "SSE transport reference not found",
            ),
            BindingError::InvalidProtocolVersion(m) => m.clone(),
            BindingError::ServeFailed(kind, m) => {
                let label = match kind {
                    JsTransportEnum::Tcp => "TCP",
                    JsTransportEnum::Stdio => "STDIO",
                    JsTransportEnum::Sse => "SSE",
                };
                let mut text = String::from_str(label);
                text.append(" Serve IO error: ");
                text.append(m.as_str());
                text
            },
            BindingError::Service(m) => m.clone(),
        }
    }
}

} // verus!
