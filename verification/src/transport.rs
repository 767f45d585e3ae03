//! Transports over which a client connects to a server.
//!
//! A transport is TCP, stdio or SSE.  It holds the connection it was made with
//! until the client takes it to serve; a transport that holds none makes serving
//! fail with a message naming what is missing.  The connection types are
//! parameters: `T` for a TCP stream, `I` for the stdio pair, `S` for an SSE
//! connection.
pub mod sse;

use vstd::prelude::*;
use crate::error::BindingError;
use crate::text::text_equals;
use crate::transport::sse::JsSseTransport;

verus! {

/// The kind of a transport.
#[derive(Debug, Clone, Copy, PartialEq, Eq, Structural)]
pub enum JsTransportEnum {
    Tcp,
    Stdio,
    Sse,
}

/// The text of an optional name.
pub open spec fn name_view(name: Option<&str>) -> Option<Seq<char>> {
    match name {
        Some(n) => Some(n@),
        None => None,
    }
}

/// The transport kind that a name stands for: `Tcp`, `Stdio` or `Sse`.
pub open spec fn kind_named(name: Option<Seq<char>>) -> Option<JsTransportEnum> {
    match name {
        Some(n) => if n == "Tcp"@ {
            Some(JsTransportEnum::Tcp)
        } else if n == "Stdio"@ {
            Some(JsTransportEnum::Stdio)
        } else if n == "Sse"@ {
            Some(JsTransportEnum::Sse)
        } else {
            None
        },
        None => None,
    }
}

fn parse_kind(name: Option<&str>) -> (r: Option<JsTransportEnum>)
    ensures
        r == kind_named(name_view(name)),
{
    match name {
        Some(n) => {
            if text_equals(n, "Tcp") {
                Some(JsTransportEnum::Tcp)
            } else if text_equals(n, "Stdio") {
                Some(JsTransportEnum::Stdio)
            } else if text_equals(n, "Sse") {
                Some(JsTransportEnum::Sse)
            } else {
                None
            }
        },
        None => None,
    }
}

impl JsTransportEnum {
    /// The kind that a transport object's `kind` property names.
    pub fn from_kind_name(name: Option<&str>) -> (r: Result<JsTransportEnum, BindingError>)
        ensures
            match kind_named(name_view(name)) {
                Some(k) => r == Ok::<JsTransportEnum, BindingError>(k),
                None => r == Err::<JsTransportEnum, BindingError>(
                    BindingError::InvalidTransportKindString,
                ),
            },
    {
        match parse_kind(name) {
            Some(k) => Ok(k),
            None => Err(BindingError::InvalidTransportKindString),
        }
    }
}

/// The connection slot of a transport, by kind.
pub enum JsTransportInner<T, I, S> {
    Tcp(Option<T>),
    Stdio(Option<I>),
    Sse(Option<S>),
}

/// The empty connection slot of a kind.
pub open spec fn empty_slot<T, I, S>(kind: JsTransportEnum) -> JsTransportInner<T, I, S> {
    match kind {
        JsTransportEnum::Tcp => JsTransportInner::Tcp(None),
        JsTransportEnum::Stdio => JsTransportInner::Stdio(None),
        JsTransportEnum::Sse => JsTransportInner::Sse(None),
    }
}

impl<T, I, S> JsTransportInner<T, I, S> {
    /// The empty slot of the kind that a transport object's `kind` property names.
    pub fn from_kind_name(name: Option<&str>) -> (r: Result<JsTransportInner<T, I, S>, BindingError>)
        ensures
            match kind_named(name_view(name)) {
                Some(k) => r == Ok::<JsTransportInner<T, I, S>, BindingError>(empty_slot(k)),
                None => r == Err::<JsTransportInner<T, I, S>, BindingError>(
                    BindingError::InvalidTransportKind,
                ),
            },
    {
        match parse_kind(name) {
            Some(k) => Ok(Self::empty(k)),
            None => Err(BindingError::InvalidTransportKind),
        }
    }

    /// The empty slot of a kind.
    pub fn empty(kind: JsTransportEnum) -> (r: JsTransportInner<T, I, S>)
        ensures
            r == empty_slot::<T, I, S>(kind),
    {
        match kind {
            JsTransportEnum::Tcp => JsTransportInner::Tcp(None),
            JsTransportEnum::Stdio => JsTransportInner::Stdio(None),
            JsTransportEnum::Sse => JsTransportInner::Sse(None),
        }
    }
}

/// A connection taken from a transport, ready to serve a client over.
pub enum Connection<T, I, S> {
    Tcp(T),
    Stdio(I),
    Sse(S),
}

impl<T, I, S> Connection<T, I, S> {
    /// The kind of transport this connection came from.
    pub open spec fn kind_of(self) -> JsTransportEnum {
        match self {
            Connection::Tcp(_) => JsTransportEnum::Tcp,
            Connection::Stdio(_) => JsTransportEnum::Stdio,
            Connection::Sse(_) => JsTransportEnum::Sse,
        }
    }

    /// The kind of transport this connection came from.
    pub fn kind(&self) -> (r: JsTransportEnum)
        ensures
            r == self.kind_of(),
    {
        match self {
            Connection::Tcp(_) => JsTransportEnum::Tcp,
            Connection::Stdio(_) => JsTransportEnum::Stdio,
            Connection::Sse(_) => JsTransportEnum::Sse,
        }
    }
}

/// What serving over a transport whose slot is `inner` starts with: the
/// connection it holds, or the error that names what is missing.
pub open spec fn connection_of<T, I, S>(inner: Option<JsTransportInner<T, I, S>>) -> Result<
    Connection<T, I, S>,
    BindingError,
> {
    match inner {
        Some(JsTransportInner::Tcp(Some(c))) => Ok(Connection::Tcp(c)),
        Some(JsTransportInner::Tcp(None)) => Err(BindingError::TcpStreamNotInitialized),
        Some(JsTransportInner::Stdio(Some(c))) => Ok(Connection::Stdio(c)),
        Some(JsTransportInner::Stdio(None)) => Err(BindingError::StdioNotInitialized),
        Some(JsTransportInner::Sse(Some(c))) => Ok(Connection::Sse(c)),
        Some(JsTransportInner::Sse(None)) => Err(BindingError::SseTransportNotInitialized),
        None => Err(BindingError::TransportNotInitialized),
    }
}

/// The kind of transport a connection slot belongs to.
pub open spec fn slot_kind<T, I, S>(inner: JsTransportInner<T, I, S>) -> JsTransportEnum {
    match inner {
        JsTransportInner::Tcp(_) => JsTransportEnum::Tcp,
        JsTransportInner::Stdio(_) => JsTransportEnum::Stdio,
        JsTransportInner::Sse(_) => JsTransportEnum::Sse,
    }
}

/// The transport that a transport object of kind `kind` describes; `found` is
/// what it refers to for the SSE kind (see `JsTransport::from_parts`).
pub open spec fn transport_from_parts<T, I, S>(kind: JsTransportEnum, found: Option<Option<S>>) -> Result<
    JsTransport<T, I, S>,
    BindingError,
> {
    match kind {
        JsTransportEnum::Sse => match found {
            Some(Some(c)) => Ok(
                JsTransport { kind: JsTransportEnum::Sse, inner: Some(JsTransportInner::Sse(Some(c))) },
            ),
            Some(None) => Err(BindingError::SseTransportNotInitialized),
            None => Err(BindingError::SseTransportReferenceNotFound),
        },
        _ => Ok(JsTransport { kind, inner: Some(empty_slot(kind)) }),
    }
}

/// A transport handle: its kind and its connection slot.
pub struct JsTransport<T, I, S> {
    /// The kind of transport.
    pub kind: JsTransportEnum,
    pub inner: Option<JsTransportInner<T, I, S>>,
}

impl<T, I, S> JsTransport<T, I, S> {
    /// A TCP transport; it holds no stream.
    pub fn from_tcp() -> (r: JsTransport<T, I, S>)
        ensures
            r.kind == JsTransportEnum::Tcp,
            r.inner == Some(JsTransportInner::<T, I, S>::Tcp(None)),
    {
        JsTransport { kind: JsTransportEnum::Tcp, inner: Some(JsTransportInner::Tcp(None)) }
    }

    /// A stdio transport over the given standard input and output.
    pub fn from_stdio(io: I) -> (r: JsTransport<T, I, S>)
        ensures
            r.kind == JsTransportEnum::Stdio,
            r.inner == Some(JsTransportInner::<T, I, S>::Stdio(Some(io))),
    {
        JsTransport { kind: JsTransportEnum::Stdio, inner: Some(JsTransportInner::Stdio(Some(io))) }
    }

    /// An SSE transport made with the connection of an SSE handle, which then
    /// holds none; an error if the handle holds none.
    pub fn from_sse(sse: &mut JsSseTransport<S>) -> (r: Result<JsTransport<T, I, S>, BindingError>)
        ensures
            final(sse).inner is None,
            match old(sse).inner {
                Some(c) => r == Ok::<JsTransport<T, I, S>, BindingError>(
                    JsTransport { kind: JsTransportEnum::Sse, inner: Some(JsTransportInner::Sse(Some(c))) },
                ),
                None => r == Err::<JsTransport<T, I, S>, BindingError>(
                    BindingError::SseTransportNotInitialized,
                ),
            },
    {
        match sse.take_inner() {
            Some(c) => Ok(JsTransport { kind: JsTransportEnum::Sse, inner: Some(JsTransportInner::Sse(Some(c))) }),
            None => Err(BindingError::SseTransportNotInitialized),
        }
    }

    /// The transport that a transport object describes: its kind, and for the
    /// SSE kind what it refers to (`None` when it refers to no SSE handle, else
    /// the connection taken from that handle).  `found` is read only for the SSE
    /// kind; a TCP or stdio object gives a transport of its kind with no
    /// connection.
    pub fn from_parts(kind: JsTransportEnum, found: Option<Option<S>>) -> (r: Result<JsTransport<T, I, S>, BindingError>)
        ensures
            r == transport_from_parts::<T, I, S>(kind, found),
    {
        match kind {
            JsTransportEnum::Sse => match found {
                Some(Some(c)) => Ok(JsTransport { kind: JsTransportEnum::Sse, inner: Some(JsTransportInner::Sse(Some(c))) }),
                Some(None) => Err(BindingError::SseTransportNotInitialized),
                None => Err(BindingError::SseTransportReferenceNotFound),
            },
            _ => Ok(JsTransport { kind, inner: Some(JsTransportInner::empty(kind)) }),
        }
    }

    /// The kind of this transport.
    pub fn kind(&self) -> (r: JsTransportEnum)
        ensures
            r == self.kind,
    {
        self.kind
    }

    /// Whether this transport is TCP.
    pub fn is_tcp(&self) -> (r: bool)
        ensures
            r == (self.kind == JsTransportEnum::Tcp),
    {
        matches!(self.kind, JsTransportEnum::Tcp)
    }

    /// Whether this transport is stdio.
    pub fn is_stdio(&self) -> (r: bool)
        ensures
            r == (self.kind == JsTransportEnum::Stdio),
    {
        matches!(self.kind, JsTransportEnum::Stdio)
    }

    /// Whether this transport is SSE.
    pub fn is_sse(&self) -> (r: bool)
        ensures
            r == (self.kind == JsTransportEnum::Sse),
    {
        matches!(self.kind, JsTransportEnum::Sse)
    }

    /// Takes this transport's connection to serve over; the transport then holds
    /// none.  An error names what is missing if there is no connection.
    pub fn take_connection(&mut self) -> (r: Result<Connection<T, I, S>, BindingError>)
        ensures
            r == connection_of(old(self).inner),
            final(self).kind == old(self).kind,
            final(self).inner is None,
    {
        match self.inner.take() {
            Some(JsTransportInner::Tcp(Some(c))) => Ok(Connection::Tcp(c)),
            Some(JsTransportInner::Tcp(None)) => Err(BindingError::TcpStreamNotInitialized),
            Some(JsTransportInner::Stdio(Some(c))) => Ok(Connection::Stdio(c)),
            Some(JsTransportInner::Stdio(None)) => Err(BindingError::StdioNotInitialized),
            Some(JsTransportInner::Sse(Some(c))) => Ok(Connection::Sse(c)),
            Some(JsTransportInner::Sse(None)) => Err(BindingError::SseTransportNotInitialized),
            None => Err(BindingError::TransportNotInitialized),
        }
    }
}

} // verus!
