//! The client that JavaScript talks to a server through.
//!
//! A client holds the peer of a running session once one is made; `P` is the
//! peer's type.  Asking a client without a peer for anything fails with
//! "Peer not initialized".
use vstd::prelude::*;
use crate::error::BindingError;
use crate::json::{is_object, object_view, JsonValue};
use crate::protocol::CallToolRequestParam;

verus! {

/// A client, with the peer of its session once one is made.
pub struct JsClient<P> {
    pub inner: Option<P>,
}

impl<P> JsClient<P> {
    /// A client with no session yet.
    pub fn new() -> (r: JsClient<P>)
        ensures
            r.inner is None,
    {
        JsClient { inner: None }
    }

    /// Gives this client the peer of a session.
    pub fn set_inner(&mut self, inner: P)
        ensures
            final(self).inner == Some(inner),
    {
        self.inner = Some(inner);
    }

    /// The peer of this client's session; an error if there is none.
    pub fn peer(&self) -> (r: Result<&P, BindingError>)
        ensures
            match self.inner {
                Some(p) => r == Ok::<&P, BindingError>(&p),
                None => r == Err::<&P, BindingError>(BindingError::PeerNotInitialized),
            },
    {
        match &self.inner {
            Some(p) => Ok(p),
            None => Err(BindingError::PeerNotInitialized),
        }
    }
}

/// The parameters of a call of the tool `name`: the arguments are passed on only
/// if they are a JSON object, and otherwise dropped.
pub fn call_tool_param(name: String, arguments: Option<JsonValue>) -> (r: CallToolRequestParam)
    ensures
        r.name == name,
        r.arguments is Some <==> (arguments is Some && is_object(arguments->0@)),
        r.arguments matches Some(o) ==> object_view(o) == arguments->0@->Object_0,
{
    let arguments = match arguments {
        Some(v) => v.into_object(),
        None => None,
    };
    CallToolRequestParam { name, arguments }
}

} // verus!
