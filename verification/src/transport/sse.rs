//! The SSE transport handle.
use vstd::prelude::*;
use crate::error::BindingError;

verus! {

/// A started SSE connection, held until a transport takes it.
///
/// `S` is the connection's type.
pub struct JsSseTransport<S> {
    pub inner: Option<S>,
}

impl<S> JsSseTransport<S> {
    /// The handle for the outcome of starting an SSE connection: the connection,
    /// or the starting error's message.
    pub fn start(started: Result<S, String>) -> (r: Result<JsSseTransport<S>, BindingError>)
        ensures
            match started {
                Ok(c) => r == Ok::<JsSseTransport<S>, BindingError>(JsSseTransport { inner: Some(c) }),
                Err(m) => r == Err::<JsSseTransport<S>, BindingError>(BindingError::Service(m)),
            },
    {
        match started {
            Ok(c) => Ok(JsSseTransport { inner: Some(c) }),
            Err(m) => Err(BindingError::Service(m)),
        }
    }

    /// Takes the connection out of this handle, which then holds none.
    pub fn take_inner(&mut self) -> (r: Option<S>)
        ensures
            r == old(self).inner,
            final(self).inner is None,
    {
        self.inner.take()
    }
}

} // verus!
