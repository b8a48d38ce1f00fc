//! What a protocol author implements, and why a connection ended.

use vstd::prelude::*;
use crate::transport::Transport;

verus! {

/// Reason of a connection closed.
#[derive(Clone, Copy, Debug, PartialEq, Eq, Structural)]
pub enum Reason {
    /// The peer closed the connection and the protocol had not asked for it.
    ConnectionLost,
    /// The protocol asked to close the connection.
    HangUp,
    /// A read or a write failed, or the socket became invalid.
    ConnectionError,
}

/// Instantiated for every connection; implement your protocol here.
/// Every hook does nothing unless it is overridden.
pub trait Protocol {
    /// Called once when the connection is made; use the transport to queue
    /// bytes for the connected peer.
    fn connection_made(&self, transport: &mut Transport) {
    }

    /// Called with the bytes that one readable event brought; use the
    /// transport to queue bytes for the connected peer.
    fn data_received(&self, data: &[u8], transport: &mut Transport) {
    }

    /// Called once when the connection is closed, before the protocol
    /// instance is destroyed.
    fn connection_lost(&self, reason: Reason) {
    }
}

/// An owned protocol instance of any concrete type.
pub struct BoxedProtocol {
    pub inner: Box<dyn Protocol>,
}

/// Used by the loop to instantiate a protocol on each accepted connection.
pub trait ServerFactory {
    /// Called every time a listening socket accepts a connection. There is
    /// one protocol instance per connection, which lives until the
    /// connection is closed.
    fn build_protocol(&self) -> BoxedProtocol;
}

} // verus!
