//! A framework for writing network applications around a non-blocking I/O loop.
//!
//! The crate holds the decisions of a single-threaded reactor: the bounded
//! table of connections, the per-session state machine and the transport that
//! queues output. The caller owns the sockets and the poller: it reports what
//! happened on a socket and is told what to do next.

pub mod interface;
pub mod rio;
pub mod session;
pub mod slots;
pub mod transport;

pub use interface::{BoxedProtocol, Protocol, Reason, ServerFactory};
pub use rio::{AcceptError, Rio};
pub use session::{Action, Chunk, Interest, ReadPass, Readiness, WriteOutcome};
pub use slots::{SlotError, Token};
pub use transport::Transport;
