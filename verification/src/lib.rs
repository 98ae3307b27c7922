//! Client for the control channel of a wireless daemon
//! (a supplicant / access-point manager).
//!
//! The daemon is reached over a local socket through a narrow synchronous
//! transport: open, request, pending-check, receive, close.  This crate
//! verifies everything above that boundary: the interpretation of transport
//! status codes and reply bytes (fixed receive buffer, UTF-8 decoding), the
//! command encoding rules, and the connection state machine with its two
//! states, detached and attached, whose transitions move ownership of the
//! underlying handle so that it is closed exactly once.
//!
//! The transport itself is an injected capability: the [`transport::Transport`]
//! trait.  A verified scripted implementation lives in [`scripted`]; a real
//! socket-backed implementation is left to the embedding program.

pub mod codec;
pub mod conn;
pub mod errors;
pub mod scripted;
pub mod transport;

pub use codec::BUF_CAPACITY;
pub use conn::WpaCtrl;
pub use conn::WpaCtrlAttached;
pub use conn::WpaCtrlBuilder;
pub use errors::WpaError;
pub use scripted::ScriptedTransport;
pub use transport::MessageCallback;
pub use transport::MessageCollector;
pub use transport::RawReply;
pub use transport::Transport;
