//! A verified model of a blocking PostgreSQL client facade.
//!
//! The library captures, with machine-checked contracts, the decision logic of
//! a synchronous client layered over an asynchronous protocol driver:
//!
//! * [`handshake`] — the cooperative state machine that adapts a synchronous
//!   TLS handshake onto a readiness-driven asynchronous transport;
//! * [`connect`] — the transport-selection policy (`sslmode`) and the
//!   connection-establishment pipeline;
//! * [`engine`] — exclusivity of the per-client execution engine and the
//!   lease that lets a streaming handle keep driving it;
//! * [`session`] — the facade surface: statement preparation, parameter
//!   binding, query execution, streaming, cancellation;
//! * [`transaction`] — commit-or-rollback discipline, rollback by default;
//! * [`copy`] — the copy-in writer (finish commits, anything else aborts)
//!   and the copy-out reader (arrived bytes delivered verbatim, in order).
//!
//! The surrounding I/O — sockets, the asynchronous driver, the TLS library —
//! is driven by an unverified shell that feeds events into these machines and
//! performs the actions they return.

pub mod connect;
pub mod copy;
pub mod engine;
pub mod handshake;
pub mod session;
pub mod transaction;

pub use connect::ChannelKind;
pub use connect::ConnectError;
pub use connect::SslMode;
pub use engine::Engine;
pub use handshake::Direction;
pub use copy::CopyIn;
pub use session::CancelKey;
pub use session::Session;
pub use session::Statement;
pub use transaction::Transaction;
pub use transaction::TransactionBuilder;
pub use handshake::Directive;
pub use handshake::HandshakeDriver;
pub use handshake::StepOutcome;
