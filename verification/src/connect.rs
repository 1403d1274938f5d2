//! Transport selection for a connection attempt.
//!
//! The `sslmode` connection parameter decides whether, and how strictly, the
//! TLS adapter is invoked while a connection is set up: a forbidding mode
//! never negotiates, a preferring mode negotiates when both sides can, and a
//! requiring mode fails the attempt outright rather than fall back to a
//! plain stream. The decision depends on three facts the attempt observes —
//! the configured mode, whether the connector at hand can speak TLS at all,
//! and whether the server accepted the TLS request — and on nothing else.

use vstd::prelude::*;

verus! {

/// How strictly the connection attempt demands TLS.
#[derive(Clone, Copy, PartialEq, Eq, Structural, Debug)]
pub enum SslMode {
    /// Never negotiate TLS.
    Disable,
    /// Negotiate TLS when the connector and the server both can; otherwise
    /// continue over the plain stream.
    Prefer,
    /// Negotiate TLS or fail the attempt; never fall back.
    Require,
}

/// The transport a connection attempt settled on.
#[derive(Clone, Copy, PartialEq, Eq, Structural, Debug)]
pub enum ChannelKind {
    /// The raw stream, unencrypted.
    Plain,
    /// The stream wrapped by a completed TLS handshake.
    Tls,
}

/// Why a connection attempt failed before a session existed.
#[derive(Clone, Copy, PartialEq, Eq, Structural, Debug)]
pub enum ConnectError {
    /// TLS was required but the server refused to negotiate it.
    TlsRefusedByServer,
    /// The TLS handshake was attempted and failed: certificate validation,
    /// protocol mismatch, or unexpected closure.
    HandshakeFailed,
    /// The server rejected the supplied credentials.
    AuthenticationFailed,
}

/// The transport the attempt must use, by case:
/// a disabling mode takes the plain stream; a preferring mode takes TLS
/// exactly when the connector can speak it and the server accepted it; a
/// requiring mode takes TLS when the server accepted it and otherwise fails.
pub open spec fn chosen_transport(
    mode: SslMode,
    connector_can_tls: bool,
    server_accepts_tls: bool,
) -> Result<ChannelKind, ConnectError> {
    match mode {
        SslMode::Disable => Ok(ChannelKind::Plain),
        SslMode::Prefer => if connector_can_tls && server_accepts_tls {
            Ok(ChannelKind::Tls)
        } else {
            Ok(ChannelKind::Plain)
        },
        SslMode::Require => if server_accepts_tls {
            Ok(ChannelKind::Tls)
        } else {
            Err(ConnectError::TlsRefusedByServer)
        },
    }
}

/// Decide the transport for one connection attempt.
///
/// A requiring mode proceeds to the handshake even with a connector that
/// cannot speak TLS: the handshake step then fails, and the attempt fails
/// with it — it never falls back to the plain stream.
pub fn plan_transport(mode: SslMode, connector_can_tls: bool, server_accepts_tls: bool) -> (plan:
    Result<ChannelKind, ConnectError>)
    ensures
        plan == chosen_transport(mode, connector_can_tls, server_accepts_tls),
{
    match mode {
        SslMode::Disable => Ok(ChannelKind::Plain),
        SslMode::Prefer => {
            if connector_can_tls && server_accepts_tls {
                Ok(ChannelKind::Tls)
            } else {
                Ok(ChannelKind::Plain)
            }
        }
        SslMode::Require => {
            if server_accepts_tls {
                Ok(ChannelKind::Tls)
            } else {
                Err(ConnectError::TlsRefusedByServer)
            }
        }
    }
}

/// Under a requiring mode there is no plain fallback: the attempt either
/// settles on TLS or fails before any session exists.
pub proof fn lemma_require_never_falls_back(connector_can_tls: bool, server_accepts_tls: bool)
    ensures
        chosen_transport(SslMode::Require, connector_can_tls, server_accepts_tls)
            != Ok::<ChannelKind, ConnectError>(ChannelKind::Plain),
{
}

/// Under a preferring mode, a TLS-capable connector facing a TLS-capable
/// server always settles on TLS — preference is not silently dropped.
pub proof fn lemma_prefer_takes_tls_when_available()
    ensures
        chosen_transport(SslMode::Prefer, true, true) == Ok::<ChannelKind, ConnectError>(
            ChannelKind::Tls,
        ),
{
}

/// A disabling mode never reaches the TLS adapter, whatever the connector
/// and the server would have supported.
pub proof fn lemma_disable_stays_plain(connector_can_tls: bool, server_accepts_tls: bool)
    ensures
        chosen_transport(SslMode::Disable, connector_can_tls, server_accepts_tls)
            == Ok::<ChannelKind, ConnectError>(ChannelKind::Plain),
{
}

} // verus!
