//! The synchronous client facade, as a verified decision layer.
//!
//! A [`Session`] models one physical connection: it owns its [`Engine`]
//! exclusively, knows the transport the connection settled on, carries the
//! server-assigned cancellation identifiers, and hands out statement handles
//! with fresh identities. Everything the facade *decides* is here with a
//! contract; the bytes themselves are moved by an unverified shell that
//! feeds the decisions' inputs in as plain values:
//!
//! * establishing a session composes the transport plan, the handshake
//!   outcome and the authentication outcome into exactly one result;
//! * binding parameters to a prepared statement demands the declared count —
//!   a mismatch is a programming defect, ruled out by `requires` rather than
//!   reported as a runtime error — and forwards the values verbatim; a
//!   statement is usable only with the session that issued it;
//! * each call's outcome is the asynchronous collaborator's resolution,
//!   returned unchanged, with no additional wrapping of result or error;
//! * the one-row and at-most-one-row query forms decide from the server's
//!   row set alone, with an if-and-only-if contract per row count;
//! * a streaming handle keeps driving the engine through an exclusive lease
//!   and loses the right when it is closed;
//! * a cancellation raced against a query resolves to either a cancellation
//!   error or an untouched result, and leaves the session consistent.

use vstd::prelude::*;

use crate::connect::ChannelKind;
use crate::connect::ConnectError;
use crate::connect::SslMode;
use crate::connect::chosen_transport;
use crate::connect::plan_transport;
use crate::engine::Engine;

verus! {

/// The minimal server-assigned identifiers a cancellation request carries:
/// the backend process and its secret key. Copyable and thread-transferable;
/// independent of the session it came from.
#[derive(Clone, Copy, PartialEq, Eq, Structural, Debug)]
pub struct CancelKey {
    pub process_id: i32,
    pub secret_key: i32,
}

/// A server-side prepared statement handle: an identity and the declared
/// number of parameters. Valid only while its originating session is open.
#[derive(Clone, Copy, PartialEq, Eq, Structural, Debug)]
pub struct Statement {
    pub id: u64,
    pub n_params: u64,
}

/// One execution's arguments, bound to a statement. The model carries each
/// bound value as an integer scalar; value encoding is an external
/// collaborator's concern.
pub struct BoundStatement {
    pub statement_id: u64,
    pub args: Vec<i64>,
}

/// The request frame one execution submits, as the session forwards it.
pub struct SubmittedFrame {
    pub statement_id: u64,
    pub args: Vec<i64>,
}

/// A per-call error the facade returns to the caller unchanged.
#[derive(Clone, Copy, PartialEq, Eq, Structural, Debug)]
pub enum QueryError {
    /// The server reported the query cancelled by an out-of-band request.
    Cancelled,
    /// The row set did not have the count the query form demands.
    UnexpectedRowCount,
}

/// The frame an execution of `statement` with `args` submits: a function of
/// the statement and that execution's own arguments, and of nothing else.
pub open spec fn submitted_frame(statement: Statement, args: Seq<i64>) -> (u64, Seq<i64>) {
    (statement.id, args)
}

/// Bind one execution's arguments to a prepared statement.
///
/// The argument count must equal the statement's declared parameter count:
/// a mismatch is an unrecoverable caller error, not a runtime condition, so
/// it is ruled out here rather than signalled. The values are carried
/// verbatim — binding shares nothing with any other binding.
pub fn bind(statement: &Statement, args: Vec<i64>) -> (bound: BoundStatement)
    requires
        args@.len() == statement.n_params,
    ensures
        bound.statement_id == statement.id,
        bound.args@ == args@,
{
    BoundStatement { statement_id: statement.id, args }
}

/// Keep exactly one row: the query form that owes its caller a single row.
/// Succeeds if and only if the server produced exactly one.
pub fn select_exactly_one(mut rows: Vec<Vec<i64>>) -> (selected: Result<Vec<i64>, QueryError>)
    ensures
        rows@.len() == 1 ==> (selected matches Ok(row) && row@ == rows@[0]@),
        rows@.len() != 1 ==> selected == Err::<Vec<i64>, QueryError>(QueryError::UnexpectedRowCount),
{
    if rows.len() == 1 {
        match rows.pop() {
            Some(row) => Ok(row),
            None => Err(QueryError::UnexpectedRowCount),
        }
    } else {
        Err(QueryError::UnexpectedRowCount)
    }
}

/// Keep at most one row: succeeds with the row when there is exactly one,
/// with nothing when there is none, and fails on any more.
pub fn select_at_most_one(mut rows: Vec<Vec<i64>>) -> (selected: Result<
    Option<Vec<i64>>,
    QueryError,
>)
    ensures
        rows@.len() == 0 ==> (selected matches Ok(row) && row is None),
        rows@.len() == 1 ==> (selected matches Ok(row) && row matches Some(r) && r@ == rows@[0]@),
        rows@.len() > 1 ==> selected == Err::<Option<Vec<i64>>, QueryError>(
            QueryError::UnexpectedRowCount,
        ),
{
    if rows.len() == 0 {
        Ok(None)
    } else if rows.len() == 1 {
        match rows.pop() {
            Some(row) => Ok(Some(row)),
            None => Err(QueryError::UnexpectedRowCount),
        }
    } else {
        Err(QueryError::UnexpectedRowCount)
    }
}

/// The frame a cancellation request sends on its fresh connection: exactly
/// the token's identifiers, nothing from any session.
pub fn cancel_request_frame(key: &CancelKey) -> (frame: (i32, i32))
    ensures
        frame == (key.process_id, key.secret_key),
{
    (key.process_id, key.secret_key)
}

/// A streaming handle's access right: rows (or copied bytes) are produced
/// lazily, one blocking advance per item, through an exclusive engine lease.
#[derive(Debug)]
pub struct StreamHandle {
    token: u64,
    statement_id: u64,
}

impl StreamHandle {
    /// The lease token this handle drives the engine under.
    pub closed spec fn token(self) -> u64 {
        self.token
    }

    /// The statement whose results this handle streams.
    pub closed spec fn statement_id(self) -> u64 {
        self.statement_id
    }
}

/// One physical connection's verified state.
pub struct Session {
    engine: Engine,
    transport: ChannelKind,
    key: CancelKey,
    closed: bool,
    next_statement: u64,
}

impl Session {
    /// The privately owned execution engine.
    pub closed spec fn engine(self) -> Engine {
        self.engine
    }

    /// The transport the connection settled on.
    pub closed spec fn transport(self) -> ChannelKind {
        self.transport
    }

    /// The cancellation identifiers the server assigned this connection.
    pub closed spec fn key(self) -> CancelKey {
        self.key
    }

    /// Whether the connection has been observed closed.
    pub closed spec fn closed(self) -> bool {
        self.closed
    }

    /// The identity the next prepared statement will carry.
    pub closed spec fn next_statement(self) -> u64 {
        self.next_statement
    }

    pub open spec fn wf(self) -> bool {
        self.engine().wf()
    }

    /// Ready for an ordinary blocking call: open, engine idle.
    pub open spec fn ready(self) -> bool {
        &&& self.wf()
        &&& !self.closed()
        &&& self.engine().idle()
    }

    /// Whether this session issued a statement with this identity: a
    /// prepared statement is valid only with its originating connection.
    pub open spec fn issued(self, statement_id: u64) -> bool {
        statement_id < self.next_statement()
    }

    /// Establish one connection: compose the transport decision, the TLS
    /// handshake outcome and the authentication outcome into exactly one
    /// result. A session value exists only on full success, so no query can
    /// ever be issued on a failed attempt; each failure is reported as the
    /// phase that caused it.
    pub fn establish(
        mode: SslMode,
        connector_can_tls: bool,
        server_accepts_tls: bool,
        handshake_done: bool,
        auth_ok: bool,
        key: CancelKey,
    ) -> (session: Result<Session, ConnectError>)
        ensures
            chosen_transport(mode, connector_can_tls, server_accepts_tls) matches Err(e)
                ==> session == Err::<Session, ConnectError>(e),
            chosen_transport(mode, connector_can_tls, server_accepts_tls)
                == Ok::<ChannelKind, ConnectError>(ChannelKind::Tls) && !handshake_done
                ==> session == Err::<Session, ConnectError>(ConnectError::HandshakeFailed),
            chosen_transport(mode, connector_can_tls, server_accepts_tls) matches Ok(kind)
                ==> ((kind == ChannelKind::Plain || handshake_done) && !auth_ok
                    ==> session == Err::<Session, ConnectError>(ConnectError::AuthenticationFailed)),
            chosen_transport(mode, connector_can_tls, server_accepts_tls) matches Ok(kind)
                ==> ((kind == ChannelKind::Plain || handshake_done) && auth_ok
                    ==> (session matches Ok(s) && s.ready() && s.transport() == kind
                        && s.key() == key && s.next_statement() == 0
                        && s.engine().ops_completed() == 0)),
    {
        let kind = match plan_transport(mode, connector_can_tls, server_accepts_tls) {
            Ok(kind) => kind,
            Err(e) => {
                return Err(e);
            }
        };
        if matches!(kind, ChannelKind::Tls) && !handshake_done {
            return Err(ConnectError::HandshakeFailed);
        }
        if !auth_ok {
            return Err(ConnectError::AuthenticationFailed);
        }
        Ok(
            Session {
                engine: Engine::new(),
                transport: kind,
                key,
                closed: false,
                next_statement: 0,
            },
        )
    }

    /// Create a prepared statement: one blocking engine resolution, a fresh
    /// identity, the declared parameter count recorded on the handle.
    pub fn prepare(&mut self, n_params: u64) -> (statement: Statement)
        requires
            old(self).ready(),
            old(self).next_statement() < u64::MAX,
        ensures
            final(self).ready(),
            statement.id == old(self).next_statement(),
            statement.n_params == n_params,
            final(self).issued(statement.id),
            final(self).next_statement() == old(self).next_statement() + 1,
            final(self).engine().ops_completed() == old(self).engine().ops_completed() + 1,
            final(self).engine().next_token() == old(self).engine().next_token(),
            final(self).transport() == old(self).transport(),
            final(self).key() == old(self).key(),
    {
        self.engine.run_blocking();
        let statement = Statement { id: self.next_statement, n_params };
        self.next_statement = self.next_statement + 1;
        statement
    }

    /// Execute one bound statement: block until the engine resolves it,
    /// submit exactly the execution's own frame — the arguments it was
    /// bound with, verbatim, nothing from any other call — and return what
    /// the asynchronous collaborator resolved the call to, unchanged, with
    /// no additional wrapping of result or error. The statement must be one
    /// this session issued: a handle is valid only with its originating
    /// connection.
    pub fn execute<T, E>(&mut self, bound: &BoundStatement, resolved: Result<T, E>) -> (outcome: (
        SubmittedFrame,
        Result<T, E>,
    ))
        requires
            old(self).ready(),
            old(self).issued(bound.statement_id),
        ensures
            final(self).ready(),
            outcome.0.statement_id == bound.statement_id,
            outcome.0.args@ == bound.args@,
            outcome.1 == resolved,
            final(self).engine().ops_completed() == old(self).engine().ops_completed() + 1,
            final(self).engine().next_token() == old(self).engine().next_token(),
            final(self).next_statement() == old(self).next_statement(),
            final(self).transport() == old(self).transport(),
            final(self).key() == old(self).key(),
    {
        self.engine.run_blocking();
        let mut args: Vec<i64> = Vec::new();
        let mut i: usize = 0;
        while i < bound.args.len()
            invariant
                0 <= i <= bound.args@.len(),
                args@ == bound.args@.take(i as int),
            decreases bound.args@.len() - i,
        {
            args.push(bound.args[i]);
            i = i + 1;
        }
        proof {
            assert(args@ =~= bound.args@);
        }
        (SubmittedFrame { statement_id: bound.statement_id, args }, resolved)
    }

    /// Execute a query raced by an out-of-band cancellation. Whether the
    /// cancellation arrived before the query completed is the server's to
    /// decide and is handed in as the event: if it did, this call yields the
    /// cancellation error; if not, the outcome is exactly the unraced one —
    /// the collaborator's resolution, unchanged. Either way the call
    /// terminates and the session is ready again: the race never deadlocks
    /// it, corrupts it, or closes it.
    pub fn execute_racing_cancel<T, E>(
        &mut self,
        bound: &BoundStatement,
        resolved: Result<T, E>,
        cancelled_in_flight: bool,
    ) -> (outcome: Result<(SubmittedFrame, Result<T, E>), QueryError>)
        requires
            old(self).ready(),
            old(self).issued(bound.statement_id),
        ensures
            final(self).ready(),
            cancelled_in_flight ==> (outcome matches Err(e) && e == QueryError::Cancelled),
            !cancelled_in_flight ==> (outcome matches Ok(unraced) && unraced.0.statement_id
                == bound.statement_id && unraced.0.args@ == bound.args@ && unraced.1 == resolved),
            final(self).engine().ops_completed() == old(self).engine().ops_completed() + 1,
            final(self).engine().next_token() == old(self).engine().next_token(),
            final(self).next_statement() == old(self).next_statement(),
            final(self).transport() == old(self).transport(),
            final(self).key() == old(self).key(),
    {
        let unraced = self.execute(bound, resolved);
        if cancelled_in_flight {
            Err(QueryError::Cancelled)
        } else {
            Ok(unraced)
        }
    }

    /// Open a lazy row stream. Whether the collaborator's call produced a
    /// stream is handed in as the event: on failure its error is returned
    /// unchanged, no handle is constructed, and the session stays ready for
    /// ordinary calls. On success the returned handle borrows the engine's
    /// access right, so the session itself admits no other call until the
    /// handle is closed.
    pub fn open_stream<E>(&mut self, bound: &BoundStatement, started: Result<(), E>) -> (outcome:
        Result<StreamHandle, E>)
        requires
            old(self).ready(),
            old(self).issued(bound.statement_id),
            old(self).engine().next_token() < u64::MAX,
        ensures
            final(self).wf(),
            !final(self).closed(),
            started matches Err(e) ==> (outcome matches Err(out) && out == e
                && final(self).ready()
                && final(self).engine().next_token() == old(self).engine().next_token()),
            started is Ok ==> (outcome matches Ok(stream) && final(self).engine().granted()
                == Some(stream.token()) && stream.token() == old(self).engine().next_token()
                && stream.statement_id() == bound.statement_id && final(self).engine().next_token()
                == old(self).engine().next_token() + 1),
            final(self).engine().ops_completed() == old(self).engine().ops_completed() + 1,
            final(self).next_statement() == old(self).next_statement(),
            final(self).transport() == old(self).transport(),
            final(self).key() == old(self).key(),
    {
        self.engine.run_blocking();
        match started {
            Ok(()) => {
                let token = self.engine.lease();
                Ok(StreamHandle { token, statement_id: bound.statement_id })
            }
            Err(e) => Err(e),
        }
    }

    /// One blocking advance of a live stream: produce the next item. Only
    /// the handle holding the lease may drive.
    pub fn stream_advance(&mut self, stream: &StreamHandle)
        requires
            old(self).wf(),
            old(self).engine().granted() == Some(stream.token()),
        ensures
            final(self).wf(),
            final(self).engine().granted() == old(self).engine().granted(),
            final(self).engine().ops_completed() == old(self).engine().ops_completed() + 1,
            final(self).engine().next_token() == old(self).engine().next_token(),
            final(self).closed() == old(self).closed(),
            final(self).next_statement() == old(self).next_statement(),
            final(self).transport() == old(self).transport(),
            final(self).key() == old(self).key(),
    {
        self.engine.drive(stream.token);
    }

    /// Close a stream: the handle is consumed, its access right ends, and
    /// the session takes ordinary calls again.
    pub fn close_stream(&mut self, stream: StreamHandle)
        requires
            old(self).wf(),
            old(self).engine().granted() == Some(stream.token()),
        ensures
            final(self).wf(),
            final(self).engine().idle(),
            final(self).engine().ops_completed() == old(self).engine().ops_completed(),
            final(self).engine().next_token() == old(self).engine().next_token(),
            final(self).closed() == old(self).closed(),
            final(self).next_statement() == old(self).next_statement(),
            final(self).transport() == old(self).transport(),
            final(self).key() == old(self).key(),
    {
        self.engine.release(stream.token);
    }

    /// A detached cancellation handle. It copies the server-assigned
    /// identifiers out of the session and shares nothing else with it: the
    /// borrow is shared, so taking the token can change no session state,
    /// and invoking it later acts over an independent connection.
    pub fn cancel_token(&self) -> (token: CancelKey)
        ensures
            token == self.key(),
    {
        self.key
    }

    /// Liveness probe: whether the connection has been observed closed.
    pub fn is_closed(&self) -> (closed: bool)
        ensures
            closed == self.closed(),
    {
        self.closed
    }

    /// Record that the background connection driver reported the connection
    /// closed. The session is no longer usable for calls.
    pub fn mark_closed(&mut self)
        requires
            old(self).wf(),
        ensures
            final(self).wf(),
            final(self).closed(),
            final(self).engine() == old(self).engine(),
            final(self).next_statement() == old(self).next_statement(),
            final(self).transport() == old(self).transport(),
            final(self).key() == old(self).key(),
    {
        self.closed = true;
    }
}

/// While a streaming handle holds the engine's lease, the session is not
/// ready: every ordinary facade call needs the engine idle, so no operation
/// can interleave with a live stream — one in-flight operation at most.
pub proof fn lemma_live_stream_excludes_calls(session: Session, stream: StreamHandle)
    requires
        session.engine().granted() == Some(stream.token()),
    ensures
        !session.ready(),
{
}

/// Executions of one prepared statement are independent: each submits a
/// frame carrying exactly its own arguments, so a value bound for one
/// execution can never reach another, and distinct arguments always submit
/// distinct frames.
pub proof fn lemma_executions_independent(statement: Statement, first: Seq<i64>, second: Seq<i64>)
    ensures
        submitted_frame(statement, first).1 == first,
        submitted_frame(statement, second).1 == second,
        first != second ==> submitted_frame(statement, first) != submitted_frame(
            statement,
            second,
        ),
{
}

} // verus!
