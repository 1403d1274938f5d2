//! Transaction discipline: commit or roll back, exactly once.
//!
//! A [`Transaction`] buffers the effects run under it; none of them touches
//! the durable state while the transaction is open. It must reach exactly
//! one terminal state — the terminal operations consume the value, so a
//! second resolution is impossible at compile time. Committing makes every
//! buffered effect durable, in order; rolling back, or abandoning the value
//! on scope exit without a commit, leaves the durable state exactly as it
//! was: an unfinished unit of work is never silently committed. In the
//! running system the scope-exit path issues its rollback best-effort and
//! swallows a remediation failure, since scope-exit code cannot report one;
//! what it may never do — persist anything — is what is proved here.
//!
//! The builder carries the attributes a transaction may be begun with and
//! records exactly what was set, so the begin command reflects the caller's
//! choices and nothing else.

use vstd::prelude::*;

verus! {

/// The isolation level a transaction may be begun with.
#[derive(Clone, Copy, PartialEq, Eq, Structural, Debug)]
pub enum IsolationLevel {
    ReadUncommitted,
    ReadCommitted,
    RepeatableRead,
    Serializable,
}

/// Attributes for beginning a transaction with custom settings. Each setter
/// records its choice; an attribute never set is left to the server's
/// default.
#[derive(Clone, Copy, PartialEq, Eq, Structural, Debug)]
pub struct TransactionBuilder {
    pub isolation: Option<IsolationLevel>,
    pub read_only: Option<bool>,
    pub deferrable: Option<bool>,
}

impl TransactionBuilder {
    /// A builder with every attribute left to its default.
    pub fn new() -> (builder: TransactionBuilder)
        ensures
            builder.isolation is None,
            builder.read_only is None,
            builder.deferrable is None,
    {
        TransactionBuilder { isolation: None, read_only: None, deferrable: None }
    }

    /// Choose the isolation level.
    pub fn isolation_level(self, level: IsolationLevel) -> (builder: TransactionBuilder)
        ensures
            builder.isolation == Some(level),
            builder.read_only == self.read_only,
            builder.deferrable == self.deferrable,
    {
        TransactionBuilder { isolation: Some(level), ..self }
    }

    /// Choose read-only access.
    pub fn read_only(self, read_only: bool) -> (builder: TransactionBuilder)
        ensures
            builder.read_only == Some(read_only),
            builder.isolation == self.isolation,
            builder.deferrable == self.deferrable,
    {
        TransactionBuilder { read_only: Some(read_only), ..self }
    }

    /// Choose deferrable constraint checking.
    pub fn deferrable(self, deferrable: bool) -> (builder: TransactionBuilder)
        ensures
            builder.deferrable == Some(deferrable),
            builder.isolation == self.isolation,
            builder.read_only == self.read_only,
    {
        TransactionBuilder { deferrable: Some(deferrable), ..self }
    }

    /// Begin a transaction with these attributes: the begin command carries
    /// exactly the recorded choices, and the open transaction has run
    /// nothing yet.
    pub fn start(self) -> (transaction: Transaction)
        ensures
            transaction.pending() == Seq::<i64>::empty(),
            transaction.attrs() == self,
    {
        Transaction { work: Vec::new(), attrs: self }
    }
}

/// One open unit of work. In the running system the transaction borrows its
/// client for its whole scope, so no other call can interleave with it; the
/// model carries the effects it has run, not yet visible anywhere.
pub struct Transaction {
    work: Vec<i64>,
    attrs: TransactionBuilder,
}

impl Transaction {
    /// The effects run under this transaction, in order, none durable yet.
    pub closed spec fn pending(self) -> Seq<i64> {
        self.work@
    }

    /// The attributes this transaction was begun with.
    pub closed spec fn attrs(self) -> TransactionBuilder {
        self.attrs
    }

    /// Begin: an open transaction with nothing run, every attribute left to
    /// the server's default.
    pub fn begin() -> (transaction: Transaction)
        ensures
            transaction.pending() == Seq::<i64>::empty(),
            transaction.attrs() == (TransactionBuilder {
                isolation: None,
                read_only: None,
                deferrable: None,
            }),
    {
        let transaction = Transaction { work: Vec::new(), attrs: TransactionBuilder::new() };
        proof {
            assert(transaction.work@ =~= Seq::<i64>::empty());
        }
        transaction
    }

    /// The attributes the begin command carried, as the shell submits them.
    pub fn begun_with(&self) -> (attrs: TransactionBuilder)
        ensures
            attrs == self.attrs(),
    {
        self.attrs
    }

    /// Run one effect under the transaction: buffered, in order, and still
    /// invisible to the durable state.
    pub fn run(&mut self, effect: i64)
        ensures
            final(self).pending() == old(self).pending().push(effect),
            final(self).attrs() == old(self).attrs(),
    {
        self.work.push(effect);
    }

    /// Commit: every effect run under the transaction becomes durable, in
    /// the order it was run. The transaction is consumed — it can never be
    /// resolved a second time.
    pub fn commit(self, durable: &mut Vec<i64>)
        ensures
            final(durable)@ == old(durable)@ + self.pending(),
    {
        let mut work = self.work;
        let ghost committed = work@;
        let mut i: usize = 0;
        while i < work.len()
            invariant
                0 <= i <= work@.len(),
                work@ == committed,
                durable@ == old(durable)@ + committed.take(i as int),
            decreases work@.len() - i,
        {
            durable.push(work[i]);
            proof {
                assert(committed.take(i + 1) =~= committed.take(i as int).push(committed[i as int]));
            }
            i = i + 1;
        }
        proof {
            assert(committed.take(committed.len() as int) =~= committed);
        }
    }

    /// Roll back explicitly: the durable state is exactly what it was when
    /// the transaction began; everything run under it is discarded.
    pub fn rollback(self, durable: &mut Vec<i64>)
        ensures
            final(durable)@ == old(durable)@,
    {
    }

    /// What scope exit without a commit does: a best-effort rollback whose
    /// failure is swallowed. Whatever became of the remediation, nothing the
    /// transaction ran is ever durable.
    pub fn abandon(self, durable: &mut Vec<i64>)
        ensures
            final(durable)@ == old(durable)@,
    {
    }
}

} // verus!
