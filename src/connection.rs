use vstd::prelude::*;
use crate::error::{db_error_message, DbError, Error};
use crate::queries::Queries;

verus! {

/// What polling a connection's termination signal showed: its background
/// driver task has ended, or it is still running.
#[derive(Copy, Clone, Debug, PartialEq, Eq, Structural)]
pub enum TerminationSignal {
    Fired,
    Pending,
}

/// A database connection: the client, the statements prepared on it, the
/// signal its background task fires on ending, and whether it is broken.
pub struct Connection<C, S, R> {
    pub client: C,
    pub queries: Queries<S>,
    pub receiver: R,
    broken: bool,
}

/// Whether a connection reports itself broken, given what its signal shows.
pub open spec fn reports_broken<C, S, R>(conn: Connection<C, S, R>, signal: TerminationSignal) -> bool {
    conn.is_broken() || signal is Fired
}

impl<C, S, R> Connection<C, S, R> {
    pub closed spec fn is_broken(&self) -> bool {
        self.broken
    }

    /// The client, the prepared statements and the termination signal.
    pub closed spec fn contents(&self) -> (C, Queries<S>, R) {
        (self.client, self.queries, self.receiver)
    }

    /// A freshly prepared connection, not broken.
    pub fn new(client: C, queries: Queries<S>, receiver: R) -> (r: Connection<C, S, R>)
        ensures
            !r.is_broken(),
            r.contents() == (client, queries, receiver),
    {
        Connection { client, queries, receiver, broken: false }
    }

    /// Marks the connection broken; it is never handed out again.
    pub fn mark_broken(&mut self)
        ensures
            final(self).is_broken(),
            final(self).contents() == old(self).contents(),
    {
        self.broken = true;
    }

    /// Whether the connection is broken: it was marked so, or its
    /// background task has ended. An ended task marks it for good.
    pub fn has_broken(&mut self, signal: TerminationSignal) -> (r: bool)
        ensures
            r == reports_broken(*old(self), signal),
            final(self).is_broken() == r,
            final(self).contents() == old(self).contents(),
    {
        if self.broken {
            return true;
        }
        match signal {
            TerminationSignal::Fired => {
                self.broken = true;
                true
            },
            TerminationSignal::Pending => false,
        }
    }
}

/// A connection once found broken stays broken, whatever its signal shows
/// later, so the pool never hands it out again.
pub proof fn broken_stays_broken<C, S, R>(conn: Connection<C, S, R>, later: TerminationSignal)
    requires
        conn.is_broken(),
    ensures
        reports_broken(conn, later),
{
}

/// Why no connection could be had from the pool.
#[derive(Debug)]
pub enum PoolError {
    /// The pool itself failed.
    Internal,
    /// Connecting or preparing failed.
    External(DbError),
    /// None became free before the deadline.
    TimedOut,
}

/// The error that stands for a connection not handed out in time.
pub fn timed_out() -> (r: PoolError)
    ensures
        r is TimedOut,
{
    PoolError::TimedOut
}

impl Error {
    /// The error for a failed connection request.
    pub fn from_pool(e: PoolError) -> (r: Error)
        ensures
            match e {
                PoolError::Internal => r is Internal,
                PoolError::TimedOut => r is DatabaseTimedOut,
                PoolError::External(d) => r matches Error::Database(m) && m@ == db_error_message(d),
            },
    {
        match e {
            PoolError::Internal => Error::Internal,
            PoolError::TimedOut => Error::DatabaseTimedOut,
            PoolError::External(d) => Error::from_db(d),
        }
    }
}

} // verus!
