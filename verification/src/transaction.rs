//! Transactions: the states they go through, and what is made of what the
//! backend answers to `begin`, `commit` and `rollback`.

use vstd::prelude::*;
use vstd::string::StringExecFns;
use crate::database::InnerConnection;
use crate::driver::sqlx_common::{
    sqlx_error_io, sqlx_error_is_io, sqlx_error_message, sqlx_error_text,
    sqlx_error_to_exec_err, sqlx_error_to_query_err,
};
use crate::executor::{ExecResult, ExecResultHolder};
use crate::error::{DbErr, DbErrView, TransactionError};

verus! {

/// The state of a transaction. It starts as `Started` and ends as
/// `Committed` or as `RolledBack`; an ended transaction does not change.
#[derive(Clone, Copy, Debug, PartialEq, Eq, Structural)]
pub enum TransactionState {
    /// The backend has begun the transaction and it takes statements.
    Started,
    /// The transaction's changes are kept.
    Committed,
    /// The transaction's changes are undone.
    RolledBack,
}

/// How a transaction is brought to its end.
#[derive(Clone, Copy, Debug, PartialEq, Eq, Structural)]
pub enum Completion {
    /// Keep the changes.
    Commit,
    /// Undo the changes.
    Rollback,
}

impl TransactionState {
    /// Whether the transaction has ended.
    pub open spec fn spec_is_terminal(self) -> bool {
        self != TransactionState::Started
    }

    /// Whether the transaction has ended.
    #[verifier::when_used_as_spec(spec_is_terminal)]
    pub fn is_terminal(self) -> (terminal: bool)
        ensures
            terminal == self.spec_is_terminal(),
    {
        match self {
            TransactionState::Started => false,
            TransactionState::Committed => true,
            TransactionState::RolledBack => true,
        }
    }

    /// The state after the backend has answered a commit or a rollback. A
    /// started transaction is committed by a commit that succeeded and is
    /// rolled back otherwise: by a rollback, and by a commit that failed. An
    /// ended transaction stays as it is.
    pub open spec fn spec_completed(self, completion: Completion, succeeded: bool) -> TransactionState {
        match self {
            TransactionState::Started => if completion == Completion::Commit && succeeded {
                TransactionState::Committed
            } else {
                TransactionState::RolledBack
            },
            ended => ended,
        }
    }

    /// The state after the backend has answered a commit or a rollback.
    #[verifier::when_used_as_spec(spec_completed)]
    pub fn completed(self, completion: Completion, succeeded: bool) -> (next: TransactionState)
        ensures
            next == self.spec_completed(completion, succeeded),
    {
        match self {
            TransactionState::Started => match completion {
                Completion::Commit => if succeeded {
                    TransactionState::Committed
                } else {
                    TransactionState::RolledBack
                },
                Completion::Rollback => TransactionState::RolledBack,
            },
            TransactionState::Committed => TransactionState::Committed,
            TransactionState::RolledBack => TransactionState::RolledBack,
        }
    }

    /// The state after the connection was lost: a started transaction is
    /// rolled back, an ended one stays as it is.
    pub open spec fn spec_connection_lost(self) -> TransactionState {
        match self {
            TransactionState::Started => TransactionState::RolledBack,
            ended => ended,
        }
    }

    /// The state after the connection was lost.
    #[verifier::when_used_as_spec(spec_connection_lost)]
    pub fn connection_lost(self) -> (next: TransactionState)
        ensures
            next == self.spec_connection_lost(),
    {
        match self {
            TransactionState::Started => TransactionState::RolledBack,
            TransactionState::Committed => TransactionState::Committed,
            TransactionState::RolledBack => TransactionState::RolledBack,
        }
    }
}

/// The message of the error for a request on a transaction that has ended.
pub open spec fn closed_transaction_text() -> Seq<char> {
    "The transaction has ended and its connection takes no more requests."@
}

/// How the transaction that ran a caller's code is completed: committed if
/// the code succeeded, rolled back if it failed.
pub fn run_completion<T, E>(callback: &Result<T, E>) -> (completion: Completion)
    ensures
        completion == if callback is Ok {
            Completion::Commit
        } else {
            Completion::Rollback
        },
{
    match callback {
        Ok(_) => Completion::Commit,
        Err(_) => Completion::Rollback,
    }
}

/// What a commit or rollback comes to, given the backend's answer: a failure
/// is a connection error with the client's message.
pub fn completion_result(outcome: Result<(), sqlx::Error>) -> (result: Result<(), DbErr>)
    ensures
        match outcome {
            Ok(_) => result is Ok,
            Err(error) => result matches Err(err) && err@ == DbErrView::Conn(sqlx_error_text(error)),
        },
{
    match outcome {
        Ok(_) => Ok(()),
        Err(error) => Err(DbErr::Conn(sqlx_error_message(&error))),
    }
}

/// The result of running a caller's code in a transaction, given what the
/// code returned and what the completion that followed it came to.
///
/// If the completion failed, the result is that failure, tagged as a failure
/// of the connection. Otherwise it is what the code returned, with the
/// code's error tagged as a failure of the code.
pub fn run_result<T, E>(callback: Result<T, E>, completed: Result<(), DbErr>) -> (result: Result<
    T,
    TransactionError<E>,
>)
    ensures
        match (callback, completed) {
            (_, Err(err)) => result == Err::<T, TransactionError<E>>(
                TransactionError::Connection(err),
            ),
            (Ok(value), Ok(_)) => result == Ok::<T, TransactionError<E>>(value),
            (Err(error), Ok(_)) => result == Err::<T, TransactionError<E>>(
                TransactionError::Transaction(error),
            ),
        },
{
    match completed {
        Err(err) => Err(TransactionError::Connection(err)),
        Ok(_) => match callback {
            Ok(value) => Ok(value),
            Err(error) => Err(TransactionError::Transaction(error)),
        },
    }
}

/// A transaction on one connection leased from the pool, of the client's
/// type `C`. The transaction owns the lease until it is dropped.
pub struct DatabaseTransaction<C> {
    /// The connection that the transaction runs on.
    pub conn: InnerConnection<C>,
    state: TransactionState,
}

impl<C> DatabaseTransaction<C> {
    /// The transaction's state.
    pub closed spec fn spec_state(&self) -> TransactionState {
        self.state
    }

    /// The connection that the transaction runs on.
    pub closed spec fn spec_conn(&self) -> InnerConnection<C> {
        self.conn
    }

    /// The transaction's state.
    #[verifier::when_used_as_spec(spec_state)]
    pub fn state(&self) -> (state: TransactionState)
        ensures
            state == self.spec_state(),
    {
        self.state
    }

    /// The transaction on a connection on which the backend was asked to
    /// begin one, given the backend's answer. If the backend refused, the
    /// result is a query error with the client's message, and the connection
    /// is dropped and so goes back to the pool.
    pub fn new_postgres(conn: C, begun: Result<(), sqlx::Error>) -> (result: Result<
        DatabaseTransaction<C>,
        DbErr,
    >)
        ensures
            match begun {
                Ok(_) => result matches Ok(transaction) && transaction.spec_state()
                    == TransactionState::Started && transaction.spec_conn()
                    == InnerConnection::Postgres(conn),
                Err(error) => result matches Err(err) && err@ == DbErrView::Query(
                    sqlx_error_text(error),
                ),
            },
    {
        match begun {
            Ok(_) => Ok(
                DatabaseTransaction {
                    conn: InnerConnection::Postgres(conn),
                    state: TransactionState::Started,
                },
            ),
            Err(error) => Err(sqlx_error_to_query_err(error)),
        }
    }

    /// Whether the transaction takes a request: it does while it is started.
    /// After it has ended, the answer is a connection error.
    pub fn check_started(&self) -> (result: Result<(), DbErr>)
        ensures
            self.spec_state() == TransactionState::Started ==> result is Ok,
            self.spec_state() != TransactionState::Started ==> (result matches Err(err) && err@
                == DbErrView::Conn(closed_transaction_text())),
    {
        match self.state {
            TransactionState::Started => Ok(()),
            _ => Err(
                DbErr::Conn(
                    String::from_str(
                        "The transaction has ended and its connection takes no more requests.",
                    ),
                ),
            ),
        }
    }

    /// Records the client's answer to a request that was sent on the
    /// transaction's connection. If the answer is that communicating with
    /// the backend failed, the connection is lost, and a started transaction
    /// is then rolled back; any other answer leaves the state as it is.
    pub fn answered<T>(&mut self, answer: &Result<T, sqlx::Error>)
        ensures
            final(self).spec_conn() == old(self).spec_conn(),
            final(self).spec_state() == (match *answer {
                Err(error) if sqlx_error_is_io(error) => old(self).spec_state().spec_connection_lost(),
                _ => old(self).spec_state(),
            }),
    {
        match answer {
            Ok(_) => {},
            Err(error) => {
                if sqlx_error_io(error) {
                    self.connection_lost();
                }
            },
        }
    }

    /// The result of executing a statement in the transaction, given the
    /// client's answer, which is recorded as by [`Self::answered`]: the
    /// backend's outcome, or an execution error with the client's message.
    pub fn execute(&mut self, answer: Result<sqlx::postgres::PgQueryResult, sqlx::Error>) -> (result:
        Result<ExecResult, DbErr>)
        ensures
            final(self).spec_conn() == old(self).spec_conn(),
            match answer {
                Ok(done) => final(self).spec_state() == old(self).spec_state() && result == Ok::<
                    ExecResult,
                    DbErr,
                >(ExecResult { result: ExecResultHolder::SqlxPostgres(done) }),
                Err(error) => final(self).spec_state() == (if sqlx_error_is_io(error) {
                    old(self).spec_state().spec_connection_lost()
                } else {
                    old(self).spec_state()
                }) && (result matches Err(err) && err@ == DbErrView::Exec(sqlx_error_text(error))),
            },
    {
        self.answered(&answer);
        match answer {
            Ok(done) => Ok(ExecResult::from(done)),
            Err(error) => Err(sqlx_error_to_exec_err(error)),
        }
    }

    /// Records that the connection was lost. A started transaction is then
    /// rolled back.
    pub fn connection_lost(&mut self)
        ensures
            final(self).spec_state() == old(self).spec_state().spec_connection_lost(),
            final(self).spec_conn() == old(self).spec_conn(),
    {
        self.state = self.state.connection_lost();
    }

    /// Ends a started transaction with the backend's answer to a commit. The
    /// transaction is committed if the commit succeeded; if not, it is
    /// rolled back and the result is a connection error.
    pub fn commit(&mut self, outcome: Result<(), sqlx::Error>) -> (result: Result<(), DbErr>)
        requires
            old(self).spec_state() == TransactionState::Started,
        ensures
            final(self).spec_conn() == old(self).spec_conn(),
            match outcome {
                Ok(_) => result is Ok && final(self).spec_state() == TransactionState::Committed,
                Err(error) => final(self).spec_state() == TransactionState::RolledBack && (
                result matches Err(err) && err@ == DbErrView::Conn(sqlx_error_text(error))),
            },
    {
        self.state = self.state.completed(Completion::Commit, outcome.is_ok());
        completion_result(outcome)
    }

    /// Ends a started transaction with the backend's answer to a rollback.
    /// The transaction is rolled back; if the rollback failed, the result is
    /// a connection error.
    pub fn rollback(&mut self, outcome: Result<(), sqlx::Error>) -> (result: Result<(), DbErr>)
        requires
            old(self).spec_state() == TransactionState::Started,
        ensures
            final(self).spec_conn() == old(self).spec_conn(),
            final(self).spec_state() == TransactionState::RolledBack,
            match outcome {
                Ok(_) => result is Ok,
                Err(error) => result matches Err(err) && err@ == DbErrView::Conn(
                    sqlx_error_text(error),
                ),
            },
    {
        self.state = self.state.completed(Completion::Rollback, outcome.is_ok());
        completion_result(outcome)
    }

    /// Ends a started transaction that ran a caller's code, given what the
    /// code returned and the backend's answer to the completion that
    /// [`run_completion`] chose for it.
    ///
    /// The transaction is committed if the code succeeded and the commit did
    /// too, and rolled back otherwise. The result is the code's value if the
    /// transaction is committed, the code's error tagged as such if the code
    /// failed and the rollback succeeded, and the failed completion's error
    /// tagged as a failure of the connection otherwise.
    pub fn run<T, E>(&mut self, callback: Result<T, E>, outcome: Result<(), sqlx::Error>) -> (result:
        Result<T, TransactionError<E>>)
        requires
            old(self).spec_state() == TransactionState::Started,
        ensures
            final(self).spec_conn() == old(self).spec_conn(),
            final(self).spec_state() == if callback is Ok && outcome is Ok {
                TransactionState::Committed
            } else {
                TransactionState::RolledBack
            },
            match (callback, outcome) {
                (Ok(value), Ok(_)) => result == Ok::<T, TransactionError<E>>(value),
                (Err(error), Ok(_)) => result == Err::<T, TransactionError<E>>(
                    TransactionError::Transaction(error),
                ),
                (_, Err(failure)) => result matches Err(TransactionError::Connection(err)) && err@
                    == DbErrView::Conn(sqlx_error_text(failure)),
            },
    {
        let completed = match run_completion(&callback) {
            Completion::Commit => self.commit(outcome),
            Completion::Rollback => self.rollback(outcome),
        };
        run_result(callback, completed)
    }
}

/// A failure of the caller's code in a transaction can be told from a
/// failure of the connection: the two are never the same error.
pub proof fn logic_failure_is_not_connection_failure<E>(logic: E, connection: DbErr)
    ensures
        TransactionError::Transaction(logic) != TransactionError::<E>::Connection(connection),
{
}

/// A transaction that has ended stays in its state whatever comes.
pub proof fn ended_transaction_does_not_change(
    state: TransactionState,
    completion: Completion,
    succeeded: bool,
)
    requires
        state.is_terminal(),
    ensures
        state.completed(completion, succeeded) == state,
        state.connection_lost() == state,
{
}

/// Whatever comes to a started transaction ends it.
pub proof fn started_transaction_ends(completion: Completion, succeeded: bool)
    ensures
        TransactionState::Started.completed(completion, succeeded).is_terminal(),
        TransactionState::Started.connection_lost() == TransactionState::RolledBack,
        TransactionState::Started.completed(completion, succeeded) == TransactionState::Committed
            <==> completion == Completion::Commit && succeeded,
{
}

} // verus!
