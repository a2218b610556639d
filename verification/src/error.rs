//! The errors of the database layer.

use vstd::prelude::*;

verus! {

/// An error from the database layer. Each variant keeps the message of the
/// failure that caused it.
#[derive(Clone, Debug, PartialEq, Eq)]
pub enum DbErr {
    /// A connection could not be established: the URL was not accepted, or
    /// the pool could not connect.
    Conn(String),
    /// The backend rejected a statement that was to be executed.
    Exec(String),
    /// A query failed. A query that matches no row is not a failure.
    Query(String),
    /// A value of a row could not be read as the type that was asked for, or
    /// the row has no such column.
    Decode(String),
}

/// The mathematical value of a [`DbErr`].
pub enum DbErrView {
    Conn(Seq<char>),
    Exec(Seq<char>),
    Query(Seq<char>),
    Decode(Seq<char>),
}

impl View for DbErr {
    type V = DbErrView;

    open spec fn view(&self) -> DbErrView {
        match self {
            DbErr::Conn(message) => DbErrView::Conn(message@),
            DbErr::Exec(message) => DbErrView::Exec(message@),
            DbErr::Query(message) => DbErrView::Query(message@),
            DbErr::Decode(message) => DbErrView::Decode(message@),
        }
    }
}

impl DbErr {
    /// The message of the failure.
    pub open spec fn spec_message(&self) -> Seq<char> {
        match self {
            DbErr::Conn(message) => message@,
            DbErr::Exec(message) => message@,
            DbErr::Query(message) => message@,
            DbErr::Decode(message) => message@,
        }
    }

    /// The message of the failure.
    pub fn message(&self) -> (message: &String)
        ensures
            message@ == self.spec_message(),
    {
        match self {
            DbErr::Conn(message) => message,
            DbErr::Exec(message) => message,
            DbErr::Query(message) => message,
            DbErr::Decode(message) => message,
        }
    }
}

/// The error of a transaction that ran a caller's code: either the database
/// failed, or the caller's code did.
#[derive(Debug, PartialEq, Eq)]
pub enum TransactionError<E> {
    /// The connection or the backend failed.
    Connection(DbErr),
    /// The caller's code failed with this error.
    Transaction(E),
}

} // verus!
