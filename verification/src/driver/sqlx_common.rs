//! What the drivers make of the errors of the SQL client.

use vstd::prelude::*;
use crate::error::{DbErr, DbErrView};

verus! {

/// The SQL client's error.
#[verifier::external_type_specification]
#[verifier::external_body]
pub struct ExSqlxError(sqlx::Error);

/// The message that the SQL client writes for an error.
pub uninterp spec fn sqlx_error_text(error: sqlx::Error) -> Seq<char>;

/// Whether the error says that a query which expects a row matched none.
pub uninterp spec fn sqlx_error_is_row_not_found(error: sqlx::Error) -> bool;

/// Whether the error says that communicating with the backend failed.
pub uninterp spec fn sqlx_error_is_io(error: sqlx::Error) -> bool;

/// `sqlx::Error`'s `to_string`: the error's message.
#[verifier::external_body]
pub(crate) fn sqlx_error_message(error: &sqlx::Error) -> (message: String)
    ensures
        message@ == sqlx_error_text(*error),
{
    error.to_string()
}

/// Tells `sqlx::Error::RowNotFound` from the other variants.
#[verifier::external_body]
pub(crate) fn sqlx_error_row_not_found(error: &sqlx::Error) -> (found: bool)
    ensures
        found == sqlx_error_is_row_not_found(*error),
{
    match error {
        sqlx::Error::RowNotFound => true,
        _ => false,
    }
}

/// Tells `sqlx::Error::Io` from the other variants.
#[verifier::external_body]
pub(crate) fn sqlx_error_io(error: &sqlx::Error) -> (io: bool)
    ensures
        io == sqlx_error_is_io(*error),
{
    match error {
        sqlx::Error::Io(_) => true,
        _ => false,
    }
}

/// The error of a statement that the backend did not execute.
pub fn sqlx_error_to_exec_err(error: sqlx::Error) -> (err: DbErr)
    ensures
        err@ == DbErrView::Exec(sqlx_error_text(error)),
{
    DbErr::Exec(sqlx_error_message(&error))
}

/// The error of a query that failed.
pub fn sqlx_error_to_query_err(error: sqlx::Error) -> (err: DbErr)
    ensures
        err@ == DbErrView::Query(sqlx_error_text(error)),
{
    DbErr::Query(sqlx_error_message(&error))
}

/// The error of a connection that could not be established.
pub fn sqlx_error_to_conn_err(error: sqlx::Error) -> (err: DbErr)
    ensures
        err@ == DbErrView::Conn(sqlx_error_text(error)),
{
    DbErr::Conn(sqlx_error_message(&error))
}

/// The error of a value that could not be read from a row. The client's
/// message names the column, and the types where they do not agree.
pub fn sqlx_error_to_decode_err(error: sqlx::Error) -> (err: DbErr)
    ensures
        err@ == DbErrView::Decode(sqlx_error_text(error)),
{
    DbErr::Decode(sqlx_error_message(&error))
}

} // verus!
