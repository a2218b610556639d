//! Statements, and the results of running them.

use vstd::prelude::*;
use vstd::std_specs::convert::FromSpecImpl;
use crate::backend::DbBackend;
use crate::driver::sqlx_common::{sqlx_error_text, sqlx_error_to_decode_err};
use crate::error::{DbErr, DbErrView};

verus! {

/// The values bound to a statement's placeholders.
#[verifier::external_type_specification]
#[verifier::external_body]
pub struct ExValues(sea_query::Values);

/// The PostgreSQL client's row.
#[verifier::external_type_specification]
#[verifier::external_body]
pub struct ExPgRow(sqlx::postgres::PgRow);

/// The PostgreSQL client's account of an executed statement.
#[verifier::external_type_specification]
#[verifier::external_body]
pub struct ExPgQueryResult(sqlx::postgres::PgQueryResult);

/// The number of rows that an executed statement affected.
pub uninterp spec fn pg_rows_affected(result: sqlx::postgres::PgQueryResult) -> u64;

/// `PgQueryResult::rows_affected`: the number of rows affected.
#[verifier::external_body]
fn pg_query_result_rows_affected(result: &sqlx::postgres::PgQueryResult) -> (rows: u64)
    ensures
        rows == pg_rows_affected(*result),
{
    result.rows_affected()
}

/// A statement for one backend: its text, with placeholders in that
/// backend's syntax, and the values for the placeholders in order, if any.
#[derive(Debug)]
pub struct Statement {
    /// The statement's text.
    pub sql: String,
    /// The values for the placeholders, in order.
    pub values: Option<sea_query::Values>,
    /// The backend that the text is written for.
    pub db_backend: DbBackend,
}

impl Statement {
    /// A statement without placeholders.
    pub fn from_string(db_backend: DbBackend, sql: String) -> (statement: Statement)
        ensures
            statement.sql == sql,
            statement.values is None,
            statement.db_backend == db_backend,
    {
        Statement { sql, values: None, db_backend }
    }

    /// A statement with the values for its placeholders.
    pub fn from_sql_and_values(
        db_backend: DbBackend,
        sql: String,
        values: sea_query::Values,
    ) -> (statement: Statement)
        ensures
            statement.sql == sql,
            statement.values == Some(values),
            statement.db_backend == db_backend,
    {
        Statement { sql, values: Some(values), db_backend }
    }
}

/// The backend's own account of an executed statement.
#[derive(Debug)]
pub enum ExecResultHolder {
    /// From PostgreSQL.
    SqlxPostgres(sqlx::postgres::PgQueryResult),
}

/// The outcome of a statement that was executed.
#[derive(Debug)]
pub struct ExecResult {
    /// The backend's own account.
    pub result: ExecResultHolder,
}

impl ExecResult {
    /// The number of rows that the statement affected.
    pub open spec fn spec_rows_affected(&self) -> u64 {
        match self.result {
            ExecResultHolder::SqlxPostgres(result) => pg_rows_affected(result),
        }
    }

    /// The number of rows that the statement affected.
    #[verifier::when_used_as_spec(spec_rows_affected)]
    pub fn rows_affected(&self) -> (rows: u64)
        ensures
            rows == self.spec_rows_affected(),
    {
        match &self.result {
            ExecResultHolder::SqlxPostgres(result) => pg_query_result_rows_affected(result),
        }
    }

    /// The identifier that the backend generated for an inserted row, where
    /// the backend reports one with the outcome. PostgreSQL does not.
    pub fn last_insert_id(&self) -> (id: Option<u64>)
        ensures
            id is None,
    {
        match &self.result {
            ExecResultHolder::SqlxPostgres(_) => None,
        }
    }
}

impl From<sqlx::postgres::PgQueryResult> for ExecResult {
    fn from(result: sqlx::postgres::PgQueryResult) -> (ret: ExecResult) {
        ExecResult { result: ExecResultHolder::SqlxPostgres(result) }
    }
}

impl FromSpecImpl<sqlx::postgres::PgQueryResult> for ExecResult {
    open spec fn obeys_from_spec() -> bool {
        true
    }

    open spec fn from_spec(result: sqlx::postgres::PgQueryResult) -> ExecResult {
        ExecResult { result: ExecResultHolder::SqlxPostgres(result) }
    }
}

/// The backend's own row.
pub enum QueryResultRow {
    /// From PostgreSQL.
    SqlxPostgres(sqlx::postgres::PgRow),
}

/// One row of a query's result.
pub struct QueryResult {
    /// The backend's own row.
    pub row: QueryResultRow,
}

impl QueryResult {
    /// The value of one of a row's columns, given what the client made of
    /// reading that column as a `T`: the value, or a decode error with the
    /// client's message. Nothing is coerced and nothing is made up for a
    /// column that could not be read.
    pub fn decoded<T>(decoded: Result<T, sqlx::Error>) -> (result: Result<T, DbErr>)
        ensures
            match decoded {
                Ok(value) => result == Ok::<T, DbErr>(value),
                Err(error) => result matches Err(err) && err@ == DbErrView::Decode(
                    sqlx_error_text(error),
                ),
            },
    {
        match decoded {
            Ok(value) => Ok(value),
            Err(error) => Err(sqlx_error_to_decode_err(error)),
        }
    }
}

impl From<sqlx::postgres::PgRow> for QueryResult {
    fn from(row: sqlx::postgres::PgRow) -> (ret: QueryResult) {
        QueryResult { row: QueryResultRow::SqlxPostgres(row) }
    }
}

impl FromSpecImpl<sqlx::postgres::PgRow> for QueryResult {
    open spec fn obeys_from_spec() -> bool {
        true
    }

    open spec fn from_spec(row: sqlx::postgres::PgRow) -> QueryResult {
        QueryResult { row: QueryResultRow::SqlxPostgres(row) }
    }
}

/// What the pool and the backend reported of one request.
pub enum Dispatch<T> {
    /// The pool gave no connection, so nothing was sent. This is the pool's
    /// error.
    NotAcquired(sqlx::Error),
    /// A connection was acquired, the request was sent on it, and this came
    /// back.
    Answered(Result<T, sqlx::Error>),
}

} // verus!
