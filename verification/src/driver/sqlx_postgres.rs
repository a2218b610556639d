//! The PostgreSQL driver.
//!
//! Sending a statement and waiting for the backend is left to the caller.
//! The functions here decide what is made of what came back.

use vstd::prelude::*;
use vstd::string::StrSliceExecFns;
use crate::database::{ConnectOptions, DatabaseConnection, InnerConnection, QueryStream};
use crate::driver::sqlx_common::{
    sqlx_error_is_row_not_found, sqlx_error_message, sqlx_error_row_not_found, sqlx_error_text,
    sqlx_error_to_conn_err, sqlx_error_to_exec_err, sqlx_error_to_query_err,
};
use crate::error::{DbErr, DbErrView, TransactionError};
use crate::transaction::{DatabaseTransaction, TransactionState};
use crate::executor::{
    Dispatch, ExecResult, ExecResultHolder, QueryResult, QueryResultRow, Statement,
};

verus! {

/// The SQL client's options for a PostgreSQL connection.
#[verifier::external_type_specification]
#[verifier::external_body]
pub struct ExPgConnectOptions(sqlx::postgres::PgConnectOptions);

/// Whether the options' level for logging statements is other than off.
pub uninterp spec fn pg_logs_statements(options: sqlx::postgres::PgConnectOptions) -> bool;

/// `PgConnectOptions::from_str`: the options that the URL describes, or the
/// client's error if it does not accept the URL. What the URL leaves out is
/// taken from the process's environment, so nothing is stated of the options
/// but that they log statements: parsing starts from the client's default
/// log settings, which log statements, and never changes them.
#[verifier::external_body]
fn pg_connect_options_parse(url: &str) -> (parsed: Result<
    sqlx::postgres::PgConnectOptions,
    sqlx::Error,
>)
    ensures
        parsed matches Ok(options) ==> pg_logs_statements(options),
{
    url.parse::<sqlx::postgres::PgConnectOptions>()
}

/// `ConnectOptions::disable_statement_logging` on PostgreSQL options: the
/// same options with the logging of statements switched off.
#[verifier::external_body]
fn pg_connect_options_disable_statement_logging(
    options: sqlx::postgres::PgConnectOptions,
) -> (quiet: sqlx::postgres::PgConnectOptions)
    ensures
        !pg_logs_statements(quiet),
{
    sqlx::ConnectOptions::disable_statement_logging(options)
}

/// The scheme that a PostgreSQL URL begins with.
pub open spec fn postgres_scheme() -> Seq<char> {
    "postgres://"@
}

/// Whether the text begins with the prefix.
fn starts_with(text: &str, prefix: &str) -> (found: bool)
    ensures
        found == prefix@.is_prefix_of(text@),
{
    let n: usize = prefix.unicode_len();
    if text.unicode_len() < n {
        return false;
    }
    let mut i: usize = 0;
    while i < n
        invariant
            i <= n,
            n == prefix@.len(),
            n <= text@.len(),
            forall|k: int| 0 <= k < i ==> text@[k] == prefix@[k],
        decreases n - i,
    {
        if text.get_char(i) != prefix.get_char(i) {
            return false;
        }
        i = i + 1;
    }
    proof {
        assert(prefix@ =~= text@.subrange(0, prefix@.len() as int));
    }
    true
}

/// The connector for PostgreSQL databases.
#[derive(Debug)]
pub struct SqlxPostgresConnector;

/// A pool of PostgreSQL connections, of the client's type `P`.
#[derive(Clone, Debug)]
pub struct SqlxPostgresPoolConnection<P> {
    /// The client's pool.
    pub pool: P,
}

impl SqlxPostgresConnector {
    /// Whether the URL is one for this connector, given whether the client
    /// accepts it: it is if it begins with `postgres://` and the client
    /// accepts it.
    pub fn accepts_parsed(string: &str, parsed: bool) -> (accepted: bool)
        ensures
            accepted == (postgres_scheme().is_prefix_of(string@) && parsed),
    {
        starts_with(string, "postgres://") && parsed
    }

    /// Whether the URL is one for this connector: it begins with
    /// `postgres://` and the client accepts it. The client is asked only
    /// about a URL with that scheme.
    pub fn accepts(string: &str) -> (accepted: bool)
        ensures
            accepted ==> postgres_scheme().is_prefix_of(string@),
    {
        if starts_with(string, "postgres://") {
            let parsed = pg_connect_options_parse(string);
            Self::accepts_parsed(string, parsed.is_ok())
        } else {
            false
        }
    }

    /// The client's connection options for a parsed URL: the parsed options,
    /// with statement logging switched off unless it is wanted. A URL that
    /// the client did not accept is a connection error with the client's
    /// message.
    pub fn connect_options_parsed(
        parsed: Result<sqlx::postgres::PgConnectOptions, sqlx::Error>,
        sqlx_logging: bool,
    ) -> (result: Result<sqlx::postgres::PgConnectOptions, DbErr>)
        ensures
            match parsed {
                Ok(options) => result matches Ok(chosen) && (sqlx_logging ==> chosen == options)
                    && (!sqlx_logging ==> !pg_logs_statements(chosen)),
                Err(error) => result matches Err(err) && err@ == DbErrView::Conn(
                    sqlx_error_text(error),
                ),
            },
    {
        match parsed {
            Ok(options) => {
                if !sqlx_logging {
                    Ok(pg_connect_options_disable_statement_logging(options))
                } else {
                    Ok(options)
                }
            },
            Err(error) => Err(DbErr::Conn(sqlx_error_message(&error))),
        }
    }

    /// The client's connection options for the configured URL. They log
    /// statements if and only if the configuration asks for it. A URL that
    /// the client does not accept gives a connection error that keeps the
    /// message of the client's error.
    pub fn connect_options(options: &ConnectOptions) -> (result: Result<
        sqlx::postgres::PgConnectOptions,
        DbErr,
    >)
        ensures
            result matches Ok(chosen) ==> pg_logs_statements(chosen) == options.sqlx_logging,
            result matches Err(err) ==> exists|error: sqlx::Error|
                err@ == DbErrView::Conn(#[trigger] sqlx_error_text(error)),
    {
        let parsed = pg_connect_options_parse(options.url.as_str());
        Self::connect_options_parsed(parsed, options.sqlx_logging)
    }

    /// What connecting comes to, given what the pool answered: a database
    /// connection on the pool, or a connection error with the client's
    /// message.
    pub fn connect<P>(outcome: Result<P, sqlx::Error>) -> (result: Result<
        DatabaseConnection<P>,
        DbErr,
    >)
        ensures
            match outcome {
                Ok(pool) => result matches Ok(connection) && connection
                    == DatabaseConnection::SqlxPostgresPoolConnection(
                    SqlxPostgresPoolConnection { pool },
                ),
                Err(error) => result matches Err(err) && err@ == DbErrView::Conn(
                    sqlx_error_text(error),
                ),
            },
    {
        match outcome {
            Ok(pool) => Ok(
                DatabaseConnection::SqlxPostgresPoolConnection(SqlxPostgresPoolConnection { pool }),
            ),
            Err(error) => Err(sqlx_error_to_conn_err(error)),
        }
    }

    /// A database connection on an existing pool.
    pub fn from_sqlx_postgres_pool<P>(pool: P) -> (connection: DatabaseConnection<P>)
        ensures
            connection == DatabaseConnection::SqlxPostgresPoolConnection(
                SqlxPostgresPoolConnection { pool },
            ),
    {
        DatabaseConnection::SqlxPostgresPoolConnection(SqlxPostgresPoolConnection { pool })
    }
}

/// One item of a stream of rows, given what the client fetched: the row, or
/// a query error with the client's message.
pub fn stream_row(fetched: Result<sqlx::postgres::PgRow, sqlx::Error>) -> (item: Result<
    QueryResult,
    DbErr,
>)
    ensures
        match fetched {
            Ok(row) => item == Ok::<QueryResult, DbErr>(
                QueryResult { row: QueryResultRow::SqlxPostgres(row) },
            ),
            Err(error) => item matches Err(err) && err@ == DbErrView::Query(sqlx_error_text(error)),
        },
{
    match fetched {
        Ok(row) => Ok(QueryResult::from(row)),
        Err(error) => Err(sqlx_error_to_query_err(error)),
    }
}

/// The rows of a query's answer, each as a result row, in the order in which
/// the backend gave them.
pub open spec fn query_results(rows: Seq<sqlx::postgres::PgRow>) -> Seq<QueryResult> {
    Seq::new(rows.len(), |i: int| QueryResult { row: QueryResultRow::SqlxPostgres(rows[i]) })
}

impl<P> SqlxPostgresPoolConnection<P> {
    /// The result of executing a statement, given what was reported of it.
    ///
    /// If the pool gave no connection, the result is a connection error with
    /// the pool's message. If the backend rejected the statement, it is an
    /// execution error with the backend's message. Otherwise it is the
    /// backend's outcome.
    pub fn execute(&self, dispatch: Dispatch<sqlx::postgres::PgQueryResult>) -> (result: Result<
        ExecResult,
        DbErr,
    >)
        ensures
            match dispatch {
                Dispatch::NotAcquired(error) => result matches Err(err) && err@
                    == DbErrView::Conn(sqlx_error_text(error)),
                Dispatch::Answered(Ok(done)) => result matches Ok(outcome) && outcome == (ExecResult {
                    result: ExecResultHolder::SqlxPostgres(done),
                }),
                Dispatch::Answered(Err(error)) => result matches Err(err) && err@
                    == DbErrView::Exec(sqlx_error_text(error)),
            },
    {
        match dispatch {
            Dispatch::NotAcquired(error) => Err(sqlx_error_to_conn_err(error)),
            Dispatch::Answered(Ok(done)) => Ok(ExecResult::from(done)),
            Dispatch::Answered(Err(error)) => Err(sqlx_error_to_exec_err(error)),
        }
    }

    /// The result of a query for one row, given what was reported of it.
    ///
    /// A query that matched no row gives `None` and is no error. If the pool
    /// gave no connection, the result is a connection error with the pool's
    /// message; on any other failure it is a query error with the backend's
    /// message.
    pub fn query_one(&self, dispatch: Dispatch<sqlx::postgres::PgRow>) -> (result: Result<
        Option<QueryResult>,
        DbErr,
    >)
        ensures
            match dispatch {
                Dispatch::NotAcquired(error) => result matches Err(err) && err@
                    == DbErrView::Conn(sqlx_error_text(error)),
                Dispatch::Answered(Ok(row)) => result matches Ok(Some(found)) && found == (QueryResult {
                    row: QueryResultRow::SqlxPostgres(row),
                }),
                Dispatch::Answered(Err(error)) => if sqlx_error_is_row_not_found(error) {
                    result matches Ok(None)
                } else {
                    result matches Err(err) && err@ == DbErrView::Query(sqlx_error_text(error))
                },
            },
    {
        match dispatch {
            Dispatch::NotAcquired(error) => Err(sqlx_error_to_conn_err(error)),
            Dispatch::Answered(Ok(row)) => Ok(Some(QueryResult::from(row))),
            Dispatch::Answered(Err(error)) => {
                if sqlx_error_row_not_found(&error) {
                    Ok(None)
                } else {
                    Err(DbErr::Query(sqlx_error_message(&error)))
                }
            },
        }
    }

    /// The result of a query for all rows, given what was reported of it.
    ///
    /// The rows come in the backend's order. If the pool gave no connection,
    /// the result is a connection error with the pool's message; if the
    /// query failed, it is a query error with the backend's message.
    pub fn query_all(&self, dispatch: Dispatch<Vec<sqlx::postgres::PgRow>>) -> (result: Result<
        Vec<QueryResult>,
        DbErr,
    >)
        ensures
            match dispatch {
                Dispatch::NotAcquired(error) => result matches Err(err) && err@
                    == DbErrView::Conn(sqlx_error_text(error)),
                Dispatch::Answered(Ok(rows)) => result matches Ok(found) && found@
                    == query_results(rows@),
                Dispatch::Answered(Err(error)) => result matches Err(err) && err@
                    == DbErrView::Query(sqlx_error_text(error)),
            },
    {
        match dispatch {
            Dispatch::NotAcquired(error) => Err(sqlx_error_to_conn_err(error)),
            Dispatch::Answered(Ok(rows)) => {
                let ghost all = rows@;
                let mut found: Vec<QueryResult> = Vec::new();
                for row in it: rows
                    invariant
                        it.seq() == all,
                        found@ == query_results(all.take(it.index() as int)),
                {
                    proof {
                        assert(all.take(it.index() + 1) =~= all.take(it.index() as int).push(row));
                    }
                    found.push(QueryResult::from(row));
                }
                proof {
                    assert(all.take(all.len() as int) =~= all);
                }
                Ok(found)
            },
            Dispatch::Answered(Err(error)) => Err(sqlx_error_to_query_err(error)),
        }
    }

    /// The stream of a statement's rows, given what the pool answered when
    /// it was asked for a connection. The stream owns the connection that
    /// the pool gave. If the pool gave none, no stream is made and the result
    /// is a connection error with the pool's message.
    pub fn stream<C>(&self, acquired: Result<C, sqlx::Error>, stmt: Statement) -> (result: Result<
        QueryStream<C>,
        DbErr,
    >)
        ensures
            match acquired {
                Ok(conn) => result matches Ok(stream) && stream.stmt == stmt && stream.conn
                    == InnerConnection::Postgres(conn),
                Err(error) => result matches Err(err) && err@ == DbErrView::Conn(
                    sqlx_error_text(error),
                ),
            },
    {
        match acquired {
            Ok(conn) => Ok(QueryStream::from((conn, stmt))),
            Err(error) => Err(sqlx_error_to_conn_err(error)),
        }
    }

    /// The transaction that was begun, given what was reported of asking
    /// the backend to begin one on a connection from the pool: the
    /// connection on which it has begun, or the client's error. If the pool
    /// gave no connection, the result is a connection error with the pool's
    /// message; if the backend refused to begin, it is a query error with
    /// the backend's message.
    pub fn begin<C>(&self, dispatch: Dispatch<C>) -> (result: Result<DatabaseTransaction<C>, DbErr>)
        ensures
            match dispatch {
                Dispatch::NotAcquired(error) => result matches Err(err) && err@
                    == DbErrView::Conn(sqlx_error_text(error)),
                Dispatch::Answered(Ok(conn)) => result matches Ok(transaction)
                    && transaction.spec_state() == TransactionState::Started
                    && transaction.spec_conn() == InnerConnection::Postgres(conn),
                Dispatch::Answered(Err(error)) => result matches Err(err) && err@
                    == DbErrView::Query(sqlx_error_text(error)),
            },
    {
        match dispatch {
            Dispatch::NotAcquired(error) => Err(sqlx_error_to_conn_err(error)),
            Dispatch::Answered(Ok(conn)) => DatabaseTransaction::new_postgres(conn, Ok(())),
            Dispatch::Answered(Err(error)) => Err(sqlx_error_to_query_err(error)),
        }
    }

    /// The transaction in which a caller's code is to run, given what was
    /// reported of asking the backend to begin one. A transaction that could
    /// not be begun is a failure of the connection, never of the caller's
    /// code. The code's own outcome is dealt with by
    /// [`DatabaseTransaction::run`].
    pub fn transaction<C, E>(&self, dispatch: Dispatch<C>) -> (result: Result<
        DatabaseTransaction<C>,
        TransactionError<E>,
    >)
        ensures
            match dispatch {
                Dispatch::NotAcquired(error) => result matches Err(
                    TransactionError::Connection(err),
                ) && err@ == DbErrView::Conn(sqlx_error_text(error)),
                Dispatch::Answered(Ok(conn)) => result matches Ok(transaction)
                    && transaction.spec_state() == TransactionState::Started
                    && transaction.spec_conn() == InnerConnection::Postgres(conn),
                Dispatch::Answered(Err(error)) => result matches Err(
                    TransactionError::Connection(err),
                ) && err@ == DbErrView::Query(sqlx_error_text(error)),
            },
    {
        match self.begin(dispatch) {
            Ok(transaction) => Ok(transaction),
            Err(err) => Err(TransactionError::Connection(err)),
        }
    }
}

} // verus!
