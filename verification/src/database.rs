//! Connections to a database, and how they are configured.

use vstd::prelude::*;
use vstd::string::StringExecFns;
use crate::error::{DbErr, DbErrView};
use crate::driver::sqlx_postgres::SqlxPostgresPoolConnection;
use crate::executor::Statement;

verus! {

/// How to connect to a database and how to size the pool of connections.
#[derive(Debug)]
pub struct ConnectOptions {
    /// The database's URL.
    pub url: String,
    /// The most connections that the pool keeps.
    pub max_connections: Option<u32>,
    /// The fewest connections that the pool keeps.
    pub min_connections: Option<u32>,
    /// How long to wait for a connection before giving up.
    pub connect_timeout: Option<core::time::Duration>,
    /// How long a connection may stay idle before it is closed.
    pub idle_timeout: Option<core::time::Duration>,
    /// Whether the client logs the statements that it runs.
    pub sqlx_logging: bool,
}

impl ConnectOptions {
    /// Options for the given URL, with the pool's own sizes and timeouts and
    /// with statement logging switched on.
    pub fn new(url: String) -> (options: ConnectOptions)
        ensures
            options.url == url,
            options.max_connections is None,
            options.min_connections is None,
            options.connect_timeout is None,
            options.idle_timeout is None,
            options.sqlx_logging,
    {
        ConnectOptions {
            url,
            max_connections: None,
            min_connections: None,
            connect_timeout: None,
            idle_timeout: None,
            sqlx_logging: true,
        }
    }
}

/// Picks the connector that owns a URL, given for each registered connector,
/// in the order of registration, whether it accepts the URL: the first that
/// does. A URL that several connectors accept belongs to the earliest of
/// them; one that none accepts has no connector.
pub fn select_connector(accepts: &Vec<bool>) -> (chosen: Option<usize>)
    ensures
        match chosen {
            Some(i) => i < accepts.len() && accepts[i as int] && forall|k: int|
                0 <= k < i ==> !accepts[k],
            None => forall|k: int| 0 <= k < accepts.len() ==> !accepts[k],
        },
{
    let mut i: usize = 0;
    while i < accepts.len()
        invariant
            i <= accepts.len(),
            forall|k: int| 0 <= k < i ==> !accepts[k],
        decreases accepts.len() - i,
    {
        if accepts[i] {
            return Some(i);
        }
        i = i + 1;
    }
    None
}

/// The message of the error for a URL that no connector accepts.
pub open spec fn unsupported_url_text(url: Seq<char>) -> Seq<char> {
    "The connection string '"@ + url + "' has no supporting driver."@
}

/// The error for a URL that no connector accepts: a connection error that
/// quotes the URL.
pub fn unsupported_url(url: &str) -> (err: DbErr)
    ensures
        err@ == DbErrView::Conn(unsupported_url_text(url@)),
{
    let mut message = String::from_str("The connection string '");
    message.append(url);
    message.append("' has no supporting driver.");
    DbErr::Conn(message)
}

/// A connection to a database, by way of one of the drivers. `P` is the
/// client's pool of connections.
#[derive(Clone, Debug)]
pub enum DatabaseConnection<P> {
    /// A pool of PostgreSQL connections.
    SqlxPostgresPoolConnection(SqlxPostgresPoolConnection<P>),
    /// No connection.
    Disconnected,
}

impl<P> Default for DatabaseConnection<P> {
    /// No connection.
    fn default() -> (connection: DatabaseConnection<P>)
        ensures
            connection == DatabaseConnection::<P>::Disconnected,
    {
        DatabaseConnection::Disconnected
    }
}

/// One connection leased from a pool, of the client's type `C`. The lease
/// has one owner, and the connection goes back to the pool when the value is
/// dropped.
pub enum InnerConnection<C> {
    /// A PostgreSQL connection.
    Postgres(C),
}

/// The rows of a query that are fetched one by one. The stream owns its
/// connection until it is dropped.
pub struct QueryStream<C> {
    /// The statement whose rows are fetched.
    pub stmt: Statement,
    /// The connection that the rows come from.
    pub conn: InnerConnection<C>,
}

impl<C> QueryStream<C> {
    /// A stream of the statement's rows on the given connection.
    pub fn from(source: (C, Statement)) -> (stream: QueryStream<C>)
        ensures
            stream.stmt == source.1,
            stream.conn == InnerConnection::Postgres(source.0),
    {
        QueryStream { stmt: source.1, conn: InnerConnection::Postgres(source.0) }
    }
}

} // verus!
