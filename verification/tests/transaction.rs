use sea_orm::driver::sqlx_postgres::SqlxPostgresPoolConnection;
use sea_orm::error::{DbErr, TransactionError};
use sea_orm::executor::Dispatch;
use sea_orm::transaction::{
    completion_result, run_completion, run_result, Completion, DatabaseTransaction,
    TransactionState,
};

const LOST: &str = "attempted to communicate with a crashed background worker";
const CLOSED: &str = "The transaction has ended and its connection takes no more requests.";

fn started() -> DatabaseTransaction<u8> {
    DatabaseTransaction::new_postgres(1u8, Ok(())).unwrap()
}

fn lost() -> sqlx::Error {
    sqlx::Error::WorkerCrashed
}

#[test]
fn a_new_transaction_is_started() {
    let transaction = started();
    assert_eq!(transaction.state(), TransactionState::Started);
    assert!(transaction.check_started().is_ok());
    assert!(!transaction.state().is_terminal());
}

#[test]
fn a_refused_begin_is_a_query_error() {
    match DatabaseTransaction::new_postgres(1u8, Err(lost())) {
        Err(err) => assert_eq!(err, DbErr::Query(LOST.to_owned())),
        Ok(_) => panic!("an error was expected"),
    }
}

#[test]
fn commit_ends_the_transaction() {
    let mut transaction = started();
    assert_eq!(transaction.commit(Ok(())), Ok(()));
    assert_eq!(transaction.state(), TransactionState::Committed);
    assert_eq!(transaction.check_started(), Err(DbErr::Conn(CLOSED.to_owned())));
}

#[test]
fn failed_commit_rolls_back() {
    let mut transaction = started();
    assert_eq!(transaction.commit(Err(lost())), Err(DbErr::Conn(LOST.to_owned())));
    assert_eq!(transaction.state(), TransactionState::RolledBack);
}

#[test]
fn rollback_ends_the_transaction() {
    let mut transaction = started();
    assert_eq!(transaction.rollback(Ok(())), Ok(()));
    assert_eq!(transaction.state(), TransactionState::RolledBack);
    let mut other = started();
    assert_eq!(other.rollback(Err(lost())), Err(DbErr::Conn(LOST.to_owned())));
    assert_eq!(other.state(), TransactionState::RolledBack);
    assert_eq!(other.check_started(), Err(DbErr::Conn(CLOSED.to_owned())));
}

#[test]
fn lost_connection_rolls_back() {
    let mut transaction = started();
    transaction.connection_lost();
    assert_eq!(transaction.state(), TransactionState::RolledBack);
    assert_eq!(transaction.check_started(), Err(DbErr::Conn(CLOSED.to_owned())));
    transaction.connection_lost();
    assert_eq!(transaction.state(), TransactionState::RolledBack);
}

#[test]
fn state_transitions() {
    let (commit, rollback) = (Completion::Commit, Completion::Rollback);
    let started = TransactionState::Started;
    let (committed, rolled_back) = (TransactionState::Committed, TransactionState::RolledBack);
    assert_eq!(started.completed(commit, true), committed);
    assert_eq!(started.completed(commit, false), rolled_back);
    assert_eq!(started.completed(rollback, true), rolled_back);
    assert_eq!(started.completed(rollback, false), rolled_back);
    assert_eq!(started.connection_lost(), rolled_back);
    for ended in [committed, rolled_back] {
        assert!(ended.is_terminal());
        assert_eq!(ended.connection_lost(), ended);
        for completion in [commit, rollback] {
            for succeeded in [true, false] {
                assert_eq!(ended.completed(completion, succeeded), ended);
            }
        }
    }
}

#[test]
fn callback_outcome_chooses_the_completion() {
    assert_eq!(run_completion::<u8, String>(&Ok(1)), Completion::Commit);
    assert_eq!(run_completion::<u8, String>(&Err("no".to_owned())), Completion::Rollback);
}

#[test]
fn completion_failure_is_a_connection_error() {
    assert_eq!(completion_result(Ok(())), Ok(()));
    assert_eq!(completion_result(Err(lost())), Err(DbErr::Conn(LOST.to_owned())));
}

#[test]
fn run_result_tags_the_failure() {
    let ok: Result<u8, String> = Ok(5);
    let failed: Result<u8, String> = Err("out of flour".to_owned());
    assert_eq!(run_result(ok.clone(), Ok(())), Ok(5));
    assert_eq!(
        run_result(failed.clone(), Ok(())),
        Err(TransactionError::Transaction("out of flour".to_owned()))
    );
    let down = DbErr::Conn(LOST.to_owned());
    assert_eq!(run_result(ok, Err(down.clone())), Err(TransactionError::Connection(down.clone())));
    assert_eq!(run_result(failed, Err(down.clone())), Err(TransactionError::Connection(down)));
}

#[test]
fn successful_callback_commits() {
    let mut transaction = started();
    let result: Result<u8, TransactionError<String>> = transaction.run(Ok(9), Ok(()));
    assert_eq!(result, Ok(9));
    assert_eq!(transaction.state(), TransactionState::Committed);
}

#[test]
fn logic_error_rolls_back_and_is_tagged_as_logic_failure() {
    let mut transaction = started();
    let callback: Result<u8, String> = Err("out of flour".to_owned());
    assert_eq!(run_completion(&callback), Completion::Rollback);
    let result = transaction.run(callback, Ok(()));
    assert_eq!(result, Err(TransactionError::Transaction("out of flour".to_owned())));
    assert_eq!(transaction.state(), TransactionState::RolledBack);

    let pool = SqlxPostgresPoolConnection { pool: 0u8 };
    let refused = pool
        .transaction::<u8, String>(Dispatch::NotAcquired(sqlx::Error::PoolTimedOut))
        .err()
        .unwrap();
    assert_eq!(
        refused,
        TransactionError::Connection(DbErr::Conn(
            "pool timed out while waiting for an open connection".to_owned()
        ))
    );
    assert!(matches!(result, Err(TransactionError::Transaction(_))));
    assert!(matches!(refused, TransactionError::Connection(_)));
    assert_ne!(result, Err(refused));
}

#[test]
fn failed_completion_is_tagged_as_connection_failure() {
    let mut committed = started();
    let result: Result<u8, TransactionError<String>> = committed.run(Ok(9), Err(lost()));
    assert_eq!(result, Err(TransactionError::Connection(DbErr::Conn(LOST.to_owned()))));
    assert_eq!(committed.state(), TransactionState::RolledBack);

    let mut rolled = started();
    let result: Result<u8, TransactionError<String>> =
        rolled.run(Err("out of flour".to_owned()), Err(lost()));
    assert_eq!(result, Err(TransactionError::Connection(DbErr::Conn(LOST.to_owned()))));
    assert_eq!(rolled.state(), TransactionState::RolledBack);
}

#[test]
fn only_a_failure_to_communicate_loses_the_connection() {
    let mut transaction = started();
    transaction.answered(&Ok::<u8, sqlx::Error>(1));
    assert_eq!(transaction.state(), TransactionState::Started);
    transaction.answered(&Err::<u8, sqlx::Error>(sqlx::Error::RowNotFound));
    assert_eq!(transaction.state(), TransactionState::Started);
    transaction.answered(&Err::<u8, sqlx::Error>(sqlx::Error::Protocol("bad".to_owned())));
    assert_eq!(transaction.state(), TransactionState::Started);
    let broken = std::io::Error::new(std::io::ErrorKind::BrokenPipe, "broken pipe");
    transaction.answered(&Err::<u8, sqlx::Error>(sqlx::Error::Io(broken)));
    assert_eq!(transaction.state(), TransactionState::RolledBack);
    assert_eq!(transaction.check_started(), Err(DbErr::Conn(CLOSED.to_owned())));
}

#[test]
fn a_committed_transaction_survives_a_lost_connection() {
    let mut transaction = started();
    assert_eq!(transaction.commit(Ok(())), Ok(()));
    let broken = std::io::Error::new(std::io::ErrorKind::BrokenPipe, "broken pipe");
    transaction.answered(&Err::<u8, sqlx::Error>(sqlx::Error::Io(broken)));
    assert_eq!(transaction.state(), TransactionState::Committed);
}

#[test]
fn execute_in_a_transaction_records_the_answer() {
    let mut transaction = started();
    let outcome = transaction.execute(Ok(sqlx::postgres::PgQueryResult::default())).unwrap();
    assert_eq!(outcome.rows_affected(), 0);
    assert_eq!(transaction.state(), TransactionState::Started);
    assert_eq!(
        transaction.execute(Err(sqlx::Error::RowNotFound)).err(),
        Some(DbErr::Exec(
            "no rows returned by a query that expected to return at least one row".to_owned()
        ))
    );
    assert_eq!(transaction.state(), TransactionState::Started);
    let broken = std::io::Error::new(std::io::ErrorKind::BrokenPipe, "broken pipe");
    assert_eq!(
        transaction.execute(Err(sqlx::Error::Io(broken))).err(),
        Some(DbErr::Exec("error communicating with database: broken pipe".to_owned()))
    );
    assert_eq!(transaction.state(), TransactionState::RolledBack);
}
