//! A relational-database access layer: backend-aware synthesis of schema
//! statements from entity metadata, and the decisions of the PostgreSQL driver.

pub mod backend;
pub mod driver;
pub mod entity;
pub mod error;
pub mod executor;
pub mod database;
pub mod ddl;
pub mod builder;
pub mod text;
pub mod transaction;
pub mod schema;
