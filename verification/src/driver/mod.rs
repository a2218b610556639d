//! Database drivers.

pub mod sqlx_common;
pub mod sqlx_postgres;
