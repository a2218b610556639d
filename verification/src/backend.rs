//! The supported database backends and what each of them can do.

use vstd::prelude::*;

verus! {

/// The database backends this library can talk to.
#[derive(Clone, Copy, Debug, PartialEq, Eq, Structural)]
pub enum DbBackend {
    /// MySQL and compatible servers.
    MySql,
    /// PostgreSQL.
    Postgres,
    /// SQLite.
    Sqlite,
}

/// How a backend represents a column of an enumerated type.
#[derive(Clone, Copy, Debug, PartialEq, Eq, Structural)]
pub enum EnumStrategy {
    /// The column refers to an enum type that is created by its own statement.
    NativeType,
    /// The variants are written into the column's type as constrained text.
    InlineText,
    /// The column is plain text.
    PlainText,
}

impl DbBackend {
    /// Whether enum types exist as schema objects of their own on this backend.
    pub open spec fn spec_supports_native_enum(self) -> bool {
        self.spec_enum_strategy() == EnumStrategy::NativeType
    }

    /// Whether enum types exist as schema objects of their own on this backend.
    #[verifier::when_used_as_spec(spec_supports_native_enum)]
    pub fn supports_native_enum(self) -> (r: bool)
        ensures
            r == self.spec_supports_native_enum(),
    {
        match self {
            DbBackend::Postgres => true,
            DbBackend::MySql => false,
            DbBackend::Sqlite => false,
        }
    }

    /// Whether a column can be declared as generated by the database. All
    /// supported backends can; each writes it in its own syntax.
    pub open spec fn spec_supports_auto_increment(self) -> bool {
        true
    }

    /// Whether a column can be declared as generated by the database.
    #[verifier::when_used_as_spec(spec_supports_auto_increment)]
    pub fn supports_auto_increment(self) -> (r: bool)
        ensures
            r == self.spec_supports_auto_increment(),
    {
        match self {
            DbBackend::MySql => true,
            DbBackend::Postgres => true,
            DbBackend::Sqlite => true,
        }
    }

    /// The representation of enum columns on this backend.
    pub open spec fn spec_enum_strategy(self) -> EnumStrategy {
        match self {
            DbBackend::MySql => EnumStrategy::InlineText,
            DbBackend::Postgres => EnumStrategy::NativeType,
            DbBackend::Sqlite => EnumStrategy::PlainText,
        }
    }

    /// The representation of enum columns on this backend.
    #[verifier::when_used_as_spec(spec_enum_strategy)]
    pub fn enum_strategy(self) -> (r: EnumStrategy)
        ensures
            r == self.spec_enum_strategy(),
    {
        match self {
            DbBackend::MySql => EnumStrategy::InlineText,
            DbBackend::Postgres => EnumStrategy::NativeType,
            DbBackend::Sqlite => EnumStrategy::PlainText,
        }
    }
}

} // verus!
