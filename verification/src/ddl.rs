//! Mathematical models of schema statements.
//!
//! A statement built with the query builder is opaque to the verifier. What
//! this library puts into one is described by the models here: plain data
//! over sequences of characters.

use vstd::prelude::*;
use crate::entity::{ScalarType, TableRefView};

verus! {

/// The type written for a column in a table statement.
pub enum SqlType {
    /// A scalar type, rendered by each backend in its own dialect.
    Scalar(ScalarType),
    /// A type written out by name.
    Custom(Seq<char>),
}

/// A constraint attached to a column.
pub enum ColumnConstraint {
    NotNull,
    UniqueKey,
    AutoIncrement,
    PrimaryKey,
}

/// A column definition: its name, its type if one was set, and its
/// constraints in the order in which they were attached.
#[verifier::ext_equal]
pub struct ColumnModel {
    pub name: Seq<char>,
    pub types: Option<SqlType>,
    pub constraints: Seq<ColumnConstraint>,
}

impl ColumnModel {
    /// A column with a name and nothing else.
    pub open spec fn named(name: Seq<char>) -> ColumnModel {
        ColumnModel { name, types: None, constraints: Seq::empty() }
    }

    /// The same column with its type set.
    pub open spec fn with_type(self, t: SqlType) -> ColumnModel {
        ColumnModel { types: Some(t), ..self }
    }

    /// The same column with one more constraint at the end.
    pub open spec fn with_constraint(self, c: ColumnConstraint) -> ColumnModel {
        ColumnModel { constraints: self.constraints.push(c), ..self }
    }

    /// Whether the column carries the given constraint.
    pub open spec fn has(self, c: ColumnConstraint) -> bool {
        self.constraints.contains(c)
    }
}

/// An index statement: its name and table where set, its columns in order,
/// and whether it is the table's primary key and whether it is unique.
#[verifier::ext_equal]
pub struct IndexModel {
    pub name: Option<Seq<char>>,
    pub table: Option<Seq<char>>,
    pub columns: Seq<Seq<char>>,
    pub primary: bool,
    pub unique: bool,
}

impl IndexModel {
    /// An index with nothing set.
    pub open spec fn empty() -> IndexModel {
        IndexModel {
            name: None,
            table: None,
            columns: Seq::empty(),
            primary: false,
            unique: false,
        }
    }
}

/// A foreign-key statement: its name, the referencing table and columns, the
/// referenced table and columns, and the referential actions where set.
#[verifier::ext_equal]
pub struct ForeignKeyModel {
    pub name: Option<Seq<char>>,
    pub table: Option<Seq<char>>,
    pub ref_table: Option<Seq<char>>,
    pub columns: Seq<Seq<char>>,
    pub ref_columns: Seq<Seq<char>>,
    pub on_delete: Option<sea_query::ForeignKeyAction>,
    pub on_update: Option<sea_query::ForeignKeyAction>,
}

impl ForeignKeyModel {
    /// A foreign key with nothing set.
    pub open spec fn empty() -> ForeignKeyModel {
        ForeignKeyModel {
            name: None,
            table: None,
            ref_table: None,
            columns: Seq::empty(),
            ref_columns: Seq::empty(),
            on_delete: None,
            on_update: None,
        }
    }
}

/// A create-table statement: the table's name where set, and its columns,
/// indexes and foreign keys, each in the order in which they were added.
#[verifier::ext_equal]
pub struct TableModel {
    pub table: Option<TableRefView>,
    pub columns: Seq<ColumnModel>,
    pub indexes: Seq<IndexModel>,
    pub foreign_keys: Seq<ForeignKeyModel>,
    pub if_not_exists: bool,
}

impl TableModel {
    /// A table statement with nothing set.
    pub open spec fn empty() -> TableModel {
        TableModel {
            table: None,
            columns: Seq::empty(),
            indexes: Seq::empty(),
            foreign_keys: Seq::empty(),
            if_not_exists: false,
        }
    }
}

/// A create-type statement for an enumeration: the type's name where set, and
/// its values in order.
#[verifier::ext_equal]
pub struct EnumTypeModel {
    pub name: Option<Seq<char>>,
    pub values: Seq<Seq<char>>,
}

impl EnumTypeModel {
    /// An enumeration statement with nothing set.
    pub open spec fn empty() -> EnumTypeModel {
        EnumTypeModel { name: None, values: Seq::empty() }
    }
}

/// One statement of a schema: it creates an enum type or a table.
pub enum SchemaStatementModel {
    CreateType(EnumTypeModel),
    CreateTable(TableModel),
}

} // verus!
