//! Entity metadata: the columns, keys and relations that describe one table.
//!
//! Each type has a view that holds the same data as mathematical values; the
//! contracts of the schema functions are stated over those views.

use vstd::prelude::*;

verus! {

/// A column type that is the same on every backend.
#[derive(Clone, Copy, Debug)]
pub enum ScalarType {
    /// Fixed-length text, with an optional length.
    Char(Option<u32>),
    /// Variable-length text, with an optional length.
    String(Option<u32>),
    /// Unbounded text.
    Text,
    /// An 8-bit integer.
    TinyInteger,
    /// A 16-bit integer.
    SmallInteger,
    /// A 32-bit integer.
    Integer,
    /// A 64-bit integer.
    BigInteger,
    /// A single-precision number.
    Float,
    /// A double-precision number.
    Double,
    /// An exact number, with an optional precision and scale.
    Decimal(Option<(u32, u32)>),
    /// A date and a time of day.
    DateTime,
    /// A point in time.
    Timestamp,
    /// A point in time with its offset.
    TimestampWithTimeZone,
    /// A time of day.
    Time,
    /// A calendar date.
    Date,
    /// Bytes.
    Binary,
    /// True or false.
    Boolean,
    /// An amount of money, with an optional precision and scale.
    Money(Option<(u32, u32)>),
    /// A JSON document stored as text.
    Json,
    /// A JSON document stored in binary form.
    JsonBinary,
    /// A universally unique identifier.
    Uuid,
}

/// The type of an entity's column.
#[derive(Clone, Debug)]
pub enum ColumnType {
    /// One of the scalar types.
    Scalar(ScalarType),
    /// A type written out by its name.
    Custom(String),
    /// An enumeration with a name and its variants, in order.
    Enum(String, Vec<String>),
}

/// The mathematical value of a [`ColumnType`].
pub enum ColumnTypeView {
    Scalar(ScalarType),
    Custom(Seq<char>),
    Enum(Seq<char>, Seq<Seq<char>>),
}

/// The texts of a vector of strings, in order.
pub open spec fn texts(v: Seq<String>) -> Seq<Seq<char>> {
    Seq::new(v.len(), |i: int| v[i]@)
}

impl View for ColumnType {
    type V = ColumnTypeView;

    open spec fn view(&self) -> ColumnTypeView {
        match self {
            ColumnType::Scalar(s) => ColumnTypeView::Scalar(*s),
            ColumnType::Custom(name) => ColumnTypeView::Custom(name@),
            ColumnType::Enum(name, variants) => ColumnTypeView::Enum(name@, texts(variants@)),
        }
    }
}

/// One column of an entity.
#[derive(Clone, Debug)]
pub struct ColumnMetadata {
    /// The column's name.
    pub name: String,
    /// The column's type.
    pub col_type: ColumnType,
    /// Whether the column accepts null.
    pub null: bool,
    /// Whether the column's values are unique.
    pub unique: bool,
    /// Whether an index is created on the column.
    pub indexed: bool,
}

/// The mathematical value of a [`ColumnMetadata`].
pub struct ColumnView {
    pub name: Seq<char>,
    pub col_type: ColumnTypeView,
    pub null: bool,
    pub unique: bool,
    pub indexed: bool,
}

impl View for ColumnMetadata {
    type V = ColumnView;

    open spec fn view(&self) -> ColumnView {
        ColumnView {
            name: self.name@,
            col_type: self.col_type@,
            null: self.null,
            unique: self.unique,
            indexed: self.indexed,
        }
    }
}

/// The primary key of an entity: its columns in declared order.
#[derive(Clone, Debug)]
pub struct PrimaryKeyMetadata {
    /// The names of the key's columns, in declared order.
    pub columns: Vec<String>,
    /// Whether the key's value is generated by the database.
    pub auto_increment: bool,
}

/// The mathematical value of a [`PrimaryKeyMetadata`].
pub struct PrimaryKeyView {
    pub columns: Seq<Seq<char>>,
    pub auto_increment: bool,
}

impl View for PrimaryKeyMetadata {
    type V = PrimaryKeyView;

    open spec fn view(&self) -> PrimaryKeyView {
        PrimaryKeyView { columns: texts(self.columns@), auto_increment: self.auto_increment }
    }
}

/// The columns on one side of a relation: one, two or three of them.
#[derive(Clone, Debug)]
pub enum Identity {
    /// One column.
    Unary(String),
    /// Two columns.
    Binary(String, String),
    /// Three columns.
    Ternary(String, String, String),
}

impl View for Identity {
    type V = Seq<Seq<char>>;

    /// The column names, in order.
    open spec fn view(&self) -> Seq<Seq<char>> {
        match self {
            Identity::Unary(a) => seq![a@],
            Identity::Binary(a, b) => seq![a@, b@],
            Identity::Ternary(a, b, c) => seq![a@, b@, c@],
        }
    }
}

/// A table, with the schema it lives in where one is given.
#[derive(Clone, Debug)]
pub struct TableRef {
    /// The schema's name.
    pub schema: Option<String>,
    /// The table's name.
    pub table: String,
}

/// The mathematical value of a [`TableRef`].
pub struct TableRefView {
    pub schema: Option<Seq<char>>,
    pub table: Seq<char>,
}

/// The text of an optional string.
pub open spec fn opt_text(s: Option<String>) -> Option<Seq<char>> {
    match s {
        Some(t) => Some(t@),
        None => None,
    }
}

impl View for TableRef {
    type V = TableRefView;

    open spec fn view(&self) -> TableRefView {
        TableRefView { schema: opt_text(self.schema), table: self.table@ }
    }
}

/// One relation of an entity to another: the columns of this table that
/// refer to columns of the other.
#[derive(Clone, Debug)]
pub struct RelationMetadata {
    /// The table whose columns hold the reference.
    pub from_tbl: TableRef,
    /// The referencing columns.
    pub from_col: Identity,
    /// The table that is referred to.
    pub to_tbl: TableRef,
    /// The referenced columns.
    pub to_col: Identity,
    /// Whether this is the owning side, whose inverse declares the foreign key.
    pub is_owner: bool,
    /// What happens when a referenced row is deleted.
    pub on_delete: Option<sea_query::ForeignKeyAction>,
    /// What happens when a referenced row is updated.
    pub on_update: Option<sea_query::ForeignKeyAction>,
}

/// The mathematical value of a [`RelationMetadata`].
pub struct RelationView {
    pub from_tbl: TableRefView,
    pub from_col: Seq<Seq<char>>,
    pub to_tbl: TableRefView,
    pub to_col: Seq<Seq<char>>,
    pub is_owner: bool,
    pub on_delete: Option<sea_query::ForeignKeyAction>,
    pub on_update: Option<sea_query::ForeignKeyAction>,
}

impl View for RelationMetadata {
    type V = RelationView;

    open spec fn view(&self) -> RelationView {
        RelationView {
            from_tbl: self.from_tbl@,
            from_col: self.from_col@,
            to_tbl: self.to_tbl@,
            to_col: self.to_col@,
            is_owner: self.is_owner,
            on_delete: self.on_delete,
            on_update: self.on_update,
        }
    }
}

/// Everything that is known of one entity: its table, columns, primary key
/// and relations. Columns and relations are kept in declared order.
#[derive(Clone, Debug)]
pub struct EntityMetadata {
    /// The schema that the table lives in, if it is not the default one.
    pub schema_name: Option<String>,
    /// The table's name.
    pub table_name: String,
    /// The columns, in declared order.
    pub columns: Vec<ColumnMetadata>,
    /// The primary key.
    pub primary_key: PrimaryKeyMetadata,
    /// The relations, in declared order.
    pub relations: Vec<RelationMetadata>,
}

/// The mathematical value of an [`EntityMetadata`].
pub struct EntityView {
    pub schema_name: Option<Seq<char>>,
    pub table_name: Seq<char>,
    pub columns: Seq<ColumnView>,
    pub primary_key: PrimaryKeyView,
    pub relations: Seq<RelationView>,
}

impl View for EntityMetadata {
    type V = EntityView;

    open spec fn view(&self) -> EntityView {
        EntityView {
            schema_name: opt_text(self.schema_name),
            table_name: self.table_name@,
            columns: Seq::new(self.columns@.len(), |i: int| self.columns@[i]@),
            primary_key: self.primary_key@,
            relations: Seq::new(self.relations@.len(), |i: int| self.relations@[i]@),
        }
    }
}

impl EntityView {
    /// The table with its schema.
    pub open spec fn table_ref(self) -> TableRefView {
        TableRefView { schema: self.schema_name, table: self.table_name }
    }
}

impl EntityMetadata {
    /// The entity's table, with the schema it lives in where one is given.
    pub fn table_ref(&self) -> (table: TableRef)
        ensures
            table@ == self@.table_ref(),
    {
        let schema = match &self.schema_name {
            Some(name) => Some(name.clone()),
            None => None,
        };
        TableRef { schema, table: self.table_name.clone() }
    }
}

} // verus!
