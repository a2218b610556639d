//! The query builder's statement types and the calls this library makes on
//! them.
//!
//! Nothing in this file is proved. Each statement type is opaque; a spec
//! function without a body names what a value of it holds, and each function
//! makes one call on the builder, with a contract that restates what the
//! builder's source shows that call to do to the value.

use vstd::prelude::*;
use crate::ddl::{
    ColumnConstraint, ColumnModel, EnumTypeModel, ForeignKeyModel, IndexModel, SqlType,
    TableModel,
};
use crate::entity::{ScalarType, TableRefView};

verus! {

/// The builder's column definition.
#[verifier::external_type_specification]
#[verifier::external_body]
pub struct ExColumnDef(sea_query::ColumnDef);

/// The builder's index statement.
#[verifier::external_type_specification]
#[verifier::external_body]
pub struct ExIndexCreateStatement(sea_query::IndexCreateStatement);

/// The builder's referential action.
#[verifier::external_type_specification]
#[verifier::external_body]
pub struct ExForeignKeyAction(sea_query::ForeignKeyAction);

/// The builder's foreign-key statement.
#[verifier::external_type_specification]
#[verifier::external_body]
pub struct ExForeignKeyCreateStatement(sea_query::ForeignKeyCreateStatement);

/// The builder's create-table statement.
#[verifier::external_type_specification]
#[verifier::external_body]
pub struct ExTableCreateStatement(sea_query::TableCreateStatement);

/// The builder's create-type statement.
#[verifier::external_type_specification]
#[verifier::external_body]
pub struct ExTypeCreateStatement(sea_query::extension::postgres::TypeCreateStatement);

/// What a column definition holds: its name, type and constraints.
pub uninterp spec fn column_model(column: sea_query::ColumnDef) -> ColumnModel;

/// What an index statement holds.
pub uninterp spec fn index_model(index: sea_query::IndexCreateStatement) -> IndexModel;

/// What a foreign-key statement holds.
pub uninterp spec fn foreign_key_model(
    foreign_key: sea_query::ForeignKeyCreateStatement,
) -> ForeignKeyModel;

/// What a create-table statement holds.
pub uninterp spec fn table_model(table: sea_query::TableCreateStatement) -> TableModel;

/// What a create-type statement holds.
pub uninterp spec fn enum_type_model(
    statement: sea_query::extension::postgres::TypeCreateStatement,
) -> EnumTypeModel;

/// `ColumnDef::new` on an `Alias` of the given name: a column of that name
/// without a type or constraints.
#[verifier::external_body]
pub(crate) fn column_new(name: &str) -> (column: sea_query::ColumnDef)
    ensures
        column_model(column) == ColumnModel::named(name@),
{
    sea_query::ColumnDef::new(sea_query::Alias::new(name))
}

/// `ColumnDef::char`: sets the type to fixed-length text without a length.
#[verifier::external_body]
pub(crate) fn column_char(column: &mut sea_query::ColumnDef)
    ensures
        column_model(*final(column)) == column_model(*old(column)).with_type(
            SqlType::Scalar(ScalarType::Char(None)),
        ),
{
    column.char();
}

/// `ColumnDef::char_len`: sets the type to fixed-length text of the given length.
#[verifier::external_body]
pub(crate) fn column_char_len(column: &mut sea_query::ColumnDef, length: u32)
    ensures
        column_model(*final(column)) == column_model(*old(column)).with_type(
            SqlType::Scalar(ScalarType::Char(Some(length))),
        ),
{
    column.char_len(length);
}

/// `ColumnDef::string`: sets the type to variable-length text without a length.
#[verifier::external_body]
pub(crate) fn column_string(column: &mut sea_query::ColumnDef)
    ensures
        column_model(*final(column)) == column_model(*old(column)).with_type(
            SqlType::Scalar(ScalarType::String(None)),
        ),
{
    column.string();
}

/// `ColumnDef::string_len`: sets the type to variable-length text of the given length.
#[verifier::external_body]
pub(crate) fn column_string_len(column: &mut sea_query::ColumnDef, length: u32)
    ensures
        column_model(*final(column)) == column_model(*old(column)).with_type(
            SqlType::Scalar(ScalarType::String(Some(length))),
        ),
{
    column.string_len(length);
}

/// `ColumnDef::text`: sets the type to unbounded text.
#[verifier::external_body]
pub(crate) fn column_text(column: &mut sea_query::ColumnDef)
    ensures
        column_model(*final(column)) == column_model(*old(column)).with_type(
            SqlType::Scalar(ScalarType::Text),
        ),
{
    column.text();
}

/// `ColumnDef::tiny_integer`: sets the type to an 8-bit integer without a display length.
#[verifier::external_body]
pub(crate) fn column_tiny_integer(column: &mut sea_query::ColumnDef)
    ensures
        column_model(*final(column)) == column_model(*old(column)).with_type(
            SqlType::Scalar(ScalarType::TinyInteger),
        ),
{
    column.tiny_integer();
}

/// `ColumnDef::small_integer`: sets the type to a 16-bit integer without a display length.
#[verifier::external_body]
pub(crate) fn column_small_integer(column: &mut sea_query::ColumnDef)
    ensures
        column_model(*final(column)) == column_model(*old(column)).with_type(
            SqlType::Scalar(ScalarType::SmallInteger),
        ),
{
    column.small_integer();
}

/// `ColumnDef::integer`: sets the type to a 32-bit integer without a display length.
#[verifier::external_body]
pub(crate) fn column_integer(column: &mut sea_query::ColumnDef)
    ensures
        column_model(*final(column)) == column_model(*old(column)).with_type(
            SqlType::Scalar(ScalarType::Integer),
        ),
{
    column.integer();
}

/// `ColumnDef::big_integer`: sets the type to a 64-bit integer without a display length.
#[verifier::external_body]
pub(crate) fn column_big_integer(column: &mut sea_query::ColumnDef)
    ensures
        column_model(*final(column)) == column_model(*old(column)).with_type(
            SqlType::Scalar(ScalarType::BigInteger),
        ),
{
    column.big_integer();
}

/// `ColumnDef::float`: sets the type to a single-precision number without a precision.
#[verifier::external_body]
pub(crate) fn column_float(column: &mut sea_query::ColumnDef)
    ensures
        column_model(*final(column)) == column_model(*old(column)).with_type(
            SqlType::Scalar(ScalarType::Float),
        ),
{
    column.float();
}

/// `ColumnDef::double`: sets the type to a double-precision number without a precision.
#[verifier::external_body]
pub(crate) fn column_double(column: &mut sea_query::ColumnDef)
    ensures
        column_model(*final(column)) == column_model(*old(column)).with_type(
            SqlType::Scalar(ScalarType::Double),
        ),
{
    column.double();
}

/// `ColumnDef::decimal`: sets the type to an exact number without precision and scale.
#[verifier::external_body]
pub(crate) fn column_decimal(column: &mut sea_query::ColumnDef)
    ensures
        column_model(*final(column)) == column_model(*old(column)).with_type(
            SqlType::Scalar(ScalarType::Decimal(None)),
        ),
{
    column.decimal();
}

/// `ColumnDef::decimal_len`: sets the type to an exact number of the given precision and scale.
#[verifier::external_body]
pub(crate) fn column_decimal_len(column: &mut sea_query::ColumnDef, precision: u32, scale: u32)
    ensures
        column_model(*final(column)) == column_model(*old(column)).with_type(
            SqlType::Scalar(ScalarType::Decimal(Some((precision, scale)))),
        ),
{
    column.decimal_len(precision, scale);
}

/// `ColumnDef::date_time`: sets the type to a date and time without a precision.
#[verifier::external_body]
pub(crate) fn column_date_time(column: &mut sea_query::ColumnDef)
    ensures
        column_model(*final(column)) == column_model(*old(column)).with_type(
            SqlType::Scalar(ScalarType::DateTime),
        ),
{
    column.date_time();
}

/// `ColumnDef::timestamp`: sets the type to a timestamp without a precision.
#[verifier::external_body]
pub(crate) fn column_timestamp(column: &mut sea_query::ColumnDef)
    ensures
        column_model(*final(column)) == column_model(*old(column)).with_type(
            SqlType::Scalar(ScalarType::Timestamp),
        ),
{
    column.timestamp();
}

/// `ColumnDef::timestamp_with_time_zone`: sets the type to a timestamp with time zone, without a precision.
#[verifier::external_body]
pub(crate) fn column_timestamp_with_time_zone(column: &mut sea_query::ColumnDef)
    ensures
        column_model(*final(column)) == column_model(*old(column)).with_type(
            SqlType::Scalar(ScalarType::TimestampWithTimeZone),
        ),
{
    column.timestamp_with_time_zone();
}

/// `ColumnDef::time`: sets the type to a time of day without a precision.
#[verifier::external_body]
pub(crate) fn column_time(column: &mut sea_query::ColumnDef)
    ensures
        column_model(*final(column)) == column_model(*old(column)).with_type(
            SqlType::Scalar(ScalarType::Time),
        ),
{
    column.time();
}

/// `ColumnDef::date`: sets the type to a calendar date.
#[verifier::external_body]
pub(crate) fn column_date(column: &mut sea_query::ColumnDef)
    ensures
        column_model(*final(column)) == column_model(*old(column)).with_type(
            SqlType::Scalar(ScalarType::Date),
        ),
{
    column.date();
}

/// `ColumnDef::binary`: sets the type to bytes without a length.
#[verifier::external_body]
pub(crate) fn column_binary(column: &mut sea_query::ColumnDef)
    ensures
        column_model(*final(column)) == column_model(*old(column)).with_type(
            SqlType::Scalar(ScalarType::Binary),
        ),
{
    column.binary();
}

/// `ColumnDef::boolean`: sets the type to a boolean.
#[verifier::external_body]
pub(crate) fn column_boolean(column: &mut sea_query::ColumnDef)
    ensures
        column_model(*final(column)) == column_model(*old(column)).with_type(
            SqlType::Scalar(ScalarType::Boolean),
        ),
{
    column.boolean();
}

/// `ColumnDef::money`: sets the type to money without precision and scale.
#[verifier::external_body]
pub(crate) fn column_money(column: &mut sea_query::ColumnDef)
    ensures
        column_model(*final(column)) == column_model(*old(column)).with_type(
            SqlType::Scalar(ScalarType::Money(None)),
        ),
{
    column.money();
}

/// `ColumnDef::money_len`: sets the type to money of the given precision and scale.
#[verifier::external_body]
pub(crate) fn column_money_len(column: &mut sea_query::ColumnDef, precision: u32, scale: u32)
    ensures
        column_model(*final(column)) == column_model(*old(column)).with_type(
            SqlType::Scalar(ScalarType::Money(Some((precision, scale)))),
        ),
{
    column.money_len(precision, scale);
}

/// `ColumnDef::json`: sets the type to JSON text.
#[verifier::external_body]
pub(crate) fn column_json(column: &mut sea_query::ColumnDef)
    ensures
        column_model(*final(column)) == column_model(*old(column)).with_type(
            SqlType::Scalar(ScalarType::Json),
        ),
{
    column.json();
}

/// `ColumnDef::json_binary`: sets the type to binary JSON.
#[verifier::external_body]
pub(crate) fn column_json_binary(column: &mut sea_query::ColumnDef)
    ensures
        column_model(*final(column)) == column_model(*old(column)).with_type(
            SqlType::Scalar(ScalarType::JsonBinary),
        ),
{
    column.json_binary();
}

/// `ColumnDef::uuid`: sets the type to a UUID.
#[verifier::external_body]
pub(crate) fn column_uuid(column: &mut sea_query::ColumnDef)
    ensures
        column_model(*final(column)) == column_model(*old(column)).with_type(
            SqlType::Scalar(ScalarType::Uuid),
        ),
{
    column.uuid();
}

/// `ColumnDef::custom` on an `Alias` of the given name: sets the type to the
/// one written out by that name.
#[verifier::external_body]
pub(crate) fn column_custom(column: &mut sea_query::ColumnDef, name: &str)
    ensures
        column_model(*final(column)) == column_model(*old(column)).with_type(
            SqlType::Custom(name@),
        ),
{
    column.custom(sea_query::Alias::new(name));
}

/// `ColumnDef::not_null`: appends the not-null constraint.
#[verifier::external_body]
pub(crate) fn column_not_null(column: &mut sea_query::ColumnDef)
    ensures
        column_model(*final(column)) == column_model(*old(column)).with_constraint(
            ColumnConstraint::NotNull,
        ),
{
    column.not_null();
}

/// `ColumnDef::unique_key`: appends the unique-key constraint.
#[verifier::external_body]
pub(crate) fn column_unique_key(column: &mut sea_query::ColumnDef)
    ensures
        column_model(*final(column)) == column_model(*old(column)).with_constraint(
            ColumnConstraint::UniqueKey,
        ),
{
    column.unique_key();
}

/// `ColumnDef::auto_increment`: appends the auto-increment constraint.
#[verifier::external_body]
pub(crate) fn column_auto_increment(column: &mut sea_query::ColumnDef)
    ensures
        column_model(*final(column)) == column_model(*old(column)).with_constraint(
            ColumnConstraint::AutoIncrement,
        ),
{
    column.auto_increment();
}

/// `ColumnDef::primary_key`: appends the primary-key constraint.
#[verifier::external_body]
pub(crate) fn column_primary_key(column: &mut sea_query::ColumnDef)
    ensures
        column_model(*final(column)) == column_model(*old(column)).with_constraint(
            ColumnConstraint::PrimaryKey,
        ),
{
    column.primary_key();
}

/// `Index::create`: an index statement with nothing set.
#[verifier::external_body]
pub(crate) fn index_new() -> (index: sea_query::IndexCreateStatement)
    ensures
        index_model(index) == IndexModel::empty(),
{
    sea_query::Index::create()
}

/// `IndexCreateStatement::name`: sets the index's name.
#[verifier::external_body]
pub(crate) fn index_name(index: &mut sea_query::IndexCreateStatement, name: &str)
    ensures
        index_model(*final(index)) == (IndexModel {
            name: Some(name@),
            ..index_model(*old(index))
        }),
{
    index.name(name);
}

/// `IndexCreateStatement::table` on an `Alias` of the given name: sets the
/// table that the index is on.
#[verifier::external_body]
pub(crate) fn index_table(index: &mut sea_query::IndexCreateStatement, table: &str)
    ensures
        index_model(*final(index)) == (IndexModel {
            table: Some(table@),
            ..index_model(*old(index))
        }),
{
    index.table(sea_query::Alias::new(table));
}

/// `IndexCreateStatement::col` on an `Alias` of the given name: appends a
/// column to the index.
#[verifier::external_body]
pub(crate) fn index_col(index: &mut sea_query::IndexCreateStatement, column: &str)
    ensures
        index_model(*final(index)) == (IndexModel {
            columns: index_model(*old(index)).columns.push(column@),
            ..index_model(*old(index))
        }),
{
    index.col(sea_query::Alias::new(column));
}

/// `ForeignKeyCreateStatement::new`: a foreign-key statement with nothing set.
#[verifier::external_body]
pub(crate) fn foreign_key_new() -> (foreign_key: sea_query::ForeignKeyCreateStatement)
    ensures
        foreign_key_model(foreign_key) == ForeignKeyModel::empty(),
{
    sea_query::ForeignKeyCreateStatement::new()
}

/// `ForeignKeyCreateStatement::name`: sets the constraint's name.
#[verifier::external_body]
pub(crate) fn foreign_key_name(
    foreign_key: &mut sea_query::ForeignKeyCreateStatement,
    name: &str,
)
    ensures
        foreign_key_model(*final(foreign_key)) == (ForeignKeyModel {
            name: Some(name@),
            ..foreign_key_model(*old(foreign_key))
        }),
{
    foreign_key.name(name);
}

/// `ForeignKeyCreateStatement::from_tbl` on an `Alias` of the given name:
/// sets the referencing table.
#[verifier::external_body]
pub(crate) fn foreign_key_from_tbl(
    foreign_key: &mut sea_query::ForeignKeyCreateStatement,
    table: &str,
)
    ensures
        foreign_key_model(*final(foreign_key)) == (ForeignKeyModel {
            table: Some(table@),
            ..foreign_key_model(*old(foreign_key))
        }),
{
    foreign_key.from_tbl(sea_query::Alias::new(table));
}

/// `ForeignKeyCreateStatement::to_tbl` on an `Alias` of the given name: sets
/// the referenced table.
#[verifier::external_body]
pub(crate) fn foreign_key_to_tbl(
    foreign_key: &mut sea_query::ForeignKeyCreateStatement,
    table: &str,
)
    ensures
        foreign_key_model(*final(foreign_key)) == (ForeignKeyModel {
            ref_table: Some(table@),
            ..foreign_key_model(*old(foreign_key))
        }),
{
    foreign_key.to_tbl(sea_query::Alias::new(table));
}

/// `ForeignKeyCreateStatement::from_col` on an `Alias` of the given name:
/// appends a referencing column.
#[verifier::external_body]
pub(crate) fn foreign_key_from_col(
    foreign_key: &mut sea_query::ForeignKeyCreateStatement,
    column: &str,
)
    ensures
        foreign_key_model(*final(foreign_key)) == (ForeignKeyModel {
            columns: foreign_key_model(*old(foreign_key)).columns.push(column@),
            ..foreign_key_model(*old(foreign_key))
        }),
{
    foreign_key.from_col(sea_query::Alias::new(column));
}

/// `ForeignKeyCreateStatement::to_col` on an `Alias` of the given name:
/// appends a referenced column.
#[verifier::external_body]
pub(crate) fn foreign_key_to_col(
    foreign_key: &mut sea_query::ForeignKeyCreateStatement,
    column: &str,
)
    ensures
        foreign_key_model(*final(foreign_key)) == (ForeignKeyModel {
            ref_columns: foreign_key_model(*old(foreign_key)).ref_columns.push(column@),
            ..foreign_key_model(*old(foreign_key))
        }),
{
    foreign_key.to_col(sea_query::Alias::new(column));
}

/// `ForeignKeyCreateStatement::on_delete`: sets the action taken when a
/// referenced row is deleted.
#[verifier::external_body]
pub(crate) fn foreign_key_on_delete(
    foreign_key: &mut sea_query::ForeignKeyCreateStatement,
    action: sea_query::ForeignKeyAction,
)
    ensures
        foreign_key_model(*final(foreign_key)) == (ForeignKeyModel {
            on_delete: Some(action),
            ..foreign_key_model(*old(foreign_key))
        }),
{
    foreign_key.on_delete(action);
}

/// `ForeignKeyCreateStatement::on_update`: sets the action taken when a
/// referenced row is updated.
#[verifier::external_body]
pub(crate) fn foreign_key_on_update(
    foreign_key: &mut sea_query::ForeignKeyCreateStatement,
    action: sea_query::ForeignKeyAction,
)
    ensures
        foreign_key_model(*final(foreign_key)) == (ForeignKeyModel {
            on_update: Some(action),
            ..foreign_key_model(*old(foreign_key))
        }),
{
    foreign_key.on_update(action);
}

/// `TableCreateStatement::new`: a table statement with nothing set.
#[verifier::external_body]
pub(crate) fn table_new() -> (table: sea_query::TableCreateStatement)
    ensures
        table_model(table) == TableModel::empty(),
{
    sea_query::TableCreateStatement::new()
}

/// `TableCreateStatement::table` on an `Alias` of the given name: sets the
/// table's name, without a schema.
#[verifier::external_body]
pub(crate) fn table_table(table: &mut sea_query::TableCreateStatement, name: &str)
    ensures
        table_model(*final(table)) == (TableModel {
            table: Some(TableRefView { schema: None, table: name@ }),
            ..table_model(*old(table))
        }),
{
    table.table(sea_query::Alias::new(name));
}

/// `TableCreateStatement::table` on a pair of `Alias`es: sets the table's
/// name within the given schema.
#[verifier::external_body]
pub(crate) fn table_schema_table(
    table: &mut sea_query::TableCreateStatement,
    schema: &str,
    name: &str,
)
    ensures
        table_model(*final(table)) == (TableModel {
            table: Some(TableRefView { schema: Some(schema@), table: name@ }),
            ..table_model(*old(table))
        }),
{
    table.table((sea_query::Alias::new(schema), sea_query::Alias::new(name)));
}

/// `TableCreateStatement::col`: appends the column to the table's columns.
#[verifier::external_body]
pub(crate) fn table_col(
    table: &mut sea_query::TableCreateStatement,
    column: sea_query::ColumnDef,
)
    ensures
        table_model(*final(table)) == (TableModel {
            columns: table_model(*old(table)).columns.push(column_model(column)),
            ..table_model(*old(table))
        }),
{
    let mut column = column;
    table.col(&mut column);
}

/// `TableCreateStatement::index`: appends the index to the table's indexes.
#[verifier::external_body]
pub(crate) fn table_index(
    table: &mut sea_query::TableCreateStatement,
    index: sea_query::IndexCreateStatement,
)
    ensures
        table_model(*final(table)) == (TableModel {
            indexes: table_model(*old(table)).indexes.push(index_model(index)),
            ..table_model(*old(table))
        }),
{
    let mut index = index;
    table.index(&mut index);
}

/// `TableCreateStatement::primary_key`: marks the index as primary and
/// appends it to the table's indexes.
#[verifier::external_body]
pub(crate) fn table_primary_key(
    table: &mut sea_query::TableCreateStatement,
    index: sea_query::IndexCreateStatement,
)
    ensures
        table_model(*final(table)) == (TableModel {
            indexes: table_model(*old(table)).indexes.push(
                IndexModel { primary: true, ..index_model(index) },
            ),
            ..table_model(*old(table))
        }),
{
    let mut index = index;
    table.primary_key(&mut index);
}

/// `TableCreateStatement::foreign_key`: appends the foreign key to the
/// table's foreign keys.
#[verifier::external_body]
pub(crate) fn table_foreign_key(
    table: &mut sea_query::TableCreateStatement,
    foreign_key: sea_query::ForeignKeyCreateStatement,
)
    ensures
        table_model(*final(table)) == (TableModel {
            foreign_keys: table_model(*old(table)).foreign_keys.push(
                foreign_key_model(foreign_key),
            ),
            ..table_model(*old(table))
        }),
{
    let mut foreign_key = foreign_key;
    table.foreign_key(&mut foreign_key);
}

/// `Type::create`: a create-type statement with nothing set.
#[verifier::external_body]
pub(crate) fn enum_type_new() -> (statement: sea_query::extension::postgres::TypeCreateStatement)
    ensures
        enum_type_model(statement) == EnumTypeModel::empty(),
{
    sea_query::extension::postgres::Type::create()
}

/// `TypeCreateStatement::as_enum` on an `Alias` of the given name: makes the
/// statement create an enumeration of that name.
#[verifier::external_body]
pub(crate) fn enum_type_as_enum(
    statement: &mut sea_query::extension::postgres::TypeCreateStatement,
    name: &str,
)
    ensures
        enum_type_model(*final(statement)) == (EnumTypeModel {
            name: Some(name@),
            ..enum_type_model(*old(statement))
        }),
{
    statement.as_enum(sea_query::Alias::new(name));
}

/// `TypeCreateStatement::values` on one `Alias` of the given name: appends a
/// value to the enumeration.
#[verifier::external_body]
pub(crate) fn enum_type_value(
    statement: &mut sea_query::extension::postgres::TypeCreateStatement,
    value: &str,
)
    ensures
        enum_type_model(*final(statement)) == (EnumTypeModel {
            values: enum_type_model(*old(statement)).values.push(value@),
            ..enum_type_model(*old(statement))
        }),
{
    statement.values([sea_query::Alias::new(value)]);
}

} // verus!
