//! The statements that create an entity's table and enum types.

use vstd::prelude::*;
use vstd::string::StringExecFns;
use crate::backend::{DbBackend, EnumStrategy};
use crate::builder::{
    column_auto_increment, column_big_integer, column_binary, column_boolean, column_char,
    column_char_len, column_custom, column_date, column_date_time, column_decimal,
    column_decimal_len, column_double, column_float, column_integer, column_json,
    column_json_binary, column_model, column_money, column_money_len, column_new,
    column_not_null, column_primary_key, column_small_integer, column_string, column_string_len,
    column_text, column_time, column_timestamp, column_timestamp_with_time_zone,
    column_tiny_integer, column_unique_key, column_uuid, enum_type_as_enum, enum_type_model,
    enum_type_new, enum_type_value, foreign_key_from_col, foreign_key_from_tbl,
    foreign_key_model, foreign_key_name, foreign_key_new, foreign_key_on_delete,
    foreign_key_on_update, foreign_key_to_col, foreign_key_to_tbl, index_col, index_model,
    index_name, index_new, index_table, table_col, table_foreign_key, table_index,
    table_model, table_new, table_primary_key, table_schema_table, table_table,
};
use crate::ddl::{
    ColumnConstraint, ColumnModel, EnumTypeModel, ForeignKeyModel, IndexModel,
    SchemaStatementModel, SqlType, TableModel,
};
use crate::entity::{
    texts, ColumnMetadata, ColumnType, ColumnTypeView, ColumnView, EntityMetadata, EntityView,
    Identity, PrimaryKeyMetadata, PrimaryKeyView, RelationMetadata, RelationView, ScalarType,
};
use crate::schema::Schema;
use crate::text::{join, joined};

verus! {

/// The type text that stands for an enum on a backend that writes the
/// variants into the column: `ENUM('a', 'b')`.
pub open spec fn inline_enum_text(variants: Seq<Seq<char>>) -> Seq<char> {
    "ENUM('"@ + joined(variants, "', '"@) + "')"@
}

/// The type written for a column on the given backend. An enum is a
/// reference to its type where the backend has enum types, the variants as
/// constrained text where it can write them inline, and plain text otherwise;
/// every other type is written as it is.
pub open spec fn column_sql_type(t: ColumnTypeView, backend: DbBackend) -> SqlType {
    match t {
        ColumnTypeView::Scalar(s) => SqlType::Scalar(s),
        ColumnTypeView::Custom(name) => SqlType::Custom(name),
        ColumnTypeView::Enum(name, variants) => match backend.enum_strategy() {
            EnumStrategy::InlineText => SqlType::Custom(inline_enum_text(variants)),
            EnumStrategy::NativeType => SqlType::Custom(name),
            EnumStrategy::PlainText => SqlType::Scalar(ScalarType::Text),
        },
    }
}

/// Whether the column is the primary key's only member.
pub open spec fn is_sole_key(key: PrimaryKeyView, column: Seq<char>) -> bool {
    key.columns.len() == 1 && key.columns[0] == column
}

/// The constraints of a column, in the order in which they are written:
/// not-null, unique, auto-increment, primary key. The last two are written
/// only for the sole member of the primary key; a composite key is declared
/// by a statement of its own. Auto-increment is written only if the key
/// declares it and the backend has it.
pub open spec fn column_constraints(
    column: ColumnView,
    key: PrimaryKeyView,
    backend: DbBackend,
) -> Seq<ColumnConstraint> {
    let sole = is_sole_key(key, column.name);
    (if column.null {
        Seq::empty()
    } else {
        seq![ColumnConstraint::NotNull]
    }) + (if column.unique {
        seq![ColumnConstraint::UniqueKey]
    } else {
        Seq::empty()
    }) + (if sole && key.auto_increment && backend.supports_auto_increment() {
        seq![ColumnConstraint::AutoIncrement]
    } else {
        Seq::empty()
    }) + (if sole {
        seq![ColumnConstraint::PrimaryKey]
    } else {
        Seq::empty()
    })
}

/// The definition of one column in the table statement.
pub open spec fn column_statement(
    column: ColumnView,
    key: PrimaryKeyView,
    backend: DbBackend,
) -> ColumnModel {
    ColumnModel {
        name: column.name,
        types: Some(column_sql_type(column.col_type, backend)),
        constraints: column_constraints(column, key, backend),
    }
}

/// The definitions of all columns, in declared order.
pub open spec fn column_statements(entity: EntityView, backend: DbBackend) -> Seq<ColumnModel> {
    Seq::new(
        entity.columns.len(),
        |i: int| column_statement(entity.columns[i], entity.primary_key, backend),
    )
}

/// The name of the index on one column of a table: `idx-<table>-<column>`.
pub open spec fn index_name_text(table: Seq<char>, column: Seq<char>) -> Seq<char> {
    "idx-"@ + table + "-"@ + column
}

/// The name of a table's composite primary key: `pk-<table>`.
pub open spec fn primary_key_name_text(table: Seq<char>) -> Seq<char> {
    "pk-"@ + table
}

/// The name of the foreign key from one table to another: `fk-<from>-<to>`.
pub open spec fn foreign_key_name_text(from: Seq<char>, to: Seq<char>) -> Seq<char> {
    "fk-"@ + from + "-"@ + to
}

/// The index statement for one indexed column.
pub open spec fn column_index(table: Seq<char>, column: Seq<char>) -> IndexModel {
    IndexModel {
        name: Some(index_name_text(table, column)),
        table: Some(table),
        columns: seq![column],
        ..IndexModel::empty()
    }
}

/// The index statement of a column, if the column is indexed.
pub open spec fn index_of_column(table: Seq<char>) -> spec_fn(ColumnView) -> Option<IndexModel> {
    |column: ColumnView|
        if column.indexed {
            Some(column_index(table, column.name))
        } else {
            None
        }
}

/// The statement that declares a composite primary key over all of the key's
/// columns, in declared order.
pub open spec fn primary_key_index(entity: EntityView) -> IndexModel {
    IndexModel {
        name: Some(primary_key_name_text(entity.table_name)),
        columns: entity.primary_key.columns,
        primary: true,
        ..IndexModel::empty()
    }
}

/// The index statements of a table: one for each indexed column, in declared
/// order, and after them the composite primary key if the key has more than
/// one column.
pub open spec fn index_statements(entity: EntityView) -> Seq<IndexModel> {
    entity.columns.filter_map(index_of_column(entity.table_name)) + (if entity.primary_key.columns.len()
        > 1 {
        seq![primary_key_index(entity)]
    } else {
        Seq::empty()
    })
}

/// The foreign key that a relation declares.
pub open spec fn foreign_key_statement(relation: RelationView) -> ForeignKeyModel {
    ForeignKeyModel {
        name: Some(foreign_key_name_text(relation.from_tbl.table, relation.to_tbl.table)),
        table: Some(relation.from_tbl.table),
        ref_table: Some(relation.to_tbl.table),
        columns: relation.from_col,
        ref_columns: relation.to_col,
        on_delete: relation.on_delete,
        on_update: relation.on_update,
    }
}

/// The foreign key of a relation, unless the relation is the owning side.
pub open spec fn foreign_key_of_relation() -> spec_fn(RelationView) -> Option<ForeignKeyModel> {
    |relation: RelationView|
        if relation.is_owner {
            None
        } else {
            Some(foreign_key_statement(relation))
        }
}

/// The foreign keys of a table: one for each relation that is not the owning
/// side, in declared order.
pub open spec fn foreign_key_statements(entity: EntityView) -> Seq<ForeignKeyModel> {
    entity.relations.filter_map(foreign_key_of_relation())
}

/// The statement that creates an entity's table on the given backend.
pub open spec fn table_statement(entity: EntityView, backend: DbBackend) -> TableModel {
    TableModel {
        table: Some(entity.table_ref()),
        columns: column_statements(entity, backend),
        indexes: index_statements(entity),
        foreign_keys: foreign_key_statements(entity),
        if_not_exists: false,
    }
}

/// The statement that creates the type of an enum column; none for a column
/// of another type.
pub open spec fn enum_of_column(column: ColumnView) -> Option<EnumTypeModel> {
    match column.col_type {
        ColumnTypeView::Enum(name, variants) => Some(
            EnumTypeModel { name: Some(name), values: variants },
        ),
        _ => None,
    }
}

/// Whether one of the statements creates a type of the given name.
pub open spec fn creates_type(statements: Seq<EnumTypeModel>, name: Seq<char>) -> bool {
    exists|k: int| 0 <= k < statements.len() && #[trigger] statements[k].name == Some(name)
}

/// One statement for each enum name among the columns, in the order in which
/// the names first occur. Where several columns share a name, the statement
/// is written for the first of them.
pub open spec fn distinct_enum_types(columns: Seq<ColumnView>) -> Seq<EnumTypeModel>
    decreases columns.len(),
{
    if columns.len() == 0 {
        Seq::empty()
    } else {
        let earlier = distinct_enum_types(columns.drop_last());
        match columns.last().col_type {
            ColumnTypeView::Enum(name, variants) => if creates_type(earlier, name) {
                earlier
            } else {
                earlier.push(EnumTypeModel { name: Some(name), values: variants })
            },
            _ => earlier,
        }
    }
}

/// The statements that create an entity's enum types on the given backend:
/// none where the backend has no enum types.
pub open spec fn enum_statements(entity: EntityView, backend: DbBackend) -> Seq<EnumTypeModel> {
    if backend.supports_native_enum() {
        distinct_enum_types(entity.columns)
    } else {
        Seq::empty()
    }
}

/// One statement of a schema: it creates an enum type or a table.
pub enum SchemaStatement {
    /// Creates an enum type.
    CreateType(sea_query::extension::postgres::TypeCreateStatement),
    /// Creates a table.
    CreateTable(sea_query::TableCreateStatement),
}

impl View for SchemaStatement {
    type V = SchemaStatementModel;

    /// What the statement holds.
    open spec fn view(&self) -> SchemaStatementModel {
        match self {
            SchemaStatement::CreateType(statement) => SchemaStatementModel::CreateType(
                enum_type_model(*statement),
            ),
            SchemaStatement::CreateTable(statement) => SchemaStatementModel::CreateTable(
                table_model(*statement),
            ),
        }
    }
}

/// What each of a sequence of statements holds.
pub open spec fn schema_statement_models(statements: Seq<SchemaStatement>) -> Seq<
    SchemaStatementModel,
> {
    Seq::new(statements.len(), |i: int| statements[i]@)
}

/// All statements that create an entity's schema on the given backend, in
/// the order in which they are to be run: first the statements that create
/// its enum types, then the statement that creates its table.
pub open spec fn schema_statements(entity: EntityView, backend: DbBackend) -> Seq<
    SchemaStatementModel,
> {
    Seq::new(
        enum_statements(entity, backend).len(),
        |i: int| SchemaStatementModel::CreateType(enum_statements(entity, backend)[i]),
    ).push(SchemaStatementModel::CreateTable(table_statement(entity, backend)))
}

/// What each of a sequence of create-type statements holds.
pub open spec fn enum_type_models(
    statements: Seq<sea_query::extension::postgres::TypeCreateStatement>,
) -> Seq<EnumTypeModel> {
    Seq::new(statements.len(), |i: int| enum_type_model(statements[i]))
}

/// Sets the column's type to the given scalar type.
fn set_scalar_type(column: &mut sea_query::ColumnDef, scalar: ScalarType)
    ensures
        column_model(*final(column)) == column_model(*old(column)).with_type(
            SqlType::Scalar(scalar),
        ),
{
    match scalar {
        ScalarType::Char(None) => column_char(column),
        ScalarType::Char(Some(length)) => column_char_len(column, length),
        ScalarType::String(None) => column_string(column),
        ScalarType::String(Some(length)) => column_string_len(column, length),
        ScalarType::Text => column_text(column),
        ScalarType::TinyInteger => column_tiny_integer(column),
        ScalarType::SmallInteger => column_small_integer(column),
        ScalarType::Integer => column_integer(column),
        ScalarType::BigInteger => column_big_integer(column),
        ScalarType::Float => column_float(column),
        ScalarType::Double => column_double(column),
        ScalarType::Decimal(None) => column_decimal(column),
        ScalarType::Decimal(Some((precision, scale))) => column_decimal_len(
            column,
            precision,
            scale,
        ),
        ScalarType::DateTime => column_date_time(column),
        ScalarType::Timestamp => column_timestamp(column),
        ScalarType::TimestampWithTimeZone => column_timestamp_with_time_zone(column),
        ScalarType::Time => column_time(column),
        ScalarType::Date => column_date(column),
        ScalarType::Binary => column_binary(column),
        ScalarType::Boolean => column_boolean(column),
        ScalarType::Money(None) => column_money(column),
        ScalarType::Money(Some((precision, scale))) => column_money_len(column, precision, scale),
        ScalarType::Json => column_json(column),
        ScalarType::JsonBinary => column_json_binary(column),
        ScalarType::Uuid => column_uuid(column),
    }
}

/// Writes an enum's variants as the type text of a backend that takes them
/// inline.
fn inline_enum(variants: &Vec<String>) -> (text: String)
    ensures
        text@ == inline_enum_text(texts(variants@)),
{
    let mut text = String::from_str("ENUM('");
    let list = join(variants, "', '");
    text.append(list.as_str());
    text.append("')");
    text
}

/// Whether the column is the primary key's only member.
fn sole_key(key: &PrimaryKeyMetadata, column: &String) -> (sole: bool)
    ensures
        sole == is_sole_key(key@, column@),
{
    key.columns.len() == 1 && key.columns[0] == *column
}

/// Builds the definition of one column.
fn build_column(column: &ColumnMetadata, key: &PrimaryKeyMetadata, backend: DbBackend) -> (def:
    sea_query::ColumnDef)
    ensures
        column_model(def) == column_statement(column@, key@, backend),
{
    let mut def = column_new(column.name.as_str());
    match &column.col_type {
        ColumnType::Scalar(scalar) => set_scalar_type(&mut def, *scalar),
        ColumnType::Custom(name) => column_custom(&mut def, name.as_str()),
        ColumnType::Enum(name, variants) => match backend.enum_strategy() {
            EnumStrategy::InlineText => {
                let text = inline_enum(variants);
                column_custom(&mut def, text.as_str());
            },
            EnumStrategy::NativeType => column_custom(&mut def, name.as_str()),
            EnumStrategy::PlainText => column_text(&mut def),
        },
    }
    if !column.null {
        column_not_null(&mut def);
    }
    if column.unique {
        column_unique_key(&mut def);
    }
    if sole_key(key, &column.name) {
        if key.auto_increment && backend.supports_auto_increment() {
            column_auto_increment(&mut def);
        }
        column_primary_key(&mut def);
    }
    proof {
        assert(column_model(def).constraints =~= column_constraints(column@, key@, backend));
    }
    def
}

/// Builds the index statement for one indexed column of a table.
fn build_column_index(table: &String, column: &String) -> (index: sea_query::IndexCreateStatement)
    ensures
        index_model(index) == column_index(table@, column@),
{
    let mut name = String::from_str("idx-");
    name.append(table.as_str());
    name.append("-");
    name.append(column.as_str());
    let mut index = index_new();
    index_name(&mut index, name.as_str());
    index_table(&mut index, table.as_str());
    index_col(&mut index, column.as_str());
    proof {
        assert(index_model(index).columns =~= seq![column@]);
    }
    index
}

/// Builds the statement for a composite primary key. The statement is marked
/// as primary when it is added to the table.
fn build_primary_key_index(entity: &EntityMetadata) -> (index: sea_query::IndexCreateStatement)
    ensures
        (IndexModel { primary: true, ..index_model(index) }) == primary_key_index(entity@),
{
    let mut index = index_new();
    let key = &entity.primary_key.columns;
    let mut i: usize = 0;
    while i < key.len()
        invariant
            i <= key.len(),
            index_model(index) == (IndexModel {
                columns: texts(key@).take(i as int),
                ..IndexModel::empty()
            }),
        decreases key.len() - i,
    {
        index_col(&mut index, key[i].as_str());
        proof {
            assert(texts(key@).take(i as int).push(key@[i as int]@) =~= texts(key@).take(i + 1));
        }
        i = i + 1;
    }
    let mut name = String::from_str("pk-");
    name.append(entity.table_name.as_str());
    index_name(&mut index, name.as_str());
    proof {
        assert(texts(key@).take(key.len() as int) =~= texts(key@));
    }
    index
}

/// Appends the columns of one side of a relation as referencing columns.
fn add_from_columns(foreign_key: &mut sea_query::ForeignKeyCreateStatement, columns: &Identity)
    ensures
        foreign_key_model(*final(foreign_key)) == (ForeignKeyModel {
            columns: foreign_key_model(*old(foreign_key)).columns + columns@,
            ..foreign_key_model(*old(foreign_key))
        }),
{
    match columns {
        Identity::Unary(a) => {
            foreign_key_from_col(foreign_key, a.as_str());
        },
        Identity::Binary(a, b) => {
            foreign_key_from_col(foreign_key, a.as_str());
            foreign_key_from_col(foreign_key, b.as_str());
        },
        Identity::Ternary(a, b, c) => {
            foreign_key_from_col(foreign_key, a.as_str());
            foreign_key_from_col(foreign_key, b.as_str());
            foreign_key_from_col(foreign_key, c.as_str());
        },
    }
    proof {
        assert(foreign_key_model(*foreign_key).columns =~= foreign_key_model(
            *old(foreign_key),
        ).columns + columns@);
    }
}

/// Appends the columns of one side of a relation as referenced columns.
fn add_to_columns(foreign_key: &mut sea_query::ForeignKeyCreateStatement, columns: &Identity)
    ensures
        foreign_key_model(*final(foreign_key)) == (ForeignKeyModel {
            ref_columns: foreign_key_model(*old(foreign_key)).ref_columns + columns@,
            ..foreign_key_model(*old(foreign_key))
        }),
{
    match columns {
        Identity::Unary(a) => {
            foreign_key_to_col(foreign_key, a.as_str());
        },
        Identity::Binary(a, b) => {
            foreign_key_to_col(foreign_key, a.as_str());
            foreign_key_to_col(foreign_key, b.as_str());
        },
        Identity::Ternary(a, b, c) => {
            foreign_key_to_col(foreign_key, a.as_str());
            foreign_key_to_col(foreign_key, b.as_str());
            foreign_key_to_col(foreign_key, c.as_str());
        },
    }
    proof {
        assert(foreign_key_model(*foreign_key).ref_columns =~= foreign_key_model(
            *old(foreign_key),
        ).ref_columns + columns@);
    }
}

/// Builds the foreign key that a relation declares.
fn build_foreign_key(relation: &RelationMetadata) -> (foreign_key:
    sea_query::ForeignKeyCreateStatement)
    ensures
        foreign_key_model(foreign_key) == foreign_key_statement(relation@),
{
    let mut foreign_key = foreign_key_new();
    add_from_columns(&mut foreign_key, &relation.from_col);
    add_to_columns(&mut foreign_key, &relation.to_col);
    match relation.on_delete {
        Some(action) => foreign_key_on_delete(&mut foreign_key, action),
        None => {},
    }
    match relation.on_update {
        Some(action) => foreign_key_on_update(&mut foreign_key, action),
        None => {},
    }
    let mut name = String::from_str("fk-");
    name.append(relation.from_tbl.table.as_str());
    name.append("-");
    name.append(relation.to_tbl.table.as_str());
    foreign_key_name(&mut foreign_key, name.as_str());
    foreign_key_from_tbl(&mut foreign_key, relation.from_tbl.table.as_str());
    foreign_key_to_tbl(&mut foreign_key, relation.to_tbl.table.as_str());
    proof {
        assert(foreign_key_model(foreign_key).columns =~= relation@.from_col);
        assert(foreign_key_model(foreign_key).ref_columns =~= relation@.to_col);
    }
    foreign_key
}

/// Creates the statement for an entity's table on the given backend.
///
/// The statement holds one definition for each column, one index for each
/// indexed column, a composite primary key if the key has more than one
/// column, and one foreign key for each relation of which the entity is not
/// the owning side, all in declared order.
pub fn create_table_from_entity(entity: &EntityMetadata, backend: DbBackend) -> (statement:
    sea_query::TableCreateStatement)
    ensures
        table_model(statement) == table_statement(entity@, backend),
{
    let mut statement = table_new();
    let ghost indexed = index_of_column(entity@.table_name);
    let mut i: usize = 0;
    while i < entity.columns.len()
        invariant
            i <= entity.columns.len(),
            indexed == index_of_column(entity@.table_name),
            table_model(statement) == (TableModel {
                columns: column_statements(entity@, backend).take(i as int),
                indexes: entity@.columns.take(i as int).filter_map(indexed),
                ..TableModel::empty()
            }),
        decreases entity.columns.len() - i,
    {
        let column = &entity.columns[i];
        let def = build_column(column, &entity.primary_key, backend);
        if column.indexed {
            let index = build_column_index(&entity.table_name, &column.name);
            table_index(&mut statement, index);
        }
        table_col(&mut statement, def);
        proof {
            entity@.columns.lemma_filter_map_take_succ(indexed, i as int);
            assert(column_statements(entity@, backend).take(i as int).push(
                column_statement(column@, entity@.primary_key, backend),
            ) =~= column_statements(entity@, backend).take(i + 1));
        }
        i = i + 1;
    }
    proof {
        assert(column_statements(entity@, backend).take(entity.columns.len() as int)
            =~= column_statements(entity@, backend));
        assert(entity@.columns.take(entity.columns.len() as int) =~= entity@.columns);
    }
    if entity.primary_key.columns.len() > 1 {
        let index = build_primary_key_index(entity);
        table_primary_key(&mut statement, index);
    }
    assert(table_model(statement).indexes =~= index_statements(entity@));
    let ghost declared = foreign_key_of_relation();
    let mut j: usize = 0;
    while j < entity.relations.len()
        invariant
            j <= entity.relations.len(),
            declared == foreign_key_of_relation(),
            table_model(statement) == (TableModel {
                columns: column_statements(entity@, backend),
                indexes: index_statements(entity@),
                foreign_keys: entity@.relations.take(j as int).filter_map(declared),
                ..TableModel::empty()
            }),
        decreases entity.relations.len() - j,
    {
        let relation = &entity.relations[j];
        if !relation.is_owner {
            let foreign_key = build_foreign_key(relation);
            table_foreign_key(&mut statement, foreign_key);
        }
        proof {
            entity@.relations.lemma_filter_map_take_succ(declared, j as int);
        }
        j = j + 1;
    }
    proof {
        assert(entity@.relations.take(entity.relations.len() as int) =~= entity@.relations);
    }
    match &entity.schema_name {
        Some(schema) => table_schema_table(
            &mut statement,
            schema.as_str(),
            entity.table_name.as_str(),
        ),
        None => table_table(&mut statement, entity.table_name.as_str()),
    }
    statement
}

/// Builds the statement that creates an enum type.
fn build_enum_type(name: &String, variants: &Vec<String>) -> (statement:
    sea_query::extension::postgres::TypeCreateStatement)
    ensures
        enum_type_model(statement) == (EnumTypeModel {
            name: Some(name@),
            values: texts(variants@),
        }),
{
    let mut statement = enum_type_new();
    enum_type_as_enum(&mut statement, name.as_str());
    let mut i: usize = 0;
    while i < variants.len()
        invariant
            i <= variants.len(),
            enum_type_model(statement) == (EnumTypeModel {
                name: Some(name@),
                values: texts(variants@).take(i as int),
            }),
        decreases variants.len() - i,
    {
        enum_type_value(&mut statement, variants[i].as_str());
        proof {
            assert(texts(variants@).take(i as int).push(variants@[i as int]@) =~= texts(
                variants@,
            ).take(i + 1));
        }
        i = i + 1;
    }
    proof {
        assert(texts(variants@).take(variants.len() as int) =~= texts(variants@));
    }
    statement
}

/// Whether one of the names is the given one.
fn contains_name(names: &Vec<String>, name: &String) -> (found: bool)
    ensures
        found == exists|k: int| 0 <= k < names.len() && #[trigger] names@[k]@ == name@,
{
    let mut i: usize = 0;
    while i < names.len()
        invariant
            i <= names.len(),
            forall|k: int| 0 <= k < i ==> #[trigger] names@[k]@ != name@,
        decreases names.len() - i,
    {
        if names[i] == *name {
            return true;
        }
        i = i + 1;
    }
    false
}

/// Creates the statements for an entity's enum types on the given backend.
///
/// Where the backend has enum types, the result holds one statement for each
/// enum name among the entity's columns, in the order in which the names
/// first occur. Where it has none, the result is empty: the enum is then part
/// of the column's type in the table statement.
pub fn create_enum_from_entity(entity: &EntityMetadata, backend: DbBackend) -> (statements: Vec<
    sea_query::extension::postgres::TypeCreateStatement,
>)
    ensures
        enum_type_models(statements@) == enum_statements(entity@, backend),
{
    let mut statements: Vec<sea_query::extension::postgres::TypeCreateStatement> = Vec::new();
    if !backend.supports_native_enum() {
        return statements;
    }
    let mut names: Vec<String> = Vec::new();
    let mut i: usize = 0;
    while i < entity.columns.len()
        invariant
            i <= entity.columns.len(),
            names.len() == statements.len(),
            enum_type_models(statements@) == distinct_enum_types(entity@.columns.take(i as int)),
            forall|k: int|
                0 <= k < names.len() ==> #[trigger] enum_type_models(statements@)[k].name == Some(
                    names@[k]@,
                ),
        decreases entity.columns.len() - i,
    {
        let ghost earlier = enum_type_models(statements@);
        proof {
            assert(entity@.columns.take(i + 1).drop_last() =~= entity@.columns.take(i as int));
        }
        match &entity.columns[i].col_type {
            ColumnType::Enum(name, variants) => {
                let seen = contains_name(&names, name);
                proof {
                    if seen {
                        let k = choose|k: int| 0 <= k < names.len() && #[trigger] names@[k]@ == name@;
                        assert(earlier[k].name == Some(name@));
                    }
                    if creates_type(earlier, name@) {
                        let k = choose|k: int|
                            0 <= k < earlier.len() && #[trigger] earlier[k].name == Some(name@);
                        assert(names@[k]@ == name@);
                    }
                    assert(seen == creates_type(earlier, name@));
                }
                if !seen {
                    let statement = build_enum_type(name, variants);
                    statements.push(statement);
                    names.push(name.clone());
                    proof {
                        assert(enum_type_models(statements@) =~= earlier.push(
                            EnumTypeModel { name: Some(name@), values: texts(variants@) },
                        ));
                    }
                }
            },
            _ => {},
        }
        i = i + 1;
    }
    proof {
        assert(entity@.columns.take(entity.columns.len() as int) =~= entity@.columns);
    }
    statements
}

/// Creates all statements for an entity's schema on the given backend, in
/// the order in which they are to be run: the statements that create its
/// enum types, then the statement that creates its table.
pub fn create_statements_from_entity(entity: &EntityMetadata, backend: DbBackend) -> (statements:
    Vec<SchemaStatement>)
    ensures
        schema_statement_models(statements@) == schema_statements(entity@, backend),
{
    let types = create_enum_from_entity(entity, backend);
    let ghost all = types@;
    let mut statements: Vec<SchemaStatement> = Vec::new();
    for statement in it: types
        invariant
            it.seq() == all,
            statements@.len() == it.index(),
            forall|k: int|
                0 <= k < statements@.len() ==> (#[trigger] statements@[k])@
                    == SchemaStatementModel::CreateType(enum_type_model(all[k])),
    {
        statements.push(SchemaStatement::CreateType(statement));
    }
    let table = create_table_from_entity(entity, backend);
    statements.push(SchemaStatement::CreateTable(table));
    proof {
        assert(schema_statement_models(statements@) =~= schema_statements(entity@, backend)) by {
            assert(enum_statements(entity@, backend) == enum_type_models(all));
            assert forall|k: int| 0 <= k < all.len() implies schema_statement_models(
                statements@,
            )[k] == schema_statements(entity@, backend)[k] by {
                assert(enum_type_models(all)[k] == enum_type_model(all[k]));
            }
        }
    }
    statements
}

impl Schema {
    /// Creates all statements for an entity's schema on this schema's
    /// backend, in the order in which they are to be run.
    pub fn create_statements_from_entity(&self, entity: &EntityMetadata) -> (statements: Vec<
        SchemaStatement,
    >)
        ensures
            schema_statement_models(statements@) == schema_statements(entity@, self.backend()),
    {
        create_statements_from_entity(entity, self.backend())
    }

    /// Creates the statements for an entity's enum types on this schema's
    /// backend.
    pub fn create_enum_from_entity(&self, entity: &EntityMetadata) -> (statements: Vec<
        sea_query::extension::postgres::TypeCreateStatement,
    >)
        ensures
            enum_type_models(statements@) == enum_statements(entity@, self.backend()),
    {
        create_enum_from_entity(entity, self.backend())
    }

    /// Creates the statement for an entity's table on this schema's backend.
    pub fn create_table_from_entity(&self, entity: &EntityMetadata) -> (statement:
        sea_query::TableCreateStatement)
        ensures
            table_model(statement) == table_statement(entity@, self.backend()),
    {
        create_table_from_entity(entity, self.backend())
    }
}

} // verus!
