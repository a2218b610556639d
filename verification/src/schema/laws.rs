//! What holds of the synthesized statements for every entity.

use vstd::prelude::*;
use crate::backend::{DbBackend, EnumStrategy};
use crate::builder::table_model;
use crate::ddl::{ColumnConstraint, SchemaStatementModel, SqlType};
use crate::entity::{
    ColumnTypeView, ColumnView, EntityMetadata, EntityView, RelationView, ScalarType,
};
use crate::schema::entity::{
    column_index, creates_type, distinct_enum_types, enum_statements, enum_type_models,
    foreign_key_of_relation, foreign_key_statement, index_of_column, inline_enum_text,
    primary_key_index, schema_statement_models, schema_statements, table_statement,
    SchemaStatement,
};

verus! {

/// A sole primary-key column with auto-increment is marked not-null,
/// auto-increment and primary, in that order, provided that its metadata
/// does not declare it nullable.
pub proof fn sole_auto_increment_key_is_marked(entity: EntityView, backend: DbBackend, i: int)
    requires
        entity.primary_key.columns.len() == 1,
        entity.primary_key.auto_increment,
        0 <= i < entity.columns.len(),
        entity.columns[i].name == entity.primary_key.columns[0],
        !entity.columns[i].null,
    ensures
        ({
            let column = table_statement(entity, backend).columns[i];
            &&& column.name == entity.primary_key.columns[0]
            &&& column.has(ColumnConstraint::NotNull)
            &&& column.has(ColumnConstraint::AutoIncrement)
            &&& column.has(ColumnConstraint::PrimaryKey)
            &&& column.constraints == if entity.columns[i].unique {
                seq![
                    ColumnConstraint::NotNull,
                    ColumnConstraint::UniqueKey,
                    ColumnConstraint::AutoIncrement,
                    ColumnConstraint::PrimaryKey,
                ]
            } else {
                seq![
                    ColumnConstraint::NotNull,
                    ColumnConstraint::AutoIncrement,
                    ColumnConstraint::PrimaryKey,
                ]
            }
        }),
{
    let column = table_statement(entity, backend).columns[i];
    let expected = if entity.columns[i].unique {
        seq![
            ColumnConstraint::NotNull,
            ColumnConstraint::UniqueKey,
            ColumnConstraint::AutoIncrement,
            ColumnConstraint::PrimaryKey,
        ]
    } else {
        seq![
            ColumnConstraint::NotNull,
            ColumnConstraint::AutoIncrement,
            ColumnConstraint::PrimaryKey,
        ]
    };
    assert(column.constraints =~= expected);
    let n: int = expected.len() as int;
    assert(expected[0] == ColumnConstraint::NotNull);
    assert(expected[n - 2] == ColumnConstraint::AutoIncrement);
    assert(expected[n - 1] == ColumnConstraint::PrimaryKey);
}

/// The columns of the table statement are the entity's columns in declared
/// order, each under its own name and with a type.
pub proof fn columns_keep_declared_order(entity: EntityView, backend: DbBackend)
    ensures
        table_statement(entity, backend).columns.len() == entity.columns.len(),
        forall|i: int|
            0 <= i < entity.columns.len() ==> (#[trigger] table_statement(
                entity,
                backend,
            ).columns[i]).name == entity.columns[i].name && table_statement(
                entity,
                backend,
            ).columns[i].types is Some,
{
}

/// The number of columns that are indexed.
pub open spec fn indexed_columns(columns: Seq<ColumnView>) -> nat
    decreases columns.len(),
{
    if columns.len() == 0 {
        0
    } else {
        indexed_columns(columns.drop_last()) + if columns.last().indexed {
            1nat
        } else {
            0nat
        }
    }
}

/// The indexes written for columns are as many as the indexed columns.
proof fn column_index_count(columns: Seq<ColumnView>, table: Seq<char>)
    ensures
        columns.filter_map(index_of_column(table)).len() == indexed_columns(columns),
    decreases columns.len(),
{
    if columns.len() > 0 {
        column_index_count(columns.drop_last(), table);
    }
}

/// The index of the indexed column at `i` stands after those of the columns
/// before it.
proof fn column_index_position(columns: Seq<ColumnView>, table: Seq<char>, i: int)
    requires
        0 <= i < columns.len(),
        columns[i].indexed,
    ensures
        indexed_columns(columns.take(i)) < columns.filter_map(index_of_column(table)).len(),
        columns.filter_map(index_of_column(table))[indexed_columns(columns.take(i)) as int]
            == column_index(table, columns[i].name),
    decreases columns.len(),
{
    let earlier = columns.drop_last();
    column_index_count(earlier, table);
    if i == columns.len() - 1 {
        assert(columns.take(i) =~= earlier);
    } else {
        column_index_position(earlier, table, i);
        assert(earlier.take(i) =~= columns.take(i));
    }
}

/// The table has exactly one index for each indexed column and none for the
/// others: apart from a composite primary key, its indexes are as many as
/// the indexed columns, and the one of the column at `i` stands after those
/// of the columns before it. It is named `idx-<table>-<column>`, is on the
/// entity's table, and covers that column alone.
pub proof fn indexed_column_has_one_index(entity: EntityView, backend: DbBackend, i: int)
    requires
        0 <= i < entity.columns.len(),
        entity.columns[i].indexed,
    ensures
        ({
            let indexes = table_statement(entity, backend).indexes;
            let k: int = indexed_columns(entity.columns.take(i)) as int;
            &&& indexes.len() == indexed_columns(entity.columns) + if entity.primary_key.columns.len()
                > 1 {
                1nat
            } else {
                0nat
            }
            &&& k < indexed_columns(entity.columns)
            &&& indexes[k].name == Some("idx-"@ + entity.table_name + "-"@ + entity.columns[i].name)
            &&& indexes[k].table == Some(entity.table_name)
            &&& indexes[k].columns == seq![entity.columns[i].name]
            &&& !indexes[k].primary
            &&& !indexes[k].unique
        }),
{
    column_index_count(entity.columns, entity.table_name);
    column_index_position(entity.columns, entity.table_name, i);
}

/// No index written for a column is a primary key.
proof fn column_indexes_are_not_primary(columns: Seq<ColumnView>, table: Seq<char>, k: int)
    requires
        0 <= k < columns.filter_map(index_of_column(table)).len(),
    ensures
        !columns.filter_map(index_of_column(table))[k].primary,
    decreases columns.len(),
{
    if columns.len() > 0 {
        let earlier = columns.drop_last().filter_map(index_of_column(table));
        if k < earlier.len() {
            column_indexes_are_not_primary(columns.drop_last(), table, k);
        }
    }
}

/// With a primary key of more than one column, no column is marked primary
/// or auto-increment, and the table has exactly one primary-key statement:
/// the last of its indexes, named `pk-<table>`, over all of the key's columns
/// in declared order.
pub proof fn composite_key_is_one_statement(entity: EntityView, backend: DbBackend)
    requires
        entity.primary_key.columns.len() > 1,
    ensures
        forall|i: int|
            0 <= i < entity.columns.len() ==> {
                let column = #[trigger] table_statement(entity, backend).columns[i];
                !column.has(ColumnConstraint::PrimaryKey) && !column.has(
                    ColumnConstraint::AutoIncrement,
                )
            },
        ({
            let indexes = table_statement(entity, backend).indexes;
            &&& indexes.len() >= 1
            &&& indexes.last().primary
            &&& indexes.last().name == Some("pk-"@ + entity.table_name)
            &&& indexes.last().columns == entity.primary_key.columns
            &&& forall|k: int| 0 <= k < indexes.len() - 1 ==> !(#[trigger] indexes[k]).primary
        }),
{
    let statement = table_statement(entity, backend);
    assert forall|i: int| 0 <= i < entity.columns.len() implies {
        let column = #[trigger] statement.columns[i];
        !column.has(ColumnConstraint::PrimaryKey) && !column.has(ColumnConstraint::AutoIncrement)
    } by {
        let constraints = statement.columns[i].constraints;
        assert forall|k: int| 0 <= k < constraints.len() implies constraints[k]
            != ColumnConstraint::PrimaryKey && constraints[k] != ColumnConstraint::AutoIncrement by {
            let c = entity.columns[i];
            assert(constraints =~= (if c.null {
                Seq::empty()
            } else {
                seq![ColumnConstraint::NotNull]
            }) + (if c.unique {
                seq![ColumnConstraint::UniqueKey]
            } else {
                Seq::empty()
            }));
        }
    }
    let indexes = statement.indexes;
    let of_columns = entity.columns.filter_map(index_of_column(entity.table_name));
    assert(indexes =~= of_columns.push(primary_key_index(entity)));
    assert forall|k: int| 0 <= k < indexes.len() - 1 implies !(#[trigger] indexes[k]).primary by {
        column_indexes_are_not_primary(entity.columns, entity.table_name, k);
    }
}

/// With a primary key of at most one column the table has no primary-key
/// statement.
pub proof fn simple_key_has_no_statement(entity: EntityView, backend: DbBackend)
    requires
        entity.primary_key.columns.len() <= 1,
    ensures
        forall|k: int|
            0 <= k < table_statement(entity, backend).indexes.len() ==> !(
            #[trigger] table_statement(entity, backend).indexes[k]).primary,
{
    let indexes = table_statement(entity, backend).indexes;
    assert(indexes =~= entity.columns.filter_map(index_of_column(entity.table_name)));
    assert forall|k: int| 0 <= k < indexes.len() implies !(#[trigger] indexes[k]).primary by {
        column_indexes_are_not_primary(entity.columns, entity.table_name, k);
    }
}

/// The number of relations of which the entity is not the owning side.
pub open spec fn inverse_relations(relations: Seq<RelationView>) -> nat
    decreases relations.len(),
{
    if relations.len() == 0 {
        0
    } else {
        inverse_relations(relations.drop_last()) + if relations.last().is_owner {
            0nat
        } else {
            1nat
        }
    }
}

/// The foreign keys of a sequence of relations are as many as its relations
/// that are not the owning side.
proof fn foreign_key_count(relations: Seq<RelationView>)
    ensures
        relations.filter_map(foreign_key_of_relation()).len() == inverse_relations(relations),
    decreases relations.len(),
{
    if relations.len() > 0 {
        foreign_key_count(relations.drop_last());
    }
}

/// The foreign key of the relation at `j`, which is not the owning side,
/// stands after those of the relations before it.
proof fn foreign_key_position(relations: Seq<RelationView>, j: int)
    requires
        0 <= j < relations.len(),
        !relations[j].is_owner,
    ensures
        inverse_relations(relations.take(j)) < relations.filter_map(
            foreign_key_of_relation(),
        ).len(),
        relations.filter_map(foreign_key_of_relation())[inverse_relations(relations.take(j)) as int]
            == foreign_key_statement(relations[j]),
    decreases relations.len(),
{
    let earlier = relations.drop_last();
    foreign_key_count(earlier);
    if j == relations.len() - 1 {
        assert(relations.take(j) =~= earlier);
    } else {
        foreign_key_position(earlier, j);
        assert(earlier.take(j) =~= relations.take(j));
    }
}

/// The table has exactly one foreign key for each relation of which the
/// entity is not the owning side, and none for the others: the foreign keys
/// are as many as those relations, and the one of the relation at `j` stands
/// after those of the relations before it. It is named `fk-<from>-<to>` and
/// holds the relation's columns pair by pair, in order.
pub proof fn inverse_relation_declares_one_foreign_key(
    entity: EntityView,
    backend: DbBackend,
    j: int,
)
    requires
        0 <= j < entity.relations.len(),
        !entity.relations[j].is_owner,
    ensures
        ({
            let keys = table_statement(entity, backend).foreign_keys;
            let relation = entity.relations[j];
            let k: int = inverse_relations(entity.relations.take(j)) as int;
            &&& keys.len() == inverse_relations(entity.relations)
            &&& k < keys.len()
            &&& keys[k].name == Some(
                "fk-"@ + relation.from_tbl.table + "-"@ + relation.to_tbl.table,
            )
            &&& keys[k].table == Some(relation.from_tbl.table)
            &&& keys[k].ref_table == Some(relation.to_tbl.table)
            &&& keys[k].columns == relation.from_col
            &&& keys[k].ref_columns == relation.to_col
            &&& keys[k].on_delete == relation.on_delete
            &&& keys[k].on_update == relation.on_update
        }),
{
    foreign_key_count(entity.relations);
    foreign_key_position(entity.relations, j);
}

/// An entity whose relations are all owning sides declares no foreign key.
pub proof fn owning_sides_declare_no_foreign_key(entity: EntityView, backend: DbBackend)
    requires
        forall|j: int| 0 <= j < entity.relations.len() ==> (#[trigger] entity.relations[j]).is_owner,
    ensures
        table_statement(entity, backend).foreign_keys.len() == 0,
    decreases entity.relations.len(),
{
    if entity.relations.len() > 0 {
        let earlier = EntityView { relations: entity.relations.drop_last(), ..entity };
        assert forall|j: int| 0 <= j < earlier.relations.len() implies (
        #[trigger] earlier.relations[j]).is_owner by {
            assert(earlier.relations[j] == entity.relations[j]);
        }
        owning_sides_declare_no_foreign_key(earlier, backend);
    }
}

/// On a backend without enum types no create-type statement is written, and
/// an enum column's type is the variants as constrained text where the
/// backend writes them inline, and plain text otherwise.
pub proof fn enums_fold_into_columns_without_native_types(
    entity: EntityView,
    backend: DbBackend,
    i: int,
)
    requires
        !backend.supports_native_enum(),
        0 <= i < entity.columns.len(),
        entity.columns[i].col_type is Enum,
    ensures
        enum_statements(entity, backend).len() == 0,
        table_statement(entity, backend).columns[i].types == Some(
            match backend.enum_strategy() {
                EnumStrategy::InlineText => SqlType::Custom(
                    inline_enum_text(entity.columns[i].col_type->Enum_1),
                ),
                _ => SqlType::Scalar(ScalarType::Text),
            },
        ),
{
}

/// The create-type statements of any columns have distinct names, and each
/// is written for an enum column of that name.
proof fn distinct_enum_types_are_distinct(columns: Seq<ColumnView>)
    ensures
        forall|a: int, b: int|
            0 <= a < b < distinct_enum_types(columns).len() ==> (#[trigger] distinct_enum_types(
                columns,
            )[a]).name != (#[trigger] distinct_enum_types(columns)[b]).name,
        forall|k: int|
            0 <= k < distinct_enum_types(columns).len() ==> exists|i: int|
                0 <= i < columns.len() && #[trigger] columns[i].col_type == ColumnTypeView::Enum(
                    distinct_enum_types(columns)[k].name->0,
                    distinct_enum_types(columns)[k].values,
                ) && (#[trigger] distinct_enum_types(columns)[k]).name is Some,
    decreases columns.len(),
{
    if columns.len() > 0 {
        let earlier_columns = columns.drop_last();
        distinct_enum_types_are_distinct(earlier_columns);
        let earlier = distinct_enum_types(earlier_columns);
        let all = distinct_enum_types(columns);
        assert forall|k: int| 0 <= k < all.len() implies exists|i: int|
            0 <= i < columns.len() && #[trigger] columns[i].col_type == ColumnTypeView::Enum(
                all[k].name->0,
                all[k].values,
            ) && (#[trigger] all[k]).name is Some by {
            if k < earlier.len() {
                assert(all[k] == earlier[k]);
                let i = choose|i: int|
                    0 <= i < earlier_columns.len() && #[trigger] earlier_columns[i].col_type
                        == ColumnTypeView::Enum(earlier[k].name->0, earlier[k].values);
                assert(columns[i] == earlier_columns[i]);
            } else {
                assert(columns[columns.len() - 1] == columns.last());
            }
        }
    }
}

/// Every enum column has a create-type statement of its name.
proof fn distinct_enum_types_cover(columns: Seq<ColumnView>, i: int)
    requires
        0 <= i < columns.len(),
        columns[i].col_type is Enum,
    ensures
        creates_type(distinct_enum_types(columns), columns[i].col_type->Enum_0),
    decreases columns.len(),
{
    let earlier = distinct_enum_types(columns.drop_last());
    let all = distinct_enum_types(columns);
    let name = columns[i].col_type->Enum_0;
    if i < columns.len() - 1 {
        distinct_enum_types_cover(columns.drop_last(), i);
        let k = choose|k: int| 0 <= k < earlier.len() && #[trigger] earlier[k].name == Some(name);
        assert(all[k] == earlier[k]);
    } else {
        if creates_type(earlier, name) {
            let k = choose|k: int| 0 <= k < earlier.len() && #[trigger] earlier[k].name == Some(name);
            assert(all[k] == earlier[k]);
        } else {
            assert(all[all.len() - 1].name == Some(name));
        }
    }
}

/// On a backend with enum types there is exactly one create-type statement
/// for each enum name among the columns, however many columns share the
/// name: no two statements have the same name, every statement is written for
/// an enum column of its name with that column's variants, and every enum
/// column has a statement of its name.
pub proof fn one_enum_statement_per_name(entity: EntityView, backend: DbBackend)
    requires
        backend.supports_native_enum(),
    ensures
        forall|a: int, b: int|
            0 <= a < b < enum_statements(entity, backend).len() ==> (#[trigger] enum_statements(
                entity,
                backend,
            )[a]).name != (#[trigger] enum_statements(entity, backend)[b]).name,
        forall|k: int|
            0 <= k < enum_statements(entity, backend).len() ==> exists|i: int|
                0 <= i < entity.columns.len() && #[trigger] entity.columns[i].col_type
                    == ColumnTypeView::Enum(
                    enum_statements(entity, backend)[k].name->0,
                    enum_statements(entity, backend)[k].values,
                ) && (#[trigger] enum_statements(entity, backend)[k]).name is Some,
        forall|i: int|
            0 <= i < entity.columns.len() && (#[trigger] entity.columns[i]).col_type is Enum
                ==> creates_type(
                enum_statements(entity, backend),
                entity.columns[i].col_type->Enum_0,
            ),
{
    distinct_enum_types_are_distinct(entity.columns);
    assert forall|i: int|
        0 <= i < entity.columns.len() && (#[trigger] entity.columns[i]).col_type is Enum implies creates_type(
        enum_statements(entity, backend),
        entity.columns[i].col_type->Enum_0,
    ) by {
        distinct_enum_types_cover(entity.columns, i);
    }
}

/// Every statement that creates an enum type comes before the statement
/// that creates the table: the table statement is the last of an entity's
/// statements, and those before it are the create-type statements, in their
/// order.
pub proof fn enum_types_precede_table(entity: EntityView, backend: DbBackend)
    ensures
        ({
            let statements = schema_statements(entity, backend);
            let types = enum_statements(entity, backend);
            &&& statements.len() == types.len() + 1
            &&& statements.last() == SchemaStatementModel::CreateTable(
                table_statement(entity, backend),
            )
            &&& forall|k: int|
                0 <= k < types.len() ==> #[trigger] statements[k]
                    == SchemaStatementModel::CreateType(types[k])
        }),
{
}

/// On a backend with enum types an enum column refers to its type by name.
pub proof fn enum_column_refers_to_native_type(entity: EntityView, backend: DbBackend, i: int)
    requires
        backend.supports_native_enum(),
        0 <= i < entity.columns.len(),
        entity.columns[i].col_type is Enum,
    ensures
        table_statement(entity, backend).columns[i].types == Some(
            SqlType::Custom(entity.columns[i].col_type->Enum_0),
        ),
{
}

/// Synthesis is a function of the metadata's value: two entities that hold
/// the same data yield the same table statement and the same create-type
/// statements, whichever statements the two calls returned.
pub proof fn same_metadata_gives_same_statements(
    first: EntityMetadata,
    second: EntityMetadata,
    backend: DbBackend,
    first_table: sea_query::TableCreateStatement,
    second_table: sea_query::TableCreateStatement,
    first_types: Seq<sea_query::extension::postgres::TypeCreateStatement>,
    second_types: Seq<sea_query::extension::postgres::TypeCreateStatement>,
)
    requires
        first@ == second@,
        table_model(first_table) == table_statement(first@, backend),
        table_model(second_table) == table_statement(second@, backend),
        enum_type_models(first_types) == enum_statements(first@, backend),
        enum_type_models(second_types) == enum_statements(second@, backend),
    ensures
        table_model(first_table) == table_model(second_table),
        enum_type_models(first_types) == enum_type_models(second_types),
{
}

/// The sequence of all of an entity's statements is a function of the
/// metadata's value too: two entities that hold the same data yield the same
/// sequence, whichever statements the two calls returned.
pub proof fn same_metadata_gives_same_sequence(
    first: EntityMetadata,
    second: EntityMetadata,
    backend: DbBackend,
    first_statements: Seq<SchemaStatement>,
    second_statements: Seq<SchemaStatement>,
)
    requires
        first@ == second@,
        schema_statement_models(first_statements) == schema_statements(first@, backend),
        schema_statement_models(second_statements) == schema_statements(second@, backend),
    ensures
        schema_statement_models(first_statements) == schema_statement_models(second_statements),
{
}

} // verus!
