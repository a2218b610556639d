use sea_orm::backend::DbBackend;
use sea_orm::entity::{
    ColumnMetadata, ColumnType, EntityMetadata, Identity, PrimaryKeyMetadata, RelationMetadata,
    ScalarType, TableRef,
};
use sea_orm::schema::entity::SchemaStatement;
use sea_orm::schema::Schema;
use sea_query::extension::postgres::TypeCreateStatement;
use sea_query::{
    Alias, ColumnDef, ForeignKeyAction, ForeignKeyCreateStatement, Index, IntoTableRef,
    MysqlQueryBuilder, PostgresQueryBuilder, SqliteQueryBuilder, Table, TableCreateStatement,
};

fn build(backend: DbBackend, statement: &TableCreateStatement) -> String {
    match backend {
        DbBackend::MySql => statement.to_string(MysqlQueryBuilder),
        DbBackend::Postgres => statement.to_string(PostgresQueryBuilder),
        DbBackend::Sqlite => statement.to_string(SqliteQueryBuilder),
    }
}

fn build_type(statement: &TypeCreateStatement) -> String {
    statement.to_string(PostgresQueryBuilder)
}

fn column(name: &str, col_type: ColumnType) -> ColumnMetadata {
    ColumnMetadata { name: name.to_owned(), col_type, null: false, unique: false, indexed: false }
}

fn scalar(name: &str, scalar: ScalarType) -> ColumnMetadata {
    column(name, ColumnType::Scalar(scalar))
}

fn table(name: &str) -> TableRef {
    TableRef { schema: None, table: name.to_owned() }
}

fn names(list: &[&str]) -> Vec<String> {
    list.iter().map(|s| s.to_string()).collect()
}

fn entity(name: &str, columns: Vec<ColumnMetadata>, key: &[&str]) -> EntityMetadata {
    EntityMetadata {
        schema_name: None,
        table_name: name.to_owned(),
        columns,
        primary_key: PrimaryKeyMetadata { columns: names(key), auto_increment: false },
        relations: Vec::new(),
    }
}

fn cake_filling_price() -> EntityMetadata {
    let mut e = entity(
        "cake_filling_price",
        vec![
            scalar("cake_id", ScalarType::Integer),
            scalar("filling_id", ScalarType::Integer),
            scalar("price", ScalarType::Decimal(None)),
        ],
        &["cake_id", "filling_id"],
    );
    e.relations.push(RelationMetadata {
        from_tbl: table("cake_filling_price"),
        from_col: Identity::Binary("cake_id".to_owned(), "filling_id".to_owned()),
        to_tbl: table("cake_filling"),
        to_col: Identity::Binary("cake_id".to_owned(), "filling_id".to_owned()),
        is_owner: false,
        on_delete: None,
        on_update: None,
    });
    e
}

fn get_stmt() -> TableCreateStatement {
    Table::create()
        .col(ColumnDef::new(Alias::new("cake_id")).integer().not_null())
        .col(ColumnDef::new(Alias::new("filling_id")).integer().not_null())
        .col(ColumnDef::new(Alias::new("price")).decimal().not_null())
        .primary_key(
            Index::create()
                .name("pk-cake_filling_price")
                .col(Alias::new("cake_id"))
                .col(Alias::new("filling_id"))
                .primary(),
        )
        .foreign_key(
            ForeignKeyCreateStatement::new()
                .name("fk-cake_filling_price-cake_filling")
                .from_tbl(Alias::new("cake_filling_price"))
                .from_col(Alias::new("cake_id"))
                .from_col(Alias::new("filling_id"))
                .to_tbl(Alias::new("cake_filling"))
                .to_col(Alias::new("cake_id"))
                .to_col(Alias::new("filling_id")),
        )
        .to_owned()
}

fn table_ref(table: TableRef) -> sea_query::TableRef {
    match table.schema {
        Some(schema) => (Alias::new(&schema), Alias::new(&table.table)).into_table_ref(),
        None => Alias::new(&table.table).into_table_ref(),
    }
}

#[test]
fn test_create_table_from_entity_table_ref() {
    for builder in [DbBackend::MySql, DbBackend::Postgres, DbBackend::Sqlite] {
        let schema = Schema::new(builder);
        assert_eq!(
            build(builder, &schema.create_table_from_entity(&cake_filling_price())),
            build(builder, &get_stmt().table(table_ref(cake_filling_price().table_ref())).to_owned())
        );
    }
}

#[test]
fn test_create_table_from_entity() {
    for builder in [DbBackend::MySql, DbBackend::Sqlite] {
        let schema = Schema::new(builder);
        assert_eq!(
            build(builder, &schema.create_table_from_entity(&cake_filling_price())),
            build(builder, &get_stmt().table(Alias::new("cake_filling_price")).to_owned())
        );
    }
}

#[test]
fn composite_key_table_text_on_postgres() {
    let statement = Schema::new(DbBackend::Postgres).create_table_from_entity(&cake_filling_price());
    assert_eq!(
        statement.to_string(PostgresQueryBuilder),
        [
            r#"CREATE TABLE "cake_filling_price" ("#,
            r#""cake_id" integer NOT NULL,"#,
            r#""filling_id" integer NOT NULL,"#,
            r#""price" decimal NOT NULL,"#,
            r#"CONSTRAINT "pk-cake_filling_price" PRIMARY KEY ("cake_id", "filling_id"),"#,
            r#"CONSTRAINT "fk-cake_filling_price-cake_filling""#,
            r#"FOREIGN KEY ("cake_id", "filling_id") REFERENCES "cake_filling" ("cake_id", "filling_id")"#,
            r#")"#,
        ]
        .join(" ")
    );
}

#[test]
fn composite_key_marks_no_column_primary() {
    let statement = Schema::new(DbBackend::MySql).create_table_from_entity(&cake_filling_price());
    for def in statement.get_columns() {
        let specs = format!("{:?}", def.get_column_spec());
        assert_eq!(specs, "[NotNull]");
    }
    let indexes = statement.get_indexes();
    assert_eq!(indexes.len(), 1);
    assert!(indexes[0].is_primary_key());
    assert_eq!(indexes[0].get_index_spec().get_column_names(), names(&["cake_id", "filling_id"]));
    let keys = statement.get_foreign_key_create_stmts();
    assert_eq!(keys.len(), 1);
    let key = keys[0].get_foreign_key();
    assert_eq!(key.get_ref_table(), Some("cake_filling".to_owned()));
    assert_eq!(key.get_columns(), names(&["cake_id", "filling_id"]));
    assert_eq!(key.get_ref_columns(), names(&["cake_id", "filling_id"]));
}

#[test]
fn table_in_a_schema_is_named_with_it() {
    let mut e = cake_filling_price();
    e.schema_name = Some("public".to_owned());
    assert_eq!(e.table_ref().schema, Some("public".to_owned()));
    assert_eq!(e.table_ref().table, "cake_filling_price");
    for builder in [DbBackend::MySql, DbBackend::Postgres, DbBackend::Sqlite] {
        assert_eq!(
            build(builder, &Schema::new(builder).create_table_from_entity(&e)),
            build(
                builder,
                &get_stmt()
                    .table((Alias::new("public"), Alias::new("cake_filling_price")))
                    .to_owned()
            )
        );
        assert_eq!(
            build(builder, &Schema::new(builder).create_table_from_entity(&e)),
            build(builder, &get_stmt().table(table_ref(e.table_ref())).to_owned())
        );
    }
    let text = build(DbBackend::Postgres, &Schema::new(DbBackend::Postgres).create_table_from_entity(&e));
    assert!(text.starts_with(r#"CREATE TABLE "public"."cake_filling_price" ( "#));
}

#[test]
fn sole_auto_increment_key_is_inline() {
    let mut e = entity(
        "cake",
        vec![scalar("id", ScalarType::Integer), scalar("name", ScalarType::String(None))],
        &["id"],
    );
    e.primary_key.auto_increment = true;
    assert_eq!(
        build(DbBackend::MySql, &Schema::new(DbBackend::MySql).create_table_from_entity(&e)),
        "CREATE TABLE `cake` ( `id` int NOT NULL AUTO_INCREMENT PRIMARY KEY, `name` varchar(255) NOT NULL )"
    );
    assert_eq!(
        build(DbBackend::Postgres, &Schema::new(DbBackend::Postgres).create_table_from_entity(&e)),
        r#"CREATE TABLE "cake" ( "id" serial NOT NULL PRIMARY KEY, "name" varchar NOT NULL )"#
    );
    assert_eq!(
        build(DbBackend::Sqlite, &Schema::new(DbBackend::Sqlite).create_table_from_entity(&e)),
        "CREATE TABLE `cake` ( `id` integer NOT NULL PRIMARY KEY AUTOINCREMENT, `name` text NOT NULL )"
    );
    let statement = Schema::new(DbBackend::MySql).create_table_from_entity(&e);
    assert!(statement.get_indexes().is_empty());
}

#[test]
fn sole_key_without_auto_increment() {
    let e = entity("cake", vec![scalar("id", ScalarType::Uuid)], &["id"]);
    assert_eq!(
        build(DbBackend::Postgres, &Schema::new(DbBackend::Postgres).create_table_from_entity(&e)),
        r#"CREATE TABLE "cake" ( "id" uuid NOT NULL PRIMARY KEY )"#
    );
}

#[test]
fn composite_key_is_never_auto_increment() {
    let mut e = cake_filling_price();
    e.primary_key.auto_increment = true;
    let statement = Schema::new(DbBackend::MySql).create_table_from_entity(&e);
    for def in statement.get_columns() {
        assert_eq!(format!("{:?}", def.get_column_spec()), "[NotNull]");
    }
}

#[test]
fn nullable_and_unique_columns() {
    let mut a = scalar("a", ScalarType::Text);
    a.null = true;
    let mut b = scalar("b", ScalarType::BigInteger);
    b.unique = true;
    let mut c = scalar("c", ScalarType::Boolean);
    c.null = true;
    c.unique = true;
    let e = entity("t", vec![a, b, c], &[]);
    assert_eq!(
        build(DbBackend::Postgres, &Schema::new(DbBackend::Postgres).create_table_from_entity(&e)),
        r#"CREATE TABLE "t" ( "a" text, "b" bigint NOT NULL UNIQUE, "c" bool UNIQUE )"#
    );
}

#[test]
fn indexed_columns_get_named_indexes() {
    let mut a = scalar("a", ScalarType::Integer);
    a.indexed = true;
    let b = scalar("b", ScalarType::Integer);
    let mut c = scalar("c", ScalarType::Integer);
    c.indexed = true;
    let e = entity("t", vec![a, b, c], &["a", "b"]);
    let statement = Schema::new(DbBackend::MySql).create_table_from_entity(&e);
    let indexes = statement.get_indexes();
    assert_eq!(indexes.len(), 3);
    assert_eq!(indexes[0].get_index_spec().get_column_names(), names(&["a"]));
    assert!(!indexes[0].is_primary_key());
    assert_eq!(indexes[1].get_index_spec().get_column_names(), names(&["c"]));
    assert!(!indexes[1].is_primary_key());
    assert_eq!(indexes[2].get_index_spec().get_column_names(), names(&["a", "b"]));
    assert!(indexes[2].is_primary_key());
    assert_eq!(
        build(DbBackend::MySql, &statement),
        "CREATE TABLE `t` ( `a` int NOT NULL, `b` int NOT NULL, `c` int NOT NULL, \
         KEY `idx-t-a` (`a`), KEY `idx-t-c` (`c`), \
         PRIMARY KEY `pk-t` (`a`, `b`) )"
    );
}

#[test]
fn owning_side_declares_no_foreign_key() {
    let mut e = cake_filling_price();
    e.relations[0].is_owner = true;
    let statement = Schema::new(DbBackend::Postgres).create_table_from_entity(&e);
    assert!(statement.get_foreign_key_create_stmts().is_empty());
}

#[test]
fn foreign_keys_follow_relation_order_and_carry_actions() {
    let mut e = entity("fruit", vec![scalar("id", ScalarType::Integer)], &["id"]);
    e.relations.push(RelationMetadata {
        from_tbl: TableRef { schema: Some("public".to_owned()), table: "fruit".to_owned() },
        from_col: Identity::Unary("cake_id".to_owned()),
        to_tbl: table("cake"),
        to_col: Identity::Unary("id".to_owned()),
        is_owner: false,
        on_delete: Some(ForeignKeyAction::Cascade),
        on_update: Some(ForeignKeyAction::SetNull),
    });
    e.relations.push(RelationMetadata {
        from_tbl: table("fruit"),
        from_col: Identity::Unary("id".to_owned()),
        to_tbl: table("seed"),
        to_col: Identity::Unary("fruit_id".to_owned()),
        is_owner: true,
        on_delete: None,
        on_update: None,
    });
    e.relations.push(RelationMetadata {
        from_tbl: table("fruit"),
        from_col: Identity::Ternary("a".to_owned(), "b".to_owned(), "c".to_owned()),
        to_tbl: table("tree"),
        to_col: Identity::Ternary("x".to_owned(), "y".to_owned(), "z".to_owned()),
        is_owner: false,
        on_delete: None,
        on_update: Some(ForeignKeyAction::Restrict),
    });
    assert_eq!(
        build(DbBackend::Postgres, &Schema::new(DbBackend::Postgres).create_table_from_entity(&e)),
        [
            r#"CREATE TABLE "fruit" ( "id" integer NOT NULL PRIMARY KEY,"#,
            r#"CONSTRAINT "fk-fruit-cake" FOREIGN KEY ("cake_id") REFERENCES "cake" ("id")"#,
            r#"ON DELETE CASCADE ON UPDATE SET NULL,"#,
            r#"CONSTRAINT "fk-fruit-tree" FOREIGN KEY ("a", "b", "c") REFERENCES "tree" ("x", "y", "z")"#,
            r#"ON UPDATE RESTRICT )"#,
        ]
        .join(" ")
    );
}

fn tea_columns() -> Vec<ColumnMetadata> {
    vec![
        scalar("id", ScalarType::Integer),
        column("tea", ColumnType::Enum("tea".to_owned(), names(&["EverydayTea", "BreakfastTea"]))),
        column("color", ColumnType::Enum("color".to_owned(), names(&["Black", "White"]))),
        column("other_tea", ColumnType::Enum("tea".to_owned(), names(&["Oolong"]))),
    ]
}

#[test]
fn enum_column_per_backend() {
    let e = entity("t", vec![tea_columns().remove(1)], &[]);
    assert_eq!(
        build(DbBackend::MySql, &Schema::new(DbBackend::MySql).create_table_from_entity(&e)),
        "CREATE TABLE `t` ( `tea` ENUM('EverydayTea', 'BreakfastTea') NOT NULL )"
    );
    assert_eq!(
        build(DbBackend::Postgres, &Schema::new(DbBackend::Postgres).create_table_from_entity(&e)),
        r#"CREATE TABLE "t" ( "tea" tea NOT NULL )"#
    );
    assert_eq!(
        build(DbBackend::Sqlite, &Schema::new(DbBackend::Sqlite).create_table_from_entity(&e)),
        "CREATE TABLE `t` ( `tea` text NOT NULL )"
    );
}

#[test]
fn inline_enum_text_edge_cases() {
    let none = entity("t", vec![column("e", ColumnType::Enum("e".to_owned(), Vec::new()))], &[]);
    assert_eq!(
        build(DbBackend::MySql, &Schema::new(DbBackend::MySql).create_table_from_entity(&none)),
        "CREATE TABLE `t` ( `e` ENUM('') NOT NULL )"
    );
    let one = entity("t", vec![column("e", ColumnType::Enum("e".to_owned(), names(&["A"])))], &[]);
    assert_eq!(
        build(DbBackend::MySql, &Schema::new(DbBackend::MySql).create_table_from_entity(&one)),
        "CREATE TABLE `t` ( `e` ENUM('A') NOT NULL )"
    );
}

#[test]
fn custom_type_is_written_by_name() {
    let e = entity("t", vec![column("c", ColumnType::Custom("citext".to_owned()))], &[]);
    assert_eq!(
        build(DbBackend::Postgres, &Schema::new(DbBackend::Postgres).create_table_from_entity(&e)),
        r#"CREATE TABLE "t" ( "c" citext NOT NULL )"#
    );
}

#[test]
fn no_enum_statements_without_native_enums() {
    let e = entity("t", tea_columns(), &["id"]);
    assert!(Schema::new(DbBackend::MySql).create_enum_from_entity(&e).is_empty());
    assert!(Schema::new(DbBackend::Sqlite).create_enum_from_entity(&e).is_empty());
}

#[test]
fn one_enum_statement_per_distinct_name() {
    let e = entity("t", tea_columns(), &["id"]);
    let statements = Schema::new(DbBackend::Postgres).create_enum_from_entity(&e);
    let texts: Vec<String> = statements.iter().map(build_type).collect();
    assert_eq!(
        texts,
        vec![
            r#"CREATE TYPE "tea" AS ENUM ('EverydayTea', 'BreakfastTea')"#.to_owned(),
            r#"CREATE TYPE "color" AS ENUM ('Black', 'White')"#.to_owned(),
        ]
    );
}

#[test]
fn entity_without_enum_columns_has_no_enum_statements() {
    let statements = Schema::new(DbBackend::Postgres).create_enum_from_entity(&cake_filling_price());
    assert!(statements.is_empty());
}

#[test]
fn synthesis_is_repeatable() {
    let e = entity("t", tea_columns(), &["id"]);
    for builder in [DbBackend::MySql, DbBackend::Postgres, DbBackend::Sqlite] {
        let schema = Schema::new(builder);
        assert_eq!(
            build(builder, &schema.create_table_from_entity(&e)),
            build(builder, &schema.create_table_from_entity(&e.clone()))
        );
        let first: Vec<String> = schema.create_enum_from_entity(&e).iter().map(build_type).collect();
        let second: Vec<String> = schema.create_enum_from_entity(&e).iter().map(build_type).collect();
        assert_eq!(first, second);
    }
}

#[test]
fn every_scalar_type_is_written() {
    let all = vec![
        (ScalarType::Char(None), "char"),
        (ScalarType::Char(Some(4)), "char(4)"),
        (ScalarType::String(None), "varchar"),
        (ScalarType::String(Some(9)), "varchar(9)"),
        (ScalarType::Text, "text"),
        (ScalarType::TinyInteger, "tinyint"),
        (ScalarType::SmallInteger, "smallint"),
        (ScalarType::Integer, "integer"),
        (ScalarType::BigInteger, "bigint"),
        (ScalarType::Float, "real"),
        (ScalarType::Double, "double precision"),
        (ScalarType::Decimal(None), "decimal"),
        (ScalarType::Decimal(Some((10, 2))), "decimal(10, 2)"),
        (ScalarType::DateTime, "timestamp without time zone"),
        (ScalarType::Timestamp, "timestamp"),
        (ScalarType::TimestampWithTimeZone, "timestamp with time zone"),
        (ScalarType::Time, "time"),
        (ScalarType::Date, "date"),
        (ScalarType::Binary, "bytea"),
        (ScalarType::Boolean, "bool"),
        (ScalarType::Money(None), "money"),
        (ScalarType::Money(Some((8, 3))), "money(8, 3)"),
        (ScalarType::Json, "json"),
        (ScalarType::JsonBinary, "jsonb"),
        (ScalarType::Uuid, "uuid"),
    ];
    for (kind, text) in all {
        let e = entity("t", vec![scalar("c", kind)], &[]);
        assert_eq!(
            build(DbBackend::Postgres, &Schema::new(DbBackend::Postgres).create_table_from_entity(&e)),
            format!(r#"CREATE TABLE "t" ( "c" {} NOT NULL )"#, text)
        );
    }
}

#[test]
fn index_statement_names_its_table() {
    let mut a = scalar("a", ScalarType::Integer);
    a.indexed = true;
    let e = entity("t", vec![a], &[]);
    let statement = Schema::new(DbBackend::Postgres).create_table_from_entity(&e);
    let indexes = statement.get_indexes();
    assert_eq!(indexes.len(), 1);
    assert_eq!(
        indexes[0].to_string(PostgresQueryBuilder),
        r#"CREATE INDEX "idx-t-a" ON "t" ("a")"#
    );
    assert!(!indexes[0].is_unique_key());
}

#[test]
fn foreign_key_statement_names_both_tables() {
    let statement = Schema::new(DbBackend::Postgres).create_table_from_entity(&cake_filling_price());
    let keys = statement.get_foreign_key_create_stmts();
    assert_eq!(keys.len(), 1);
    assert_eq!(
        keys[0].to_string(PostgresQueryBuilder),
        [
            r#"ALTER TABLE "cake_filling_price""#,
            r#"ADD CONSTRAINT "fk-cake_filling_price-cake_filling""#,
            r#"FOREIGN KEY ("cake_id", "filling_id") REFERENCES "cake_filling" ("cake_id", "filling_id")"#,
        ]
        .join(" ")
    );
}

#[test]
fn mismatched_identities_are_written_as_declared() {
    let mut e = entity("a", vec![scalar("id", ScalarType::Integer)], &["id"]);
    e.relations.push(RelationMetadata {
        from_tbl: table("a"),
        from_col: Identity::Binary("x".to_owned(), "y".to_owned()),
        to_tbl: table("b"),
        to_col: Identity::Unary("z".to_owned()),
        is_owner: false,
        on_delete: None,
        on_update: None,
    });
    let statement = Schema::new(DbBackend::Sqlite).create_table_from_entity(&e);
    let key = statement.get_foreign_key_create_stmts()[0].get_foreign_key();
    assert_eq!(key.get_columns(), names(&["x", "y"]));
    assert_eq!(key.get_ref_columns(), names(&["z"]));
}

#[test]
fn entity_without_columns_or_key() {
    let e = entity("empty", Vec::new(), &[]);
    let statement = Schema::new(DbBackend::Postgres).create_table_from_entity(&e);
    assert!(statement.get_columns().is_empty());
    assert!(statement.get_indexes().is_empty());
    assert!(statement.get_foreign_key_create_stmts().is_empty());
    assert_eq!(build(DbBackend::Postgres, &statement), r#"CREATE TABLE "empty" ( )"#);
}

#[test]
fn key_column_that_is_not_a_column_marks_nothing() {
    let e = entity("t", vec![scalar("a", ScalarType::Integer)], &["b"]);
    let statement = Schema::new(DbBackend::Postgres).create_table_from_entity(&e);
    assert_eq!(build(DbBackend::Postgres, &statement), r#"CREATE TABLE "t" ( "a" integer NOT NULL )"#);
}

#[test]
fn nullable_sole_key_is_not_marked_not_null() {
    let mut id = scalar("id", ScalarType::Integer);
    id.null = true;
    let mut e = entity("t", vec![id], &["id"]);
    e.primary_key.auto_increment = true;
    let statement = Schema::new(DbBackend::MySql).create_table_from_entity(&e);
    assert_eq!(
        build(DbBackend::MySql, &statement),
        "CREATE TABLE `t` ( `id` int AUTO_INCREMENT PRIMARY KEY )"
    );
}

fn build_any(backend: DbBackend, statement: &SchemaStatement) -> String {
    match statement {
        SchemaStatement::CreateType(statement) => build_type(statement),
        SchemaStatement::CreateTable(statement) => build(backend, statement),
    }
}

#[test]
fn enum_types_come_before_the_table() {
    let e = entity("t", tea_columns(), &["id"]);
    let statements = Schema::new(DbBackend::Postgres).create_statements_from_entity(&e);
    let texts: Vec<String> =
        statements.iter().map(|s| build_any(DbBackend::Postgres, s)).collect();
    assert_eq!(
        texts,
        vec![
            r#"CREATE TYPE "tea" AS ENUM ('EverydayTea', 'BreakfastTea')"#.to_owned(),
            r#"CREATE TYPE "color" AS ENUM ('Black', 'White')"#.to_owned(),
            [
                r#"CREATE TABLE "t" ( "id" integer NOT NULL PRIMARY KEY,"#,
                r#""tea" tea NOT NULL, "color" color NOT NULL, "other_tea" tea NOT NULL )"#,
            ]
            .join(" "),
        ]
    );
}

#[test]
fn without_native_enums_the_table_stands_alone() {
    let e = entity("t", tea_columns(), &["id"]);
    for backend in [DbBackend::MySql, DbBackend::Sqlite] {
        let statements = Schema::new(backend).create_statements_from_entity(&e);
        assert_eq!(statements.len(), 1);
        assert!(matches!(statements[0], SchemaStatement::CreateTable(_)));
    }
    let statements = Schema::new(DbBackend::MySql).create_statements_from_entity(&e);
    assert_eq!(
        build_any(DbBackend::MySql, &statements[0]),
        [
            "CREATE TABLE `t` ( `id` int NOT NULL PRIMARY KEY,",
            "`tea` ENUM('EverydayTea', 'BreakfastTea') NOT NULL,",
            "`color` ENUM('Black', 'White') NOT NULL,",
            "`other_tea` ENUM('Oolong') NOT NULL )",
        ]
        .join(" ")
    );
}

#[test]
fn statement_sequence_is_repeatable() {
    let e = entity("t", tea_columns(), &["id"]);
    for backend in [DbBackend::MySql, DbBackend::Postgres, DbBackend::Sqlite] {
        let schema = Schema::new(backend);
        let first: Vec<String> = schema
            .create_statements_from_entity(&e)
            .iter()
            .map(|s| build_any(backend, s))
            .collect();
        let second: Vec<String> = schema
            .create_statements_from_entity(&e.clone())
            .iter()
            .map(|s| build_any(backend, s))
            .collect();
        assert_eq!(first, second);
    }
}
