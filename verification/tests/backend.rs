use sea_orm::backend::{DbBackend, EnumStrategy};

#[test]
fn only_postgres_has_native_enums() {
    assert!(DbBackend::Postgres.supports_native_enum());
    assert!(!DbBackend::MySql.supports_native_enum());
    assert!(!DbBackend::Sqlite.supports_native_enum());
}

#[test]
fn enum_strategy_per_backend() {
    assert_eq!(DbBackend::MySql.enum_strategy(), EnumStrategy::InlineText);
    assert_eq!(DbBackend::Postgres.enum_strategy(), EnumStrategy::NativeType);
    assert_eq!(DbBackend::Sqlite.enum_strategy(), EnumStrategy::PlainText);
}

#[test]
fn every_backend_has_auto_increment() {
    for backend in [DbBackend::MySql, DbBackend::Postgres, DbBackend::Sqlite] {
        assert!(backend.supports_auto_increment());
    }
}
