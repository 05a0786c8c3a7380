use migrate_config::infer::PriorMigration;
use migrate_config::migrate::{
    Config, DefaultMigrationType, DefaultVersioning, Drivers, EnvironmentOverrides,
    MigrationDefaults, Postgres,
};

fn no_env() -> EnvironmentOverrides {
    EnvironmentOverrides { migrations_table: None, migrations_schema: None }
}

fn test_env() -> EnvironmentOverrides {
    EnvironmentOverrides {
        migrations_table: Some("test_migrations".to_string()),
        migrations_schema: Some("test_schema".to_string()),
    }
}

fn bare_config() -> Config {
    Config {
        create_schemas: Default::default(),
        table_name: None,
        migrations_dir: Default::default(),
        ignored_chars: Default::default(),
        defaults: Default::default(),
        drivers: Drivers { postgres: Postgres { schema: None } },
    }
}

fn history(versions: &[i64], reversible: bool) -> Vec<PriorMigration> {
    versions.iter().map(|&version| PriorMigration { reversible, version }).collect()
}

#[test]
fn test_migrate_env_var_support() {
    let env = test_env();
    let config = Config::from_environment(&env);

    // Both variables are read when the configuration is made.
    assert_eq!(config.table_name.as_deref(), Some("test_migrations"));
    assert_eq!(config.drivers.postgres.schema.as_deref(), Some("test_schema"));
    assert_eq!(config.postgres_schema(&env), Some("test_schema".to_string()));
    // A resolvable schema qualifies the table name.
    assert_eq!(config.table_name(&env), "test_schema.test_migrations");
}

#[test]
fn test_migrate_defaults_without_env() {
    let config = bare_config();
    let env = no_env();

    assert_eq!(config.table_name(&env), "_sqlx_migrations");
    assert_eq!(config.postgres_schema(&env), None);
}

#[test]
fn default_config_without_env() {
    let env = no_env();
    let config = Config::from_environment(&env);
    assert_eq!(config.table_name(&env), "_sqlx_migrations");
    assert_eq!(config.postgres_schema(&env), None);
    assert_eq!(config.migrations_dir(), "migrations");
    assert_eq!(config.defaults, MigrationDefaults::default());
    assert!(config.create_schemas.is_empty());
    assert!(config.ignored_chars.is_empty());
}

#[test]
fn environment_read_at_call_time_is_a_fallback() {
    let config = Config::from_environment(&no_env());
    let later = test_env();
    assert_eq!(config.postgres_schema(&later), Some("test_schema".to_string()));
    assert_eq!(config.table_name(&later), "test_schema._sqlx_migrations");
    assert_eq!(config.qualified_table_name("postgres", &later), "test_schema.test_migrations");
}

#[test]
fn configured_values_win_over_environment() {
    let mut config = bare_config();
    config.table_name = Some("tracked".to_string());
    config.drivers.postgres.schema = Some("mine".to_string());
    let env = test_env();
    assert_eq!(config.postgres_schema(&env), Some("mine".to_string()));
    assert_eq!(config.table_name(&env), "mine.tracked");
    assert_eq!(config.qualified_table_name("postgres", &env), "mine.tracked");
}

#[test]
fn qualified_table_name_with_driver_schema() {
    let mut config = bare_config();
    config.drivers.postgres.schema = Some("my_migrations".to_string());
    assert_eq!(
        config.qualified_table_name("postgres", &no_env()),
        "my_migrations._sqlx_migrations"
    );
}

#[test]
fn qualified_table_name_defaults_to_public() {
    let config = bare_config();
    let env = no_env();
    assert_eq!(config.qualified_table_name("postgres", &env), "public._sqlx_migrations");
    assert_eq!(config.qualified_table_name("PostgreSQL", &env), "public._sqlx_migrations");
    assert_eq!(config.qualified_table_name("POSTGRES", &env), "public._sqlx_migrations");
}

#[test]
fn qualified_table_name_for_other_kinds() {
    let mut config = bare_config();
    let env = no_env();
    assert_eq!(config.qualified_table_name("mysql", &env), config.table_name(&env));
    assert_eq!(config.qualified_table_name("mysql", &env), "_sqlx_migrations");
    assert_eq!(config.qualified_table_name("sqlite", &env), "_sqlx_migrations");
    assert_eq!(config.qualified_table_name("postgre", &env), "_sqlx_migrations");

    config.drivers.postgres.schema = Some("s".to_string());
    assert_eq!(config.qualified_table_name("mysql", &env), config.table_name(&env));
    assert_eq!(config.qualified_table_name("mysql", &env), "s._sqlx_migrations");
}

#[test]
fn qualified_table_name_in_config_is_qualified_again() {
    // Known edge case: an already-qualified name gains the resolved schema too.
    let mut config = bare_config();
    config.table_name = Some("other_schema.table".to_string());
    config.drivers.postgres.schema = Some("schema".to_string());
    assert_eq!(config.table_name(&no_env()), "schema.other_schema.table");
}

#[test]
fn migrations_dir_configured() {
    let mut config = bare_config();
    config.migrations_dir = Some("foo/migrations".to_string());
    assert_eq!(config.migrations_dir(), "foo/migrations");
}

#[test]
fn ignored_chars_from_document() {
    let doc = "[migrate]\nignored-chars = [\"\\n\", \" \", \"\\t\", \"\\r\", \"\\n\", \"\\uFEFF\", \" \"]\n";
    let table: toml::Table = doc.parse().unwrap();
    let listed: Vec<char> = table["migrate"]["ignored-chars"]
        .as_array()
        .unwrap()
        .iter()
        .map(|v| v.as_str().unwrap().chars().next().unwrap())
        .collect();
    assert_eq!(listed.len(), 7);

    let mut config = bare_config();
    config.ignored_chars = listed;
    let resolved = config.to_resolve_config();
    assert_eq!(resolved.len(), 5);
    for c in [' ', '\t', '\r', '\n', '\u{FEFF}'] {
        assert!(resolved.is_ignored(c));
    }
    assert!(!resolved.is_ignored('a'));
}

#[test]
fn ignored_chars_accumulate() {
    let mut config = bare_config();
    config.ignored_chars = vec!['\r'];
    let mut resolved = config.to_resolve_config();
    assert_eq!(resolved.len(), 1);
    resolved.ignore_chars(&['\r', '\n', '\n']);
    assert_eq!(resolved.len(), 2);
    assert!(resolved.is_ignored('\n'));
}

#[test]
fn versioning_inference() {
    assert_eq!(DefaultVersioning::infer(&history(&[1], false)), DefaultVersioning::Sequential);
    assert_eq!(DefaultVersioning::infer(&history(&[1, 2], false)), DefaultVersioning::Sequential);
    assert_eq!(DefaultVersioning::infer(&history(&[1, 5], false)), DefaultVersioning::Timestamp);
    assert_eq!(DefaultVersioning::infer(&[]), DefaultVersioning::Sequential);
    assert_eq!(DefaultVersioning::infer(&history(&[7], false)), DefaultVersioning::Timestamp);
    assert_eq!(
        DefaultVersioning::infer(&history(&[20240101000000, 20240102000000], false)),
        DefaultVersioning::Timestamp
    );
    assert_eq!(DefaultVersioning::infer(&history(&[1, 5, 6], false)), DefaultVersioning::Sequential);
    assert_eq!(DefaultVersioning::infer(&history(&[2, 1], false)), DefaultVersioning::Timestamp);
    assert_eq!(
        DefaultVersioning::infer(&history(&[i64::MIN, i64::MAX], false)),
        DefaultVersioning::Timestamp
    );
}

#[test]
fn migration_type_inference() {
    assert_eq!(DefaultMigrationType::infer(&[]), DefaultMigrationType::Simple);
    assert_eq!(DefaultMigrationType::infer(&history(&[1], true)), DefaultMigrationType::Reversible);
    assert_eq!(DefaultMigrationType::infer(&history(&[1], false)), DefaultMigrationType::Simple);
    let mixed = [
        PriorMigration { reversible: false, version: 1 },
        PriorMigration { reversible: true, version: 2 },
    ];
    assert_eq!(DefaultMigrationType::infer(&mixed), DefaultMigrationType::Reversible);
}

#[test]
fn resolve_keeps_explicit_choices() {
    let reversible = history(&[1, 5], true);
    assert_eq!(DefaultMigrationType::Simple.resolve(&reversible), DefaultMigrationType::Simple);
    assert_eq!(DefaultMigrationType::Inferred.resolve(&reversible), DefaultMigrationType::Reversible);
    assert_eq!(DefaultVersioning::Sequential.resolve(&reversible), DefaultVersioning::Sequential);
    assert_eq!(DefaultVersioning::Inferred.resolve(&reversible), DefaultVersioning::Timestamp);
    assert_eq!(DefaultVersioning::Timestamp.resolve(&[]), DefaultVersioning::Timestamp);
}
