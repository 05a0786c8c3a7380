//! Properties that relate the resolver's operations to one another.
use vstd::prelude::*;

use crate::migrate::{Config, EnvironmentOverrides, default_table, is_postgres_kind, opt_chars, qualify};

verus! {

/// With no table name or schema configured and nothing in the environment,
/// the tracking table is the bare `_sqlx_migrations` and no schema resolves.
pub proof fn lemma_unconfigured_defaults(config: Config, env: EnvironmentOverrides)
    requires
        config.table_name is None,
        config.drivers.postgres.schema is None,
        env.migrations_table is None,
        env.migrations_schema is None,
    ensures
        config.spec_table_name(env) == default_table(),
        config.spec_postgres_schema(env) is None,
{
}

/// A configuration that took both of its values from the environment
/// resolves the schema to that schema and the table to `schema.table`.
pub proof fn lemma_environment_defaults(config: Config, env: EnvironmentOverrides)
    requires
        opt_chars(config.table_name) == opt_chars(env.migrations_table),
        opt_chars(config.drivers.postgres.schema) == opt_chars(env.migrations_schema),
        env.migrations_table is Some,
        env.migrations_schema is Some,
    ensures
        config.spec_postgres_schema(env) == opt_chars(env.migrations_schema),
        config.spec_table_name(env) == qualify(
            env.migrations_schema.unwrap()@,
            env.migrations_table.unwrap()@,
        ),
{
}

/// Asking for the tracking table of a MySQL database gives the same name as
/// `table_name`: no PostgreSQL schema rule applies to it.
pub proof fn lemma_mysql_uses_table_name(config: Config, env: EnvironmentOverrides)
    ensures
        config.spec_qualified_table_name("mysql"@, env) == config.spec_table_name(env),
{
    reveal_strlit("mysql");
    reveal_strlit("postgres");
    reveal_strlit("postgresql");
    assert(!is_postgres_kind("mysql"@));
}

/// The set of ignored characters depends only on which characters the
/// configuration lists, not on their order or on repeats.
pub proof fn lemma_ignored_chars_ignore_order_and_repeats(a: Config, b: Config)
    requires
        forall|c: char| a.ignored_chars@.contains(c) <==> b.ignored_chars@.contains(c),
    ensures
        a.ignored_chars@.to_set() == b.ignored_chars@.to_set(),
{
    assert(a.ignored_chars@.to_set() =~= b.ignored_chars@.to_set());
}

/// In a well-formed configuration every listed ignored character counts
/// once: the set has as many members as the list has entries.
pub proof fn lemma_ignored_chars_count(config: Config)
    requires
        config.wf(),
    ensures
        config.ignored_chars@.to_set().len() == config.ignored_chars@.len(),
{
    config.ignored_chars@.unique_seq_to_set();
}

} // verus!
