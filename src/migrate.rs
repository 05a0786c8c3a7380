//! Migration settings and the rules that resolve their effective values.
use vstd::prelude::*;
use vstd::string::*;

verus! {

/// The values that the process environment may supply as fallbacks:
/// `MIGRATIONS_TABLE` and `MIGRATIONS_SCHEMA`, as read at one moment.
#[derive(Debug, Default)]
pub struct EnvironmentOverrides {
    /// The value of `MIGRATIONS_TABLE`, if set.
    pub migrations_table: Option<String>,
    /// The value of `MIGRATIONS_SCHEMA`, if set.
    pub migrations_schema: Option<String>,
}

/// The characters of an optional string.
pub open spec fn opt_chars(o: Option<String>) -> Option<Seq<char>> {
    match o {
        Some(s) => Some(s@),
        None => None,
    }
}

/// The first of two optional values that is present, else `fallback`.
pub open spec fn first_of(a: Option<Seq<char>>, b: Option<Seq<char>>, fallback: Seq<char>) -> Seq<
    char,
> {
    match a {
        Some(x) => x,
        None => match b {
            Some(y) => y,
            None => fallback,
        },
    }
}

/// `schema.table`.
pub open spec fn qualify(schema: Seq<char>, table: Seq<char>) -> Seq<char> {
    schema + "."@ + table
}

/// The built-in name of the tracking table.
pub open spec fn default_table() -> Seq<char> {
    "_sqlx_migrations"@
}

/// The built-in migrations directory.
pub open spec fn default_dir() -> Seq<char> {
    "migrations"@
}

/// The schema PostgreSQL falls back to.
pub open spec fn default_schema() -> Seq<char> {
    "public"@
}

/// The default type of migration that `migrate add` creates.
#[derive(Clone, Copy, Debug, Default, PartialEq, Eq, Structural)]
pub enum DefaultMigrationType {
    /// The type of the latest existing migration, or `Simple` if there is none.
    #[default]
    Inferred,
    /// One forward-only file per migration.
    Simple,
    /// An up/down pair of files per migration.
    Reversible,
}

/// The default scheme for the versions of new migrations.
#[derive(Clone, Copy, Debug, Default, PartialEq, Eq, Structural)]
pub enum DefaultVersioning {
    /// Inferred from the versions of the existing migrations.
    #[default]
    Inferred,
    /// Timestamps, which rarely collide between authors.
    Timestamp,
    /// Consecutive integers.
    Sequential,
}

/// Defaults for new migrations.
#[derive(Clone, Copy, Debug, Default, PartialEq, Eq, Structural)]
pub struct MigrationDefaults {
    /// Which type of migration to create.
    pub migration_type: DefaultMigrationType,
    /// Which scheme to number new migrations with.
    pub migration_versioning: DefaultVersioning,
}

/// PostgreSQL-specific settings.
#[derive(Debug)]
pub struct Postgres {
    /// The schema of the tracking table, if set.
    pub schema: Option<String>,
}

/// Per-database settings.
#[derive(Debug)]
pub struct Drivers {
    /// Settings for PostgreSQL.
    pub postgres: Postgres,
}

/// The migration settings as configured.
#[derive(Debug)]
pub struct Config {
    /// Schemas to create before the tracking table is looked for; no repeats.
    pub create_schemas: Vec<String>,
    /// The tracking table's name, possibly already schema-qualified.
    pub table_name: Option<String>,
    /// The directory that holds the migration files.
    pub migrations_dir: Option<String>,
    /// Characters dropped before a migration is hashed; no repeats.
    pub ignored_chars: Vec<char>,
    /// Defaults for new migrations.
    pub defaults: MigrationDefaults,
    /// Per-database settings.
    pub drivers: Drivers,
}

fn clone_opt(o: &Option<String>) -> (r: Option<String>)
    ensures
        opt_chars(r) == opt_chars(*o),
{
    match o {
        Some(s) => Some(s.clone()),
        None => None,
    }
}

impl Postgres {
    /// The settings with nothing configured: the schema is whatever
    /// `MIGRATIONS_SCHEMA` held when they were made.
    pub fn from_environment(env: &EnvironmentOverrides) -> (r: Postgres)
        ensures
            opt_chars(r.schema) == opt_chars(env.migrations_schema),
    {
        Postgres { schema: clone_opt(&env.migrations_schema) }
    }
}

impl Config {
    /// Schemas and ignored characters hold no repeats.
    pub open spec fn wf(&self) -> bool {
        &&& self.ignored_chars@.no_duplicates()
        &&& self.create_schemas@.map_values(|s: String| s@).no_duplicates()
    }

    /// The schema that qualifies the tracking table, if any.
    pub open spec fn spec_postgres_schema(&self, env: EnvironmentOverrides) -> Option<Seq<char>> {
        match self.drivers.postgres.schema {
            Some(s) => Some(s@),
            None => opt_chars(env.migrations_schema),
        }
    }

    /// The tracking table's name, qualified by the resolved schema if there is one.
    pub open spec fn spec_table_name(&self, env: EnvironmentOverrides) -> Seq<char> {
        let table = match self.table_name {
            Some(t) => t@,
            None => default_table(),
        };
        match self.spec_postgres_schema(env) {
            Some(schema) => qualify(schema, table),
            None => table,
        }
    }

    /// The tracking table's name as the given kind of database sees it.
    pub open spec fn spec_qualified_table_name(
        &self,
        database_kind: Seq<char>,
        env: EnvironmentOverrides,
    ) -> Seq<char> {
        if is_postgres_kind(database_kind) {
            qualify(
                first_of(
                    opt_chars(self.drivers.postgres.schema),
                    opt_chars(env.migrations_schema),
                    default_schema(),
                ),
                first_of(
                    opt_chars(self.table_name),
                    opt_chars(env.migrations_table),
                    default_table(),
                ),
            )
        } else {
            self.spec_table_name(env)
        }
    }

    /// The settings with nothing configured: the table name is whatever
    /// `MIGRATIONS_TABLE` held, and the PostgreSQL schema whatever
    /// `MIGRATIONS_SCHEMA` held, when they were made.
    pub fn from_environment(env: &EnvironmentOverrides) -> (r: Config)
        ensures
            r.wf(),
            r.create_schemas@.len() == 0,
            opt_chars(r.table_name) == opt_chars(env.migrations_table),
            r.migrations_dir is None,
            r.ignored_chars@.len() == 0,
            r.defaults.migration_type == DefaultMigrationType::Inferred,
            r.defaults.migration_versioning == DefaultVersioning::Inferred,
            opt_chars(r.drivers.postgres.schema) == opt_chars(env.migrations_schema),
    {
        let r = Config {
            create_schemas: Vec::new(),
            table_name: clone_opt(&env.migrations_table),
            migrations_dir: None,
            ignored_chars: Vec::new(),
            defaults: MigrationDefaults {
                migration_type: DefaultMigrationType::Inferred,
                migration_versioning: DefaultVersioning::Inferred,
            },
            drivers: Drivers { postgres: Postgres::from_environment(env) },
        };
        assert(r.create_schemas@.map_values(|s: String| s@) =~= Seq::<Seq<char>>::empty());
        r
    }

    /// The directory of the migration files: the configured one, else `migrations`.
    pub fn migrations_dir(&self) -> (r: &str)
        ensures
            r@ == match self.migrations_dir {
                Some(d) => d@,
                None => default_dir(),
            },
    {
        match &self.migrations_dir {
            Some(d) => d.as_str(),
            None => "migrations",
        }
    }

    /// The schema of the tracking table: the configured PostgreSQL schema,
    /// else `MIGRATIONS_SCHEMA` as `env` holds it now, else none.
    pub fn postgres_schema(&self, env: &EnvironmentOverrides) -> (r: Option<String>)
        ensures
            opt_chars(r) == self.spec_postgres_schema(*env),
    {
        match &self.drivers.postgres.schema {
            Some(s) => Some(s.clone()),
            None => clone_opt(&env.migrations_schema),
        }
    }

    /// The tracking table's name: the configured one, else `_sqlx_migrations`,
    /// prefixed by `schema.` when a schema resolves.
    pub fn table_name(&self, env: &EnvironmentOverrides) -> (r: String)
        ensures
            r@ == self.spec_table_name(*env),
    {
        let table = match &self.table_name {
            Some(t) => t.clone(),
            None => String::from_str("_sqlx_migrations"),
        };
        match self.postgres_schema(env) {
            Some(schema) => {
                let mut r = schema;
                r.append(".");
                r.append(table.as_str());
                r
            },
            None => table,
        }
    }

    /// The tracking table's name for a kind of database. For PostgreSQL it is
    /// always `schema.table`, each part taken from the configuration, else the
    /// environment, else its built-in value; for any other kind it is
    /// `table_name`.
    pub fn qualified_table_name(&self, database_kind: &str, env: &EnvironmentOverrides) -> (r:
        String)
        ensures
            r@ == self.spec_qualified_table_name(database_kind@, *env),
    {
        if is_postgres(database_kind) {
            let mut r = match &self.drivers.postgres.schema {
                Some(s) => s.clone(),
                None => match &env.migrations_schema {
                    Some(s) => s.clone(),
                    None => String::from_str("public"),
                },
            };
            let table = match &self.table_name {
                Some(t) => t.clone(),
                None => match &env.migrations_table {
                    Some(t) => t.clone(),
                    None => String::from_str("_sqlx_migrations"),
                },
            };
            r.append(".");
            r.append(table.as_str());
            r
        } else {
            self.table_name(env)
        }
    }

    /// What the hashing of migrations needs to know: the ignored characters.
    pub fn to_resolve_config(&self) -> (r: ResolveConfig)
        ensures
            r.wf(),
            r@ == self.ignored_chars@.to_set(),
    {
        let mut config = ResolveConfig::new();
        config.ignore_chars(self.ignored_chars.as_slice());
        config
    }
}

/// `c` equals the lower-case ASCII letter `lower`, ignoring ASCII case.
pub open spec fn char_matches(c: char, lower: char) -> bool {
    c == lower || ('A' <= c && c <= 'Z' && c as u32 + 32 == lower as u32)
}

/// `s` spells the lower-case ASCII word `word`, ignoring ASCII case.
pub open spec fn word_matches(s: Seq<char>, word: Seq<char>) -> bool {
    s.len() == word.len() && forall|i: int| 0 <= i < s.len() ==> char_matches(#[trigger] s[i], word[i])
}

/// Whether a database kind names PostgreSQL, in any case. Unicode lower-casing
/// takes no character outside ASCII into either word, so comparing ASCII
/// letters without regard to case decides the same as lower-casing first.
pub open spec fn is_postgres_kind(kind: Seq<char>) -> bool {
    word_matches(kind, "postgres"@) || word_matches(kind, "postgresql"@)
}

fn matches_word(s: &str, word: &str) -> (r: bool)
    ensures
        r == word_matches(s@, word@),
{
    let n = s.unicode_len();
    if n != word.unicode_len() {
        return false;
    }
    let mut i: usize = 0;
    while i < n
        invariant
            n == s@.len() == word@.len(),
            i <= n,
            forall|j: int| 0 <= j < i ==> char_matches(#[trigger] s@[j], word@[j]),
        decreases n - i,
    {
        let c = s.get_char(i);
        let w = word.get_char(i);
        if !(c == w || ('A' <= c && c <= 'Z' && c as u32 + 32 == w as u32)) {
            return false;
        }
        i = i + 1;
    }
    true
}

fn is_postgres(kind: &str) -> (r: bool)
    ensures
        r == is_postgres_kind(kind@),
{
    matches_word(kind, "postgres") || matches_word(kind, "postgresql")
}

proof fn lemma_push_to_set(s: Seq<char>, c: char)
    ensures
        s.push(c).to_set() == s.to_set().insert(c),
{
    let t = s.push(c);
    assert forall|x: char| #[trigger] s.to_set().insert(c).contains(x) implies t.to_set().contains(x) by {
        if x == c {
            assert(t[s.len() as int] == c);
        } else {
            let k = choose|k: int| 0 <= k < s.len() && s[k] == x;
            assert(t[k] == x);
        }
    }
    assert forall|x: char| #[trigger] t.to_set().contains(x) implies s.to_set().insert(c).contains(x) by {
        let k = choose|k: int| 0 <= k < t.len() && t[k] == x;
        if k < s.len() {
            assert(s[k] == x);
        }
    }
    assert(t.to_set() =~= s.to_set().insert(c));
}

/// The settings that the hashing of migration files reads: a set of
/// characters to drop from their contents first.
pub struct ResolveConfig {
    ignored: Vec<char>,
}

impl View for ResolveConfig {
    type V = Set<char>;

    closed spec fn view(&self) -> Set<char> {
        self.ignored@.to_set()
    }
}

impl ResolveConfig {
    /// No character is listed twice.
    pub closed spec fn wf(&self) -> bool {
        self.ignored@.no_duplicates()
    }

    /// Settings that ignore nothing.
    pub fn new() -> (r: ResolveConfig)
        ensures
            r.wf(),
            r@ == Set::<char>::empty(),
    {
        let r = ResolveConfig { ignored: Vec::new() };
        assert(r.ignored@.to_set() =~= Set::<char>::empty());
        r
    }

    /// Whether `c` is ignored.
    pub fn is_ignored(&self, c: char) -> (r: bool)
        ensures
            r == self@.contains(c),
    {
        let mut i: usize = 0;
        while i < self.ignored.len()
            invariant
                i <= self.ignored@.len(),
                forall|j: int| 0 <= j < i ==> self.ignored@[j] != c,
            decreases self.ignored@.len() - i,
        {
            if self.ignored[i] == c {
                assert(self.ignored@.to_set().contains(self.ignored@[i as int]));
                return true;
            }
            i = i + 1;
        }
        proof {
            if self.ignored@.to_set().contains(c) {
                let k = choose|k: int| 0 <= k < self.ignored@.len() && self.ignored@[k] == c;
            }
        }
        false
    }

    /// How many distinct characters are ignored.
    pub fn len(&self) -> (r: usize)
        requires
            self.wf(),
        ensures
            r == self@.len(),
    {
        proof {
            self.ignored@.unique_seq_to_set();
        }
        self.ignored.len()
    }

    /// Also ignore each of `chars`; a repeated one is kept once.
    pub fn ignore_chars(&mut self, chars: &[char])
        requires
            old(self).wf(),
        ensures
            final(self).wf(),
            final(self)@ == old(self)@ + chars@.to_set(),
    {
        let mut i: usize = 0;
        while i < chars.len()
            invariant
                self.wf(),
                i <= chars@.len(),
                self@ == old(self)@ + chars@.subrange(0, i as int).to_set(),
            decreases chars@.len() - i,
        {
            let c = chars[i];
            let ghost before = self.ignored@;
            if !self.is_ignored(c) {
                self.ignored.push(c);
                proof {
                    lemma_push_to_set(before, c);
                }
            }
            assert(self@ == old(self)@ + chars@.subrange(0, i as int).to_set().insert(c));
            assert(chars@.subrange(0, i + 1) == chars@.subrange(0, i as int).push(c));
            proof {
                lemma_push_to_set(chars@.subrange(0, i as int), c);
            }
            i = i + 1;
        }
        assert(chars@.subrange(0, chars@.len() as int) == chars@);
    }
}

} // verus!
