//! Typed configuration: a small table of expected keys with their types and
//! defaults, validation of a loaded document against that table, and the
//! fallback to defaults when the document is missing or invalid. Reading and
//! parsing the configuration file is the caller's job; this module only
//! decides what the effective configuration is.

use crate::tools::text::str_eq;
use vstd::prelude::*;

verus! {

/// The primitive type a configuration value is expected to take.
#[derive(Debug, Clone, Copy, PartialEq, Eq, Structural)]
pub enum DType {
    Bool,
    String,
    Integer,
}

/// A configuration value as loaded from the configuration document. `Other`
/// stands for anything outside the expected primitive types (objects, arrays,
/// null, fractional or negative numbers); it never validates.
#[derive(Debug, Clone)]
pub enum ConfigValue {
    Bool(bool),
    Text(String),
    Int(u64),
    Other,
}

/// The effective configuration: a list of key/value entries. The first entry
/// with a given key wins on lookup.
#[derive(Debug, Clone)]
pub struct Config {
    pub entries: Vec<(String, ConfigValue)>,
}

impl DType {
    /// The column type used for this value type in a relational schema.
    pub fn as_sql(&self) -> (r: &'static str)
        ensures
            r@ == dtype_sql(*self),
    {
        match self {
            DType::Bool => "INTEGER",
            DType::String => "TEXT",
            DType::Integer => "INTEGER",
        }
    }
}

/// The SQL column type for each value type.
pub open spec fn dtype_sql(d: DType) -> Seq<char> {
    match d {
        DType::Bool => "INTEGER"@,
        DType::String => "TEXT"@,
        DType::Integer => "INTEGER"@,
    }
}

/// The value stored under `key`, searching from the front.
pub open spec fn lookup_value(entries: Seq<(String, ConfigValue)>, key: Seq<char>) -> Option<
    ConfigValue,
>
    decreases entries.len(),
{
    if entries.len() == 0 {
        None
    } else if entries[0].0@ == key {
        Some(entries[0].1)
    } else {
        lookup_value(entries.drop_first(), key)
    }
}

/// The keys the service expects, with their default values and types.
pub open spec fn spec_config_table() -> Seq<(Seq<char>, ConfigValue, DType)> {
    seq![
        ("auto_reset"@, ConfigValue::Bool(true), DType::Bool),
        ("debug"@, ConfigValue::Bool(false), DType::Bool),
    ]
}

/// Whether a loaded value has the expected type.
pub open spec fn value_type_ok(v: ConfigValue, d: DType) -> bool {
    match v {
        ConfigValue::Bool(_) => d == DType::Bool,
        ConfigValue::Text(_) => d == DType::String,
        ConfigValue::Int(_) => d == DType::Integer,
        ConfigValue::Other => false,
    }
}

/// Whether `entries` holds a value of the right type for the expected key.
pub open spec fn entry_ok(entries: Seq<(String, ConfigValue)>, key: Seq<char>, d: DType) -> bool {
    match lookup_value(entries, key) {
        Some(v) => value_type_ok(v, d),
        None => false,
    }
}

/// A configuration document is valid when every expected key is present with
/// a value of its expected type.
pub open spec fn config_valid(entries: Seq<(String, ConfigValue)>) -> bool {
    forall|j: int|
        0 <= j < spec_config_table().len() ==> #[trigger] entry_ok(
            entries,
            spec_config_table()[j].0,
            spec_config_table()[j].2,
        )
}

/// The configuration holding exactly the defaults of the expected table.
pub open spec fn is_default_config(c: Config) -> bool {
    &&& c.entries@.len() == spec_config_table().len()
    &&& forall|j: int|
        0 <= j < c.entries@.len() ==> (#[trigger] c.entries@[j]).0@ == spec_config_table()[j].0
            && c.entries@[j].1 == spec_config_table()[j].1
}

/// The auto-reset toggle as the schema lifecycle reads it: a missing or
/// non-boolean entry counts as disabled.
pub open spec fn spec_auto_reset(entries: Seq<(String, ConfigValue)>) -> bool {
    match lookup_value(entries, "auto_reset"@) {
        Some(ConfigValue::Bool(b)) => b,
        _ => false,
    }
}

/// The expected-key table: key, default value, expected type.
pub fn config_table() -> (r: Vec<(String, ConfigValue, DType)>)
    ensures
        r@.len() == spec_config_table().len(),
        forall|j: int|
            0 <= j < r@.len() ==> (#[trigger] r@[j]).0@ == spec_config_table()[j].0 && r@[j].1
                == spec_config_table()[j].1 && r@[j].2 == spec_config_table()[j].2,
{
    let r: Vec<(String, ConfigValue, DType)> = vec![
        ("auto_reset".to_owned(), ConfigValue::Bool(true), DType::Bool),
        ("debug".to_owned(), ConfigValue::Bool(false), DType::Bool),
    ];
    r
}

impl Config {
    /// The value stored under `key`, if any.
    pub fn get(&self, key: &str) -> (r: Option<&ConfigValue>)
        ensures
            match r {
                Some(v) => lookup_value(self.entries@, key@) == Some(*v),
                None => lookup_value(self.entries@, key@) is None,
            },
    {
        let n = self.entries.len();
        let mut i: usize = 0;
        proof {
            assert(self.entries@.subrange(0, n as int) =~= self.entries@);
        }
        while i < n
            invariant
                n == self.entries@.len(),
                0 <= i <= n,
                lookup_value(self.entries@, key@) == lookup_value(
                    self.entries@.subrange(i as int, n as int),
                    key@,
                ),
            decreases n - i,
        {
            proof {
                assert(self.entries@.subrange(i as int, n as int).drop_first()
                    =~= self.entries@.subrange(i + 1, n as int));
            }
            if str_eq(self.entries[i].0.as_str(), key) {
                return Some(&self.entries[i].1);
            }
            i = i + 1;
        }
        None
    }

    /// The auto-reset toggle; missing or mistyped entries count as disabled.
    pub fn auto_reset(&self) -> (r: bool)
        ensures
            r == spec_auto_reset(self.entries@),
    {
        match self.get("auto_reset") {
            Some(v) => match v {
                ConfigValue::Bool(b) => *b,
                _ => false,
            },
            None => false,
        }
    }
}

/// A copy of a configuration value, field for field.
pub fn clone_value(v: &ConfigValue) -> (r: ConfigValue)
    ensures
        r == *v,
{
    match v {
        ConfigValue::Bool(b) => ConfigValue::Bool(*b),
        ConfigValue::Text(s) => ConfigValue::Text(s.clone()),
        ConfigValue::Int(n) => ConfigValue::Int(*n),
        ConfigValue::Other => ConfigValue::Other,
    }
}

/// Whether a loaded value has the expected type.
pub fn type_matches(v: &ConfigValue, d: DType) -> (r: bool)
    ensures
        r == value_type_ok(*v, d),
{
    match (v, d) {
        (ConfigValue::Bool(_), DType::Bool) => true,
        (ConfigValue::Text(_), DType::String) => true,
        (ConfigValue::Int(_), DType::Integer) => true,
        _ => false,
    }
}

/// Checks a loaded configuration against the expected-key table: every
/// expected key must be present with a value of its expected type.
pub fn validate_config(config: &Config) -> (r: bool)
    ensures
        r == config_valid(config.entries@),
{
    let table = config_table();
    let n = table.len();
    let mut i: usize = 0;
    while i < n
        invariant
            n == table@.len(),
            n == spec_config_table().len(),
            0 <= i <= n,
            forall|j: int|
                0 <= j < table@.len() ==> (#[trigger] table@[j]).0@ == spec_config_table()[j].0
                    && table@[j].2 == spec_config_table()[j].2,
            forall|j: int|
                0 <= j < i ==> #[trigger] entry_ok(
                    config.entries@,
                    spec_config_table()[j].0,
                    spec_config_table()[j].2,
                ),
        decreases n - i,
    {
        let ok = match config.get(table[i].0.as_str()) {
            Some(v) => type_matches(v, table[i].2),
            None => false,
        };
        proof {
            assert(ok == entry_ok(
                config.entries@,
                spec_config_table()[i as int].0,
                spec_config_table()[i as int].2,
            ));
        }
        if !ok {
            return false;
        }
        i = i + 1;
    }
    true
}

/// The default configuration, used whenever the loaded document is missing,
/// unparseable or invalid.
pub fn default_config() -> (r: Config)
    ensures
        is_default_config(r),
        config_valid(r.entries@),
        spec_auto_reset(r.entries@) == true,
{
    let table = config_table();
    let mut entries: Vec<(String, ConfigValue)> = Vec::new();
    let n = table.len();
    let mut i: usize = 0;
    while i < n
        invariant
            n == table@.len(),
            n == spec_config_table().len(),
            0 <= i <= n,
            entries@.len() == i,
            forall|j: int|
                0 <= j < table@.len() ==> (#[trigger] table@[j]).0@ == spec_config_table()[j].0
                    && table@[j].1 == spec_config_table()[j].1,
            forall|j: int|
                0 <= j < i ==> (#[trigger] entries@[j]).0@ == spec_config_table()[j].0
                    && entries@[j].1 == spec_config_table()[j].1,
        decreases n - i,
    {
        let (key, value, _) = &table[i];
        entries.push((key.clone(), clone_value(value)));
        i = i + 1;
    }
    let r = Config { entries };
    proof {
        lemma_default_is_valid(r);
    }
    r
}

/// The defaults themselves validate: each expected key is found with its
/// default value, whose type matches the table.
proof fn lemma_default_is_valid(c: Config)
    requires
        is_default_config(c),
    ensures
        config_valid(c.entries@),
        spec_auto_reset(c.entries@) == true,
{
    reveal_strlit("auto_reset");
    reveal_strlit("debug");
    let entries = c.entries@;
    assert(entries[0].0@ == "auto_reset"@);
    assert(lookup_value(entries, "auto_reset"@) == Some(ConfigValue::Bool(true)));
    assert(entries.drop_first()[0] == entries[1]);
    assert(entries.drop_first().len() == 1);
    assert("auto_reset"@.len() != "debug"@.len());
    assert(entries[1].0@ == "debug"@);
    assert(entries[1].1 == ConfigValue::Bool(false));
    assert(lookup_value(entries.drop_first(), "debug"@) == Some(ConfigValue::Bool(false)));
    assert(lookup_value(entries, "debug"@) == Some(ConfigValue::Bool(false)));
    assert(entry_ok(entries, spec_config_table()[0].0, spec_config_table()[0].2));
    assert(entry_ok(entries, spec_config_table()[1].0, spec_config_table()[1].2));
}

/// The effective configuration for a loaded document: the document itself
/// when it parsed and validates, the defaults otherwise.
pub fn resolve_config(parsed: Option<Config>) -> (r: Config)
    ensures
        match parsed {
            Some(c) => (config_valid(c.entries@) && r == c) || (!config_valid(c.entries@)
                && is_default_config(r)),
            None => is_default_config(r),
        },
{
    match parsed {
        Some(c) => {
            if validate_config(&c) {
                c
            } else {
                default_config()
            }
        },
        None => default_config(),
    }
}

} // verus!
