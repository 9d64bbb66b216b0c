//! The layered settings loader: a required configuration file and
//! prefixed environment variables are merged into one key tree, two
//! synthetic keys recording the load are injected on top, and the
//! typed settings value is read out of the merged tree leaf by leaf.

pub mod config_structs;

pub use config_structs::{ConfigInfo, Database, Logging, Settings, Tracing};

use crate::error::{BaseError, BaseResult};
use vstd::prelude::*;
use vstd::string::StringExecFns;

verus! {

/// `config::Config` is the merged, finalized configuration tree; the
/// library reads it only through `str_table_of`.
#[verifier::external_type_specification]
#[verifier::external_body]
pub struct ExConfig(config::Config);

/// Holds the config crate's builder, which collects sources and
/// overrides before the tree is built. The builder's type cannot be
/// declared to the verifier (its state parameter carries an outside
/// trait bound), so it sits opaquely here and is read only through
/// `overrides_of`.
#[verifier::external_body]
pub struct SettingsBuilder {
    inner: config::ConfigBuilder<config::builder::DefaultState>,
}

/// `config::File` is a file-backed configuration source.
#[verifier::external_type_specification]
#[verifier::external_body]
#[verifier::reject_recursive_types(T)]
#[verifier::reject_recursive_types(F)]
pub struct ExFile<T, F>(config::File<T, F>);

/// `config::Environment` is the environment-variable source.
#[verifier::external_type_specification]
#[verifier::external_body]
pub struct ExEnvironment(config::Environment);

/// The builder state for synchronous sources.
#[verifier::external_type_specification]
#[verifier::external_body]
pub struct ExDefaultState(config::builder::DefaultState);

/// The file-system-backed kind of file source.
#[verifier::external_type_specification]
#[verifier::external_body]
pub struct ExFileSourceFile(config::FileSourceFile);

/// The set of file formats the config crate can read.
#[verifier::external_type_specification]
#[verifier::external_body]
pub struct ExFileFormat(config::FileFormat);

/// Whether `c` may appear in a plain dotted key path.
pub open spec fn is_key_char(c: char) -> bool {
    ('a' <= c && c <= 'z') || ('0' <= c && c <= '9') || c == '_' || c == '.'
}

/// A plain dotted key path: non-empty lower-case identifier segments
/// joined by single dots. Two distinct plain keys always address two
/// distinct paths of the configuration tree.
pub open spec fn is_plain_key(s: Seq<char>) -> bool {
    &&& s.len() > 0
    &&& s[0] != '.'
    &&& s[s.len() - 1] != '.'
    &&& forall|i: int| 0 <= i < s.len() ==> is_key_char(#[trigger] s[i])
    &&& forall|i: int| 0 <= i < s.len() - 1 ==> !(#[trigger] s[i] == '.' && s[i + 1] == '.')
}

/// Whether key path `p` names an ancestor of key path `k`.
pub open spec fn is_path_prefix(p: Seq<char>, k: Seq<char>) -> bool {
    p.len() < k.len() && k.subrange(0, p.len() as int) == p && k[p.len() as int] == '.'
}

/// Whether one of the two key paths names an ancestor of the other, so
/// that setting one clobbers the other.
pub open spec fn keys_conflict(a: Seq<char>, b: Seq<char>) -> bool {
    is_path_prefix(a, b) || is_path_prefix(b, a)
}

/// Whether `k` conflicts with no other key of the map `m`.
pub open spec fn unconflicted_in(m: Map<Seq<char>, Seq<char>>, k: Seq<char>) -> bool {
    forall|k2: Seq<char>| #[trigger]
        m.dom().contains(k2) && k2 != k ==> !keys_conflict(k, k2)
}

/// The override entries a builder holds, keyed by the plain key path
/// each was set under.
pub uninterp spec fn overrides_of(b: SettingsBuilder) -> Map<Seq<char>, Seq<char>>;

/// The string-valued leaves of a finalized configuration tree: the
/// plain key paths holding a scalar, each mapped to that scalar
/// rendered as a string.
pub uninterp spec fn str_table_of(c: config::Config) -> Map<Seq<char>, Seq<char>>;

/// The plain key paths a finalized configuration tree binds to any
/// value at all, scalar or structured.
pub uninterp spec fn key_set_of(c: config::Config) -> Set<Seq<char>>;

/// Whether the merged tree binds `key` to a value of the wrong
/// structural shape for a string-typed leaf: present, but no scalar.
pub open spec fn leaf_bad(c: config::Config, key: Seq<char>) -> bool {
    key_set_of(c).contains(key) && !str_table_of(c).dom().contains(key)
}

/// The path a file source reads from.
pub uninterp spec fn file_path_of(
    f: config::File<config::FileSourceFile, config::FileFormat>,
) -> Seq<char>;

/// Whether a file source makes a missing file fail the build rather
/// than be silently skipped.
pub uninterp spec fn file_required_of(
    f: config::File<config::FileSourceFile, config::FileFormat>,
) -> bool;

/// The prefix an environment source admits variables under.
pub uninterp spec fn env_prefix_of(e: config::Environment) -> Seq<char>;

/// The nesting separator an environment source splits variable names
/// on, where one was set.
pub uninterp spec fn env_sep_of(e: config::Environment) -> Option<Seq<char>>;

/// The prefix-to-body separator of an environment source, where one
/// was set.
pub uninterp spec fn env_prefix_sep_of(e: config::Environment) -> Option<Seq<char>>;

/// The file sources a builder holds, in registration order: each path
/// with its required flag.
pub uninterp spec fn files_of(b: SettingsBuilder) -> Seq<(Seq<char>, bool)>;

/// The environment sources a builder holds, in registration order:
/// each prefix with its nesting and prefix separators.
pub uninterp spec fn envs_of(b: SettingsBuilder) -> Seq<
    (Seq<char>, Option<Seq<char>>, Option<Seq<char>>),
>;

/// What looking a single leaf up in the merged tree yielded.
pub enum Fetched {
    /// The key holds a scalar, rendered as this string.
    Present(String),
    /// The key is absent from the merged tree.
    Missing,
    /// The key holds a value of the wrong structural type; the message
    /// describes the mismatch.
    Bad(String),
}

/// Relies on `Config::builder` of the config crate: a fresh builder
/// with no sources and no overrides.
#[verifier::external_body]
fn new_builder() -> (r: SettingsBuilder)
    ensures
        overrides_of(r) =~= Map::empty(),
        files_of(r).len() == 0,
        envs_of(r).len() == 0,
{
    SettingsBuilder { inner: config::Config::builder() }
}

/// Relies on `File::with_name` of the config crate: a file source for
/// the file at `location`, its format discovered from the extension,
/// required unless unmarked later.
#[verifier::external_body]
fn file_source(location: &str) -> (r: config::File<config::FileSourceFile, config::FileFormat>)
    ensures
        file_path_of(r) == location@,
        file_required_of(r),
{
    config::File::with_name(location)
}

/// Relies on `File::required` of the config crate: marks whether a
/// missing file fails the build or is silently skipped, and changes
/// nothing else of the source.
#[verifier::external_body]
fn file_required(
    f: config::File<config::FileSourceFile, config::FileFormat>,
    required: bool,
) -> (r: config::File<config::FileSourceFile, config::FileFormat>)
    ensures
        file_path_of(r) == file_path_of(f),
        file_required_of(r) == required,
{
    f.required(required)
}

/// Relies on `Environment::with_prefix` of the config crate: a source
/// reading only the environment variables bearing this prefix, with
/// no separators set yet.
#[verifier::external_body]
fn env_source(prefix: &str) -> (r: config::Environment)
    ensures
        env_prefix_of(r) == prefix@,
        env_sep_of(r) is None,
        env_prefix_sep_of(r) is None,
{
    config::Environment::with_prefix(prefix)
}

/// Relies on `Environment::separator` of the config crate: within a
/// variable name, this string separates nested key segments; nothing
/// else of the source changes.
#[verifier::external_body]
fn env_separator(e: config::Environment, sep: &str) -> (r: config::Environment)
    ensures
        env_prefix_of(r) == env_prefix_of(e),
        env_sep_of(r) == Some(sep@),
        env_prefix_sep_of(r) == env_prefix_sep_of(e),
{
    e.separator(sep)
}

/// Relies on `Environment::prefix_separator` of the config crate: this
/// string separates the prefix from the body of a variable name;
/// nothing else of the source changes.
#[verifier::external_body]
fn env_prefix_separator(e: config::Environment, sep: &str) -> (r: config::Environment)
    ensures
        env_prefix_of(r) == env_prefix_of(e),
        env_sep_of(r) == env_sep_of(e),
        env_prefix_sep_of(r) == Some(sep@),
{
    e.prefix_separator(sep)
}

/// Relies on `ConfigBuilder::add_source` of the config crate: registers
/// the file source for the later build and leaves the overrides alone.
#[verifier::external_body]
fn add_file_source(
    b: SettingsBuilder,
    f: config::File<config::FileSourceFile, config::FileFormat>,
) -> (r: SettingsBuilder)
    ensures
        overrides_of(r) == overrides_of(b),
        files_of(r) == files_of(b).push((file_path_of(f), file_required_of(f))),
        envs_of(r) == envs_of(b),
{
    SettingsBuilder { inner: b.inner.add_source(f) }
}

/// Relies on `ConfigBuilder::add_source` of the config crate: registers
/// the environment source for the later build and leaves the overrides
/// alone.
#[verifier::external_body]
fn add_env_source(b: SettingsBuilder, e: config::Environment) -> (r: SettingsBuilder)
    ensures
        overrides_of(r) == overrides_of(b),
        files_of(r) == files_of(b),
        envs_of(r) == envs_of(b).push((env_prefix_of(e), env_sep_of(e), env_prefix_sep_of(e))),
{
    SettingsBuilder { inner: b.inner.add_source(e) }
}

/// Relies on `ConfigBuilder::set_override` of the config crate:
/// records `value` under the path `key`, to be laid over every other
/// source when the tree is built. Its only failure is a key that does
/// not parse as a path, so on a plain key it always succeeds; the
/// defensive error arm renders the underlying message.
#[verifier::external_body]
fn set_override_str(b: SettingsBuilder, key: &str, value: &str) -> (r: Result<
    SettingsBuilder,
    String,
>)
    requires
        is_plain_key(key@),
    ensures
        r is Ok,
        r matches Ok(b2) ==> overrides_of(b2) == overrides_of(b).insert(key@, value@),
        r matches Ok(b2) ==> files_of(b2) == files_of(b) && envs_of(b2) == envs_of(b),
{
    match b.inner.set_override(key, value) {
        Ok(inner) => Ok(SettingsBuilder { inner }),
        Err(e) => Err(e.to_string()),
    }
}

/// Relies on `ConfigBuilder::build` of the config crate: reads every
/// registered source, merges them, and lays the overrides on top, so
/// every override whose key conflicts with no other override comes out
/// of the merged tree verbatim; on failure (such as a missing required
/// file or a malformed file), yields the underlying message.
#[verifier::external_body]
fn build_config(b: SettingsBuilder) -> (r: Result<config::Config, String>)
    ensures
        r matches Ok(c) ==> forall|k: Seq<char>| #[trigger]
            overrides_of(b).dom().contains(k) && unconflicted_in(overrides_of(b), k)
                ==> str_table_of(c).dom().contains(k) && str_table_of(c)[k] == overrides_of(b)[k],
{
    match b.inner.build() {
        Ok(c) => Ok(c),
        Err(e) => Err(e.to_string()),
    }
}

/// Relies on `Config::get_string` of the config crate: a scalar leaf at
/// the path `key` comes back rendered as a string, an absent key
/// reports not-found, and a structured value at the key reports a type
/// mismatch with its message.
#[verifier::external_body]
fn fetch_string(c: &config::Config, key: &str) -> (r: Fetched)
    requires
        is_plain_key(key@),
    ensures
        r matches Fetched::Present(v) ==> str_table_of(*c).dom().contains(key@) && v@ == str_table_of(*c)[key@],
        str_table_of(*c).dom().contains(key@) ==> r is Present,
        r is Missing <==> !key_set_of(*c).contains(key@),
{
    match c.get_string(key) {
        Ok(v) => Fetched::Present(v),
        Err(config::ConfigError::NotFound(_)) => Fetched::Missing,
        Err(e) => Fetched::Bad(e.to_string()),
    }
}

/// An optional settings field read from the merged tree: absent keys
/// default, scalar keys land verbatim, structured keys fail the
/// deserialization.
fn field_from(f: Fetched) -> (r: Result<Option<String>, BaseError>)
    ensures
        match f {
            Fetched::Present(v) => r == Ok::<Option<String>, BaseError>(Some(v)),
            Fetched::Missing => r == Ok::<Option<String>, BaseError>(None),
            Fetched::Bad(m) => r matches Err(BaseError::DeserializeError(mm)) && mm == m,
        },
{
    match f {
        Fetched::Present(v) => Ok(Some(v)),
        Fetched::Missing => Ok(None),
        Fetched::Bad(m) => Err(BaseError::DeserializeError(m)),
    }
}

/// Whether `s` opens with the prefix `p`.
pub open spec fn has_prefix(s: Seq<char>, p: Seq<char>) -> bool {
    s.len() >= p.len() && s.subrange(0, p.len() as int) == p
}

/// Whether an optional settings field holds exactly the leaf the merged
/// tree holds at `key`: present if and only if the key is, and then
/// with the same string.
pub open spec fn leaf_matches(
    t: Map<Seq<char>, Seq<char>>,
    key: Seq<char>,
    field: Option<String>,
) -> bool {
    &&& t.dom().contains(key) ==> (field matches Some(v) && v@ == t[key])
    &&& field matches Some(v) ==> t.dom().contains(key) && v@ == t[key]
}

/// Read the typed settings value out of a finalized configuration
/// tree, leaf by leaf: each field is present exactly where its key
/// holds a scalar, the value fails exactly where some key holds a
/// structurally mismatched value, and that failure is always a
/// `DeserializeError`.
pub fn settings_from(cfg: &config::Config) -> (r: Result<Settings, BaseError>)
    ensures
        r matches Ok(s) ==> {
            &&& leaf_matches(str_table_of(*cfg), "config.location"@, s.config.location)
            &&& leaf_matches(str_table_of(*cfg), "config.env_prefix"@, s.config.env_prefix)
            &&& leaf_matches(str_table_of(*cfg), "database.url"@, s.database.url)
            &&& leaf_matches(str_table_of(*cfg), "logging.log_level"@, s.logging.log_level)
        },
        r matches Err(e) ==> e is DeserializeError,
        r is Err <==> leaf_bad(*cfg, "config.location"@) || leaf_bad(*cfg, "config.env_prefix"@)
            || leaf_bad(*cfg, "database.url"@) || leaf_bad(*cfg, "logging.log_level"@),
{
    proof {
        reveal_strlit("config.location");
        reveal_strlit("config.env_prefix");
        reveal_strlit("database.url");
        reveal_strlit("logging.log_level");
        assert(is_plain_key("config.location"@));
        assert(is_plain_key("config.env_prefix"@));
        assert(is_plain_key("database.url"@));
        assert(is_plain_key("logging.log_level"@));
    }
    let location = field_from(fetch_string(cfg, "config.location"))?;
    let env_prefix = field_from(fetch_string(cfg, "config.env_prefix"))?;
    let url = field_from(fetch_string(cfg, "database.url"))?;
    let log_level = field_from(fetch_string(cfg, "logging.log_level"))?;
    Ok(
        Settings {
            config: ConfigInfo { location, env_prefix },
            database: Database { url },
            logging: Logging { log_level },
        },
    )
}

/// Assemble the loader's merged-source builder: exactly one file
/// source, the required file at `location`; exactly one environment
/// source, admitting only variables prefixed by `env_prefix`, with the
/// double-underscore string as both the prefix separator and the
/// nesting separator; and exactly the two synthetic overrides
/// recording the load, nothing else.
pub fn prepare_builder(location: &str, env_prefix: &str) -> (r: Result<SettingsBuilder, BaseError>)
    ensures
        r is Ok,
        r matches Ok(b) ==> files_of(b) =~= seq![(location@, true)],
        r matches Ok(b) ==> envs_of(b) =~= seq![(env_prefix@, Some("__"@), Some("__"@))],
        r matches Ok(b) ==> overrides_of(b) =~= injected_keys(location@, env_prefix@),
        r matches Err(e) ==> e is ConfigError,
        r matches Err(BaseError::ConfigError(m)) ==> has_prefix(m@, "Failed to set config location: "@)
            || has_prefix(m@, "Failed to set env prefix: "@),
{
    let builder = new_builder();
    let builder = add_file_source(builder, file_required(file_source(location), true));
    let env = env_prefix_separator(env_separator(env_source(env_prefix), "__"), "__");
    let builder = add_env_source(builder, env);
    proof {
        reveal_strlit("config.location");
        reveal_strlit("config.env_prefix");
        assert(is_plain_key("config.location"@));
        assert(is_plain_key("config.env_prefix"@));
    }
    let builder = match set_override_str(builder, "config.location", location) {
        Ok(b) => b,
        Err(m) => {
            let msg = "Failed to set config location: ".to_owned().concat(m.as_str());
            proof {
                assert(msg@.subrange(0, "Failed to set config location: "@.len() as int) =~= "Failed to set config location: "@);
            }
            return Err(BaseError::ConfigError(msg));
        },
    };
    let builder = match set_override_str(builder, "config.env_prefix", env_prefix) {
        Ok(b) => b,
        Err(m) => {
            let msg = "Failed to set env prefix: ".to_owned().concat(m.as_str());
            proof {
                assert(msg@.subrange(0, "Failed to set env prefix: "@.len() as int) =~= "Failed to set env prefix: "@);
            }
            return Err(BaseError::ConfigError(msg));
        },
    };
    Ok(builder)
}

/// Load settings for the library's own `Settings` type: merge the
/// required file at `location` with environment variables prefixed by
/// `env_prefix` (environment values override file values), inject the
/// two synthetic keys recording the load, and read the typed value out
/// of the merged tree. Every failure comes back as a `ConfigError`
/// (merge, override or build failures) or a `DeserializeError` (type
/// mismatches), never as a foreign error.
pub fn load_settings(location: &str, env_prefix: &str) -> (r: BaseResult<Settings>)
    ensures
        r matches Ok(s) ==> (s.config.location matches Some(l) && l@ == location@),
        r matches Ok(s) ==> (s.config.env_prefix matches Some(p) && p@ == env_prefix@),
        r matches Err(e) ==> (e is ConfigError || e is DeserializeError),
        r matches Err(BaseError::ConfigError(m)) ==> has_prefix(m@, "Failed to set config location: "@)
            || has_prefix(m@, "Failed to set env prefix: "@)
            || has_prefix(m@, "Failed to build config: "@),
{
    let builder = match prepare_builder(location, env_prefix) {
        Ok(b) => b,
        Err(e) => {
            return Err(e);
        },
    };
    let ghost ovr = overrides_of(builder);
    let cfg = match build_config(builder) {
        Ok(c) => c,
        Err(m) => {
            let msg = "Failed to build config: ".to_owned().concat(m.as_str());
            proof {
                assert(msg@.subrange(0, "Failed to build config: "@.len() as int) =~= "Failed to build config: "@);
            }
            return Err(BaseError::ConfigError(msg));
        },
    };
    proof {
        lemma_injected_keys_survive(ovr, str_table_of(cfg), location@, env_prefix@);
    }
    settings_from(&cfg)
}

/// The two synthetic key paths the loader injects.
pub open spec fn injected_keys(loc: Seq<char>, pref: Seq<char>) -> Map<Seq<char>, Seq<char>> {
    Map::empty().insert("config.location"@, loc).insert("config.env_prefix"@, pref)
}

/// Law: the two injected key paths conflict with nothing else among
/// the overrides, so once the tree is built each is a leaf holding the
/// literal string it was set to.
proof fn lemma_injected_keys_survive(
    ovr: Map<Seq<char>, Seq<char>>,
    table: Map<Seq<char>, Seq<char>>,
    loc: Seq<char>,
    pref: Seq<char>,
)
    requires
        ovr == injected_keys(loc, pref),
        forall|k: Seq<char>| #[trigger]
            ovr.dom().contains(k) && unconflicted_in(ovr, k) ==> table.dom().contains(k)
                && table[k] == ovr[k],
    ensures
        table.dom().contains("config.location"@) && table["config.location"@] == loc,
        table.dom().contains("config.env_prefix"@) && table["config.env_prefix"@] == pref,
{
    reveal_strlit("config.location");
    reveal_strlit("config.env_prefix");
    let lk = "config.location"@;
    let pk = "config.env_prefix"@;
    assert(lk.len() == 15);
    assert(pk.len() == 17);
    assert(!is_path_prefix(lk, pk)) by {
        if is_path_prefix(lk, pk) {
            assert(pk.subrange(0, 15)[7] == pk[7]);
        }
    }
    assert(!is_path_prefix(pk, lk));
    assert(ovr.dom() =~= set![lk, pk]);
    assert(ovr.dom().contains(lk));
    assert(ovr.dom().contains(pk));
    assert(unconflicted_in(ovr, lk));
    assert(unconflicted_in(ovr, pk));
    assert(ovr[lk] == loc);
    assert(ovr[pk] == pref);
}

/// A trait that defines the basic configuration behavior for settings:
/// a loadable settings type records where it was loaded from.
pub trait BaseSettings: Default + Clone + Sized {
    /// The configuration-file location a loaded value records.
    spec fn recorded_location(&self) -> Option<Seq<char>>;

    /// The environment-variable prefix a loaded value records.
    spec fn recorded_env_prefix(&self) -> Option<Seq<char>>;

    /// Load settings from a configuration file and environment
    /// variables; a successfully loaded value records the exact
    /// location and prefix it was loaded with.
    fn load(location: &str, env_prefix: &str) -> (r: BaseResult<Self>)
        ensures
            r matches Ok(s) ==> s.recorded_location() == Some(location@),
            r matches Ok(s) ==> s.recorded_env_prefix() == Some(env_prefix@),
    ;
}

impl BaseSettings for Settings {
    open spec fn recorded_location(&self) -> Option<Seq<char>> {
        match self.config.location {
            Some(l) => Some(l@),
            None => None,
        }
    }

    open spec fn recorded_env_prefix(&self) -> Option<Seq<char>> {
        match self.config.env_prefix {
            Some(p) => Some(p@),
            None => None,
        }
    }

    fn load(location: &str, env_prefix: &str) -> (r: BaseResult<Settings>) {
        load_settings(location, env_prefix)
    }
}

} // verus!
