//! Configuration: settings read from the environment, the data directory
//! tree and the options the filesystem is mounted with.
use vstd::prelude::*;
use std::collections::HashMap;
use crate::error::SuperfuseError;
use crate::text::{char_vec, decimal, lemma_decimal_reads_back, occurs_in, parse_u64, push_all, spec_parse_u64};

verus! {

// ---------------------------------------------------------------------
// Environment settings
// ---------------------------------------------------------------------

/// The value of the first variable named `key` in `vars`.
pub open spec fn env_lookup(vars: Seq<(String, String)>, key: Seq<char>) -> Option<Seq<char>>
    decreases vars.len(),
{
    if vars.len() == 0 {
        None
    } else if vars[0].0@ == key {
        Some(vars[0].1@)
    } else {
        env_lookup(vars.drop_first(), key)
    }
}

/// A text setting: the variable's value where it is set, else `default`.
pub open spec fn text_setting(vars: Seq<(String, String)>, key: Seq<char>, default: Seq<char>) -> Seq<
    char,
> {
    match env_lookup(vars, key) {
        Some(v) => v,
        None => default,
    }
}

/// A numeric setting: the variable's value where it is set and reads as a
/// `u64`, else `default`.
pub open spec fn number_setting(vars: Seq<(String, String)>, key: Seq<char>, default: u64) -> u64 {
    match env_lookup(vars, key) {
        Some(v) => match spec_parse_u64(v) {
            Some(n) => n,
            None => default,
        },
        None => default,
    }
}

/// An unset variable gives its default, for text and numeric settings
/// alike.
pub proof fn lemma_unset_gives_default(
    vars: Seq<(String, String)>,
    key: Seq<char>,
    text_default: Seq<char>,
    number_default: u64,
)
    requires
        forall|i: int| 0 <= i < vars.len() ==> (#[trigger] vars[i]).0@ != key,
    ensures
        text_setting(vars, key, text_default) == text_default,
        number_setting(vars, key, number_default) == number_default,
    decreases vars.len(),
{
    if vars.len() > 0 {
        assert(vars[0].0@ != key);
        assert forall|i: int| 0 <= i < vars.drop_first().len() implies (
        #[trigger] vars.drop_first()[i]).0@ != key by {
            assert(vars.drop_first()[i] == vars[i + 1]);
        }
        lemma_unset_gives_default(vars.drop_first(), key, text_default, number_default);
    }
}

/// A numeric setting whose variable reads as the number `n` is `n`,
/// whatever the default and however large `n` is; in particular a variable
/// set to the decimal digits of `n` gives `n`.
pub proof fn lemma_set_number_is_used(
    vars: Seq<(String, String)>,
    key: Seq<char>,
    text: Seq<char>,
    n: u64,
    default: u64,
)
    requires
        env_lookup(vars, key) == Some(text),
        spec_parse_u64(text) == Some(n) || text == decimal(n as nat),
    ensures
        number_setting(vars, key, default) == n,
{
    lemma_decimal_reads_back(n);
}

/// Looks `key` up in a snapshot of the environment, taken as name/value
/// pairs.
pub fn env_value(vars: &[(String, String)], key: &str) -> (r: Option<String>)
    ensures
        match r {
            Some(v) => env_lookup(vars@, key@) == Some(v@),
            None => env_lookup(vars@, key@) is None,
        },
{
    let wanted = key.to_owned();
    let mut i: usize = 0;
    assert(vars@.subrange(0, vars@.len() as int) =~= vars@);
    while i < vars.len()
        invariant
            i <= vars@.len(),
            wanted@ == key@,
            env_lookup(vars@, key@) == env_lookup(vars@.subrange(i as int, vars@.len() as int), key@),
        decreases vars.len() - i,
    {
        let ghost rest = vars@.subrange(i as int, vars@.len() as int);
        assert(rest.drop_first() =~= vars@.subrange(i + 1, vars@.len() as int));
        if vars[i].0 == wanted {
            return Some(vars[i].1.clone());
        }
        i += 1;
    }
    None
}

/// A text setting from the environment, with a default for when the
/// variable is not set.
pub fn require_env_text(vars: &[(String, String)], key: &str, default: &str) -> (r: String)
    ensures
        r@ == text_setting(vars@, key@, default@),
{
    match env_value(vars, key) {
        Some(v) => v,
        None => default.to_owned(),
    }
}

/// A numeric setting from the environment, with a default for when the
/// variable is not set or does not read as a number.
pub fn require_env_number(vars: &[(String, String)], key: &str, default: u64) -> (r: u64)
    ensures
        r == number_setting(vars@, key@, default),
{
    match env_value(vars, key) {
        Some(v) => match parse_u64(v.as_str()) {
            Some(n) => n,
            None => default,
        },
        None => default,
    }
}

// ---------------------------------------------------------------------
// Superposition connection
// ---------------------------------------------------------------------

/// Superposition connection configuration loaded from environment variables.
#[derive(Debug, Clone)]
pub struct SuperpositionConfig {
    pub endpoint: String,
    pub token: String,
    pub org_id: String,
    pub workspace_id: String,
    pub additional_headers: HashMap<String, String>,
}

/// The first of the required connection variables that `vars` lacks, in
/// the order endpoint, token, organisation, workspace.
pub open spec fn first_missing(vars: Seq<(String, String)>) -> Option<Seq<char>> {
    if env_lookup(vars, "SUPERPOSITION_ENDPOINT"@) is None {
        Some("SUPERPOSITION_ENDPOINT"@)
    } else if env_lookup(vars, "SUPERPOSITION_TOKEN"@) is None {
        Some("SUPERPOSITION_TOKEN"@)
    } else if env_lookup(vars, "SUPERPOSITION_ORG_ID"@) is None {
        Some("SUPERPOSITION_ORG_ID"@)
    } else if env_lookup(vars, "SUPERPOSITION_WORKSPACE_ID"@) is None {
        Some("SUPERPOSITION_WORKSPACE_ID"@)
    } else {
        None
    }
}

/// A required setting: the variable's value, or `MissingSetting` with its
/// name where it is not set.
pub fn require_env_present(vars: &[(String, String)], key: &str) -> (r: Result<
    String,
    SuperfuseError,
>)
    ensures
        match env_lookup(vars@, key@) {
            Some(v) => r matches Ok(value) && value@ == v,
            None => r matches Err(SuperfuseError::MissingSetting(name)) && name@ == key@,
        },
{
    match env_value(vars, key) {
        Some(v) => Ok(v),
        None => Err(SuperfuseError::MissingSetting(key.to_owned())),
    }
}

impl SuperpositionConfig {
    /// Reads the connection settings from the environment. The endpoint,
    /// token, organisation and workspace are required: the first one that is
    /// not set is reported.
    pub fn init(env: &[(String, String)]) -> (r: Result<Self, SuperfuseError>)
        ensures
            match first_missing(env@) {
                Some(key) => r matches Err(SuperfuseError::MissingSetting(name)) && name@ == key,
                None => r matches Ok(cfg) && {
                    &&& Some(cfg.endpoint@) == env_lookup(env@, "SUPERPOSITION_ENDPOINT"@)
                    &&& Some(cfg.token@) == env_lookup(env@, "SUPERPOSITION_TOKEN"@)
                    &&& Some(cfg.org_id@) == env_lookup(env@, "SUPERPOSITION_ORG_ID"@)
                    &&& Some(cfg.workspace_id@) == env_lookup(
                        env@,
                        "SUPERPOSITION_WORKSPACE_ID"@,
                    )
                    &&& cfg.additional_headers@ == Map::<String, String>::empty()
                },
            },
    {
        let endpoint = require_env_present(env, "SUPERPOSITION_ENDPOINT")?;
        let token = require_env_present(env, "SUPERPOSITION_TOKEN")?;
        let org_id = require_env_present(env, "SUPERPOSITION_ORG_ID")?;
        let workspace_id = require_env_present(env, "SUPERPOSITION_WORKSPACE_ID")?;
        Ok(SuperpositionConfig {
            endpoint,
            token,
            org_id,
            workspace_id,
            additional_headers: HashMap::new(),
        })
    }
}

/// Everything the Superposition provider is started with.
#[derive(Debug, Clone)]
pub struct ProviderSettings {
    pub endpoint: String,
    pub token: String,
    pub org_id: String,
    pub workspace_id: String,
    /// Number of entries the evaluation cache holds.
    pub cache_size: u64,
    /// Seconds an evaluation stays cached.
    pub cache_ttl: u64,
    /// Seconds between two polls of the configuration.
    pub poll_interval: u64,
    /// Seconds a poll may take.
    pub poll_timeout: u64,
    /// Whether a fallback configuration is given to the provider.
    pub with_fallback_config: bool,
    /// Whether experimentation options are given to the provider.
    pub with_experimentation: bool,
}

impl ProviderSettings {
    /// The provider's settings: the connection from `config`, the cache and
    /// polling from the environment, each with its default; no fallback
    /// configuration and no experimentation.
    pub fn from_config(config: &SuperpositionConfig, env: &[(String, String)]) -> (s: Self)
        ensures
            s.endpoint@ == config.endpoint@,
            s.token@ == config.token@,
            s.org_id@ == config.org_id@,
            s.workspace_id@ == config.workspace_id@,
            s.cache_size == number_setting(env@, "SUPERPOSITION_CACHE_SIZE"@, 500),
            s.cache_ttl == number_setting(env@, "SUPERPOSITION_CACHE_TTL"@, 3600),
            s.poll_interval == number_setting(env@, "SUPERPOSITION_POLL_FREQUENCY"@, 60),
            s.poll_timeout == number_setting(env@, "SUPERPOSITION_POLL_TIMEOUT"@, 30),
            !s.with_fallback_config,
            !s.with_experimentation,
    {
        ProviderSettings {
            endpoint: config.endpoint.clone(),
            token: config.token.clone(),
            org_id: config.org_id.clone(),
            workspace_id: config.workspace_id.clone(),
            cache_size: require_env_number(env, "SUPERPOSITION_CACHE_SIZE", 500),
            cache_ttl: require_env_number(env, "SUPERPOSITION_CACHE_TTL", 3600),
            poll_interval: require_env_number(env, "SUPERPOSITION_POLL_FREQUENCY", 60),
            poll_timeout: require_env_number(env, "SUPERPOSITION_POLL_TIMEOUT", 30),
            with_fallback_config: false,
            with_experimentation: false,
        }
    }
}

// ---------------------------------------------------------------------
// Data directory
// ---------------------------------------------------------------------

/// `name` appended to `base` as a path component: a `/` goes between them
/// unless `base` is empty or ends with one. `/` is the separator of the
/// platforms that mount FUSE filesystems (Linux and macOS).
pub open spec fn join_path(base: Seq<char>, name: Seq<char>) -> Seq<char> {
    if base.len() == 0 || base.last() == '/' {
        base + name
    } else {
        base + seq!['/'] + name
    }
}

/// `name` appended to `base` as a path component.
pub fn join(base: &str, name: &str) -> (r: String)
    ensures
        r@ == join_path(base@, name@),
{
    let chars = char_vec(base);
    let mut r = base.to_owned();
    if chars.len() > 0 && chars[chars.len() - 1] != '/' {
        r.push('/');
    }
    push_all(&mut r, name);
    r
}

/// The files and directories under the superfuse data directory.
#[derive(Debug, Clone)]
pub struct DataPaths {
    /// The mapping database.
    pub db: String,
    /// The directory of the daily logs.
    pub logs: String,
}

impl DataPaths {
    /// The paths under the data directory `root`.
    pub fn under(root: &str) -> (paths: Self)
        ensures
            paths.db@ == join_path(root@, "superfuse.db"@),
            paths.logs@ == join_path(root@, "logs"@),
    {
        DataPaths { db: join(root, "superfuse.db"), logs: join(root, "logs") }
    }
}

/// Is `name` made of ASCII lowercase letters and digits alone?
pub open spec fn plain_name(name: Seq<char>) -> bool {
    forall|i: int|
        0 <= i < name.len() ==> ('a' <= #[trigger] name[i] <= 'z' || '0' <= name[i] <= '9')
}

/// The platform's data directory for an application, by
/// `directories::ProjectDirs::from(qualifier, organization, application)`
/// and its `data_dir`. `None` where no home directory can be found, or where
/// the directory is not valid UTF-8. Where the directory lies depends on the
/// platform and the environment and is not stated; on every platform its
/// last components are made from the application's name, kept as it is when
/// that name is lowercase with no space, so the name occurs in it.
#[verifier::external_body]
fn project_data_dir(qualifier: &str, organization: &str, application: &str) -> (r: Option<String>)
    requires
        plain_name(application@),
    ensures
        r matches Some(dir) ==> occurs_in(dir@, application@),
{
    match directories::ProjectDirs::from(qualifier, organization, application) {
        Some(dirs) => dirs.data_dir().to_str().map(|s| s.to_string()),
        None => None,
    }
}

/// Who superfuse is to the platform: qualifier `com`, organisation
/// `juspay`, application `superfuse`.
pub fn project_identity() -> (names: (&'static str, &'static str, &'static str))
    ensures
        names.0@ == "com"@,
        names.1@ == "juspay"@,
        names.2@ == "superfuse"@,
{
    ("com", "juspay", "superfuse")
}

/// The data directory the platform gave, or `NoDataDir` where it gave none.
pub fn resolve_data_root(found: Option<String>) -> (r: Result<String, SuperfuseError>)
    ensures
        match found {
            Some(root) => r == Ok::<String, SuperfuseError>(root),
            None => r matches Err(e) && e is NoDataDir,
        },
{
    match found {
        Some(root) => Ok(root),
        None => Err(SuperfuseError::NoDataDir),
    }
}

/// The root of the superfuse data directory, as the platform places the
/// data of the application `superfuse` of the organisation `juspay`;
/// `NoDataDir` where the platform gives none.
pub fn data_root() -> (r: Result<String, SuperfuseError>)
    ensures
        r matches Err(e) ==> e is NoDataDir,
        r matches Ok(root) ==> occurs_in(root@, "superfuse"@),
{
    proof {
        reveal_strlit("superfuse");
    }
    let (qualifier, organization, application) = project_identity();
    resolve_data_root(project_data_dir(qualifier, organization, application))
}

/// The address under which the mapping database is opened: the file is
/// created where it does not exist.
pub fn database_url(db: &str) -> (url: String)
    ensures
        url@ == "sqlite:"@ + db@ + "?mode=rwc"@,
{
    let mut url = "sqlite:".to_owned();
    push_all(&mut url, db);
    push_all(&mut url, "?mode=rwc");
    url
}

// ---------------------------------------------------------------------
// Mount options
// ---------------------------------------------------------------------

/// Who may use the mounted filesystem.
#[derive(Debug, Clone, Copy, PartialEq, Eq, Structural)]
pub enum SessionAcl {
    /// Any user (`allow_other`).
    All,
    /// Root and the owner (`allow_root`).
    RootAndOwner,
    /// The owner alone; FUSE's default.
    Owner,
}

/// The mount options of a FUSE filesystem (see `man mount.fuse`).
#[allow(non_camel_case_types)]
#[derive(Debug, Clone)]
pub enum MountOption {
    FSName(String),
    Subtype(String),
    CUSTOM(String),
    AutoUnmount,
    DefaultPermissions,
    Dev,
    NoDev,
    Suid,
    NoSuid,
    RO,
    RW,
    Exec,
    NoExec,
    Atime,
    NoAtime,
    DirSync,
    Sync,
    Async,
}

/// How the filesystem session is set up.
#[derive(Debug, Clone)]
pub struct FsConfig {
    pub mount_options: Vec<MountOption>,
    pub acl: SessionAcl,
    /// Number of worker threads; one where unset.
    pub n_threads: Option<usize>,
    /// Give each worker thread its own device descriptor.
    pub clone_fd: bool,
}

impl FsConfig {
    /// No mount options, the owner alone, default threads.
    pub fn new() -> (c: Self)
        ensures
            c.mount_options@.len() == 0,
            c.acl == SessionAcl::Owner,
            c.n_threads is None,
            !c.clone_fd,
    {
        FsConfig { mount_options: Vec::new(), acl: SessionAcl::Owner, n_threads: None, clone_fd: false }
    }
}

/// Does `options` hold `AutoUnmount`?
fn has_auto_unmount(options: &Vec<MountOption>) -> (found: bool)
    ensures
        found == exists|i: int| 0 <= i < options@.len() && (#[trigger] options@[i] is AutoUnmount),
{
    let mut i: usize = 0;
    while i < options.len()
        invariant
            i <= options@.len(),
            forall|k: int| 0 <= k < i ==> !(#[trigger] options@[k] is AutoUnmount),
        decreases options.len() - i,
    {
        if let MountOption::AutoUnmount = options[i] {
            return true;
        }
        i += 1;
    }
    false
}

/// Who may use the filesystem: root and the owner where root is allowed,
/// else anyone where it unmounts by itself, else the owner.
pub open spec fn session_acl(auto_unmount: bool, allow_root: bool) -> SessionAcl {
    if allow_root {
        SessionAcl::RootAndOwner
    } else if auto_unmount {
        SessionAcl::All
    } else {
        SessionAcl::Owner
    }
}

/// The session set-up for a read-only mount at `mount_point`.
pub fn fs_config(
    mount_point: &str,
    auto_unmount: bool,
    allow_root: bool,
    n_threads: usize,
    clone_fd: bool,
) -> (c: FsConfig)
    ensures
        c.acl == session_acl(auto_unmount, allow_root),
        c.n_threads == Some(n_threads),
        c.clone_fd == clone_fd,
        c.mount_options@.len() == if auto_unmount {
            3int
        } else {
            2int
        },
        auto_unmount ==> c.mount_options@[0] is AutoUnmount,
        c.mount_options@[c.mount_options@.len() - 2] is RO,
        c.mount_options@[c.mount_options@.len() - 1] matches MountOption::FSName(name) && name@
            == mount_point@,
{
    let mut config = FsConfig::new();
    if auto_unmount {
        config.mount_options.push(MountOption::AutoUnmount);
    }
    if allow_root {
        config.acl = SessionAcl::RootAndOwner;
    }
    if has_auto_unmount(&config.mount_options) && config.acl != SessionAcl::RootAndOwner {
        config.acl = SessionAcl::All;
    }
    config.n_threads = Some(n_threads);
    config.clone_fd = clone_fd;
    config.mount_options.push(MountOption::RO);
    config.mount_options.push(MountOption::FSName(mount_point.to_owned()));
    config
}

/// The filesystem is always mounted read-only, under the name of its
/// mount point; one that unmounts by itself is never limited to its owner,
/// and allowing root takes precedence over allowing everyone.
pub proof fn lemma_mount_policy(auto_unmount: bool, allow_root: bool)
    ensures
        auto_unmount ==> session_acl(auto_unmount, allow_root) != SessionAcl::Owner,
        allow_root ==> session_acl(auto_unmount, allow_root) == SessionAcl::RootAndOwner,
        !auto_unmount && !allow_root ==> session_acl(auto_unmount, allow_root)
            == SessionAcl::Owner,
{
}

/// The database and the log directory are two different children of the
/// data directory.
pub proof fn lemma_data_paths_distinct(root: Seq<char>)
    ensures
        join_path(root, "superfuse.db"@) != join_path(root, "logs"@),
        join_path(root, "superfuse.db"@).len() > root.len(),
        join_path(root, "logs"@).len() > root.len(),
{
    reveal_strlit("superfuse.db");
    reveal_strlit("logs");
    let db = join_path(root, "superfuse.db"@);
    let logs = join_path(root, "logs"@);
    if root.len() == 0 || root.last() == '/' {
        assert(db[root.len() as int] == 's');
        assert(logs[root.len() as int] == 'l');
    } else {
        assert(db[root.len() + 1int] == 's');
        assert(logs[root.len() + 1int] == 'l');
    }
}

} // verus!
