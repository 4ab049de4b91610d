//! Store definitions and the registry of configured stores.
//!
//! A store is a content source — a local directory or an object-store
//! bucket — reachable under a mount prefix (its `servepath`). The registry
//! is a `Config`: an ordered list of stores whose mount prefixes must be
//! pairwise distinct.

use vstd::prelude::*;

verus! {

/// A store backed by a directory of the local filesystem.
#[derive(Clone, Debug)]
pub struct LocalStore {
    /// Mount prefix under which the store is served.
    pub servepath: String,
    /// Whether directory browsing is enabled; `None` means disabled.
    pub browse: Option<bool>,
    /// Root directory served by this store.
    pub directory: String,
}

/// A store backed by an object-store bucket.
#[derive(Clone, Debug)]
pub struct S3Store {
    /// Mount prefix under which the store is served.
    pub servepath: String,
    /// Whether prefix browsing is enabled; `None` means disabled.
    pub browse: Option<bool>,
    /// Access key credential for the bucket.
    pub accesskey: String,
    /// Secret key credential for the bucket.
    pub secretkey: String,
    /// Bucket name.
    pub bucket: String,
    /// Bucket region, if configured.
    pub region: Option<String>,
    /// Custom endpoint, if configured.
    pub endpoint: Option<String>,
}

/// Capability of a store to name the root location it serves from: the
/// local directory path, or the bucket name.
pub trait DisplayDirectory {
    /// The root label as a sequence of characters.
    spec fn spec_directory(&self) -> Seq<char>;

    /// Human-readable root identity, used in listings and logs.
    fn directory(&self) -> (r: &str)
        ensures
            r@ == self.spec_directory(),
    ;
}

/// Capabilities every store variant exposes: a stable backend-type
/// identifier and the mount prefix it is served under.
pub trait Store: DisplayDirectory {
    /// The backend-type identifier as a sequence of characters.
    spec fn spec_name(&self) -> Seq<char>;

    /// The mount prefix as a sequence of characters.
    spec fn spec_servepath(&self) -> Seq<char>;

    /// Stable backend-type identifier, used for logging.
    fn name(&self) -> (r: &'static str)
        ensures
            r@ == self.spec_name(),
    ;

    /// Mount prefix under which the store is served.
    fn servepath(&self) -> (r: &str)
        ensures
            r@ == self.spec_servepath(),
    ;
}

impl DisplayDirectory for LocalStore {
    open spec fn spec_directory(&self) -> Seq<char> {
        self.directory@
    }

    fn directory(&self) -> (r: &str) {
        self.directory.as_str()
    }
}

impl Store for LocalStore {
    open spec fn spec_name(&self) -> Seq<char> {
        "LocalStore"@
    }

    open spec fn spec_servepath(&self) -> Seq<char> {
        self.servepath@
    }

    fn name(&self) -> (r: &'static str) {
        "LocalStore"
    }

    fn servepath(&self) -> (r: &str) {
        self.servepath.as_str()
    }
}

impl DisplayDirectory for S3Store {
    open spec fn spec_directory(&self) -> Seq<char> {
        self.bucket@
    }

    fn directory(&self) -> (r: &str) {
        self.bucket.as_str()
    }
}

impl Store for S3Store {
    open spec fn spec_name(&self) -> Seq<char> {
        "S3Store"@
    }

    open spec fn spec_servepath(&self) -> Seq<char> {
        self.servepath@
    }

    fn name(&self) -> (r: &'static str) {
        "S3Store"
    }

    fn servepath(&self) -> (r: &str) {
        self.servepath.as_str()
    }
}

/// A configured store: one of the closed set of backend variants. Dispatch
/// over the variants is exhaustive.
#[derive(Clone, Debug)]
pub enum StoreType {
    Local(LocalStore),
    S3(S3Store),
}

impl StoreType {
    /// The mount prefix of the underlying store.
    pub open spec fn spec_servepath(&self) -> Seq<char> {
        match self {
            StoreType::Local(l) => l.spec_servepath(),
            StoreType::S3(s) => s.spec_servepath(),
        }
    }

    /// The backend-type identifier of the underlying store.
    pub open spec fn spec_name(&self) -> Seq<char> {
        match self {
            StoreType::Local(l) => l.spec_name(),
            StoreType::S3(s) => s.spec_name(),
        }
    }

    /// The root label of the underlying store.
    pub open spec fn spec_directory(&self) -> Seq<char> {
        match self {
            StoreType::Local(l) => l.spec_directory(),
            StoreType::S3(s) => s.spec_directory(),
        }
    }

    /// Whether browsing is enabled; an absent flag means disabled.
    pub open spec fn spec_browse(&self) -> bool {
        match self {
            StoreType::Local(l) => l.browse == Some(true),
            StoreType::S3(s) => s.browse == Some(true),
        }
    }

    /// Mount prefix under which the store is served.
    pub fn servepath(&self) -> (r: &str)
        ensures
            r@ == self.spec_servepath(),
    {
        match self {
            StoreType::Local(l) => l.servepath(),
            StoreType::S3(s) => s.servepath(),
        }
    }

    /// Stable backend-type identifier, used for logging.
    pub fn name(&self) -> (r: &'static str)
        ensures
            r@ == self.spec_name(),
    {
        match self {
            StoreType::Local(l) => l.name(),
            StoreType::S3(s) => s.name(),
        }
    }

    /// Human-readable root identity, used in listings and logs.
    pub fn directory(&self) -> (r: &str)
        ensures
            r@ == self.spec_directory(),
    {
        match self {
            StoreType::Local(l) => l.directory(),
            StoreType::S3(s) => s.directory(),
        }
    }

    /// The route pattern under which the server registers this store: the
    /// mount prefix followed by a catch-all segment that captures the
    /// request-relative path.
    pub fn route_pattern(&self) -> (r: String)
        ensures
            r@ == self.spec_servepath() + "/{filename:.*}"@,
    {
        self.servepath_string().clone().concat("/{filename:.*}")
    }

    /// The mount prefix as an owned-string reference, for comparisons.
    fn servepath_string(&self) -> (r: &String)
        ensures
            r@ == self.spec_servepath(),
    {
        match self {
            StoreType::Local(l) => &l.servepath,
            StoreType::S3(s) => &s.servepath,
        }
    }

    /// Whether browsing is enabled for this store; an absent flag means
    /// disabled.
    pub fn browse_enabled(&self) -> (r: bool)
        ensures
            r == self.spec_browse(),
    {
        let flag = match self {
            StoreType::Local(l) => &l.browse,
            StoreType::S3(s) => &s.browse,
        };
        match flag {
            Some(b) => *b,
            None => false,
        }
    }
}

/// A fault in the configuration, fatal at startup.
#[derive(Debug)]
pub enum ConfigError {
    /// Two stores share the named mount prefix.
    DuplicateMount(String),
}

impl ConfigError {
    /// Diagnostic text of the fault, naming the offending prefix.
    pub fn message(&self) -> (r: String)
        ensures
            (self matches ConfigError::DuplicateMount(p) ==> r@ == "duplicate 'servepath' entry: "@
                + p@),
    {
        match self {
            ConfigError::DuplicateMount(p) => String::from_str(
                "duplicate 'servepath' entry: ",
            ).concat(p.as_str()),
        }
    }
}

/// The validated registry: the bind address, if configured, and the ordered
/// list of stores.
pub struct Config {
    /// Bind address of the server, if configured.
    pub address: Option<String>,
    /// Ordered list of configured stores.
    pub stores: Vec<StoreType>,
}

impl Config {
    /// The sequence of mount prefixes, in store order.
    pub open spec fn spec_mounts(&self) -> Seq<Seq<char>> {
        self.stores@.map_values(|s: StoreType| s.spec_servepath())
    }

    /// The registry invariant: no two stores share a mount prefix
    /// (case-sensitive, exact match).
    pub open spec fn mounts_distinct(&self) -> bool {
        forall|i: int, j: int|
            0 <= i < j < self.spec_mounts().len() ==> self.spec_mounts()[i]
                != self.spec_mounts()[j]
    }

    /// Checks the registry invariant: succeeds exactly when the mount
    /// prefixes are pairwise distinct, and otherwise reports a prefix that
    /// two stores share. The check compares mount prefixes only, never the
    /// backend kinds.
    pub fn validate(&self) -> (r: Result<(), ConfigError>)
        ensures
            r is Ok <==> self.mounts_distinct(),
            (r matches Err(ConfigError::DuplicateMount(p)) ==> exists|i: int, j: int|
                0 <= i < j < self.spec_mounts().len() && self.spec_mounts()[i]
                    == self.spec_mounts()[j] && self.spec_mounts()[i] == p@),
    {
        let n = self.stores.len();
        let mut i: usize = 0;
        while i < n
            invariant
                n == self.stores@.len(),
                i <= n,
                forall|x: int, y: int|
                    0 <= x < y < n && x < i ==> self.spec_mounts()[x] != self.spec_mounts()[y],
            decreases n - i,
        {
            let mut j: usize = i + 1;
            while j < n
                invariant
                    n == self.stores@.len(),
                    i < n,
                    i < j <= n,
                    forall|y: int| i < y < j ==> self.spec_mounts()[i as int] != self.spec_mounts()[y],
                decreases n - j,
            {
                if *self.stores[i].servepath_string() == *self.stores[j].servepath_string() {
                    proof {
                        assert(self.spec_mounts()[i as int] == self.stores@[i as int].spec_servepath());
                        assert(self.spec_mounts()[j as int] == self.stores@[j as int].spec_servepath());
                        assert(!self.mounts_distinct());
                    }
                    return Err(ConfigError::DuplicateMount(self.stores[i].servepath_string().clone()));
                }
                j += 1;
            }
            i += 1;
        }
        Ok(())
    }

    /// Finds the store that serves the given mount prefix: the index of the
    /// first store whose mount prefix equals `mount` exactly, or `None` when
    /// no store has it.
    pub fn find_store(&self, mount: &str) -> (r: Option<usize>)
        ensures
            match r {
                Some(i) => i < self.spec_mounts().len() && self.spec_mounts()[i as int] == mount@
                    && (forall|x: int| 0 <= x < i ==> self.spec_mounts()[x] != mount@),
                None => forall|x: int|
                    0 <= x < self.spec_mounts().len() ==> self.spec_mounts()[x] != mount@,
            },
    {
        let key = String::from_str(mount);
        let n = self.stores.len();
        let mut i: usize = 0;
        while i < n
            invariant
                n == self.stores@.len(),
                i <= n,
                key@ == mount@,
                forall|x: int| 0 <= x < i ==> self.spec_mounts()[x] != mount@,
            decreases n - i,
        {
            if *self.stores[i].servepath_string() == key {
                proof {
                    assert(self.spec_mounts()[i as int] == self.stores@[i as int].spec_servepath());
                }
                return Some(i);
            }
            i += 1;
        }
        None
    }
}

/// Law: whether validation succeeds is a deterministic function of the
/// mount prefixes alone, irrespective of the backend kinds behind them:
/// two registries with the same mount prefixes in the same order validate
/// the same way.
pub proof fn lemma_validation_ignores_backend(a: &Config, b: &Config)
    requires
        a.spec_mounts() == b.spec_mounts(),
    ensures
        a.mounts_distinct() == b.mounts_distinct(),
{
}

} // verus!
