//! Server and client configuration values and their validation.

use crate::constants::{
    DEFAULT_MAX_CONNECTIONS, DEFAULT_MAX_PORT, DEFAULT_MIN_PORT, DEFAULT_RETRIES, DEFAULT_TIMEOUT,
    LOWEST_ALLOWED_PORT,
};
use crate::identity::NodeIdentity;
use std::path::PathBuf;
use vstd::prelude::*;

verus! {

/// `std::path::PathBuf`, carried through as an opaque value.
#[verifier::external_type_specification]
#[verifier::external_body]
pub struct ExPathBuf(PathBuf);

/// The path that `std::path::Path::join` gives for a base and a file name.
pub uninterp spec fn joined_path(base: PathBuf, name: Seq<char>) -> PathBuf;

/// Calls `std::path::Path::join`, which appends `name` to `base` as a further
/// component; the result depends on the two arguments alone.
#[verifier::external_body]
fn join_path(base: &PathBuf, name: &str) -> (path: PathBuf)
    ensures
        path == joined_path(*base, name@),
{
    base.join(name)
}

/// Why a configuration value is refused.
#[derive(Clone, Debug, PartialEq, Eq)]
pub enum ConfigError {
    /// The lower end of the allowed ports lies above the upper end.
    InvalidPortRange,
    /// The lower end of the allowed ports lies below 1024.
    PrivilegedPort,
    /// Two hosts of the book share this name.
    DuplicateHostName { name: String },
    /// The host of this name has the identity of an earlier host of the book.
    DuplicateHostIdentity { name: String },
}

/// A configuration value that is kept in a file of its own.
pub trait Configuration: Sized {
    /// What is wrong with the value; nothing where it may be saved and used.
    spec fn defect(&self) -> Option<ConfigError>;

    /// The name of the file below the configuration directory.
    spec fn file_name() -> Seq<char>;

    /// The name of the file below the configuration directory.
    fn filename() -> (name: &'static str)
        ensures
            name@ == Self::file_name(),
    ;

    /// Accepts the value or says what is wrong with it.
    fn validate(&self) -> (r: Result<(), ConfigError>)
        ensures
            r == match self.defect() {
                Some(e) => Err::<(), ConfigError>(e),
                None => Ok::<(), ConfigError>(()),
            },
    ;

    /// Whether the value is the one used where no file exists yet.
    spec fn is_initial(&self) -> bool;

    /// The value used where no file exists yet.
    fn default() -> (c: Self)
        ensures
            c.is_initial(),
            c.defect().is_none(),
    ;
}

/// What loading a configuration gives.
#[derive(Debug)]
pub struct Loaded<C> {
    /// The value to use.
    pub config: C,
    /// Whether no file existed, so that the value is to be saved now.
    pub created: bool,
}

/// Where the configuration files live.
#[derive(Debug)]
pub struct ConfigManager {
    base_path: PathBuf,
}

impl ConfigManager {
    /// The directory below which the files are kept.
    pub closed spec fn base(&self) -> PathBuf {
        self.base_path
    }

    /// A manager for the files below `base_path`.
    pub fn with_base_path(base_path: PathBuf) -> (m: ConfigManager)
        ensures
            m.base() == base_path,
    {
        ConfigManager { base_path }
    }

    /// The path of the file `filename` below the configuration directory.
    pub fn config_path(&self, filename: &str) -> (path: PathBuf)
        ensures
            path == joined_path(self.base(), filename@),
    {
        join_path(&self.base_path, filename)
    }

    /// Settles what loading gives, from what the file held: a stored value
    /// must be valid; where no file exists, the default value is used and is
    /// to be saved.
    pub fn load<C: Configuration>(&self, stored: Option<C>) -> (r: Result<Loaded<C>, ConfigError>)
        ensures
            match stored {
                Some(config) => match config.defect() {
                    Some(e) => r == Err::<Loaded<C>, ConfigError>(e),
                    None => r == Ok::<Loaded<C>, ConfigError>(Loaded { config, created: false }),
                },
                None => r matches Ok(loaded) && loaded.created && loaded.config.is_initial()
                    && loaded.config.defect().is_none(),
            },
    {
        match stored {
            Some(config) => match config.validate() {
                Ok(_) => Ok(Loaded { config, created: false }),
                Err(e) => Err(e),
            },
            None => Ok(Loaded { config: C::default(), created: true }),
        }
    }

    /// Prepares saving: a value that is not valid is refused; a valid one is
    /// to be written to the path returned.
    pub fn save<C: Configuration>(&self, config: &C) -> (r: Result<PathBuf, ConfigError>)
        ensures
            r == match config.defect() {
                Some(e) => Err::<PathBuf, ConfigError>(e),
                None => Ok::<PathBuf, ConfigError>(joined_path(self.base(), C::file_name())),
            },
    {
        match config.validate() {
            Ok(_) => Ok(self.config_path(C::filename())),
            Err(e) => Err(e),
        }
    }
}

/// Limits that the server enforces.
#[derive(Clone, Copy, Debug, PartialEq, Eq)]
pub struct ServerSettings {
    pub max_connections: usize,
    pub allowed_ports: (u16, u16),
}

impl Default for ServerSettings {
    fn default() -> (s: ServerSettings)
        ensures
            s.max_connections == DEFAULT_MAX_CONNECTIONS,
            s.allowed_ports == (DEFAULT_MIN_PORT, DEFAULT_MAX_PORT),
    {
        ServerSettings {
            max_connections: default_max_connections(),
            allowed_ports: default_port_range(),
        }
    }
}

pub fn default_max_connections() -> (n: usize)
    ensures
        n == 100,
{
    DEFAULT_MAX_CONNECTIONS
}

pub fn default_port_range() -> (r: (u16, u16))
    ensures
        r == (1024u16, 65535u16),
{
    (DEFAULT_MIN_PORT, DEFAULT_MAX_PORT)
}

pub fn default_timeout() -> (t: u64)
    ensures
        t == 30,
{
    DEFAULT_TIMEOUT
}

pub fn default_retries() -> (n: usize)
    ensures
        n == 5,
{
    DEFAULT_RETRIES
}

/// What the server reads from its file: who may connect, and the limits.
#[derive(Clone, Debug, PartialEq, Eq)]
pub struct ServerConfig {
    pub authorized_keys: Vec<NodeIdentity>,
    pub settings: ServerSettings,
}

impl ServerConfig {
    /// Whether `id` is one of the authorized keys.
    pub open spec fn authorizes(&self, id: Seq<u8>) -> bool {
        holds(self.authorized_keys@, id)
    }

    /// Whether `port` lies in the allowed range, both ends included.
    pub open spec fn allows_port(&self, port: u16) -> bool {
        self.settings.allowed_ports.0 <= port <= self.settings.allowed_ports.1
    }

    /// Whether the allowed range is one that a server may have: it starts
    /// at 1024 or above and is not empty.
    pub open spec fn is_valid(&self) -> bool {
        1024 <= self.settings.allowed_ports.0 <= self.settings.allowed_ports.1
    }
}

/// Whether one of `keys` has the bytes `id`.
pub open spec fn holds(keys: Seq<NodeIdentity>, id: Seq<u8>) -> bool {
    exists|i: int| 0 <= i < keys.len() && (#[trigger] keys[i])@ == id
}

impl Configuration for ServerConfig {
    open spec fn defect(&self) -> Option<ConfigError> {
        if self.settings.allowed_ports.0 > self.settings.allowed_ports.1 {
            Some(ConfigError::InvalidPortRange)
        } else if self.settings.allowed_ports.0 < LOWEST_ALLOWED_PORT {
            Some(ConfigError::PrivilegedPort)
        } else {
            None
        }
    }

    open spec fn file_name() -> Seq<char> {
        "server.toml"@
    }

    open spec fn is_initial(&self) -> bool {
        &&& self.authorized_keys@.len() == 0
        &&& self.settings.max_connections == 100
        &&& self.settings.allowed_ports == (1024u16, 65535u16)
    }

    fn filename() -> (name: &'static str) {
        "server.toml"
    }

    fn validate(&self) -> (r: Result<(), ConfigError>)
        ensures
            r.is_ok() == self.is_valid(),
    {
        if self.settings.allowed_ports.0 > self.settings.allowed_ports.1 {
            return Err(ConfigError::InvalidPortRange);
        }
        if self.settings.allowed_ports.0 < LOWEST_ALLOWED_PORT {
            return Err(ConfigError::PrivilegedPort);
        }
        Ok(())
    }

    fn default() -> (c: ServerConfig) {
        ServerConfig { authorized_keys: Vec::new(), settings: ServerSettings::default() }
    }
}

/// How the client dials.
#[derive(Clone, Copy, Debug, PartialEq, Eq)]
pub struct ClientSettings {
    pub connection_timeout: u64,
    pub max_retries: usize,
}

impl Default for ClientSettings {
    fn default() -> (s: ClientSettings)
        ensures
            s.connection_timeout == DEFAULT_TIMEOUT,
            s.max_retries == DEFAULT_RETRIES,
    {
        ClientSettings { connection_timeout: default_timeout(), max_retries: default_retries() }
    }
}

/// A peer that the client knows by name.
#[derive(Clone, Debug, PartialEq, Eq)]
pub struct Host {
    pub name: String,
    pub id: NodeIdentity,
    pub description: Option<String>,
    pub added_at: u64,
    pub last_connected: Option<u64>,
}

impl Host {
    /// A host first seen at `added_at` (seconds since the epoch), never
    /// connected to and without a description.
    pub fn new(name: String, id: NodeIdentity, added_at: u64) -> (h: Host)
        ensures
            h.name == name,
            h.id == id,
            h.description.is_none(),
            h.added_at == added_at,
            h.last_connected.is_none(),
    {
        Host { name, id, description: None, added_at, last_connected: None }
    }

    /// Notes a connection made at `now` (seconds since the epoch).
    pub fn mark_connected(&mut self, now: u64)
        ensures
            *final(self) == (Host { last_connected: Some(now), ..*old(self) }),
    {
        self.last_connected = Some(now);
    }
}

/// The client's book of known hosts and its settings.
#[derive(Clone, Debug, PartialEq, Eq)]
pub struct ClientConfig {
    pub hosts: Vec<Host>,
    pub settings: ClientSettings,
}

/// Whether the host at `j` has the name of an earlier one.
pub open spec fn repeats_name(hosts: Seq<Host>, j: int) -> bool {
    exists|i: int| 0 <= i < j && (#[trigger] hosts[i]).name@ == hosts[j].name@
}

/// Whether no two hosts share a name.
pub open spec fn names_distinct(hosts: Seq<Host>) -> bool {
    forall|j: int| 0 <= j < hosts.len() ==> !#[trigger] repeats_name(hosts, j)
}

/// Whether no two hosts share an identity.
pub open spec fn identities_distinct(hosts: Seq<Host>) -> bool {
    forall|i: int, j: int|
        0 <= i < j < hosts.len() ==> (#[trigger] hosts[i]).id@ != (#[trigger] hosts[j]).id@
}

fn name_seen_before(hosts: &Vec<Host>, j: usize) -> (r: bool)
    requires
        j < hosts@.len(),
    ensures
        r == repeats_name(hosts@, j as int),
{
    let mut i: usize = 0;
    while i < j
        invariant
            i <= j,
            j < hosts@.len(),
            forall|k: int| 0 <= k < i ==> (#[trigger] hosts@[k]).name@ != hosts@[j as int].name@,
        decreases j - i,
    {
        if hosts[i].name == hosts[j].name {
            return true;
        }
        i += 1;
    }
    false
}

/// Whether the host at `j` has the identity of an earlier one.
pub open spec fn repeats_identity(hosts: Seq<Host>, j: int) -> bool {
    exists|i: int| 0 <= i < j && (#[trigger] hosts[i]).id@ == hosts[j].id@
}

fn identity_seen_before(hosts: &Vec<Host>, j: usize) -> (r: bool)
    requires
        j < hosts@.len(),
    ensures
        r == repeats_identity(hosts@, j as int),
{
    let mut i: usize = 0;
    while i < j
        invariant
            i <= j,
            j < hosts@.len(),
            forall|k: int| 0 <= k < i ==> (#[trigger] hosts@[k]).id@ != hosts@[j as int].id@,
        decreases j - i,
    {
        if hosts[i].id.same(&hosts[j].id) {
            return true;
        }
        i += 1;
    }
    false
}

/// `j` is the place of the first host that has the name of an earlier one.
pub open spec fn first_repeat(hosts: Seq<Host>, j: int) -> bool {
    &&& 0 <= j < hosts.len()
    &&& repeats_name(hosts, j)
    &&& forall|k: int| 0 <= k < j ==> !#[trigger] repeats_name(hosts, k)
}

/// `j` is the place of the first host that has the identity of an earlier
/// one.
pub open spec fn first_identity_repeat(hosts: Seq<Host>, j: int) -> bool {
    &&& 0 <= j < hosts.len()
    &&& repeats_identity(hosts, j)
    &&& forall|k: int| 0 <= k < j ==> !#[trigger] repeats_identity(hosts, k)
}

/// Whether the book is one that may be stored: no two hosts share a name,
/// and no two share an identity.
pub open spec fn book_is_sound(hosts: Seq<Host>) -> bool {
    names_distinct(hosts) && identities_distinct(hosts)
}

/// No two hosts share an identity exactly when no host has the identity of
/// an earlier one.
pub proof fn identities_distinct_by_place(hosts: Seq<Host>)
    ensures
        identities_distinct(hosts) == (forall|j: int|
            0 <= j < hosts.len() ==> !#[trigger] repeats_identity(hosts, j)),
{
    if identities_distinct(hosts) {
        assert forall|j: int| 0 <= j < hosts.len() implies !#[trigger] repeats_identity(
            hosts,
            j,
        ) by {
            if repeats_identity(hosts, j) {
                let i = choose|i: int| 0 <= i < j && (#[trigger] hosts[i]).id@ == hosts[j].id@;
                assert(hosts[i].id@ != hosts[j].id@);
            }
        }
    }
    if forall|j: int| 0 <= j < hosts.len() ==> !#[trigger] repeats_identity(hosts, j) {
        assert forall|i: int, j: int| 0 <= i < j < hosts.len() implies (#[trigger] hosts[i]).id@
            != (#[trigger] hosts[j]).id@ by {
            if hosts[i].id@ == hosts[j].id@ {
                assert(repeats_identity(hosts, j));
            }
        }
    }
}

impl Configuration for ClientConfig {
    open spec fn defect(&self) -> Option<ConfigError> {
        if !names_distinct(self.hosts@) {
            let j = choose|j: int| first_repeat(self.hosts@, j);
            Some(ConfigError::DuplicateHostName { name: self.hosts@[j].name })
        } else if !identities_distinct(self.hosts@) {
            let j = choose|j: int| first_identity_repeat(self.hosts@, j);
            Some(ConfigError::DuplicateHostIdentity { name: self.hosts@[j].name })
        } else {
            None
        }
    }

    open spec fn file_name() -> Seq<char> {
        "client.toml"@
    }

    open spec fn is_initial(&self) -> bool {
        &&& self.hosts@.len() == 0
        &&& self.settings.connection_timeout == 30
        &&& self.settings.max_retries == 5
    }

    fn filename() -> (name: &'static str) {
        "client.toml"
    }

    /// Accepts a book in which no two hosts share a name and no two share an
    /// identity. Otherwise the first host with the name of an earlier one is
    /// reported or, where the names are all different, the first host with
    /// the identity of an earlier one.
    fn validate(&self) -> (r: Result<(), ConfigError>)
        ensures
            r.is_ok() == book_is_sound(self.hosts@),
            r.is_ok() == (names_distinct(self.hosts@) && identities_distinct(self.hosts@)),
            !names_distinct(self.hosts@) ==> exists|j: int|
                first_repeat(self.hosts@, j) && r == Err::<(), ConfigError>(
                    (ConfigError::DuplicateHostName { name: self.hosts@[j].name }),
                ),
            (names_distinct(self.hosts@) && !identities_distinct(self.hosts@)) ==> exists|j: int|
                first_identity_repeat(self.hosts@, j) && r == Err::<(), ConfigError>(
                    (ConfigError::DuplicateHostIdentity { name: self.hosts@[j].name }),
                ),
    {
        let mut j: usize = 0;
        while j < self.hosts.len()
            invariant
                j <= self.hosts@.len(),
                forall|k: int| 0 <= k < j ==> !#[trigger] repeats_name(self.hosts@, k),
            decreases self.hosts@.len() - j,
        {
            if name_seen_before(&self.hosts, j) {
                let name = self.hosts[j].name.clone();
                proof {
                    let hosts = self.hosts@;
                    assert(first_repeat(hosts, j as int));
                    let c = choose|c: int| first_repeat(hosts, c);
                    assert(c == j) by {
                        if c < j {
                            assert(!repeats_name(hosts, c));
                        }
                        if j < c {
                            assert(!repeats_name(hosts, j as int));
                        }
                    }
                }
                return Err(ConfigError::DuplicateHostName { name });
            }
            j += 1;
        }
        assert(names_distinct(self.hosts@));
        let mut j: usize = 0;
        while j < self.hosts.len()
            invariant
                j <= self.hosts@.len(),
                names_distinct(self.hosts@),
                forall|k: int| 0 <= k < j ==> !#[trigger] repeats_identity(self.hosts@, k),
            decreases self.hosts@.len() - j,
        {
            if identity_seen_before(&self.hosts, j) {
                let name = self.hosts[j].name.clone();
                proof {
                    let hosts = self.hosts@;
                    identities_distinct_by_place(hosts);
                    assert(first_identity_repeat(hosts, j as int));
                    let c = choose|c: int| first_identity_repeat(hosts, c);
                    assert(c == j) by {
                        if c < j {
                            assert(!repeats_identity(hosts, c));
                        }
                        if j < c {
                            assert(!repeats_identity(hosts, j as int));
                        }
                    }
                }
                return Err(ConfigError::DuplicateHostIdentity { name });
            }
            j += 1;
        }
        proof {
            identities_distinct_by_place(self.hosts@);
        }
        Ok(())
    }

    fn default() -> (c: ClientConfig) {
        ClientConfig { hosts: Vec::new(), settings: ClientSettings::default() }
    }
}

/// A server configuration is accepted exactly when its allowed range starts
/// at 1024 or above and its lower end does not pass its upper end; a range
/// that starts below 1024 is always rejected.
pub proof fn privileged_range_is_rejected(config: ServerConfig)
    ensures
        config.defect().is_none() == config.is_valid(),
        config.settings.allowed_ports.0 < 1024 ==> config.defect().is_some(),
        config.settings.allowed_ports.0 > config.settings.allowed_ports.1 ==> config.defect()
            == Some(ConfigError::InvalidPortRange),
{
}

/// A client configuration is accepted exactly when its book is sound: a book
/// in which two hosts share a name, or two share an identity, is rejected.
pub proof fn repeated_host_is_rejected(config: ClientConfig, i: int, j: int)
    requires
        0 <= i < j < config.hosts@.len(),
    ensures
        config.defect().is_none() == book_is_sound(config.hosts@),
        config.hosts@[i].name@ == config.hosts@[j].name@ ==> config.defect().is_some(),
        config.hosts@[i].id@ == config.hosts@[j].id@ ==> config.defect().is_some(),
{
    let hosts = config.hosts@;
    if hosts[i].name@ == hosts[j].name@ {
        assert(repeats_name(hosts, j));
    }
}

} // verus!
