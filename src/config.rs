//! The declarative service description.
use vstd::prelude::*;

verus! {

/// A service and where and how to deploy it.
#[derive(Debug, Clone)]
pub struct Config {
    pub service: String,
    pub user: Option<String>,
    pub hosts: Vec<String>,
    pub jail: Option<JailConfig>,
    pub packages: Vec<String>,
    pub env: EnvConfig,
    pub before_start: Vec<String>,
    pub start: Vec<String>,
    pub data_directories: Vec<DataDirectory>,
    pub doas: bool,
    pub proxy: Option<ProxyConfig>,
    /// Runtime tools and their versions, in the order they were declared.
    /// Read from a mapping, so each tool is named once; a list of pairs
    /// rather than a hash map keeps the contents visible to the proofs
    /// (the fingerprint sorts the pairs, so their order does not matter).
    pub mise: Vec<(String, String)>,
}

/// A host directory bound into every jail of the service.
#[derive(Debug, Clone)]
pub enum DataDirectory {
    /// The same path on the host and in the jail.
    Simple(String),
    /// Host path to jail path, read from a mapping (so host paths are
    /// unique) and kept in order; the first entry counts.
    Mapping(Vec<(String, String)>),
}

/// The host path and the jail path of a binding: both empty for an empty mapping.
pub open spec fn binding_paths(d: DataDirectory) -> (Seq<char>, Seq<char>) {
    match d {
        DataDirectory::Simple(p) => (p@, p@),
        DataDirectory::Mapping(m) => if m@.len() > 0 {
            (m@[0].0@, m@[0].1@)
        } else {
            (Seq::<char>::empty(), Seq::<char>::empty())
        },
    }
}

impl DataDirectory {
    /// The host path and the jail path of this binding.
    pub fn get_paths(&self) -> (r: (String, String))
        ensures
            (r.0@, r.1@) == binding_paths(*self),
    {
        match self {
            DataDirectory::Simple(path) => (path.clone(), path.clone()),
            DataDirectory::Mapping(map) => {
                if map.len() > 0 {
                    (map[0].0.clone(), map[0].1.clone())
                } else {
                    (String::new(), String::new())
                }
            },
        }
    }
}

/// Jail settings.
#[derive(Debug, Clone, Default)]
pub struct JailConfig {
    pub base_version: Option<String>,
    pub ip_range: Option<String>,
}

/// The public side of the service.
#[derive(Debug, Clone)]
pub struct ProxyConfig {
    pub hostname: String,
    pub port: u16,
    pub tls: bool,
    /// Manually managed certificate; overrides automatic certificates.
    pub ssl: Option<SslConfig>,
}

/// Names of the local environment variables that hold a certificate and its key.
#[derive(Debug, Clone)]
pub struct SslConfig {
    pub certificate_pem: String,
    pub private_key_pem: String,
}

/// The value `tls` takes when the description leaves it out.
pub fn default_true() -> (r: bool)
    ensures
        r,
{
    true
}

/// Environment of the service.
#[derive(Debug, Clone, Default)]
pub struct EnvConfig {
    /// Variables given in the description, each group in declared order.
    pub clear: Vec<Vec<(String, String)>>,
    /// Names of variables read from the deploying operator's environment.
    pub secret: Vec<String>,
}

} // verus!
