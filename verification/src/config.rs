//! The optional project configuration file, `.ptto.toml`.

use vstd::prelude::*;

use crate::error::PttoError;
use crate::text::owned;

verus! {

/// The configuration file, looked up in the working directory.
pub const CONFIG_FILENAME: &'static str = ".ptto.toml";

/// Defaults for command flags: SSH target, domain, identity file, Go source and app name.
#[derive(Debug, Clone)]
pub struct PttoConfig {
    pub host: Option<String>,
    pub domain: Option<String>,
    pub ssh_key: Option<String>,
    pub source: Option<String>,
    pub app: Option<String>,
}

/// A configuration with every value unset.
pub open spec fn is_empty_config(c: PttoConfig) -> bool {
    &&& c.host is None
    &&& c.domain is None
    &&& c.ssh_key is None
    &&& c.source is None
    &&& c.app is None
}

impl Default for PttoConfig {
    fn default() -> (res: PttoConfig)
        ensures
            is_empty_config(res),
    {
        PttoConfig { host: None, domain: None, ssh_key: None, source: None, app: None }
    }
}

/// What reading and parsing the configuration file gave.
#[derive(Debug)]
pub enum ConfigSource {
    /// There is no such file.
    NotFound,
    /// The file exists but reading it failed, for this reason.
    ReadFailed(String),
    /// The file was read but is not valid TOML for the configuration, for this reason.
    ParseFailed(String),
    /// The file was read and parsed.
    Parsed(PttoConfig),
}

/// What `load_from_path` gives for a configuration file at `path`.
pub open spec fn spec_load(path: Seq<char>, source: ConfigSource, res: Result<PttoConfig, PttoError>) -> bool {
    match source {
        ConfigSource::NotFound => res matches Ok(c) && is_empty_config(c),
        ConfigSource::ReadFailed(reason) => res matches Err(PttoError::ConfigUnreadable { path: p, reason: r })
            && p@ == path && r == reason,
        ConfigSource::ParseFailed(reason) => res matches Err(PttoError::ConfigMalformed { path: p, reason: r })
            && p@ == path && r == reason,
        ConfigSource::Parsed(c) => res == Ok::<PttoConfig, PttoError>(c),
    }
}

impl PttoConfig {
    /// The configuration that the file in the working directory gives: all unset where
    /// there is no file, else its values, else the reason it could not be read or parsed.
    pub fn load(source: ConfigSource) -> (res: Result<PttoConfig, PttoError>)
        ensures
            spec_load(CONFIG_FILENAME@, source, res),
    {
        Self::load_from_path(CONFIG_FILENAME, source)
    }

    /// The configuration that the file at `path` gives.
    pub fn load_from_path(path: &str, source: ConfigSource) -> (res: Result<PttoConfig, PttoError>)
        ensures
            spec_load(path@, source, res),
    {
        match source {
            ConfigSource::NotFound => Ok(PttoConfig::default()),
            ConfigSource::ReadFailed(reason) => Err(PttoError::ConfigUnreadable { path: owned(path), reason }),
            ConfigSource::ParseFailed(reason) => Err(PttoError::ConfigMalformed { path: owned(path), reason }),
            ConfigSource::Parsed(config) => Ok(config),
        }
    }
}

} // verus!
