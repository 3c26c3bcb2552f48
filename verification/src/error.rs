//! Errors that the planning and validation logic reports.

use vstd::prelude::*;

use crate::text::owned;

verus! {

/// Why a command could not be planned, or a configuration could not be loaded.
#[derive(Debug, PartialEq, Eq)]
pub enum PttoError {
    /// The domain is empty or longer than 253 bytes.
    DomainLength,
    /// The domain holds an ASCII whitespace or a control character.
    DomainWhitespace,
    /// The domain holds a non-ASCII character.
    DomainNotAscii,
    /// The domain has no dot.
    DomainNotDnsStyle,
    /// A label is empty or longer than 63 characters.
    DomainLabelLength,
    /// A label starts or ends with a hyphen.
    DomainLabelHyphen,
    /// A label holds a character other than an ASCII letter, digit or hyphen.
    DomainLabelChars,
    /// The app name is empty or longer than 64 bytes.
    AppNameLength,
    /// The app name holds a character other than an ASCII letter, digit, '-' or '_'.
    AppNameChars,
    /// The service name is empty or longer than 256 bytes.
    ServiceNameLength,
    /// The service name holds a character outside A-Z a-z 0-9 : _ . @ -.
    ServiceNameChars,
    /// No SSH target for `init` or `deploy`.
    MissingTarget,
    /// No SSH target for `db`.
    MissingDbTarget,
    /// No SSH target for `logs`, `top` or `traffic`.
    MissingTelemetryTarget,
    /// No domain for `deploy`.
    MissingDomain,
    /// The local database file that `db push` uploads does not exist.
    MissingLocalDatabase(String),
    /// The configuration file exists but could not be read.
    ConfigUnreadable { path: String, reason: String },
    /// The configuration file is not valid TOML for the configuration's fields.
    ConfigMalformed { path: String, reason: String },
}

pub const MSG_DOMAIN_LENGTH: &'static str = "invalid domain: must be 1-253 characters";
pub const MSG_DOMAIN_WHITESPACE: &'static str = "invalid domain: whitespace/control characters are not allowed";
pub const MSG_DOMAIN_NOT_ASCII: &'static str = "invalid domain: only ASCII DNS-style domains are currently supported";
pub const MSG_DOMAIN_NOT_DNS: &'static str = "invalid domain: expected a DNS-style host like example.com";
pub const MSG_LABEL_LENGTH: &'static str = "invalid domain: labels must be 1-63 characters";
pub const MSG_LABEL_HYPHEN: &'static str = "invalid domain: labels cannot start or end with hyphens";
pub const MSG_LABEL_CHARS: &'static str = "invalid domain: labels may only contain ASCII letters, digits, and hyphens";
pub const MSG_APP_LENGTH: &'static str = "invalid app name: expected 1-64 characters";
pub const MSG_APP_CHARS: &'static str = "invalid app name: allowed characters are ASCII letters, digits, '-', and '_'";
pub const MSG_SERVICE_LENGTH: &'static str = "invalid service name: expected 1-256 characters";
pub const MSG_SERVICE_CHARS: &'static str = "invalid service name: allowed characters are A-Z a-z 0-9 : _ . @ -";
pub const MSG_MISSING_TARGET: &'static str = "missing SSH target: pass --target (deploy) or positional target (init), or set host in .ptto.toml";
pub const MSG_MISSING_DB_TARGET: &'static str = "missing SSH target: pass --target to ptto db, or set host in .ptto.toml";
pub const MSG_MISSING_TELEMETRY_TARGET: &'static str = "missing SSH target: pass --target or set host in .ptto.toml";
pub const MSG_MISSING_DOMAIN: &'static str = "missing domain: pass --domain or set domain in .ptto.toml";
pub const MSG_MISSING_LOCAL_DB: &'static str = "local database file does not exist: ";
pub const MSG_CONFIG_READ: &'static str = "failed to read ";
pub const MSG_CONFIG_PARSE: &'static str = "failed to parse ";

/// The text shown to the user for an error.
pub open spec fn error_text(e: PttoError) -> Seq<char> {
    match e {
        PttoError::DomainLength => MSG_DOMAIN_LENGTH@,
        PttoError::DomainWhitespace => MSG_DOMAIN_WHITESPACE@,
        PttoError::DomainNotAscii => MSG_DOMAIN_NOT_ASCII@,
        PttoError::DomainNotDnsStyle => MSG_DOMAIN_NOT_DNS@,
        PttoError::DomainLabelLength => MSG_LABEL_LENGTH@,
        PttoError::DomainLabelHyphen => MSG_LABEL_HYPHEN@,
        PttoError::DomainLabelChars => MSG_LABEL_CHARS@,
        PttoError::AppNameLength => MSG_APP_LENGTH@,
        PttoError::AppNameChars => MSG_APP_CHARS@,
        PttoError::ServiceNameLength => MSG_SERVICE_LENGTH@,
        PttoError::ServiceNameChars => MSG_SERVICE_CHARS@,
        PttoError::MissingTarget => MSG_MISSING_TARGET@,
        PttoError::MissingDbTarget => MSG_MISSING_DB_TARGET@,
        PttoError::MissingTelemetryTarget => MSG_MISSING_TELEMETRY_TARGET@,
        PttoError::MissingDomain => MSG_MISSING_DOMAIN@,
        PttoError::MissingLocalDatabase(path) => MSG_MISSING_LOCAL_DB@ + path@,
        PttoError::ConfigUnreadable { path, reason } => MSG_CONFIG_READ@ + path@,
        PttoError::ConfigMalformed { path, reason } => MSG_CONFIG_PARSE@ + path@,
    }
}

impl PttoError {
    /// The text shown to the user for this error.
    pub fn message(&self) -> (res: String)
        ensures
            res@ == error_text(*self),
    {
        match self {
            PttoError::DomainLength => owned(MSG_DOMAIN_LENGTH),
            PttoError::DomainWhitespace => owned(MSG_DOMAIN_WHITESPACE),
            PttoError::DomainNotAscii => owned(MSG_DOMAIN_NOT_ASCII),
            PttoError::DomainNotDnsStyle => owned(MSG_DOMAIN_NOT_DNS),
            PttoError::DomainLabelLength => owned(MSG_LABEL_LENGTH),
            PttoError::DomainLabelHyphen => owned(MSG_LABEL_HYPHEN),
            PttoError::DomainLabelChars => owned(MSG_LABEL_CHARS),
            PttoError::AppNameLength => owned(MSG_APP_LENGTH),
            PttoError::AppNameChars => owned(MSG_APP_CHARS),
            PttoError::ServiceNameLength => owned(MSG_SERVICE_LENGTH),
            PttoError::ServiceNameChars => owned(MSG_SERVICE_CHARS),
            PttoError::MissingTarget => owned(MSG_MISSING_TARGET),
            PttoError::MissingDbTarget => owned(MSG_MISSING_DB_TARGET),
            PttoError::MissingTelemetryTarget => owned(MSG_MISSING_TELEMETRY_TARGET),
            PttoError::MissingDomain => owned(MSG_MISSING_DOMAIN),
            PttoError::MissingLocalDatabase(path) => {
                let mut s = owned(MSG_MISSING_LOCAL_DB);
                s.push_str(path.as_str());
                s
            },
            PttoError::ConfigUnreadable { path, reason } => {
                let mut s = owned(MSG_CONFIG_READ);
                s.push_str(path.as_str());
                s
            },
            PttoError::ConfigMalformed { path, reason } => {
                let mut s = owned(MSG_CONFIG_PARSE);
                s.push_str(path.as_str());
                s
            },
        }
    }

    /// The underlying cause that the error carries, if any.
    pub fn cause(&self) -> (res: Option<String>)
        ensures
            res == match *self {
                PttoError::ConfigUnreadable { path, reason } => Some(reason),
                PttoError::ConfigMalformed { path, reason } => Some(reason),
                _ => None::<String>,
            },
    {
        match self {
            PttoError::ConfigUnreadable { path, reason } => Some(reason.clone()),
            PttoError::ConfigMalformed { path, reason } => Some(reason.clone()),
            _ => None,
        }
    }
}

} // verus!
