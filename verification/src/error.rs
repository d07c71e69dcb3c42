//! The ways in which a run can fail, and the text each failure is reported
//! with.

use crate::decimal::{decimal, signed_decimal, write_decimal, write_signed_decimal};
use crate::text::{concat2, concat3, concat4, concat5, concat6, string_of};
use vstd::prelude::*;
use vstd::std_specs::convert::FromSpecImpl;

verus! {

/// What went wrong with an access to the local file system, as far as the
/// library tells the cases apart.
#[derive(Clone, Copy, Debug, PartialEq, Eq, Structural)]
pub enum IoKind {
    /// The file or directory does not exist.
    NotFound,
    /// The file or directory may not be read.
    PermissionDenied,
    /// Anything else.
    Other,
}

/// A failed access to the local file system.
#[derive(Clone, Debug, PartialEq, Eq)]
pub struct IoFailure {
    pub kind: IoKind,
    pub message: String,
}

/// A failure of the transport below HTTP: no response arrived.
#[derive(Clone, Debug, PartialEq, Eq)]
pub struct HttpFailure {
    pub message: String,
    /// The request ran out of time.
    pub is_timeout: bool,
    /// The connection could not be made.
    pub is_connect: bool,
    /// The request could not be sent.
    pub is_request: bool,
}

/// Every way in which the work on a file, a schema or a run can fail.
#[derive(Clone, Debug, PartialEq, Eq)]
pub enum ValidationError {
    Io(IoFailure),
    Http(HttpFailure),
    HttpStatus { url: String, status: u16, message: String },
    Timeout { url: String, timeout_seconds: u64 },
    SchemaParsing { url: String, details: String },
    ValidationFailed { file: String, details: String },
    SchemaNotFound { url: String },
    Cache(String),
    Config(String),
    LibXml2Internal { details: String },
    FileSystemTraversal { path: String, reason: String },
    SchemaUrlNotFound { file: String },
    InvalidFileExtension { expected: String, actual: String },
    Concurrency { details: String },
    ResourceExhaustion { resource: String, details: String },
}

/// A configuration that cannot be used.
#[derive(Clone, Debug, PartialEq, Eq)]
pub enum ConfigError {
    FileNotFound { path: String },
    InvalidFormat { details: String },
    MissingField { field: String },
    InvalidValue { field: String, value: String, reason: String },
    MergeConflict { details: String },
}

/// A malfunction of the schema cache.
#[derive(Clone, Debug, PartialEq, Eq)]
pub enum CacheError {
    InitializationFailed { details: String },
    WriteError { key: String, details: String },
    ReadError { key: String, details: String },
    Corruption { key: String, details: String },
    CleanupFailed { details: String },
    Expired { key: String },
}

/// A failure to reach a remote schema.
#[derive(Clone, Debug, PartialEq, Eq)]
pub enum NetworkError {
    Timeout { url: String, timeout_ms: u64 },
    ConnectionRefused { url: String },
    DnsResolution { hostname: String },
    HttpStatus { status: u16, url: String },
    NetworkUnreachable { url: String },
    TlsError { url: String, details: String },
}

/// A failure reported by the schema engine.
#[derive(Clone, Debug, PartialEq, Eq)]
pub enum LibXml2Error {
    SchemaParseFailed,
    ValidationContextFailed,
    ValidationContextCreationFailed,
    ValidationFailed { code: i32, file: String },
    MemoryAllocation,
    InvalidXml { details: String },
    InternalError { details: String },
}

impl ValidationError {
    /// The text the error is reported with.
    pub open spec fn display(&self) -> Seq<char> {
        match self {
            ValidationError::Io(e) => "IO error: "@ + e.message@,
            ValidationError::Http(e) => "HTTP error: "@ + e.message@,
            ValidationError::HttpStatus { url, status, message } => "HTTP status error: "@
                + decimal(*status as nat) + " for "@ + url@ + " - "@ + message@,
            ValidationError::Timeout { url, timeout_seconds } => "Request timeout: "@ + url@
                + " after "@ + decimal(*timeout_seconds as nat) + " seconds"@,
            ValidationError::SchemaParsing { url, details } => "Schema parsing error: "@ + url@
                + " - "@ + details@,
            ValidationError::ValidationFailed { file, details } => "XML validation failed: "@
                + file@ + " - "@ + details@,
            ValidationError::SchemaNotFound { url } => "Schema not found: "@ + url@,
            ValidationError::Cache(m) => "Cache error: "@ + m@,
            ValidationError::Config(m) => "Configuration error: "@ + m@,
            ValidationError::LibXml2Internal { details } => "LibXML2 internal error: "@
                + details@,
            ValidationError::FileSystemTraversal { path, reason } =>
                "File system traversal error: "@ + path@ + " - "@ + reason@,
            ValidationError::SchemaUrlNotFound { file } => "Schema URL extraction failed: "@
                + file@ + " - no schema location found"@,
            ValidationError::InvalidFileExtension { expected, actual } =>
                "Invalid file extension: expected "@ + expected@ + ", found "@ + actual@,
            ValidationError::Concurrency { details } => "Concurrent operation error: "@
                + details@,
            ValidationError::ResourceExhaustion { resource, details } => "Resource exhaustion: "@
                + resource@ + " - "@ + details@,
        }
    }

    /// The text the error is reported with.
    pub fn to_string(&self) -> (r: String)
        ensures
            r@ == self.display(),
    {
        match self {
            ValidationError::Io(e) => concat2("IO error: ", e.message.as_str()),
            ValidationError::Http(e) => concat2("HTTP error: ", e.message.as_str()),
            ValidationError::HttpStatus { url, status, message } => {
                let code = string_of(&write_decimal(*status as u128));
                concat6(
                    "HTTP status error: ",
                    code.as_str(),
                    " for ",
                    url.as_str(),
                    " - ",
                    message.as_str(),
                )
            },
            ValidationError::Timeout { url, timeout_seconds } => {
                let secs = string_of(&write_decimal(*timeout_seconds as u128));
                concat5("Request timeout: ", url.as_str(), " after ", secs.as_str(), " seconds")
            },
            ValidationError::SchemaParsing { url, details } => concat4(
                "Schema parsing error: ",
                url.as_str(),
                " - ",
                details.as_str(),
            ),
            ValidationError::ValidationFailed { file, details } => concat4(
                "XML validation failed: ",
                file.as_str(),
                " - ",
                details.as_str(),
            ),
            ValidationError::SchemaNotFound { url } => concat2("Schema not found: ", url.as_str()),
            ValidationError::Cache(m) => concat2("Cache error: ", m.as_str()),
            ValidationError::Config(m) => concat2("Configuration error: ", m.as_str()),
            ValidationError::LibXml2Internal { details } => concat2(
                "LibXML2 internal error: ",
                details.as_str(),
            ),
            ValidationError::FileSystemTraversal { path, reason } => concat4(
                "File system traversal error: ",
                path.as_str(),
                " - ",
                reason.as_str(),
            ),
            ValidationError::SchemaUrlNotFound { file } => concat3(
                "Schema URL extraction failed: ",
                file.as_str(),
                " - no schema location found",
            ),
            ValidationError::InvalidFileExtension { expected, actual } => concat4(
                "Invalid file extension: expected ",
                expected.as_str(),
                ", found ",
                actual.as_str(),
            ),
            ValidationError::Concurrency { details } => concat2(
                "Concurrent operation error: ",
                details.as_str(),
            ),
            ValidationError::ResourceExhaustion { resource, details } => concat4(
                "Resource exhaustion: ",
                resource.as_str(),
                " - ",
                details.as_str(),
            ),
        }
    }
}

impl ConfigError {
    /// The text the error is reported with.
    pub open spec fn display(&self) -> Seq<char> {
        match self {
            ConfigError::FileNotFound { path } => "Configuration file not found: "@ + path@,
            ConfigError::InvalidFormat { details } => "Invalid configuration format: "@
                + details@,
            ConfigError::MissingField { field } => "Missing required configuration field: "@
                + field@,
            ConfigError::InvalidValue { field, value, reason } =>
                "Invalid configuration value: "@ + field@ + " = "@ + value@ + " - "@ + reason@,
            ConfigError::MergeConflict { details } => "Configuration merge conflict: "@
                + details@,
        }
    }

    /// The text the error is reported with.
    pub fn to_string(&self) -> (r: String)
        ensures
            r@ == self.display(),
    {
        match self {
            ConfigError::FileNotFound { path } => concat2(
                "Configuration file not found: ",
                path.as_str(),
            ),
            ConfigError::InvalidFormat { details } => concat2(
                "Invalid configuration format: ",
                details.as_str(),
            ),
            ConfigError::MissingField { field } => concat2(
                "Missing required configuration field: ",
                field.as_str(),
            ),
            ConfigError::InvalidValue { field, value, reason } => concat6(
                "Invalid configuration value: ",
                field.as_str(),
                " = ",
                value.as_str(),
                " - ",
                reason.as_str(),
            ),
            ConfigError::MergeConflict { details } => concat2(
                "Configuration merge conflict: ",
                details.as_str(),
            ),
        }
    }
}

impl CacheError {
    /// The text the error is reported with.
    pub open spec fn display(&self) -> Seq<char> {
        match self {
            CacheError::InitializationFailed { details } => "Cache initialization failed: "@
                + details@,
            CacheError::WriteError { key, details } => "Cache write error: "@ + key@ + " - "@
                + details@,
            CacheError::ReadError { key, details } => "Cache read error: "@ + key@ + " - "@
                + details@,
            CacheError::Corruption { key, details } => "Cache corruption detected: "@ + key@
                + " - "@ + details@,
            CacheError::CleanupFailed { details } => "Cache cleanup failed: "@ + details@,
            CacheError::Expired { key } => "Cache TTL expired: "@ + key@,
        }
    }

    /// The text the error is reported with.
    pub fn to_string(&self) -> (r: String)
        ensures
            r@ == self.display(),
    {
        match self {
            CacheError::InitializationFailed { details } => concat2(
                "Cache initialization failed: ",
                details.as_str(),
            ),
            CacheError::WriteError { key, details } => concat4(
                "Cache write error: ",
                key.as_str(),
                " - ",
                details.as_str(),
            ),
            CacheError::ReadError { key, details } => concat4(
                "Cache read error: ",
                key.as_str(),
                " - ",
                details.as_str(),
            ),
            CacheError::Corruption { key, details } => concat4(
                "Cache corruption detected: ",
                key.as_str(),
                " - ",
                details.as_str(),
            ),
            CacheError::CleanupFailed { details } => concat2(
                "Cache cleanup failed: ",
                details.as_str(),
            ),
            CacheError::Expired { key } => concat2("Cache TTL expired: ", key.as_str()),
        }
    }
}

impl NetworkError {
    /// The text the error is reported with.
    pub open spec fn display(&self) -> Seq<char> {
        match self {
            NetworkError::Timeout { url, timeout_ms } => "Connection timeout: "@ + url@
                + " after "@ + decimal(*timeout_ms as nat) + "ms"@,
            NetworkError::ConnectionRefused { url } => "Connection refused: "@ + url@,
            NetworkError::DnsResolution { hostname } => "DNS resolution failed: "@ + hostname@,
            NetworkError::HttpStatus { status, url } => "HTTP status error: "@ + decimal(
                *status as nat,
            ) + " for "@ + url@,
            NetworkError::NetworkUnreachable { url } => "Network unreachable: "@ + url@,
            NetworkError::TlsError { url, details } => "SSL/TLS error: "@ + url@ + " - "@
                + details@,
        }
    }

    /// The text the error is reported with.
    pub fn to_string(&self) -> (r: String)
        ensures
            r@ == self.display(),
    {
        match self {
            NetworkError::Timeout { url, timeout_ms } => {
                let ms = string_of(&write_decimal(*timeout_ms as u128));
                concat5("Connection timeout: ", url.as_str(), " after ", ms.as_str(), "ms")
            },
            NetworkError::ConnectionRefused { url } => concat2(
                "Connection refused: ",
                url.as_str(),
            ),
            NetworkError::DnsResolution { hostname } => concat2(
                "DNS resolution failed: ",
                hostname.as_str(),
            ),
            NetworkError::HttpStatus { status, url } => {
                let code = string_of(&write_decimal(*status as u128));
                concat4("HTTP status error: ", code.as_str(), " for ", url.as_str())
            },
            NetworkError::NetworkUnreachable { url } => concat2(
                "Network unreachable: ",
                url.as_str(),
            ),
            NetworkError::TlsError { url, details } => concat4(
                "SSL/TLS error: ",
                url.as_str(),
                " - ",
                details.as_str(),
            ),
        }
    }
}

impl LibXml2Error {
    /// The text the error is reported with.
    pub open spec fn display(&self) -> Seq<char> {
        match self {
            LibXml2Error::SchemaParseFailed => "Schema parsing failed: null pointer returned"@,
            LibXml2Error::ValidationContextFailed => "Validation context creation failed"@,
            LibXml2Error::ValidationContextCreationFailed =>
                "Validation context creation failed"@,
            LibXml2Error::ValidationFailed { code, file } => "File validation failed with code "@
                + signed_decimal(*code as int) + ": "@ + file@,
            LibXml2Error::MemoryAllocation => "Memory allocation failed in libxml2"@,
            LibXml2Error::InvalidXml { details } => "Invalid XML structure: "@ + details@,
            LibXml2Error::InternalError { details } => "Schema validation internal error: "@
                + details@,
        }
    }

    /// The text the error is reported with.
    pub fn to_string(&self) -> (r: String)
        ensures
            r@ == self.display(),
    {
        match self {
            LibXml2Error::SchemaParseFailed =>
                "Schema parsing failed: null pointer returned".to_owned(),
            LibXml2Error::ValidationContextFailed => "Validation context creation failed".to_owned(),
            LibXml2Error::ValidationContextCreationFailed =>
                "Validation context creation failed".to_owned(),
            LibXml2Error::ValidationFailed { code, file } => {
                let c = string_of(&write_signed_decimal(*code as i64));
                concat4("File validation failed with code ", c.as_str(), ": ", file.as_str())
            },
            LibXml2Error::MemoryAllocation => "Memory allocation failed in libxml2".to_owned(),
            LibXml2Error::InvalidXml { details } => concat2(
                "Invalid XML structure: ",
                details.as_str(),
            ),
            LibXml2Error::InternalError { details } => concat2(
                "Schema validation internal error: ",
                details.as_str(),
            ),
        }
    }
}

// The conversions below are stated on `from` itself, over the characters of
// the message: two strings with the same characters are not known to be one
// value, so `from_spec` pins nothing.

impl From<ConfigError> for ValidationError {
    /// A configuration error, as an error of the run.
    fn from(err: ConfigError) -> (r: ValidationError)
        ensures
            r matches ValidationError::Config(m) && m@ == err.display(),
    {
        ValidationError::Config(err.to_string())
    }
}

impl FromSpecImpl<ConfigError> for ValidationError {
    open spec fn obeys_from_spec() -> bool {
        false
    }

    open spec fn from_spec(err: ConfigError) -> ValidationError {
        ValidationError::Config(arbitrary())
    }
}

impl From<CacheError> for ValidationError {
    /// A cache error, as an error of the run.
    fn from(err: CacheError) -> (r: ValidationError)
        ensures
            r matches ValidationError::Cache(m) && m@ == err.display(),
    {
        ValidationError::Cache(err.to_string())
    }
}

impl FromSpecImpl<CacheError> for ValidationError {
    open spec fn obeys_from_spec() -> bool {
        false
    }

    open spec fn from_spec(err: CacheError) -> ValidationError {
        ValidationError::Cache(arbitrary())
    }
}

impl From<NetworkError> for ValidationError {
    /// A network error, as an error of the run: it is reported as a failure
    /// to fill the cache.
    fn from(err: NetworkError) -> (r: ValidationError)
        ensures
            r matches ValidationError::Cache(m) && m@ == "Network error: "@ + err.display(),
    {
        let text = err.to_string();
        ValidationError::Cache(concat2("Network error: ", text.as_str()))
    }
}

impl FromSpecImpl<NetworkError> for ValidationError {
    open spec fn obeys_from_spec() -> bool {
        false
    }

    open spec fn from_spec(err: NetworkError) -> ValidationError {
        ValidationError::Cache(arbitrary())
    }
}

impl From<LibXml2Error> for ValidationError {
    /// An engine error, as an error of the run.
    fn from(err: LibXml2Error) -> (r: ValidationError)
        ensures
            r matches ValidationError::LibXml2Internal { details } && details@ == err.display(),
    {
        ValidationError::LibXml2Internal { details: err.to_string() }
    }
}

impl FromSpecImpl<LibXml2Error> for ValidationError {
    open spec fn obeys_from_spec() -> bool {
        false
    }

    open spec fn from_spec(err: LibXml2Error) -> ValidationError {
        ValidationError::LibXml2Internal { details: arbitrary() }
    }
}

} // verus!
