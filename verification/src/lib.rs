//! Validation of large collections of XML documents against the XML Schema
//! definitions that each document names.
//!
//! The library holds the decisions of the validation pipeline: which files a
//! walk emits, which schema a document declares, when a download is retried,
//! when a cached entry is still good, how a pool of validations is scheduled
//! and how the outcomes add up. Reading files, talking to the network and
//! calling the schema engine are left to the program built on top: it
//! performs what the library asks for and tells the library what came of it.
//!
//! Paths are texts whose components are parted by `/`; spans of time are
//! counted in nanoseconds; rates are kept as whole numbers.

pub mod cache;
pub mod cli;
pub mod config;
pub mod decimal;
pub mod duration;
pub mod error;
pub mod error_reporter;
pub mod file_discovery;
pub mod flight;
pub mod http_client;
pub mod libxml2;
pub mod output;
pub mod paths;
pub mod pattern;
pub mod pipeline;
pub mod scheduler;
pub mod schema_loader;
pub mod text;
pub mod validator;
pub mod walk;
pub mod workflow;

pub use crate::cache::{
    CacheMetadata, CacheStats, CachedSchema, CleanupStats, ComprehensiveCacheStats, DiskCache,
    MemoryCacheStats,
};
pub use crate::cli::{Cli, OutputFormat};
pub use crate::config::{Config, ConfigManager};
pub use crate::duration::Duration;
pub use crate::error::{CacheError, ConfigError, LibXml2Error, NetworkError, ValidationError};
pub use crate::error_reporter::{ErrorReporter, ValidationSummary, VerbosityLevel};
pub use crate::file_discovery::{DiscoveryStats, FileDiscovery};
pub use crate::http_client::HttpClientConfig;
pub use crate::libxml2::{LibXml2Wrapper, ValidationResult};
pub use crate::output::{
    HumanFormatter, JsonFormatter, OutputError, OutputFormatter, OutputFormatterFactory,
    SummaryFormatter,
};
pub use crate::schema_loader::{SchemaExtractor, SchemaReference, SchemaSourceType};
pub use crate::validator::{
    FileValidationResult, PerformanceMetrics, SchemaCacheStats, ValidationPhase,
    ValidationProgress, ValidationResults, ValidationStatus,
};
pub use crate::workflow::ValidationEngine;
