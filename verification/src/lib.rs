//! Lifecycle and access-control core of an ephemeral file-sharing service.
//!
//! Clients upload encrypted blobs, receive a content-derived handle and a
//! random capability, and the blob lives until its expiry passes. This crate
//! holds the rules of that service as verified functions on plain values; the
//! surrounding program performs the I/O and hands the results in.

pub mod admin;
pub mod auth;
pub mod auto_cleanup;
pub mod config;
pub mod delete;
pub mod digest;
pub mod download;
pub mod encoding;
pub mod error_handling;
pub mod identity;
pub mod ip_prefix;
pub mod pretty;
pub mod rate_limiter;
pub mod request_log;
pub mod resource;
pub mod text;
pub mod timestamp;
pub mod upload;
pub mod upload_guard;

pub use admin::{admin_login, admin_logout, admin_page, AdminLogin};
pub use auth::authorize;
pub use auto_cleanup::cleanup_cronjob;
pub use config::{AppConfiguration, Level, Validation};
pub use delete::{cleanup_file, delete_endpoint, DeleteRequest};
pub use download::{download_endpoint, download_page, DownloadPageContext};
pub use error_handling::{AppError, LogRecord, Severity, StatusCode, StorageFailure};
pub use ip_prefix::{ExtractIpPrefix, IpAddress, IpPrefix, UploadIpPrefixParseError};
pub use pretty::{pretty_print_bytes, pretty_print_delta};
pub use rate_limiter::{ip_prefix_ratelimiter, RateLimiter};
pub use resource::{fetch_resource, quota_snapshot, AdminSession, QuotaSnapshot, Resource};
pub use timestamp::{has_expired, Liveness, Timestamp};
pub use upload::{upload_endpoint, upload_page, UploadFileResponse, UploadForm};
pub use upload_guard::{upload_endpoint_wrapper, UploadGuard, UploadToken};
