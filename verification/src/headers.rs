//! Header names and fixed protocol tokens of the log-ingestion service.

use vstd::prelude::*;

verus! {

/// Authorization header name.
pub const AUTHORIZATION: &'static str = "authorization";

/// Content-length header name.
pub const CONTENT_LENGTH: &'static str = "content-length";

/// Content-type header name.
pub const CONTENT_TYPE: &'static str = "content-type";

/// Date header name.
pub const DATE: &'static str = "date";

/// Content digest header name.
pub const CONTENT_MD5: &'static str = "content-md5";

/// Version token of the service API.
pub const API_VERSION: &'static str = "0.6.0";

/// Custom header carrying the API version.
pub const LOG_API_VERSION: &'static str = "x-log-apiversion";

/// Custom header carrying the signature method.
pub const LOG_SIGNATURE_METHOD: &'static str = "x-log-signaturemethod";

/// Custom header carrying the pre-compression body size.
pub const LOG_BODY_RAW_SIZE: &'static str = "x-log-bodyrawsize";

/// Custom header carrying the compression type.
pub const LOG_COMPRESS_TYPE: &'static str = "x-log-compresstype";

/// Content type of every upload.
pub const DEFAULT_CONTENT_TYPE: &'static str = "application/x-protobuf";

/// The one signature method this client uses.
pub const SIGNATURE_METHOD: &'static str = "hmac-sha1";

} // verus!
