//! Client configuration and the delivery pipeline for one log group:
//! encode, optionally compress, digest, and sign, producing a complete
//! request for the transport, and the check applied to the response.
//! Issuing the HTTP call itself is the transport's job, outside this crate's
//! verified core.

use vstd::prelude::*;
use vstd::string::StringExecFns;
use crate::proto::{Log, LogGroupMetadata, log_group_wire, encode_log_group, calc_log_group_encoded_len};
use crate::signer::{Signer, authorization_spec, content_md5_chars, dec_chars, usize_to_decimal};

verus! {

/// The lz4 block compression of a byte sequence, as `lz4_flex::compress`
/// returns it.
pub uninterp spec fn lz4_of(b: Seq<u8>) -> Seq<u8>;

/// Relies on `lz4_flex::compress`: block-format lz4, a function of the
/// input bytes alone. The receiver learns the decompressed size from the
/// raw-size header, so no size prefix is wanted.
#[verifier::external_body]
fn lz4_compress(b: &[u8]) -> (r: Vec<u8>)
    ensures
        r@ == lz4_of(b@),
{
    lz4_flex::compress(b)
}

/// The zlib-framed deflate compression of a byte sequence at a level, as
/// `miniz_oxide::deflate::compress_to_vec_zlib` returns it.
pub uninterp spec fn zlib_of(b: Seq<u8>, level: u8) -> Seq<u8>;

/// Relies on `miniz_oxide::deflate::compress_to_vec_zlib`: zlib-framed
/// deflate at the given level, a function of input bytes and level alone.
#[verifier::external_body]
fn zlib_compress(b: &[u8], level: u8) -> (r: Vec<u8>)
    ensures
        r@ == zlib_of(b@, level),
{
    miniz_oxide::deflate::compress_to_vec_zlib(b, level)
}

/// The compression codec applied to encoded payloads before signing: at
/// most one is active.
#[derive(Debug, Clone, Copy, PartialEq, Eq)]
pub enum Compression {
    /// No compression: the payload is the encoded group itself.
    Plain,
    /// lz4 block compression.
    Lz4,
    /// zlib-framed deflate at the carried level.
    Deflate(u8),
}

/// The transmitted payload for an encoded group under a compression choice.
pub open spec fn compressed_payload(c: Compression, b: Seq<u8>) -> Seq<u8> {
    match c {
        Compression::Plain => b,
        Compression::Lz4 => lz4_of(b),
        Compression::Deflate(level) => zlib_of(b, level),
    }
}

/// The compression-type header value, present only when compression is
/// active.
pub open spec fn compress_type_chars(c: Compression) -> Option<Seq<char>> {
    match c {
        Compression::Plain => None,
        Compression::Lz4 => Some("lz4"@),
        Compression::Deflate(level) => Some("deflate"@),
    }
}

/// Apply the configured compression to an encoded payload.
fn compress_payload(c: Compression, b: Vec<u8>) -> (r: Vec<u8>)
    ensures
        r@ == compressed_payload(c, b@),
{
    match c {
        Compression::Plain => b,
        Compression::Lz4 => lz4_compress(b.as_slice()),
        Compression::Deflate(level) => zlib_compress(b.as_slice(), level),
    }
}

/// The compression-type header value for a compression choice.
fn compress_type_header(c: &Compression) -> (r: Option<&'static str>)
    ensures
        r.deep_view() == compress_type_chars(*c),
{
    match c {
        Compression::Plain => None,
        Compression::Lz4 => Some("lz4"),
        Compression::Deflate(_) => Some("deflate"),
    }
}

/// Why a client could not be built.
#[derive(Debug, PartialEq, Eq)]
pub enum SlsClientBuilderError {
    /// The secret key was rejected by the signing primitive.
    Hmac,
    /// A required field was never set; carries the field's name.
    Missing(&'static str),
}

/// Configuration gathered before building a client. All fields are plain
/// values; `build` checks that the required ones are present.
#[derive(Debug, Clone)]
pub struct SlsClientBuilder {
    /// Access key named in the authorization header. Required.
    pub access_key: Option<String>,
    /// Secret key bytes for the HMAC. Required.
    pub secret: Option<Vec<u8>>,
    /// Service endpoint host. Required.
    pub endpoint: Option<String>,
    /// Project name, used as the URL's first host label. Required.
    pub project: Option<String>,
    /// Logstore name inside the canonical resource. Required.
    pub logstore: Option<String>,
    /// Optional shard-routing key: pins delivery to one shard.
    pub shard_key: Option<String>,
    /// Whether delivery errors are handed to the tracing diagnostics.
    pub enable_trace: bool,
    /// Whether delivery errors are printed when tracing is off.
    pub print_internal_error: bool,
    /// The compression codec for payloads.
    pub compression: Compression,
}

impl Default for SlsClientBuilder {
    /// An empty builder: no fields set, tracing on, no compression.
    fn default() -> (r: SlsClientBuilder)
        ensures
            r.access_key is None,
            r.secret is None,
            r.endpoint is None,
            r.project is None,
            r.logstore is None,
            r.shard_key is None,
            r.enable_trace == true,
            r.print_internal_error == false,
            r.compression == Compression::Plain,
    {
        SlsClientBuilder {
            access_key: None,
            secret: None,
            endpoint: None,
            project: None,
            logstore: None,
            shard_key: None,
            enable_trace: true,
            print_internal_error: false,
            compression: Compression::Plain,
        }
    }
}

/// The canonical resource string: the logstore path, routed round-robin or
/// pinned to one shard by a key.
pub open spec fn resource_chars(logstore: Seq<char>, shard_key: Option<Seq<char>>) -> Seq<char> {
    match shard_key {
        None => "/logstores/"@ + logstore + "/shards/lb"@,
        Some(k) => "/logstores/"@ + logstore + "/shards/route?key="@ + k,
    }
}

/// The upload URL: project label, endpoint host, canonical resource.
pub open spec fn url_chars(project: Seq<char>, endpoint: Seq<char>, resource: Seq<char>) -> Seq<
    char,
> {
    "https://"@ + project + "."@ + endpoint + resource
}

impl SlsClientBuilder {
    /// Set the access key.
    pub fn access_key(self, access_key: &str) -> (r: SlsClientBuilder)
        ensures
            r == (SlsClientBuilder { access_key: r.access_key, ..self }),
            r.access_key.deep_view() == Some(access_key@),
    {
        SlsClientBuilder { access_key: Some(access_key.to_owned()), ..self }
    }

    /// Set the secret key. Every key length is accepted by the HMAC this
    /// client signs with.
    pub fn access_secret(self, access_secret: &[u8]) -> (r: Result<
        SlsClientBuilder,
        SlsClientBuilderError,
    >)
        ensures
            (r matches Ok(b) && b == (SlsClientBuilder { secret: b.secret, ..self })
                && b.secret.deep_view() == Some(access_secret@)),
    {
        let mut v: Vec<u8> = Vec::new();
        v.extend_from_slice(access_secret);
        Ok(SlsClientBuilder { secret: Some(v), ..self })
    }

    /// Set the endpoint host.
    pub fn endpoint(self, endpoint: &str) -> (r: SlsClientBuilder)
        ensures
            r == (SlsClientBuilder { endpoint: r.endpoint, ..self }),
            r.endpoint.deep_view() == Some(endpoint@),
    {
        SlsClientBuilder { endpoint: Some(endpoint.to_owned()), ..self }
    }

    /// Set the project name.
    pub fn project(self, project: &str) -> (r: SlsClientBuilder)
        ensures
            r == (SlsClientBuilder { project: r.project, ..self }),
            r.project.deep_view() == Some(project@),
    {
        SlsClientBuilder { project: Some(project.to_owned()), ..self }
    }

    /// Set the logstore name.
    pub fn logstore(self, logstore: &str) -> (r: SlsClientBuilder)
        ensures
            r == (SlsClientBuilder { logstore: r.logstore, ..self }),
            r.logstore.deep_view() == Some(logstore@),
    {
        SlsClientBuilder { logstore: Some(logstore.to_owned()), ..self }
    }

    /// Set the shard-routing key.
    pub fn shard_key(self, shard_key: &str) -> (r: SlsClientBuilder)
        ensures
            r == (SlsClientBuilder { shard_key: r.shard_key, ..self }),
            r.shard_key.deep_view() == Some(shard_key@),
    {
        SlsClientBuilder { shard_key: Some(shard_key.to_owned()), ..self }
    }

    /// Choose whether delivery errors go to the tracing diagnostics.
    pub fn enable_trace(self, enable_trace: bool) -> (r: SlsClientBuilder)
        ensures
            r == (SlsClientBuilder { enable_trace, ..self }),
    {
        SlsClientBuilder { enable_trace, ..self }
    }

    /// Choose whether delivery errors are printed when tracing is off.
    pub fn print_internal_error(self, print_internal_error: bool) -> (r: SlsClientBuilder)
        ensures
            r == (SlsClientBuilder { print_internal_error, ..self }),
    {
        SlsClientBuilder { print_internal_error, ..self }
    }

    /// Use deflate compression at the given level, clamped to 1 through 10.
    pub fn compression_level(self, level: u8) -> (r: SlsClientBuilder)
        ensures
            r == (SlsClientBuilder {
                compression: Compression::Deflate(if level < 1 { 1u8 } else if level > 10 { 10u8 } else { level }),
                ..self
            }),
    {
        let clamped: u8 = if level < 1 {
            1
        } else if level > 10 {
            10
        } else {
            level
        };
        SlsClientBuilder { compression: Compression::Deflate(clamped), ..self }
    }

    /// Choose the compression codec directly.
    pub fn compression(self, compression: Compression) -> (r: SlsClientBuilder)
        ensures
            r == (SlsClientBuilder { compression, ..self }),
    {
        SlsClientBuilder { compression, ..self }
    }

    /// Build the client. Fails with `Missing` naming the first required
    /// field that was never set, in the order: access key, secret, endpoint,
    /// project, logstore.
    pub fn build(self) -> (r: Result<SlsClient, SlsClientBuilderError>)
        ensures
            self.access_key is None ==> (r matches Err(SlsClientBuilderError::Missing(f)) && f@
                == "access_key"@),
            self.access_key is Some && self.secret is None ==> (r matches Err(
                SlsClientBuilderError::Missing(f),
            ) && f@ == "access_secret"@),
            self.access_key is Some && self.secret is Some && self.endpoint is None ==> (r matches
                Err(SlsClientBuilderError::Missing(f)) && f@ == "endpoint"@),
            self.access_key is Some && self.secret is Some && self.endpoint is Some
                && self.project is None ==> (r matches Err(SlsClientBuilderError::Missing(f)) && f@
                == "project"@),
            self.access_key is Some && self.secret is Some && self.endpoint is Some
                && self.project is Some && self.logstore is None ==> (r matches Err(
                SlsClientBuilderError::Missing(f),
            ) && f@ == "logstore"@),
            self.access_key is Some && self.secret is Some && self.endpoint is Some
                && self.project is Some && self.logstore is Some ==> (r matches Ok(c) && {
                &&& c.signer.access_key@ == self.access_key.unwrap()@
                &&& c.signer.secret@ == self.secret.unwrap()@
                &&& c.signer.canonical_resource@ == resource_chars(
                    self.logstore.unwrap()@,
                    self.shard_key.deep_view(),
                )
                &&& c.url@ == url_chars(
                    self.project.unwrap()@,
                    self.endpoint.unwrap()@,
                    c.signer.canonical_resource@,
                )
                &&& c.enable_trace == self.enable_trace
                &&& c.print_internal_error == self.print_internal_error
                &&& c.compression == self.compression
            }),
    {
        let access_key = match self.access_key {
            Some(v) => v,
            None => {
                return Err(SlsClientBuilderError::Missing("access_key"));
            },
        };
        let secret = match self.secret {
            Some(v) => v,
            None => {
                return Err(SlsClientBuilderError::Missing("access_secret"));
            },
        };
        let endpoint = match self.endpoint {
            Some(v) => v,
            None => {
                return Err(SlsClientBuilderError::Missing("endpoint"));
            },
        };
        let project = match self.project {
            Some(v) => v,
            None => {
                return Err(SlsClientBuilderError::Missing("project"));
            },
        };
        let logstore = match self.logstore {
            Some(v) => v,
            None => {
                return Err(SlsClientBuilderError::Missing("logstore"));
            },
        };

        let mut canonical_resource = String::new();
        match &self.shard_key {
            None => {
                canonical_resource.append("/logstores/");
                canonical_resource.append(logstore.as_str());
                canonical_resource.append("/shards/lb");
            },
            Some(key) => {
                canonical_resource.append("/logstores/");
                canonical_resource.append(logstore.as_str());
                canonical_resource.append("/shards/route?key=");
                canonical_resource.append(key.as_str());
            },
        }
        proof {
            assert(canonical_resource@ =~= resource_chars(logstore@, self.shard_key.deep_view()));
        }

        let mut url = String::new();
        url.append("https://");
        url.append(project.as_str());
        url.append(".");
        url.append(endpoint.as_str());
        url.append(canonical_resource.as_str());
        proof {
            assert(url@ =~= url_chars(project@, endpoint@, canonical_resource@));
        }

        Ok(SlsClient {
            url,
            signer: Signer { access_key, secret, canonical_resource },
            enable_trace: self.enable_trace,
            print_internal_error: self.print_internal_error,
            compression: self.compression,
        })
    }
}

/// A client for one ingestion endpoint: the upload URL, the signing inputs,
/// the compression choice, and the diagnostics flags.
#[derive(Debug, Clone)]
pub struct SlsClient {
    /// The upload URL every request posts to.
    pub url: String,
    /// Key pair and canonical resource used to sign each request.
    pub signer: Signer,
    /// Whether delivery errors are handed to the tracing diagnostics.
    pub enable_trace: bool,
    /// Whether delivery errors are printed when tracing is off.
    pub print_internal_error: bool,
    /// The compression codec for payloads.
    pub compression: Compression,
}

/// One fully prepared upload: the URL, every header value this protocol
/// derives, and the body. The transport only has to send it.
#[derive(Debug)]
pub struct SlsRequest {
    /// The URL to post to.
    pub url: String,
    /// Authorization header value.
    pub authorization: String,
    /// Content digest header value: uppercase hex MD5 of `body`.
    pub content_md5: String,
    /// Date header value covered by the signature.
    pub date: String,
    /// Pre-compression body size header value, in decimal.
    pub raw_size: String,
    /// Content-length header value, in decimal: the length of `body`.
    pub content_length: String,
    /// Compression-type header value, present only when compression is
    /// active.
    pub compress_type: Option<&'static str>,
    /// The bytes to transmit.
    pub body: Vec<u8>,
}

impl SlsClient {
    /// Start configuring a client.
    pub fn builder() -> (r: SlsClientBuilder)
        ensures
            r.access_key is None,
            r.secret is None,
            r.endpoint is None,
            r.project is None,
            r.logstore is None,
            r.shard_key is None,
            r.enable_trace == true,
            r.print_internal_error == false,
            r.compression == Compression::Plain,
    {
        SlsClientBuilder {
            access_key: None,
            secret: None,
            endpoint: None,
            project: None,
            logstore: None,
            shard_key: None,
            enable_trace: true,
            print_internal_error: false,
            compression: Compression::Plain,
        }
    }

    /// Create a client directly from its parts. Construction succeeds for
    /// every input: the HMAC accepts keys of any length.
    pub fn new(
        access_key: &str,
        access_secret: &[u8],
        endpoint: &str,
        project: &str,
        logstore: &str,
        shard_key: Option<&str>,
        compression: Compression,
    ) -> (r: Result<SlsClient, SlsClientBuilderError>)
        ensures
            (r matches Ok(c) && {
                &&& c.signer.access_key@ == access_key@
                &&& c.signer.secret@ == access_secret@
                &&& c.signer.canonical_resource@ == resource_chars(
                    logstore@,
                    shard_key.deep_view(),
                )
                &&& c.url@ == url_chars(project@, endpoint@, c.signer.canonical_resource@)
                &&& c.compression == compression
            }),
    {
        let b = SlsClient::builder().access_key(access_key);
        let b = match b.access_secret(access_secret) {
            Ok(b) => b,
            Err(_) => vstd::pervasive::unreached(),
        };
        let b = b.endpoint(endpoint).project(project).logstore(logstore).compression(compression);
        let b = match shard_key {
            Some(k) => b.shard_key(k),
            None => b,
        };
        match b.build() {
            Ok(c) => Ok(c),
            Err(_) => vstd::pervasive::unreached(),
        }
    }

    /// Prepare the upload of one log group: encode it into a buffer sized by
    /// the exact pre-computed length, compress the buffer if configured,
    /// sign the result, and lay out every header value. `date` is the
    /// already-formatted date header value the signature covers.
    pub fn build_request(&self, metadata: &LogGroupMetadata, logs: &[Log], date: &str) -> (r:
        SlsRequest)
        requires
            log_group_wire(metadata@, logs@).len() <= usize::MAX,
        ensures
            r.url@ == self.url@,
            r.body@ == compressed_payload(self.compression, log_group_wire(metadata@, logs@)),
            r.date@ == date@,
            r.raw_size@ == dec_chars(log_group_wire(metadata@, logs@).len()),
            r.content_length@ == dec_chars(r.body@.len()),
            r.content_md5@ == content_md5_chars(r.body@),
            r.compress_type.deep_view() == compress_type_chars(self.compression),
            r.authorization@ == authorization_spec(
                self.signer.access_key@,
                self.signer.secret@,
                self.signer.canonical_resource@,
                log_group_wire(metadata@, logs@).len(),
                r.body@,
                date@,
                compress_type_chars(self.compression),
            ),
    {
        let raw_len = calc_log_group_encoded_len(metadata, logs);
        let mut buf: Vec<u8> = Vec::with_capacity(raw_len);
        encode_log_group(metadata, logs, &mut buf);
        let body = compress_payload(self.compression, buf);
        let compress_type = compress_type_header(&self.compression);
        let signature = self.signer.sign(raw_len, body.as_slice(), date, compress_type);
        let content_length = usize_to_decimal(body.len());
        SlsRequest {
            url: self.url.clone(),
            authorization: signature.authorization,
            content_md5: signature.content_md5,
            date: signature.date,
            raw_size: signature.raw_length,
            content_length,
            compress_type,
            body,
        }
    }
}

/// A delivery failure: a non-success response, or a fault the transport
/// reported.
#[derive(Debug, PartialEq, Eq)]
pub enum SlsClientError {
    /// Non-success HTTP response, carrying status and response body.
    Http {
        /// HTTP status code.
        status: u16,
        /// Response body text.
        message: String,
    },
    /// Transport-level failure, in the transport's words.
    Transport {
        /// What the transport reported.
        message: String,
    },
}

/// Whether an HTTP status code reports success.
pub open spec fn is_success_status(status: u16) -> bool {
    200 <= status < 300
}

/// Inspect one response: a success status passes, any other status becomes
/// an error carrying the status and the response body.
pub fn check_response(status: u16, body: String) -> (r: Result<(), SlsClientError>)
    ensures
        is_success_status(status) ==> r is Ok,
        !is_success_status(status) ==> (r matches Err(SlsClientError::Http { status: s, message })
            && s == status && message@ == body@),
{
    if 200 <= status && status < 300 {
        Ok(())
    } else {
        Err(SlsClientError::Http { status, message: body })
    }
}

} // verus!
