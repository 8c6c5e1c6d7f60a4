//! The one-stop builder for the whole pipeline: gathers endpoint, key pair,
//! level threshold, drain period, and compression, and produces the client
//! the reporter delivers through. Spawning the batching task around it is
//! process wiring and happens outside the verified core.

use vstd::prelude::*;
use vstd::string::StrSliceExecFns;
use crate::client::{Compression, SlsClient, SlsClientBuilder};
use crate::proto::str_bytes;

verus! {

/// Severity threshold for collection, most verbose first.
#[derive(Debug, Clone, Copy, PartialEq, Eq, Structural)]
pub enum Level {
    /// Collect everything.
    Trace,
    /// Collect debug and above.
    Debug,
    /// Collect info and above.
    Info,
    /// Collect warnings and errors.
    Warn,
    /// Collect errors only.
    Error,
}

/// The lowercase hex rendering of the 32-byte BLAKE3 hash of a byte
/// sequence, as `blake3::hash(..).to_hex()` returns it.
pub uninterp spec fn blake3_hex_chars(b: Seq<u8>) -> Seq<char>;

/// Relies on `blake3::hash` and `Hash::to_hex`: the 64 lowercase
/// hexadecimal digits of the 32-byte BLAKE3 hash, a function of the input
/// bytes alone.
#[verifier::external_body]
fn blake3_hex(b: &[u8]) -> (r: String)
    ensures
        r@ == blake3_hex_chars(b@),
        r@.len() == 64,
        r.is_ascii(),
{
    blake3::hash(b).to_hex().as_str().to_owned()
}

/// Configuration of the whole pipeline: where to deliver, how to sign, what
/// to collect, and how often to drain.
pub struct SlsTracingBuilder {
    /// Access key named in the authorization header.
    pub access_key: String,
    /// Secret key for the HMAC.
    pub access_secret: String,
    /// Service endpoint host.
    pub endpoint: String,
    /// Project name, the URL's first host label.
    pub project: String,
    /// Logstore name inside the canonical resource.
    pub logstore: String,
    /// Optional shard-routing key: pins delivery to one shard.
    pub shard_key: Option<String>,
    /// Severity threshold for collection.
    pub max_level: Level,
    /// How long the dispatcher waits for more records before draining, in
    /// milliseconds.
    pub drain_timeout_millis: u64,
    /// The compression codec for payloads.
    pub compression: Compression,
}

impl SlsTracingBuilder {
    /// Create a builder with the required fields and the defaults: collect
    /// everything, drain every five seconds, no shard key, no compression.
    pub fn new(
        access_key: &str,
        access_secret: &str,
        endpoint: &str,
        project: &str,
        logstore: &str,
    ) -> (r: SlsTracingBuilder)
        ensures
            r.access_key@ == access_key@,
            r.access_secret@ == access_secret@,
            r.endpoint@ == endpoint@,
            r.project@ == project@,
            r.logstore@ == logstore@,
            r.shard_key is None,
            r.max_level == Level::Trace,
            r.drain_timeout_millis == 5000,
            r.compression == Compression::Plain,
    {
        SlsTracingBuilder {
            access_key: access_key.to_owned(),
            access_secret: access_secret.to_owned(),
            endpoint: endpoint.to_owned(),
            project: project.to_owned(),
            logstore: logstore.to_owned(),
            shard_key: None,
            max_level: Level::Trace,
            drain_timeout_millis: 5000,
            compression: Compression::Plain,
        }
    }

    /// Replace the access key.
    pub fn access_key(self, access_key: &str) -> (r: SlsTracingBuilder)
        ensures
            r == (SlsTracingBuilder { access_key: r.access_key, ..self }),
            r.access_key@ == access_key@,
    {
        SlsTracingBuilder { access_key: access_key.to_owned(), ..self }
    }

    /// Replace the secret key.
    pub fn access_secret(self, access_secret: &str) -> (r: SlsTracingBuilder)
        ensures
            r == (SlsTracingBuilder { access_secret: r.access_secret, ..self }),
            r.access_secret@ == access_secret@,
    {
        SlsTracingBuilder { access_secret: access_secret.to_owned(), ..self }
    }

    /// Replace the endpoint host.
    pub fn endpoint(self, endpoint: &str) -> (r: SlsTracingBuilder)
        ensures
            r == (SlsTracingBuilder { endpoint: r.endpoint, ..self }),
            r.endpoint@ == endpoint@,
    {
        SlsTracingBuilder { endpoint: endpoint.to_owned(), ..self }
    }

    /// Replace the project name.
    pub fn project(self, project: &str) -> (r: SlsTracingBuilder)
        ensures
            r == (SlsTracingBuilder { project: r.project, ..self }),
            r.project@ == project@,
    {
        SlsTracingBuilder { project: project.to_owned(), ..self }
    }

    /// Replace the logstore name.
    pub fn logstore(self, logstore: &str) -> (r: SlsTracingBuilder)
        ensures
            r == (SlsTracingBuilder { logstore: r.logstore, ..self }),
            r.logstore@ == logstore@,
    {
        SlsTracingBuilder { logstore: logstore.to_owned(), ..self }
    }

    /// Pin delivery to one shard: the key must already be a 128-bit hex
    /// string.
    pub fn shard_key(self, key: &str) -> (r: SlsTracingBuilder)
        ensures
            r == (SlsTracingBuilder { shard_key: r.shard_key, ..self }),
            r.shard_key.deep_view() == Some(key@),
    {
        SlsTracingBuilder { shard_key: Some(key.to_owned()), ..self }
    }

    /// Derive a shard key from any string: the first 32 hex digits of its
    /// BLAKE3 hash.
    pub fn derive_shard_key(self, key: &str) -> (r: SlsTracingBuilder)
        ensures
            r == (SlsTracingBuilder { shard_key: r.shard_key, ..self }),
            r.shard_key.deep_view() == Some(blake3_hex_chars(str_bytes(key@)).take(32)),
    {
        let h = blake3_hex(key.as_bytes());
        let prefix = h.as_str().substring_ascii(0, 32).to_owned();
        SlsTracingBuilder { shard_key: Some(prefix), ..self }
    }

    /// Set the severity threshold for collection.
    pub fn max_level(self, level: Level) -> (r: SlsTracingBuilder)
        ensures
            r == (SlsTracingBuilder { max_level: level, ..self }),
    {
        SlsTracingBuilder { max_level: level, ..self }
    }

    /// Set how long the dispatcher waits for more records before draining,
    /// in milliseconds.
    pub fn drain_timeout(self, millis: u64) -> (r: SlsTracingBuilder)
        ensures
            r == (SlsTracingBuilder { drain_timeout_millis: millis, ..self }),
    {
        SlsTracingBuilder { drain_timeout_millis: millis, ..self }
    }

    /// Use deflate compression at the given level.
    pub fn compression_level(self, level: u8) -> (r: SlsTracingBuilder)
        ensures
            r == (SlsTracingBuilder { compression: Compression::Deflate(level), ..self }),
    {
        SlsTracingBuilder { compression: Compression::Deflate(level), ..self }
    }

    /// Build the client this configuration describes.
    pub fn client(&self) -> (r: SlsClient)
        ensures
            r.signer.access_key@ == self.access_key@,
            r.signer.secret@ == str_bytes(self.access_secret@),
            r.signer.canonical_resource@ == crate::client::resource_chars(
                self.logstore@,
                self.shard_key.deep_view(),
            ),
            r.url@ == crate::client::url_chars(
                self.project@,
                self.endpoint@,
                r.signer.canonical_resource@,
            ),
            r.compression == self.compression,
    {
        let builder = SlsClientBuilder {
            access_key: Some(self.access_key.clone()),
            secret: Some(secret_bytes(&self.access_secret)),
            endpoint: Some(self.endpoint.clone()),
            project: Some(self.project.clone()),
            logstore: Some(self.logstore.clone()),
            shard_key: clone_opt(&self.shard_key),
            enable_trace: false,
            print_internal_error: true,
            compression: self.compression,
        };
        match builder.build() {
            Ok(c) => c,
            Err(_) => vstd::pervasive::unreached(),
        }
    }
}

/// The UTF-8 bytes of a secret string, owned.
fn secret_bytes(s: &String) -> (r: Vec<u8>)
    ensures
        r@ == str_bytes(s@),
{
    let mut v: Vec<u8> = Vec::new();
    v.extend_from_slice(s.as_str().as_bytes());
    v
}

fn clone_opt(o: &Option<String>) -> (r: Option<String>)
    ensures
        r.deep_view() == o.deep_view(),
{
    match o {
        Some(s) => Some(s.clone()),
        None => None,
    }
}

} // verus!
