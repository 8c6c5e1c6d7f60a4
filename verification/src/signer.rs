//! Request signing: the canonical string the service authenticates, its
//! HMAC-SHA1 signature, and the headers derived from one payload. The
//! canonical string is built here, character for character, and the digest,
//! MAC, and encodings are taken from outside crates through trusted wrappers.

use vstd::prelude::*;
use vstd::string::StringExecFns;
use hmac::Mac;
use crate::proto::str_bytes;

verus! {

/// The MD5 digest of a byte sequence, as `md5::compute` returns it.
pub uninterp spec fn md5_of(b: Seq<u8>) -> Seq<u8>;

/// Relies on `md5::compute`: the 16-byte MD5 digest of the input, a function
/// of the input bytes alone.
#[verifier::external_body]
fn md5_digest(b: &[u8]) -> (r: Vec<u8>)
    ensures
        r@ == md5_of(b@),
        r@.len() == 16,
{
    md5::compute(b).0.to_vec()
}

/// The HMAC-SHA1 of a message under a key, as `hmac::Hmac<sha1::Sha1>`
/// computes it.
pub uninterp spec fn hmac_sha1_of(key: Seq<u8>, msg: Seq<u8>) -> Seq<u8>;

/// Relies on `hmac::Hmac<sha1::Sha1>`: the 20-byte HMAC-SHA1 of the message,
/// a function of key and message alone. `new_from_slice` accepts keys of any
/// length for an HMAC, so it cannot fail here.
#[verifier::external_body]
fn hmac_sha1(key: &[u8], msg: &[u8]) -> (r: Vec<u8>)
    ensures
        r@ == hmac_sha1_of(key@, msg@),
        r@.len() == 20,
{
    let mut mac = hmac::Hmac::<sha1::Sha1>::new_from_slice(key).expect("HMAC accepts any key length");
    mac.update(msg);
    mac.finalize().into_bytes().to_vec()
}

/// The standard, padded base64 encoding of a byte sequence, as base64's
/// `BASE64_STANDARD` engine returns it.
pub uninterp spec fn base64_chars(b: Seq<u8>) -> Seq<char>;

/// Relies on base64's `BASE64_STANDARD` engine: the padded standard base64
/// encoding, a function of the input bytes alone, four characters for every
/// three input bytes rounded up.
#[verifier::external_body]
fn base64_standard(b: &[u8]) -> (r: String)
    requires
        b@.len() <= usize::MAX / 4,
    ensures
        r@ == base64_chars(b@),
        r@.len() == 4 * ((b@.len() + 2) / 3),
{
    base64::Engine::encode(&base64::prelude::BASE64_STANDARD, b)
}

/// The uppercase hexadecimal digit for a value below 16.
pub open spec fn hex_digit_upper(d: u8) -> char {
    if d == 0 {
        '0'
    } else if d == 1 {
        '1'
    } else if d == 2 {
        '2'
    } else if d == 3 {
        '3'
    } else if d == 4 {
        '4'
    } else if d == 5 {
        '5'
    } else if d == 6 {
        '6'
    } else if d == 7 {
        '7'
    } else if d == 8 {
        '8'
    } else if d == 9 {
        '9'
    } else if d == 10 {
        'A'
    } else if d == 11 {
        'B'
    } else if d == 12 {
        'C'
    } else if d == 13 {
        'D'
    } else if d == 14 {
        'E'
    } else {
        'F'
    }
}

/// Uppercase hexadecimal rendering of a byte sequence: two digits per byte,
/// most significant nibble first.
pub open spec fn hex_upper_chars(b: Seq<u8>) -> Seq<char>
    decreases b.len(),
{
    if b.len() == 0 {
        Seq::empty()
    } else {
        seq![hex_digit_upper(b[0] / 16), hex_digit_upper(b[0] % 16)] + hex_upper_chars(
            b.drop_first(),
        )
    }
}

/// Relies on `hex::encode_upper`: each input byte becomes exactly two
/// uppercase hexadecimal digits, most significant nibble first.
#[verifier::external_body]
fn hex_upper(b: &[u8]) -> (r: String)
    ensures
        r@ == hex_upper_chars(b@),
{
    hex::encode_upper(b)
}

/// The decimal digit character for a value below 10.
pub open spec fn dec_digit(d: nat) -> char {
    if d == 0 {
        '0'
    } else if d == 1 {
        '1'
    } else if d == 2 {
        '2'
    } else if d == 3 {
        '3'
    } else if d == 4 {
        '4'
    } else if d == 5 {
        '5'
    } else if d == 6 {
        '6'
    } else if d == 7 {
        '7'
    } else if d == 8 {
        '8'
    } else {
        '9'
    }
}

/// Decimal rendering of a number: most significant digit first, no leading
/// zeros except for zero itself.
pub open spec fn dec_chars(n: nat) -> Seq<char>
    decreases n,
{
    if n < 10 {
        seq![dec_digit(n)]
    } else {
        dec_chars(n / 10) + seq![dec_digit(n % 10)]
    }
}

fn push_decimal(s: &mut String, n: usize)
    ensures
        final(s)@ == old(s)@ + dec_chars(n as nat),
    decreases n,
{
    if n >= 10 {
        push_decimal(s, n / 10);
    }
    let ghost mid = s@;
    let d = n % 10;
    match d {
        0 => s.append("0"),
        1 => s.append("1"),
        2 => s.append("2"),
        3 => s.append("3"),
        4 => s.append("4"),
        5 => s.append("5"),
        6 => s.append("6"),
        7 => s.append("7"),
        8 => s.append("8"),
        _ => s.append("9"),
    }
    proof {
        reveal_strlit("0");
        reveal_strlit("1");
        reveal_strlit("2");
        reveal_strlit("3");
        reveal_strlit("4");
        reveal_strlit("5");
        reveal_strlit("6");
        reveal_strlit("7");
        reveal_strlit("8");
        reveal_strlit("9");
        assert(s@ =~= mid + seq![dec_digit((n % 10) as nat)]);
        assert(s@ =~= old(s)@ + dec_chars(n as nat));
    }
}

/// Render a size in decimal.
pub fn usize_to_decimal(n: usize) -> (r: String)
    ensures
        r@ == dec_chars(n as nat),
{
    let mut s = String::new();
    push_decimal(&mut s, n);
    proof {
        assert(s@ =~= dec_chars(n as nat));
    }
    s
}

/// The compression part of the canonical header block: absent entirely when
/// no compression is configured.
pub open spec fn compress_header_chars(compression: Option<Seq<char>>) -> Seq<char> {
    match compression {
        None => "\n"@,
        Some(ct) => "\nx-log-compresstype:"@ + ct + "\n"@,
    }
}

/// The canonical string the service signs: verb, content digest, content
/// type, and date, each newline-terminated; then the custom headers in
/// ascending alphabetical order of name; then the canonical resource,
/// with no trailing newline.
pub open spec fn canonical_chars(
    content_md5: Seq<char>,
    date: Seq<char>,
    raw_size: Seq<char>,
    compression: Option<Seq<char>>,
    resource: Seq<char>,
) -> Seq<char> {
    "POST\n"@ + content_md5 + "\n"@ + "application/x-protobuf"@ + "\n"@ + date + "\n"@
        + "x-log-apiversion"@ + ":"@ + "0.6.0"@ + "\n"@ + "x-log-bodyrawsize"@ + ":"@ + raw_size
        + compress_header_chars(compression) + "x-log-signaturemethod"@ + ":"@ + "hmac-sha1"@
        + "\n"@ + resource
}

/// The authorization header value: the fixed scheme, the access key, and the
/// base64 HMAC-SHA1 of the canonical string under the secret key.
pub open spec fn auth_chars(access_key: Seq<char>, secret: Seq<u8>, canonical: Seq<char>) -> Seq<
    char,
> {
    "LOG "@ + access_key + ":"@ + base64_chars(hmac_sha1_of(secret, str_bytes(canonical)))
}

/// The content digest header value for a payload.
pub open spec fn content_md5_chars(payload: Seq<u8>) -> Seq<char> {
    hex_upper_chars(md5_of(payload))
}

/// The authorization header value for one signed request, from all of its
/// inputs.
pub open spec fn authorization_spec(
    access_key: Seq<char>,
    secret: Seq<u8>,
    resource: Seq<char>,
    raw_len: nat,
    payload: Seq<u8>,
    date: Seq<char>,
    compression: Option<Seq<char>>,
) -> Seq<char> {
    auth_chars(
        access_key,
        secret,
        canonical_chars(content_md5_chars(payload), date, dec_chars(raw_len), compression, resource),
    )
}

/// The per-request values that authenticate one upload.
#[derive(Debug)]
pub struct Signature {
    /// The date header value the signature covers.
    pub date: String,
    /// The pre-compression payload length, in decimal.
    pub raw_length: String,
    /// Uppercase hex MD5 of the transmitted payload.
    pub content_md5: String,
    /// The authorization header value.
    pub authorization: String,
}

/// The fixed signing inputs of one client: key pair and canonical resource.
#[derive(Debug, Clone)]
pub struct Signer {
    /// Access key named in the authorization header.
    pub access_key: String,
    /// Secret key for the HMAC.
    pub secret: Vec<u8>,
    /// The canonical resource, signed and used as the request path.
    pub canonical_resource: String,
}

impl Signer {
    /// Sign one payload. `raw_len` is the pre-compression length of the
    /// encoded group; `payload` is the final bytes to transmit; `date` is
    /// the already-formatted date header value the signature covers.
    ///
    /// The result is a function of the inputs alone: signing is
    /// deterministic and reproducible byte for byte.
    pub fn sign(&self, raw_len: usize, payload: &[u8], date: &str, compress_type: Option<&str>) -> (r:
        Signature)
        ensures
            r.date@ == date@,
            r.raw_length@ == dec_chars(raw_len as nat),
            r.content_md5@ == content_md5_chars(payload@),
            r.authorization@ == authorization_spec(
                self.access_key@,
                self.secret@,
                self.canonical_resource@,
                raw_len as nat,
                payload@,
                date@,
                compress_type.deep_view(),
            ),
    {
        let digest = md5_digest(payload);
        let content_md5 = hex_upper(digest.as_slice());
        let raw_length = usize_to_decimal(raw_len);

        let mut canonical = String::new();
        canonical.append("POST\n");
        canonical.append(content_md5.as_str());
        canonical.append("\n");
        canonical.append("application/x-protobuf");
        canonical.append("\n");
        canonical.append(date);
        canonical.append("\n");
        canonical.append("x-log-apiversion");
        canonical.append(":");
        canonical.append("0.6.0");
        canonical.append("\n");
        canonical.append("x-log-bodyrawsize");
        canonical.append(":");
        canonical.append(raw_length.as_str());
        match compress_type {
            None => canonical.append("\n"),
            Some(ct) => {
                canonical.append("\nx-log-compresstype:");
                canonical.append(ct);
                canonical.append("\n");
            },
        }
        canonical.append("x-log-signaturemethod");
        canonical.append(":");
        canonical.append("hmac-sha1");
        canonical.append("\n");
        canonical.append(self.canonical_resource.as_str());
        proof {
            assert(canonical@ =~= canonical_chars(
                content_md5_chars(payload@),
                date@,
                dec_chars(raw_len as nat),
                compress_type.deep_view(),
                self.canonical_resource@,
            ));
        }

        let mac = hmac_sha1(self.secret.as_slice(), canonical.as_str().as_bytes());
        let b64 = base64_standard(mac.as_slice());
        let mut authorization = String::new();
        authorization.append("LOG ");
        authorization.append(self.access_key.as_str());
        authorization.append(":");
        authorization.append(b64.as_str());
        proof {
            assert(authorization@ =~= authorization_spec(
                self.access_key@,
                self.secret@,
                self.canonical_resource@,
                raw_len as nat,
                payload@,
                date@,
                compress_type.deep_view(),
            ));
        }

        Signature { date: date.to_owned(), raw_length, content_md5, authorization }
    }
}

/// Signing is deterministic: two signatures whose fields satisfy the `sign`
/// contract for the same secret, canonical resource, payload, raw length,
/// date, and compression choice are equal byte for byte.
pub proof fn lemma_sign_deterministic(
    r1: Signature,
    r2: Signature,
    access_key: Seq<char>,
    secret: Seq<u8>,
    resource: Seq<char>,
    raw_len: nat,
    payload: Seq<u8>,
    date: Seq<char>,
    compression: Option<Seq<char>>,
)
    requires
        r1.date@ == date,
        r2.date@ == date,
        r1.raw_length@ == dec_chars(raw_len),
        r2.raw_length@ == dec_chars(raw_len),
        r1.content_md5@ == content_md5_chars(payload),
        r2.content_md5@ == content_md5_chars(payload),
        r1.authorization@ == authorization_spec(
            access_key,
            secret,
            resource,
            raw_len,
            payload,
            date,
            compression,
        ),
        r2.authorization@ == authorization_spec(
            access_key,
            secret,
            resource,
            raw_len,
            payload,
            date,
            compression,
        ),
    ensures
        r1.date@ == r2.date@,
        r1.raw_length@ == r2.raw_length@,
        r1.content_md5@ == r2.content_md5@,
        r1.authorization@ == r2.authorization@,
{
}

} // verus!
