//! The compression stage: negotiates the response encoding from the client's
//! accept-encoding declaration, never compresses a body at or below the
//! configured threshold or an already-compressed content type, and runs after
//! the full response body is materialized. The encoder itself is flate2's
//! gzip, behind trusted wrappers.

use vstd::prelude::*;

use crate::http::Header;
use crate::http::Response;
use crate::http::first_value;
use crate::http::has_name;
use crate::http::push_header;
use crate::http::str_eq;
use crate::http::str_has_prefix;
use crate::http::values_of;

verus! {

/// The gzip stream that the encoder produces for the given bytes.
pub uninterp spec fn gzip_of(b: Seq<u8>) -> Seq<u8>;

/// Relies on flate2's write::GzEncoder at the default level: with the default
/// header (zero mtime, a fixed operating-system byte) and the pure-Rust
/// deflate backend, the stream is a function of the input bytes alone.
#[verifier::external_body]
fn gzip_bytes(b: &[u8]) -> (r: Vec<u8>)
    ensures
        r@ == gzip_of(b@),
{
    let mut enc = flate2::write::GzEncoder::new(Vec::new(), flate2::Compression::default());
    std::io::Write::write_all(&mut enc, b).expect("an in-memory sink accepts every write");
    enc.finish().expect("an in-memory sink accepts every write")
}

/// Relies on flate2's read::GzDecoder: decoding a stream that the encoder
/// produced yields exactly the bytes that were encoded; a malformed stream
/// ends in an error.
#[verifier::external_body]
fn gunzip_bytes(b: &[u8]) -> (r: Option<Vec<u8>>)
    ensures
        r matches Some(v) ==> (forall|orig: Seq<u8>| b@ == gzip_of(orig) ==> v@ == orig),
        r is None ==> (forall|orig: Seq<u8>| b@ != gzip_of(orig)),
{
    let mut out = Vec::new();
    let mut dec = flate2::read::GzDecoder::new(b);
    match std::io::Read::read_to_end(&mut dec, &mut out) {
        Ok(_) => Some(out),
        Err(_) => None,
    }
}

/// Decode a gzip stream: for any stream the encoder produced, the original
/// bytes come back.
pub fn gunzip(b: &Vec<u8>) -> (r: Option<Vec<u8>>)
    ensures
        forall|orig: Seq<u8>| b@ == gzip_of(orig) ==> (r matches Some(v) && v@ == orig),
{
    gunzip_bytes(b.as_slice())
}

/// Is there a `gzip` token at position `k` of an accept-encoding value,
/// delimited by the value's ends, commas, spaces or a parameter separator?
pub open spec fn gzip_token_at(s: Seq<char>, k: int) -> bool {
    &&& 0 <= k
    &&& k + 4 <= s.len()
    &&& s[k] == 'g'
    &&& s[k + 1] == 'z'
    &&& s[k + 2] == 'i'
    &&& s[k + 3] == 'p'
    &&& (k == 0 || s[k - 1] == ',' || s[k - 1] == ' ')
    &&& (k + 4 == s.len() || s[k + 4] == ',' || s[k + 4] == ';')
}

/// Does an accept-encoding value declare support for gzip?
pub open spec fn declares_gzip(s: Seq<char>) -> bool {
    exists|k: int| gzip_token_at(s, k)
}

/// Scan one accept-encoding value for a `gzip` token.
pub fn value_declares_gzip(s: &str) -> (r: bool)
    ensures
        r == declares_gzip(s@),
{
    let len: usize = s.unicode_len();
    if len < 4 {
        return false;
    }
    let mut k: usize = 0;
    while k <= len - 4
        invariant
            s@.len() == len,
            4 <= len,
            0 <= k <= len,
            forall|j: int| 0 <= j < k ==> !gzip_token_at(s@, j),
        decreases len - k,
    {
        let before_ok = if k == 0 {
            true
        } else {
            let c = s.get_char(k - 1);
            c == ',' || c == ' '
        };
        let after_ok = if k + 4 == len {
            true
        } else {
            let c = s.get_char(k + 4);
            c == ',' || c == ';'
        };
        if before_ok && after_ok && s.get_char(k) == 'g' && s.get_char(k + 1) == 'z' && s.get_char(
            k + 2,
        ) == 'i' && s.get_char(k + 3) == 'p' {
            assert(gzip_token_at(s@, k as int));
            return true;
        }
        k = k + 1;
    }
    false
}

/// Is the `i`th request header an accept-encoding declaration naming gzip?
pub open spec fn accepts_at(hs: Seq<Header>, i: int) -> bool {
    &&& 0 <= i < hs.len()
    &&& hs[i].name@ == "accept-encoding"@
    &&& declares_gzip(hs[i].value@)
}

/// Does the client declare support for gzip?
pub open spec fn client_accepts_gzip(hs: Seq<Header>) -> bool {
    exists|i: int| accepts_at(hs, i)
}

/// Scan the request headers for an accept-encoding declaration naming gzip.
pub fn accepts_gzip(hs: &Vec<Header>) -> (r: bool)
    ensures
        r == client_accepts_gzip(hs@),
{
    let mut i: usize = 0;
    while i < hs.len()
        invariant
            0 <= i <= hs@.len(),
            forall|j: int| 0 <= j < i ==> !accepts_at(hs@, j),
        decreases hs@.len() - i,
    {
        if str_eq(hs[i].name.as_str(), "accept-encoding") {
            if value_declares_gzip(hs[i].value.as_str()) {
                assert(accepts_at(hs@, i as int));
                return true;
            }
        }
        i = i + 1;
    }
    false
}

/// A content type that is already compressed, so the stage leaves it alone.
pub open spec fn precompressed_type(ct: Seq<char>) -> bool {
    ||| "image/"@.len() <= ct.len() && ct.take("image/"@.len() as int) == "image/"@
    ||| "audio/"@.len() <= ct.len() && ct.take("audio/"@.len() as int) == "audio/"@
    ||| "video/"@.len() <= ct.len() && ct.take("video/"@.len() as int) == "video/"@
    ||| ct == "application/gzip"@
    ||| ct == "application/zip"@
}

fn is_precompressed_type(ct: &str) -> (r: bool)
    ensures
        r == precompressed_type(ct@),
{
    str_has_prefix(ct, "image/") || str_has_prefix(ct, "audio/") || str_has_prefix(ct, "video/")
        || str_eq(ct, "application/gzip") || str_eq(ct, "application/zip")
}

/// A response is compressible unless its declared content type is already a
/// compressed one.
pub open spec fn response_compressible(hs: Seq<Header>) -> bool {
    !has_name(hs, "content-type"@) || !precompressed_type(values_of(hs, "content-type"@)[0])
}

fn is_compressible(hs: &Vec<Header>) -> (r: bool)
    ensures
        r == response_compressible(hs@),
{
    match first_value(hs, "content-type") {
        None => true,
        Some(ct) => !is_precompressed_type(ct.as_str()),
    }
}

/// When the compression stage acts: the body exceeds the threshold, no
/// encoding was applied yet, the content type is compressible, and the client
/// declared support for gzip.
pub open spec fn compression_due(
    threshold: int,
    req_headers: Seq<Header>,
    resp_headers: Seq<Header>,
    body: Seq<u8>,
) -> bool {
    &&& body.len() > threshold
    &&& !has_name(resp_headers, "content-encoding"@)
    &&& response_compressible(resp_headers)
    &&& client_accepts_gzip(req_headers)
}

/// Law: a response body at or below the threshold is never compressed,
/// whatever the client declares and whatever the content type.
pub proof fn lemma_small_body_never_compressed(
    threshold: int,
    req_headers: Seq<Header>,
    resp_headers: Seq<Header>,
    body: Seq<u8>,
)
    requires
        body.len() <= threshold,
    ensures
        !compression_due(threshold, req_headers, resp_headers, body),
{
}

/// Law: a body over the threshold, of a compressible type, not yet encoded,
/// for a client that declares gzip support, is compressed.
pub proof fn lemma_large_body_compressed(
    threshold: int,
    req_headers: Seq<Header>,
    resp_headers: Seq<Header>,
    body: Seq<u8>,
)
    requires
        body.len() > threshold,
        !has_name(resp_headers, "content-encoding"@),
        response_compressible(resp_headers),
        client_accepts_gzip(req_headers),
    ensures
        compression_due(threshold, req_headers, resp_headers, body),
{
}

/// Apply the negotiated encoding: exactly when compression is due, the body
/// becomes its gzip stream and one content-encoding header is appended;
/// otherwise the response passes unchanged.
pub fn compression_stage(threshold: usize, req_headers: &Vec<Header>, resp: &mut Response)
    ensures
        compression_due(threshold as int, req_headers@, old(resp).headers@, old(resp).body@)
            ==> final(resp).body@ == gzip_of(old(resp).body@) && final(resp).headers@.len() == old(resp).headers@.len() + 1 && final(resp).headers@.drop_last()
            == old(resp).headers@ && final(resp).headers@.last().name@ == "content-encoding"@ && (
        final(resp).headers@.last().value@ == "gzip"@),
        !compression_due(threshold as int, req_headers@, old(resp).headers@, old(resp).body@)
            ==> *final(resp) == *old(resp),
        final(resp).status == old(resp).status,
{
    let already_encoded = match first_value(&resp.headers, "content-encoding") {
        Some(_) => true,
        None => false,
    };
    let due = resp.body.len() > threshold && !already_encoded && is_compressible(&resp.headers)
        && accepts_gzip(req_headers);
    if due {
        resp.body = gzip_bytes(resp.body.as_slice());
        push_header(&mut resp.headers, "content-encoding", "gzip");
    }
}

} // verus!
