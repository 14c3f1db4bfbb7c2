use vstd::prelude::*;
use vstd::utf8::encode_utf8_decode_utf8;
use crate::digest::{chain, hash_chain, CHAIN_LENGTH};
use crate::hexenc::{hex_encode, hex_lower, is_lower_hex, lemma_hex_lower_shape};
use crate::seed::{seed_input, seed_of};

verus! {

/// Label that names this implementation in every `/hash` reply.
pub const SOURCE: &'static str = "rust";

/// Media type of a `/hash` reply.
pub const JSON_CONTENT_TYPE: &'static str = "application/json";

/// The handler that a request path selects.
#[derive(Clone, Copy, Debug, PartialEq, Eq, Structural)]
pub enum Route {
    Hash,
    Health,
    NotFound,
}

/// Exact match on the path: `/hash`, `/health`, and everything else.
pub open spec fn route_of(path: Seq<char>) -> Route {
    if path == "/hash"@ {
        Route::Hash
    } else if path == "/health"@ {
        Route::Health
    } else {
        Route::NotFound
    }
}

/// A reply with a fixed plain-text body.
#[derive(Clone, Copy, Debug)]
pub struct TextReply {
    pub status: u16,
    pub body: &'static str,
}

/// The body of a `/hash` reply, before it is rendered as JSON.
#[derive(Debug)]
pub struct HashResponse {
    /// Lowercase hexadecimal text of the final digest.
    pub hash: String,
    /// Milliseconds since the Unix epoch when the reply was built.
    pub timestamp: u128,
    /// The implementation label, always `SOURCE`.
    pub source: &'static str,
}

/// What a request is answered with: the digest text of a `/hash` request,
/// which still takes its timestamp, or a plain-text reply.
#[derive(Debug)]
pub enum Reply {
    Digest(String),
    Text(TextReply),
}

impl Reply {
    /// The HTTP status code that `status` returns.
    pub open spec fn spec_status(&self) -> u16 {
        match self {
            Reply::Digest(_) => 200,
            Reply::Text(t) => t.status,
        }
    }

    /// The HTTP status code of the reply.
    pub fn status(&self) -> (r: u16)
        ensures
            r == self.spec_status(),
    {
        match self {
            Reply::Digest(_) => 200,
            Reply::Text(t) => t.status,
        }
    }

    /// The `Content-Type` header of the reply: JSON for a digest, none (plain
    /// text is implied) otherwise.
    pub fn content_type(&self) -> (r: Option<&'static str>)
        ensures
            self is Digest ==> r is Some && r->0@ == JSON_CONTENT_TYPE@,
            self is Text ==> r is None,
    {
        match self {
            Reply::Digest(_) => Some(JSON_CONTENT_TYPE),
            Reply::Text(_) => None,
        }
    }
}

/// Whether two byte slices hold the same bytes.
fn bytes_equal(a: &[u8], b: &[u8]) -> (r: bool)
    ensures
        r == (a@ == b@),
{
    if a.len() != b.len() {
        return false;
    }
    let mut i: usize = 0;
    while i < a.len()
        invariant
            a@.len() == b@.len(),
            0 <= i <= a@.len(),
            forall|j: int| 0 <= j < i ==> a@[j] == b@[j],
        decreases a@.len() - i,
    {
        if a[i] != b[i] {
            return false;
        }
        i = i + 1;
    }
    assert(a@ =~= b@);
    true
}

/// Whether `s` and `t` hold the same text.
fn same_text(s: &str, t: &str) -> (r: bool)
    ensures
        r == (s@ == t@),
{
    let r = bytes_equal(s.as_bytes(), t.as_bytes());
    proof {
        encode_utf8_decode_utf8(s@);
        encode_utf8_decode_utf8(t@);
    }
    r
}

/// Selects the handler for a request path.
pub fn dispatch(path: &str) -> (r: Route)
    ensures
        r == route_of(path@),
{
    if same_text(path, "/hash") {
        Route::Hash
    } else if same_text(path, "/health") {
        Route::Health
    } else {
        Route::NotFound
    }
}

/// The liveness reply: status 200, body `OK`.
pub fn health_handler() -> (r: TextReply)
    ensures
        r.status == 200,
        r.body@ == "OK"@,
{
    TextReply { status: 200, body: "OK" }
}

/// The reply to an unknown path: status 404, body `Not Found`.
pub fn not_found() -> (r: TextReply)
    ensures
        r.status == 404,
        r.body@ == "Not Found"@,
{
    TextReply { status: 404, body: "Not Found" }
}

/// The digest text of a `/hash` request made at `nanos` nanoseconds since the
/// Unix epoch: the hash chain over `input-<nanos>`, in lowercase hexadecimal.
pub open spec fn digest_text(nanos: nat) -> Seq<char> {
    hex_lower(chain(seed_of(nanos), CHAIN_LENGTH as nat))
}

/// Computes the digest text of a `/hash` request made at `nanos`: 64
/// lowercase hexadecimal digits.
pub fn hash_handler(nanos: u128) -> (r: String)
    ensures
        r@ == digest_text(nanos as nat),
        r@.len() == 64,
        is_lower_hex(r@),
{
    let input = seed_input(nanos);
    let data = hash_chain(input.as_slice());
    let r = hex_encode(&data);
    proof {
        lemma_hex_lower_shape(data@);
    }
    r
}

/// Completes a `/hash` reply with the time at which it is built.
pub fn hash_response(hash: String, millis: u128) -> (r: HashResponse)
    ensures
        r.hash@ == hash@,
        r.timestamp == millis,
        r.source@ == SOURCE@,
{
    HashResponse { hash, timestamp: millis, source: SOURCE }
}

/// Answers a request for `path` received at `nanos` nanoseconds since the
/// Unix epoch.
pub fn handle_request(path: &str, nanos: u128) -> (r: Reply)
    ensures
        route_of(path@) == Route::Hash ==> r is Digest && r->Digest_0@ == digest_text(
            nanos as nat,
        ) && r->Digest_0@.len() == 64 && is_lower_hex(r->Digest_0@),
        route_of(path@) == Route::Health ==> r is Text && r->Text_0.status == 200
            && r->Text_0.body@ == "OK"@,
        route_of(path@) == Route::NotFound ==> r is Text && r->Text_0.status == 404
            && r->Text_0.body@ == "Not Found"@,
        r.spec_status() == 200 <==> route_of(path@) != Route::NotFound,
{
    match dispatch(path) {
        Route::Hash => Reply::Digest(hash_handler(nanos)),
        Route::Health => Reply::Text(health_handler()),
        Route::NotFound => Reply::Text(not_found()),
    }
}

} // verus!
