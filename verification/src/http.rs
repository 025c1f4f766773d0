//! The HTTP side: the `Proxy-Authorization` header that is added to a
//! client's request before it is relayed to the upstream proxy.
use vstd::prelude::*;
use vstd::string::*;
use vstd::utf8::*;
use base64::engine::general_purpose;
use base64::Engine;
use crate::proxy::ProxyInfo;
use crate::text::push_char;
use vstd::slice::{slice_subrange, slice_to_vec};

verus! {

/// The name of what `base64`'s standard engine (standard alphabet, with
/// padding) encodes a byte string to.
pub uninterp spec fn base64_standard(bytes: Seq<u8>) -> Seq<char>;

/// `general_purpose::STANDARD.encode(bytes)`. Its result is named by
/// `base64_standard`; the encoding itself is not written out. The call
/// panics when the encoded length overflows `usize`, which `requires`
/// leaves out.
#[verifier::external_body]
fn base64_encode(bytes: &[u8]) -> (res: String)
    requires
        bytes@.len() * 4 <= usize::MAX,
    ensures
        res@ == base64_standard(bytes@),
{
    general_purpose::STANDARD.encode(bytes)
}

/// `username:password`, the text that basic authentication encodes.
pub open spec fn credentials_text(username: Seq<char>, password: Seq<char>) -> Seq<char> {
    username + seq![':'] + password
}

/// The text that comes before the encoded credentials.
pub open spec fn auth_header_prefix() -> Seq<char> {
    "\r\nProxy-Authorization: Basic "@
}

/// The header, as bytes, for credentials already encoded.
pub open spec fn auth_header_bytes(encoded: Seq<char>) -> Seq<u8> {
    encode_utf8(auth_header_prefix() + encoded)
}

/// The header line, as bytes, that carries credentials already encoded in
/// base64.
pub fn auth_header_from_encoded(encoded: &str) -> (res: Vec<u8>)
    ensures
        res@ == auth_header_bytes(encoded@),
{
    let mut header = String::from_str("\r\nProxy-Authorization: Basic ");
    header.append(encoded);
    header.as_str().as_bytes_vec()
}

/// The `Proxy-Authorization` header line, as bytes, that authenticates to
/// the upstream proxy with its username and password (basic authentication
/// of `username:password` in base64).
pub fn proxy_auth_header(info: &ProxyInfo) -> (res: Vec<u8>)
    requires
        encode_utf8(credentials_text(info.username@, info.password@)).len() * 4 <= usize::MAX,
    ensures
        res@ == auth_header_bytes(
            base64_standard(encode_utf8(credentials_text(info.username@, info.password@))),
        ),
{
    let mut credentials = info.username.clone();
    push_char(&mut credentials, ':');
    credentials.append(info.password.as_str());
    assert(credentials@ =~= credentials_text(info.username@, info.password@));
    let encoded = base64_encode(credentials.as_str().as_bytes());
    auth_header_from_encoded(encoded.as_str())
}

/// Where the first line of a chunk ends: the position of its first
/// `"\r\n"` at or after `i`, or the chunk's length when there is none.
pub open spec fn line_end_from(chunk: Seq<u8>, i: int) -> int
    decreases chunk.len() - i,
{
    if i < 0 || i + 1 >= chunk.len() {
        chunk.len() as int
    } else if chunk[i] == 13 && chunk[i + 1] == 10 {
        i
    } else {
        line_end_from(chunk, i + 1)
    }
}

/// The first chunk of a client's request with the authorization header
/// inserted where its first line ends (before that line's `"\r\n"`).
pub open spec fn with_header(chunk: Seq<u8>, header: Seq<u8>) -> Seq<u8> {
    let cut = line_end_from(chunk, 0);
    chunk.take(cut) + header + chunk.skip(cut)
}

/// The first chunk of a client's HTTP request with the authorization
/// header (which starts with its own `"\r\n"`) inserted at the end of the
/// request line.
pub fn insert_auth_header(chunk: &[u8], header: &[u8]) -> (res: Vec<u8>)
    ensures
        res@ == with_header(chunk@, header@),
{
    let n = chunk.len();
    let mut cut: usize = 0;
    while n - cut >= 2 && !(chunk[cut] == 13 && chunk[cut + 1] == 10)
        invariant
            n == chunk@.len(),
            cut <= n,
            line_end_from(chunk@, cut as int) == line_end_from(chunk@, 0),
        decreases n - cut,
    {
        cut = cut + 1;
    }
    if n - cut < 2 {
        cut = n;
    }
    let mut out = slice_to_vec(slice_subrange(chunk, 0, cut));
    let mut h = slice_to_vec(header);
    out.append(&mut h);
    let mut rest = slice_to_vec(slice_subrange(chunk, cut, n));
    out.append(&mut rest);
    proof {
        assert(chunk@.subrange(0, cut as int) =~= chunk@.take(cut as int));
        assert(chunk@.subrange(cut as int, n as int) =~= chunk@.skip(cut as int));
    }
    out
}

} // verus!
