//! The request methods that the server recognizes.

use vstd::prelude::*;
use vstd::string::*;
use vstd::utf8::*;
use crate::scan::same_bytes;
use crate::syntax;

verus! {

/// A request method. The set is closed: a request with any other method
/// token is refused when it is parsed.
#[derive(Clone, Copy, Debug, PartialEq, Eq, Structural)]
pub enum HttpMethod {
    GET,
    POST,
}

/// The method that a token of bytes names, if it names one. The match is
/// exact and case-sensitive.
pub open spec fn method_of_token(token: Seq<u8>) -> Option<HttpMethod> {
    if token == syntax::GET@ {
        Some(HttpMethod::GET)
    } else if token == syntax::POST@ {
        Some(HttpMethod::POST)
    } else {
        None
    }
}

/// The token that stands for a method on the wire.
pub open spec fn token_of(method: HttpMethod) -> Seq<u8> {
    match method {
        HttpMethod::GET => syntax::GET@,
        HttpMethod::POST => syntax::POST@,
    }
}

/// The method that a token of text names, if it names one.
pub open spec fn method_named(token: Seq<char>) -> Option<HttpMethod> {
    if token == seq!['G', 'E', 'T'] {
        Some(HttpMethod::GET)
    } else if token == seq!['P', 'O', 'S', 'T'] {
        Some(HttpMethod::POST)
    } else {
        None
    }
}

/// A text names the method that its UTF-8 encoding names.
pub proof fn lemma_method_of_encoded_text(token: Seq<char>)
    ensures
        method_of_token(encode_utf8(token)) == method_named(token),
{
    let get = seq!['G', 'E', 'T'];
    let post = seq!['P', 'O', 'S', 'T'];
    is_ascii_chars_encode_utf8(get);
    is_ascii_chars_encode_utf8(post);
    assert(encode_utf8(get) =~= syntax::GET@);
    assert(encode_utf8(post) =~= syntax::POST@);
    encode_utf8_decode_utf8(token);
    encode_utf8_decode_utf8(get);
    encode_utf8_decode_utf8(post);
}

/// Reads a method token as it stands on the wire.
pub fn method_from_token(token: &[u8]) -> (method: Option<HttpMethod>)
    ensures
        method == method_of_token(token@),
{
    if same_bytes(token, &syntax::GET) {
        Some(HttpMethod::GET)
    } else if same_bytes(token, &syntax::POST) {
        Some(HttpMethod::POST)
    } else {
        None
    }
}

/// Reads a method token given as text: `GET` and `POST` are recognized,
/// in exactly this spelling, and nothing else is.
pub fn parse_method(content: &str) -> (method: Option<HttpMethod>)
    ensures
        method == method_named(content@),
{
    proof {
        lemma_method_of_encoded_text(content@);
    }
    method_from_token(content.as_bytes())
}

} // verus!
