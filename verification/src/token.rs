//! The account that a request speaks for, told by the hash of its token.
use axum::http::HeaderMap;
use sha2::{Digest, Sha256};
use vstd::prelude::*;

use crate::http::{first_value, text_of_value};
use crate::text::starts_with;

verus! {

/// The SHA-256 hash of bytes.
pub uninterp spec fn sha256(bytes: Seq<u8>) -> Seq<u8>;

/// `Sha256::digest` computes the SHA-256 hash of bytes, which is told by the bytes alone. What
/// the hash of given bytes is, is left unsaid.
#[verifier::external_body]
fn sha256_digest(bytes: &[u8]) -> (r: [u8; 32])
    ensures
        r@ == sha256(bytes@),
{
    Sha256::digest(bytes).into()
}

/// The token that the headers carry, where they carry one: what follows `Bearer ` in the
/// authorization.
pub open spec fn token_of(headers: Map<Seq<char>, Seq<Seq<u8>>>) -> Option<Seq<u8>> {
    match crate::http::header_value(headers, "authorization"@) {
        Some(value) => match crate::http::visible_text(value) {
            Some(text) => if crate::text::has_prefix(text, "Bearer "@) && value.len() > 7 {
                Some(value.skip(7))
            } else {
                None
            },
            None => None,
        },
        None => None,
    }
}

/// The token that the headers carry, where they carry one.
pub fn bearer_token(headers: &HeaderMap) -> (r: Option<Vec<u8>>)
    ensures
        crate::http::optional_value(r) == token_of(crate::http::headers_of(*headers)),
{
    proof {
        reveal_strlit("authorization");
    }
    let value: Vec<u8> = match first_value(headers, "authorization") {
        Some(value) => value,
        None => {
            return None;
        },
    };
    let text: String = match text_of_value(value.as_slice()) {
        Some(text) => text,
        None => {
            return None;
        },
    };
    if !starts_with(text.as_str(), "Bearer ") || value.len() <= 7 {
        return None;
    }
    let token = vstd::slice::slice_subrange(value.as_slice(), 7, value.len());
    proof {
        assert(token@ =~= value@.skip(7));
    }
    Some(vstd::slice::slice_to_vec(token))
}

/// The hash of the token that the headers carry, where they carry one.
pub open spec fn hash_of(headers: Map<Seq<char>, Seq<Seq<u8>>>) -> Option<Seq<u8>> {
    match token_of(headers) {
        Some(token) => Some(sha256(token)),
        None => None,
    }
}

/// The bytes of an optional hash.
pub open spec fn optional_hash(hash: Option<[u8; 32]>) -> Option<Seq<u8>> {
    match hash {
        Some(hash) => Some(hash@),
        None => None,
    }
}

/// The hash of the token that the headers carry, where they carry one.
pub fn token_hash(headers: &HeaderMap) -> (r: Option<[u8; 32]>)
    ensures
        optional_hash(r) == hash_of(crate::http::headers_of(*headers)),
{
    match bearer_token(headers) {
        Some(token) => Some(sha256_digest(token.as_slice())),
        None => None,
    }
}

/// The token is what stands behind `Bearer ` in the first authorization, where that can be read as
/// text and something stands there; a request without one speaks for no account.
pub proof fn law_token_stands_behind_bearer(
    headers: Map<Seq<char>, Seq<Seq<u8>>>,
    token: Seq<char>,
)
    ensures
        crate::http::header_value(headers, "authorization"@) is None ==> token_of(headers) is None
            && hash_of(headers) is None,
        crate::http::header_value(headers, "authorization"@) matches Some(value) ==> {
            &&& crate::http::visible_text(value) is None ==> token_of(headers) is None
            &&& crate::http::visible_text(value) == Some("Bearer "@ + token) && token.len() > 0 ==> (
            token_of(headers) matches Some(bytes) && crate::http::visible_text(bytes) == Some(token)
                && hash_of(headers) == Some(sha256(bytes)))
            &&& crate::http::visible_text(value) == Some("Bearer "@) ==> token_of(headers) is None
                && hash_of(headers) is None
            &&& crate::http::visible_text(value) is Some && (forall|rest: Seq<char>|
                crate::http::visible_text(value)->0 != #[trigger] ("Bearer "@ + rest))
                ==> token_of(headers) is None && hash_of(headers) is None
        },
{
    reveal_strlit("Bearer ");
    assert("Bearer "@.len() == 7);
    if let Some(value) = crate::http::header_value(headers, "authorization"@) {
        if let Some(text) = crate::http::visible_text(value) {
            crate::text_laws::law_prefix_is_what_a_text_begins_with(text, "Bearer "@);
            assert(text.len() == value.len());
            if text == "Bearer "@ + token && token.len() > 0 {
                let bytes = value.skip(7);
                assert(text.take(7) =~= "Bearer "@);
                assert forall|i: int| 0 <= i < bytes.len() implies crate::http::is_visible(
                    #[trigger] bytes[i],
                ) by {
                    assert(crate::http::is_visible(value[i + 7]));
                }
                assert forall|i: int| 0 <= i < bytes.len() implies bytes[i] as char == token[i] by {
                    assert(text[i + 7] == value[i + 7] as char);
                }
                assert(crate::http::ascii_text(bytes) =~= token);
            }
        }
    }
}

} // verus!
