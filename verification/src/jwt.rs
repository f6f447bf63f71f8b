//! JSON Web Tokens: the calls into `jsonwebtoken` that read, and verify, a token.
use vstd::prelude::*;

use crate::json::{parsed_json, JsonView};

verus! {

/// A set of public keys, as published at a JWKS address.
#[verifier::external_type_specification]
#[verifier::external_body]
pub struct ExJwkSet(jsonwebtoken::jwk::JwkSet);

/// One published key.
#[verifier::external_type_specification]
#[verifier::external_body]
pub struct ExJwk(jsonwebtoken::jwk::Jwk);

/// A key that verifies signatures.
#[verifier::external_type_specification]
#[verifier::external_body]
pub struct ExDecodingKey(jsonwebtoken::DecodingKey);

/// A signature algorithm.
#[verifier::external_type_specification]
#[verifier::external_body]
pub struct ExAlgorithm(jsonwebtoken::Algorithm);

/// What a key set holds: its keys in order, each with its key id, if it has one.
pub uninterp spec fn jwk_set_entries(
    set: jsonwebtoken::jwk::JwkSet,
) -> Seq<(Option<Seq<char>>, jsonwebtoken::jwk::Jwk)>;

/// What `jsonwebtoken::decode_header` reads from a token: its header, or the wording of the
/// error.
pub uninterp spec fn token_header(token: Seq<char>) -> Result<TokenHeaderView, Seq<char>>;

/// What `DecodingKey::from_jwk` makes of a published key: the verifying key, or the wording of
/// the error.
pub uninterp spec fn jwk_decoding_key(
    jwk: jsonwebtoken::jwk::Jwk,
) -> Result<jsonwebtoken::DecodingKey, Seq<char>>;

/// What `jsonwebtoken::decode` makes of a token that must bear `algorithm` when its signature
/// alone is checked: the JSON text of its claims, or the error.
pub uninterp spec fn token_text(
    token: Seq<char>,
    key: jsonwebtoken::DecodingKey,
    algorithm: jsonwebtoken::Algorithm,
) -> Result<Seq<char>, DecodeErrorView>;

/// What `jsonwebtoken::decode` makes of a token that must bear `algorithm` when its claims are
/// checked too, against an audience, an issuer and a Unix time, and are not handed out: whether
/// it accepts the token, or the wording of the error.
pub uninterp spec fn token_verdict(
    token: Seq<char>,
    key: jsonwebtoken::DecodingKey,
    algorithm: jsonwebtoken::Algorithm,
    audience: Seq<char>,
    issuer: Seq<char>,
    now: u64,
) -> Result<(), Seq<char>>;

/// Why a token could not be decoded; holds the wording of the error.
pub enum DecodeError {
    /// Something in it is not the JSON that is wanted.
    Json(String),
    /// Anything else: its form, its signature, its encoding.
    Other(String),
}

/// The mathematical content of a [`DecodeError`].
pub enum DecodeErrorView {
    Json(Seq<char>),
    Other(Seq<char>),
}

impl View for DecodeError {
    type V = DecodeErrorView;

    open spec fn view(&self) -> DecodeErrorView {
        match self {
            DecodeError::Json(message) => DecodeErrorView::Json(message@),
            DecodeError::Other(message) => DecodeErrorView::Other(message@),
        }
    }
}

/// The part of a token's header that its verification needs.
pub struct TokenHeader {
    /// The algorithm that the token says it is signed with.
    pub algorithm: jsonwebtoken::Algorithm,
    /// The id of the key that the token says it is signed with.
    pub key_id: Option<String>,
}

/// The mathematical content of a [`TokenHeader`].
pub struct TokenHeaderView {
    pub algorithm: jsonwebtoken::Algorithm,
    pub key_id: Option<Seq<char>>,
}

impl View for TokenHeader {
    type V = TokenHeaderView;

    open spec fn view(&self) -> TokenHeaderView {
        TokenHeaderView {
            algorithm: self.algorithm,
            key_id: match self.key_id {
                Some(id) => Some(id@),
                None => None,
            },
        }
    }
}

/// The view of what reading a header returned.
pub open spec fn header_result_view(
    result: Result<TokenHeader, String>,
) -> Result<TokenHeaderView, Seq<char>> {
    match result {
        Ok(header) => Ok(header@),
        Err(message) => Err(message@),
    }
}

/// `result` with its error taken by its text.
pub open spec fn error_text<T>(result: Result<T, String>) -> Result<T, Seq<char>> {
    match result {
        Ok(value) => Ok(value),
        Err(message) => Err(message@),
    }
}

/// The view of what decoding a token's claims returned.
pub open spec fn decode_result_view(
    result: Result<String, DecodeError>,
) -> Result<Seq<char>, DecodeErrorView> {
    match result {
        Ok(text) => Ok(text@),
        Err(error) => Err(error@),
    }
}

/// The first key of `entries` whose id is `id`.
pub open spec fn first_with_id(
    entries: Seq<(Option<Seq<char>>, jsonwebtoken::jwk::Jwk)>,
    id: Seq<char>,
) -> Option<jsonwebtoken::jwk::Jwk>
    decreases entries.len(),
{
    if entries.len() == 0 {
        None
    } else if entries[0].0 == Some(id) {
        Some(entries[0].1)
    } else {
        first_with_id(entries.drop_first(), id)
    }
}

/// The key that an optional reference points to.
pub open spec fn jwk_option_view(
    jwk: Option<&jsonwebtoken::jwk::Jwk>,
) -> Option<jsonwebtoken::jwk::Jwk> {
    match jwk {
        Some(jwk) => Some(*jwk),
        None => None,
    }
}

/// Whether a claim admits `expected`: a text is `expected` itself, and a list of texts holds
/// it. A claim of another form, or none at all, is not held against the token.
pub open spec fn claim_admits(claim: Option<JsonView>, expected: Seq<char>) -> bool {
    match claim {
        Some(JsonView::Text(text)) => text == expected,
        Some(JsonView::Array(items)) => (forall|i: int|
            0 <= i < items.len() ==> #[trigger] items[i] is Text) ==> exists|i: int|
            0 <= i < items.len() && #[trigger] items[i] == JsonView::Text(expected),
        _ => true,
    }
}

/// Whether an expiry claim is there and, where it is a whole number, lies no more than
/// sixty seconds before `now`.
pub open spec fn expiry_admits(claim: Option<JsonView>, now: u64) -> bool {
    match claim {
        Some(JsonView::Integer(expiry)) => expiry + 60 >= now,
        Some(JsonView::Float) => true,
        _ => false,
    }
}

/// What is known of the claims of a token that was accepted at `now`: it has not expired, and
/// its audience and issuer are the expected ones.
pub open spec fn claims_admitted(
    claims: JsonView,
    audience: Seq<char>,
    issuer: Seq<char>,
    now: u64,
) -> bool {
    &&& expiry_admits(claims.member("exp"@), now)
    &&& claim_admits(claims.member("aud"@), audience)
    &&& claim_admits(claims.member("iss"@), issuer)
}

/// Whether `piece` occurs in `text`.
pub open spec fn holds_piece(text: Seq<char>, piece: Seq<char>) -> bool {
    exists|i: int|
        0 <= i <= text.len() - piece.len() && #[trigger] text.subrange(i, i + piece.len()) == piece
}

/// Whether no member of a JSON text can bear the private name to which `serde_json` gives a
/// meaning of its own: the text holds neither that name nor an escape of one of its characters.
pub open spec fn free_of_markers(text: Seq<char>) -> bool {
    &&& !holds_piece(text, "$serde_json::private::RawValue"@)
    &&& !holds_piece(text, "\\u002"@)
    &&& !holds_piece(text, "\\u003"@)
    &&& !holds_piece(text, "\\u005"@)
    &&& !holds_piece(text, "\\u006"@)
    &&& !holds_piece(text, "\\u007"@)
}

/// What is known of a token that was accepted at `now` with an expected audience and issuer,
/// where checking its signature alone comes to `text`.
pub open spec fn text_admitted(
    text: Result<Seq<char>, DecodeErrorView>,
    audience: Seq<char>,
    issuer: Seq<char>,
    now: u64,
) -> bool {
    match text {
        Ok(text) => match parsed_json(text) {
            Ok(claims) => claims is Object && free_of_markers(text) ==> claims_admitted(
                claims,
                audience,
                issuer,
                now,
            ),
            Err(_) => true,
        },
        Err(DecodeErrorView::Json(_)) => true,
        Err(DecodeErrorView::Other(_)) => false,
    }
}

/// Calls `jsonwebtoken::decode_header`. Trusted: the algorithm and key id, or the wording of
/// the error, are a function of the token alone, called `token_header`.
#[verifier::external_body]
pub(crate) fn decode_token_header(token: &str) -> (result: Result<TokenHeader, String>)
    ensures
        header_result_view(result) == token_header(token@),
{
    jsonwebtoken::decode_header(token)
        .map(|header| TokenHeader { algorithm: header.alg, key_id: header.kid })
        .map_err(|e| e.to_string())
}

/// Calls `JwkSet::find`. Trusted: it returns the first key of the set whose id is `id`.
#[verifier::external_body]
pub(crate) fn find_jwk<'a>(
    set: &'a jsonwebtoken::jwk::JwkSet,
    id: &str,
) -> (found: Option<&'a jsonwebtoken::jwk::Jwk>)
    ensures
        jwk_option_view(found) == first_with_id(jwk_set_entries(*set), id@),
{
    set.find(id)
}

/// Calls `DecodingKey::from_jwk`. Trusted: the verifying key, or the wording of the error, is a
/// function of the published key alone, called `jwk_decoding_key`.
#[verifier::external_body]
pub(crate) fn decoding_key(
    jwk: &jsonwebtoken::jwk::Jwk,
) -> (result: Result<jsonwebtoken::DecodingKey, String>)
    ensures
        error_text(result) == jwk_decoding_key(*jwk),
{
    jsonwebtoken::DecodingKey::from_jwk(jwk).map_err(|e| e.to_string())
}

/// Calls `jsonwebtoken::decode` for the raw text of the claims, under
/// `Validation::new(algorithm)` with the checks of the claims turned off. Trusted: the text, or
/// the kind and wording of the error, is a function of the arguments alone, called
/// `token_text`. Claims that are not UTF-8 have no text, which is an error of the kind `Json`.
#[verifier::external_body]
pub(crate) fn decode_text(
    token: &str,
    key: &jsonwebtoken::DecodingKey,
    algorithm: jsonwebtoken::Algorithm,
) -> (result: Result<String, DecodeError>)
    ensures
        decode_result_view(result) == token_text(token@, *key, algorithm),
{
    let mut validation = jsonwebtoken::Validation::new(algorithm);
    validation.validate_exp = false;
    validation.validate_aud = false;
    validation.required_spec_claims.clear();
    match jsonwebtoken::decode::<Box<serde_json::value::RawValue>>(token, key, &validation) {
        Ok(data) => Ok(data.claims.get().to_string()),
        Err(e) => match e.kind() {
            jsonwebtoken::errors::ErrorKind::Json(_) => Err(DecodeError::Json(e.to_string())),
            _ => Err(DecodeError::Other(e.to_string())),
        },
    }
}

/// Calls `jsonwebtoken::decode` for claims that are passed over, under
/// `Validation::new(algorithm)` with the audience and the issuer set. Trusted: besides the
/// arguments the verdict depends on nothing but the time of the call, and is called
/// `token_verdict`; a token is accepted only if its signature is; and a token whose claims are
/// an object is accepted only if it has not expired and its audience and issuer, where they are
/// texts or lists of texts, admit the expected ones. The expiry is allowed a leeway of sixty
/// seconds. Which tokens the signature check accepts is left to the names. The call panics on a
/// system clock that stands before 1970 and, with overflow checks, in the first sixty seconds of
/// that year.
#[verifier::external_body]
pub(crate) fn decode_verdict(
    token: &str,
    key: &jsonwebtoken::DecodingKey,
    algorithm: jsonwebtoken::Algorithm,
    audience: &str,
    issuer: &str,
) -> (result: Result<(), String>)
    ensures
        exists|now: u64|
            {
                &&& error_text(result) == #[trigger] token_verdict(
                    token@,
                    *key,
                    algorithm,
                    audience@,
                    issuer@,
                    now,
                )
                &&& result is Ok ==> text_admitted(
                    token_text(token@, *key, algorithm),
                    audience@,
                    issuer@,
                    now,
                )
            },
{
    let mut validation = jsonwebtoken::Validation::new(algorithm);
    validation.set_audience(&[audience]);
    validation.set_issuer(&[issuer]);
    jsonwebtoken::decode::<serde::de::IgnoredAny>(token, key, &validation)
        .map(|_| ())
        .map_err(|e| e.to_string())
}

} // verus!
