//! Cloudflare Access authentication.
//!
//! A request that comes through Cloudflare Access carries a JWT in the header
//! `Cf-Access-Jwt-Assertion`. A request without that header is served anonymously; one with it
//! is served under the identity that the token states, if the token is valid, and refused
//! otherwise.
//!
//! Fetching the public keys and reading the claims out of the token are left to the caller:
//! each step of the decision says what is needed next. The claims are read once the token's
//! signature has been verified, and an identity is attached only after the whole token has been
//! and its claims were found to state that identity.
use vstd::prelude::*;

use crate::headers::{first_value, header_lines, header_text, header_value, visible_text};
use crate::json::{
    has_number_member, has_text_member, json_member, lacks_member, parse_json, parsed_json, JsonView,
};
use crate::jwt::{
    claim_admits, decode_result_view, decode_text, decode_token_header, decode_verdict,
    decoding_key, error_text, find_jwk, first_with_id, free_of_markers, header_result_view,
    jwk_decoding_key, jwk_set_entries, text_admitted, token_header, token_text, token_verdict,
    DecodeError, DecodeErrorView, TokenHeader, TokenHeaderView,
};
use crate::text::{concat_text, text_option_view};

verus! {

/// Header name for the Cloudflare Access JWT.
pub const CF_ACCESS_JWT_HEADER: &'static str = "Cf-Access-Jwt-Assertion";

/// The HTTP status of a refused request: 401 Unauthorized.
pub const UNAUTHORIZED: u16 = 401;

/// Why a request is refused whose token is there and is no text.
pub const UNREADABLE_TOKEN: &'static str = "JWT header is not visible ASCII";

/// Why a token is not valid whose claims are others than those that were read.
pub const MISREAD_CLAIMS: &'static str = "JWT claims are not those of the token";

/// The identity of an authenticated user.
#[derive(Debug)]
pub struct CloudflareIdentity {
    /// User's email address.
    pub email: String,
    /// Subject (unique user identifier).
    pub sub: String,
    /// Identity provider used.
    pub identity_nonce: Option<String>,
    /// Token issued at (Unix timestamp).
    pub iat: u64,
    /// Token expiration (Unix timestamp).
    pub exp: u64,
}

/// The claims of a Cloudflare Access token.
#[derive(Debug)]
pub struct CfAccessClaims {
    pub email: String,
    pub sub: String,
    pub identity_nonce: Option<String>,
    pub iat: u64,
    pub exp: u64,
}

/// The mathematical content of an identity, and of the claims that state it.
pub struct IdentityView {
    pub email: Seq<char>,
    pub sub: Seq<char>,
    pub identity_nonce: Option<Seq<char>>,
    pub iat: u64,
    pub exp: u64,
}

/// The view of an optional text.
pub open spec fn string_option_view(text: Option<String>) -> Option<Seq<char>> {
    match text {
        Some(text) => Some(text@),
        None => None,
    }
}

impl View for CloudflareIdentity {
    type V = IdentityView;

    open spec fn view(&self) -> IdentityView {
        IdentityView {
            email: self.email@,
            sub: self.sub@,
            identity_nonce: string_option_view(self.identity_nonce),
            iat: self.iat,
            exp: self.exp,
        }
    }
}

impl Clone for CloudflareIdentity {
    fn clone(&self) -> (copy: Self)
        ensures
            copy@ == self@,
    {
        CloudflareIdentity {
            email: self.email.clone(),
            sub: self.sub.clone(),
            identity_nonce: match &self.identity_nonce {
                Some(nonce) => Some(nonce.clone()),
                None => None,
            },
            iat: self.iat,
            exp: self.exp,
        }
    }
}

impl View for CfAccessClaims {
    type V = IdentityView;

    open spec fn view(&self) -> IdentityView {
        IdentityView {
            email: self.email@,
            sub: self.sub@,
            identity_nonce: string_option_view(self.identity_nonce),
            iat: self.iat,
            exp: self.exp,
        }
    }
}

/// Cache for Cloudflare's JWKS (JSON Web Key Set).
pub struct JwksCache {
    inner: Option<jsonwebtoken::jwk::JwkSet>,
    team: String,
}

/// The mathematical content of a [`JwksCache`].
pub struct CacheView {
    pub keys: Option<jsonwebtoken::jwk::JwkSet>,
    pub team: Seq<char>,
}

impl View for JwksCache {
    type V = CacheView;

    closed spec fn view(&self) -> CacheView {
        CacheView { keys: self.inner, team: self.team@ }
    }
}

/// A cache is viewed as the keys and the team that it holds.
proof fn law_cache_view_is_faithful(cache: JwksCache)
    ensures
        cache@.keys == cache.inner,
        cache@.team == cache.team@,
{
}

/// The address at which the public keys of `team` are published.
pub open spec fn certs_url(team: Seq<char>) -> Seq<char> {
    "https://"@ + team + ".cloudflareaccess.com/cdn-cgi/access/certs"@
}

/// The issuer that tokens of `team` bear.
pub open spec fn issuer_of(team: Seq<char>) -> Seq<char> {
    "https://"@ + team + ".cloudflareaccess.com"@
}

/// How the request for the public keys was answered.
pub enum JwksReply {
    /// There was no answer; holds the error.
    Unreachable(String),
    /// The answer had a status other than success; holds the status.
    Refused(String),
    /// The body of the answer was read as a key set, or holds the error.
    Body(Result<jsonwebtoken::jwk::JwkSet, String>),
}

/// The key set of a reply, or the wording of the error.
pub open spec fn reply_keys(
    reply: JwksReply,
) -> Result<jsonwebtoken::jwk::JwkSet, Seq<char>> {
    match reply {
        JwksReply::Unreachable(error) => Err("Failed to fetch JWKS: "@ + error@),
        JwksReply::Refused(status) => Err("JWKS fetch returned status: "@ + status@),
        JwksReply::Body(Err(error)) => Err("Failed to parse JWKS: "@ + error@),
        JwksReply::Body(Ok(keys)) => Ok(keys),
    }
}

/// Whether an HTTP status code means success.
pub fn is_success(status: u16) -> (success: bool)
    ensures
        success == (200 <= status <= 299),
{
    200 <= status && status <= 299
}

/// What the status of an answer alone makes of it: a refusal, worded `wording`, where the status
/// is not success; otherwise the body has to be read.
pub fn judge_status(status: u16, wording: String) -> (reply: Option<JwksReply>)
    ensures
        reply == (if 200 <= status <= 299 {
            None
        } else {
            Some(JwksReply::Refused(wording))
        }),
{
    if is_success(status) {
        None
    } else {
        Some(JwksReply::Refused(wording))
    }
}

/// The cache after a fetch that came to `fetched`: what was fetched replaces what was cached;
/// a failed fetch changes nothing.
pub open spec fn refreshed(
    cache: CacheView,
    fetched: Result<jsonwebtoken::jwk::JwkSet, Seq<char>>,
) -> CacheView {
    match fetched {
        Ok(keys) => CacheView { keys: Some(keys), team: cache.team },
        Err(_) => cache,
    }
}

impl JwksCache {
    /// Creates an empty cache for the given Cloudflare Access team.
    pub fn new(team: String) -> (cache: JwksCache)
        ensures
            cache@ == (CacheView { keys: None, team: team@ }),
    {
        JwksCache { inner: None, team }
    }

    /// The address at which this team's public keys are published.
    pub fn jwks_url(&self) -> (url: String)
        ensures
            url@ == certs_url(self@.team),
    {
        let start: String = concat_text("https://", self.team.as_str());
        concat_text(start.as_str(), ".cloudflareaccess.com/cdn-cgi/access/certs")
    }

    /// The issuer that this team's tokens bear.
    pub fn issuer(&self) -> (issuer: String)
        ensures
            issuer@ == issuer_of(self@.team),
    {
        let start: String = concat_text("https://", self.team.as_str());
        concat_text(start.as_str(), ".cloudflareaccess.com")
    }

    /// The key set of a reply, or the wording of the error.
    pub fn fetch_jwks(reply: JwksReply) -> (result: Result<jsonwebtoken::jwk::JwkSet, String>)
        ensures
            error_text(result) == reply_keys(reply),
    {
        match reply {
            JwksReply::Unreachable(error) => Err(concat_text("Failed to fetch JWKS: ", error.as_str())),
            JwksReply::Refused(status) => Err(
                concat_text("JWKS fetch returned status: ", status.as_str()),
            ),
            JwksReply::Body(body) => match body {
                Err(error) => Err(concat_text("Failed to parse JWKS: ", error.as_str())),
                Ok(keys) => Ok(keys),
            },
        }
    }

    /// The cached keys; none where they have to be fetched first.
    pub fn get_jwks(&self) -> (keys: Option<&jsonwebtoken::jwk::JwkSet>)
        ensures
            match keys {
                Some(keys) => self@.keys == Some(*keys),
                None => self@.keys is None,
            },
    {
        match &self.inner {
            Some(keys) => Some(keys),
            None => None,
        }
    }

    /// Takes over the outcome of a fetch: fetched keys replace those in the cache; a failed
    /// fetch leaves the cache as it was and hands the error on.
    pub fn refresh(
        &mut self,
        fetched: Result<jsonwebtoken::jwk::JwkSet, String>,
    ) -> (result: Result<(), String>)
        ensures
            final(self)@ == refreshed(old(self)@, error_text(fetched)),
            match fetched {
                Ok(_) => result is Ok,
                Err(error) => result == Err::<(), String>(error),
            },
    {
        match fetched {
            Ok(keys) => {
                self.inner = Some(keys);
                Ok(())
            },
            Err(error) => Err(error),
        }
    }
}

/// The public keys are fetched from the issuer itself: their address starts with the issuer
/// that the tokens must bear.
pub proof fn law_keys_come_from_issuer(team: Seq<char>)
    ensures
        certs_url(team) == issuer_of(team) + "/cdn-cgi/access/certs"@,
{
    reveal_strlit(".cloudflareaccess.com/cdn-cgi/access/certs");
    reveal_strlit(".cloudflareaccess.com");
    reveal_strlit("/cdn-cgi/access/certs");
    assert(".cloudflareaccess.com/cdn-cgi/access/certs"@ == ".cloudflareaccess.com"@
        + "/cdn-cgi/access/certs"@);
}

/// After a successful fetch the cache holds the fetched keys, whatever it held before; after a
/// failed one it holds what it held before. The team never changes.
pub proof fn law_refresh_replaces(
    cache: CacheView,
    first: Result<jsonwebtoken::jwk::JwkSet, Seq<char>>,
    second: Result<jsonwebtoken::jwk::JwkSet, Seq<char>>,
)
    ensures
        first matches Ok(keys) ==> refreshed(cache, first).keys == Some(keys),
        first is Err ==> refreshed(cache, first) == cache,
        second is Ok ==> refreshed(refreshed(cache, first), second) == refreshed(cache, second),
        refreshed(cache, first).team == cache.team,
{
}

/// What the signature of a token leads to.
pub enum JwtStep {
    /// The public keys have to be fetched from this address first.
    KeysNeeded(String),
    /// The token is authentic; its claims have to be read.
    Authentic,
    /// The token is not valid; holds the reason.
    Invalid(String),
}

/// The mathematical content of a [`JwtStep`].
pub enum JwtStepView {
    KeysNeeded(Seq<char>),
    Authentic,
    Invalid(Seq<char>),
}

impl View for JwtStep {
    type V = JwtStepView;

    open spec fn view(&self) -> JwtStepView {
        match self {
            JwtStep::KeysNeeded(url) => JwtStepView::KeysNeeded(url@),
            JwtStep::Authentic => JwtStepView::Authentic,
            JwtStep::Invalid(reason) => JwtStepView::Invalid(reason@),
        }
    }
}

/// How a token is to be verified.
pub enum KeyChoice {
    /// With this key and this algorithm.
    Key { key: jsonwebtoken::DecodingKey, algorithm: jsonwebtoken::Algorithm },
    /// Not yet: the public keys have to be fetched from this address first.
    KeysNeeded(String),
    /// Not at all; holds the reason.
    Unusable(String),
}

/// The mathematical content of a [`KeyChoice`].
pub enum KeyChoiceView {
    Key { key: jsonwebtoken::DecodingKey, algorithm: jsonwebtoken::Algorithm },
    KeysNeeded(Seq<char>),
    Unusable(Seq<char>),
}

impl View for KeyChoice {
    type V = KeyChoiceView;

    open spec fn view(&self) -> KeyChoiceView {
        match self {
            KeyChoice::Key { key, algorithm } => KeyChoiceView::Key {
                key: *key,
                algorithm: *algorithm,
            },
            KeyChoice::KeysNeeded(url) => KeyChoiceView::KeysNeeded(url@),
            KeyChoice::Unusable(reason) => KeyChoiceView::Unusable(reason@),
        }
    }
}

/// How a token with the given header is to be verified: with the cached key whose id it
/// names, and with the algorithm it names.
pub open spec fn key_choice(
    header: Result<TokenHeaderView, Seq<char>>,
    cache: CacheView,
) -> KeyChoiceView {
    match header {
        Err(error) => KeyChoiceView::Unusable("Failed to decode JWT header: "@ + error),
        Ok(header) => match header.key_id {
            None => KeyChoiceView::Unusable("JWT header missing 'kid' field"@),
            Some(id) => match cache.keys {
                None => KeyChoiceView::KeysNeeded(certs_url(cache.team)),
                Some(keys) => match first_with_id(jwk_set_entries(keys), id) {
                    None => KeyChoiceView::Unusable("No matching key found for kid: "@ + id),
                    Some(jwk) => match jwk_decoding_key(jwk) {
                        Err(error) => KeyChoiceView::Unusable(
                            "Failed to create decoding key from JWK: "@ + error,
                        ),
                        Ok(key) => KeyChoiceView::Key { key, algorithm: header.algorithm },
                    },
                },
            },
        },
    }
}

/// Chooses how to verify a token whose header reads as `header`.
pub fn choose_key(header: Result<TokenHeader, String>, jwks_cache: &JwksCache) -> (choice: KeyChoice)
    ensures
        choice@ == key_choice(header_result_view(header), jwks_cache@),
{
    let header: TokenHeader = match header {
        Err(error) => {
            return KeyChoice::Unusable(
                concat_text("Failed to decode JWT header: ", error.as_str()),
            );
        },
        Ok(header) => header,
    };
    let id: String = match header.key_id {
        None => {
            return KeyChoice::Unusable("JWT header missing 'kid' field".to_string());
        },
        Some(id) => id,
    };
    match jwks_cache.get_jwks() {
        None => KeyChoice::KeysNeeded(jwks_cache.jwks_url()),
        Some(keys) => match find_jwk(keys, id.as_str()) {
            None => KeyChoice::Unusable(
                concat_text("No matching key found for kid: ", id.as_str()),
            ),
            Some(jwk) => match decoding_key(jwk) {
                Err(error) => KeyChoice::Unusable(
                    concat_text("Failed to create decoding key from JWK: ", error.as_str()),
                ),
                Ok(key) => KeyChoice::Key { key, algorithm: header.algorithm },
            },
        },
    }
}

/// The step that the outcome of verifying a token's signature leads to. Claims that are not the
/// JSON that is wanted say nothing against the signature.
pub open spec fn authenticated_step(outcome: Result<Seq<char>, DecodeErrorView>) -> JwtStepView {
    match outcome {
        Err(DecodeErrorView::Other(error)) => JwtStepView::Invalid(
            "JWT validation failed: "@ + error,
        ),
        _ => JwtStepView::Authentic,
    }
}

/// The step that the outcome of verifying a token's signature leads to.
pub fn conclude_authentication(outcome: &Result<String, DecodeError>) -> (step: JwtStep)
    ensures
        step@ == authenticated_step(decode_result_view(*outcome)),
{
    match outcome {
        Err(DecodeError::Other(error)) => JwtStep::Invalid(
            concat_text("JWT validation failed: ", error.as_str()),
        ),
        _ => JwtStep::Authentic,
    }
}

/// The step that a token leads to which is to be verified as `choice` says.
pub open spec fn authentication_of(choice: KeyChoiceView, token: Seq<char>) -> JwtStepView {
    match choice {
        KeyChoiceView::Unusable(reason) => JwtStepView::Invalid(reason),
        KeyChoiceView::KeysNeeded(url) => JwtStepView::KeysNeeded(url),
        KeyChoiceView::Key { key, algorithm } => authenticated_step(
            token_text(token, key, algorithm),
        ),
    }
}

/// Verifies the signature of a Cloudflare Access JWT with the cached key that its header names.
pub fn authenticate_cf_jwt(token: &str, jwks_cache: &JwksCache) -> (step: JwtStep)
    ensures
        step@ == authentication_of(key_choice(token_header(token@), jwks_cache@), token@),
{
    match choose_key(decode_token_header(token), jwks_cache) {
        KeyChoice::Unusable(reason) => JwtStep::Invalid(reason),
        KeyChoice::KeysNeeded(url) => JwtStep::KeysNeeded(url),
        KeyChoice::Key { key, algorithm } => conclude_authentication(
            &decode_text(token, &key, algorithm),
        ),
    }
}

/// The identity that claims state.
pub fn identity_of(claims: CfAccessClaims) -> (identity: CloudflareIdentity)
    ensures
        identity@ == claims@,
{
    CloudflareIdentity {
        email: claims.email,
        sub: claims.sub,
        identity_nonce: claims.identity_nonce,
        iat: claims.iat,
        exp: claims.exp,
    }
}

/// The view of what reading claims returned.
pub open spec fn claims_result_view(
    read: Result<CfAccessClaims, String>,
) -> Result<IdentityView, Seq<char>> {
    match read {
        Ok(claims) => Ok(claims@),
        Err(error) => Err(error@),
    }
}

/// What the validation of a token comes to.
pub enum JwtVerdict {
    /// The public keys have to be fetched from this address first.
    KeysNeeded(String),
    /// The token is valid and states this identity.
    Valid(CloudflareIdentity),
    /// The token is not valid; holds the reason.
    Invalid(String),
}

/// The mathematical content of a [`JwtVerdict`].
pub enum JwtVerdictView {
    KeysNeeded(Seq<char>),
    Valid(IdentityView),
    Invalid(Seq<char>),
}

impl View for JwtVerdict {
    type V = JwtVerdictView;

    open spec fn view(&self) -> JwtVerdictView {
        match self {
            JwtVerdict::KeysNeeded(url) => JwtVerdictView::KeysNeeded(url@),
            JwtVerdict::Valid(identity) => JwtVerdictView::Valid(identity@),
            JwtVerdict::Invalid(reason) => JwtVerdictView::Invalid(reason@),
        }
    }
}

/// Whether a JSON document is an object that states `identity` and an audience.
pub open spec fn states_identity(document: JsonView, identity: IdentityView) -> bool {
    &&& document.member("email"@) == Some(JsonView::Text(identity.email))
    &&& document.member("sub"@) == Some(JsonView::Text(identity.sub))
    &&& match identity.identity_nonce {
        Some(nonce) => document.member("identity_nonce"@) == Some(JsonView::Text(nonce)),
        None => document.member("identity_nonce"@) is None || document.member("identity_nonce"@)
            == Some(JsonView::Null),
    }
    &&& document.member("iat"@) == Some(JsonView::Integer(identity.iat as int))
    &&& document.member("exp"@) == Some(JsonView::Integer(identity.exp as int))
    &&& document.member("aud"@) is Some
}

/// Whether claims whose text is `text` state `identity`, as far as the text is JSON that can be
/// looked into.
pub open spec fn text_states_identity(
    text: Result<Seq<char>, DecodeErrorView>,
    identity: IdentityView,
) -> bool {
    match text {
        Ok(text) => match parsed_json(text) {
            Ok(document) => states_identity(document, identity),
            Err(_) => true,
        },
        Err(_) => true,
    }
}

/// Whether claims whose text is `text` state what was read as `claims`, as far as the text is
/// JSON that can be looked into.
pub fn claims_are_stated(
    text: &Result<String, DecodeError>,
    claims: &CfAccessClaims,
) -> (stated: bool)
    ensures
        stated == text_states_identity(decode_result_view(*text), claims@),
{
    match text {
        Err(_) => true,
        Ok(text) => match parse_json(text.as_str()) {
            Err(_) => true,
            Ok(document) => {
                let same_nonce: bool = match &claims.identity_nonce {
                    Some(nonce) => has_text_member(&document, "identity_nonce", nonce.as_str()),
                    None => lacks_member(&document, "identity_nonce"),
                };
                same_nonce && has_text_member(&document, "email", claims.email.as_str())
                    && has_text_member(&document, "sub", claims.sub.as_str())
                    && has_number_member(&document, "iat", claims.iat)
                    && has_number_member(&document, "exp", claims.exp)
                    && json_member(&document, "aud").is_some()
            },
        },
    }
}

/// The verdict on an authentic token whose claims have the text `text` and were read as
/// `claims`, when verifying the whole of it came to `outcome`.
pub open spec fn verified_verdict(
    outcome: Result<(), Seq<char>>,
    text: Result<Seq<char>, DecodeErrorView>,
    claims: IdentityView,
) -> JwtVerdictView {
    match outcome {
        Err(error) => JwtVerdictView::Invalid("JWT validation failed: "@ + error),
        Ok(_) => if text_states_identity(text, claims) {
            JwtVerdictView::Valid(claims)
        } else {
            JwtVerdictView::Invalid(MISREAD_CLAIMS@)
        },
    }
}

/// The verdict on an authentic token whose claims have the text `text` and were read as
/// `claims`, when verifying the whole of it came to `outcome`. Claims that were read from the
/// token itself are always found in its text.
pub fn conclude_validation(
    outcome: Result<(), String>,
    text: &Result<String, DecodeError>,
    claims: CfAccessClaims,
) -> (verdict: JwtVerdict)
    ensures
        verdict@ == verified_verdict(error_text(outcome), decode_result_view(*text), claims@),
{
    match outcome {
        Err(error) => JwtVerdict::Invalid(concat_text("JWT validation failed: ", error.as_str())),
        Ok(_) => if claims_are_stated(text, &claims) {
            JwtVerdict::Valid(identity_of(claims))
        } else {
            JwtVerdict::Invalid(MISREAD_CLAIMS.to_string())
        },
    }
}

/// Whether `outcome` is what verifying the whole of `token` at the time `now` comes to. A token
/// that is accepted then has an accepted signature, and claims that are admitted then.
pub open spec fn verified_at(
    token: Seq<char>,
    key: jsonwebtoken::DecodingKey,
    algorithm: jsonwebtoken::Algorithm,
    audience: Seq<char>,
    issuer: Seq<char>,
    now: u64,
    outcome: Result<(), Seq<char>>,
) -> bool {
    &&& outcome == token_verdict(token, key, algorithm, audience, issuer, now)
    &&& outcome is Ok ==> text_admitted(token_text(token, key, algorithm), audience, issuer, now)
}

/// Whether `verdict` is what validating `token` at some time comes to, when it is to be
/// verified as `choice` says and its claims read as `read`: a bad signature comes before claims
/// that could not be read, and these before claims that do not hold.
pub open spec fn validation_leads_to(
    choice: KeyChoiceView,
    token: Seq<char>,
    audience: Seq<char>,
    issuer: Seq<char>,
    read: Result<IdentityView, Seq<char>>,
    verdict: JwtVerdictView,
) -> bool {
    match choice {
        KeyChoiceView::Unusable(reason) => verdict == JwtVerdictView::Invalid(reason),
        KeyChoiceView::KeysNeeded(url) => verdict == JwtVerdictView::KeysNeeded(url),
        KeyChoiceView::Key { key, algorithm } => match authenticated_step(
            token_text(token, key, algorithm),
        ) {
            JwtStepView::Invalid(reason) => verdict == JwtVerdictView::Invalid(reason),
            _ => match read {
                Err(error) => verdict == JwtVerdictView::Invalid(
                    "JWT validation failed: "@ + error,
                ),
                Ok(claims) => exists|now: u64, outcome: Result<(), Seq<char>>|
                    {
                        &&& #[trigger] verified_at(
                            token,
                            key,
                            algorithm,
                            audience,
                            issuer,
                            now,
                            outcome,
                        )
                        &&& verdict == verified_verdict(
                            outcome,
                            token_text(token, key, algorithm),
                            claims,
                        )
                    },
            },
        },
    }
}

/// Validates a Cloudflare Access JWT whose claims were read as `read`: with the cached key that
/// its header names, the audience of this application and the issuer of the team. It states an
/// identity only when all of that is in order.
pub fn validate_cf_jwt(
    token: &str,
    jwks_cache: &JwksCache,
    audience: &str,
    read: Result<CfAccessClaims, String>,
) -> (verdict: JwtVerdict)
    ensures
        validation_leads_to(
            key_choice(token_header(token@), jwks_cache@),
            token@,
            audience@,
            issuer_of(jwks_cache@.team),
            claims_result_view(read),
            verdict@,
        ),
{
    match choose_key(decode_token_header(token), jwks_cache) {
        KeyChoice::Unusable(reason) => JwtVerdict::Invalid(reason),
        KeyChoice::KeysNeeded(url) => JwtVerdict::KeysNeeded(url),
        KeyChoice::Key { key, algorithm } => {
            let text: Result<String, DecodeError> = decode_text(token, &key, algorithm);
            match conclude_authentication(&text) {
                JwtStep::Invalid(reason) => JwtVerdict::Invalid(reason),
                _ => match read {
                    Err(error) => JwtVerdict::Invalid(
                        concat_text("JWT validation failed: ", error.as_str()),
                    ),
                    Ok(claims) => {
                        let issuer: String = jwks_cache.issuer();
                        let outcome: Result<(), String> = decode_verdict(
                            token,
                            &key,
                            algorithm,
                            audience,
                            issuer.as_str(),
                        );
                        proof {
                            let now = choose|now: u64|
                                {
                                    &&& error_text(outcome) == #[trigger] token_verdict(
                                        token@,
                                        key,
                                        algorithm,
                                        audience@,
                                        issuer@,
                                        now,
                                    )
                                    &&& outcome is Ok ==> text_admitted(
                                        token_text(token@, key, algorithm),
                                        audience@,
                                        issuer@,
                                        now,
                                    )
                                };
                            assert(verified_at(
                                token@,
                                key,
                                algorithm,
                                audience@,
                                issuer_of(jwks_cache@.team),
                                now,
                                error_text(outcome),
                            ));
                        }
                        conclude_validation(outcome, &text, claims)
                    },
                },
            }
        },
    }
}

/// Configuration for Cloudflare Access authentication.
pub struct CfAccessConfig {
    pub jwks_cache: JwksCache,
    pub audience: String,
}

/// The mathematical content of a [`CfAccessConfig`].
pub struct ConfigView {
    pub cache: CacheView,
    pub audience: Seq<char>,
}

impl View for CfAccessConfig {
    type V = ConfigView;

    open spec fn view(&self) -> ConfigView {
        ConfigView { cache: self.jwks_cache@, audience: self.audience@ }
    }
}

/// The view of an optional configuration.
pub open spec fn config_option_view(config: Option<CfAccessConfig>) -> Option<ConfigView> {
    match config {
        Some(config) => Some(config@),
        None => None,
    }
}

impl CfAccessConfig {
    /// Creates the configuration from the values of the environment variables
    /// `CF_ACCESS_TEAM` and `CF_ACCESS_AUD`: none unless both are set and neither is empty.
    pub fn from_env(team: Option<String>, audience: Option<String>) -> (config: Option<CfAccessConfig>)
        ensures
            match (team, audience) {
                (Some(team), Some(audience)) => if team@.len() == 0 || audience@.len() == 0 {
                    config is None
                } else {
                    &&& config is Some
                    &&& config->0.jwks_cache@ == (CacheView { keys: None, team: team@ })
                    &&& config->0.audience@ == audience@
                },
                _ => config is None,
            },
    {
        match (team, audience) {
            (Some(team), Some(audience)) => {
                if team.as_str().is_empty() || audience.as_str().is_empty() {
                    None
                } else {
                    Some(CfAccessConfig { jwks_cache: JwksCache::new(team), audience })
                }
            },
            _ => None,
        }
    }
}

/// The token that request headers carry: the first value of the header
/// `Cf-Access-Jwt-Assertion`, where it is visible ASCII.
pub open spec fn carried_token(lines: Map<Seq<char>, Seq<Seq<u8>>>) -> Option<Seq<char>> {
    match first_value(lines, CF_ACCESS_JWT_HEADER@) {
        Some(bytes) => visible_text(bytes),
        None => None,
    }
}

/// Extracts the Cloudflare Access JWT from request headers.
pub fn extract_cf_jwt(
    headers: &axum::http::HeaderMap<axum::http::HeaderValue>,
) -> (token: Option<&str>)
    ensures
        text_option_view(token) == carried_token(header_lines(*headers)),
{
    match header_value(headers, CF_ACCESS_JWT_HEADER) {
        Some(value) => header_text(value),
        None => None,
    }
}

/// A step in the treatment of a request.
pub enum AccessStep {
    /// Serve the request, under the identity if there is one, anonymously otherwise.
    Proceed(Option<CloudflareIdentity>),
    /// The public keys have to be fetched from this address first.
    FetchKeys(String),
    /// The claims have to be read out of this token first.
    ReadClaims(String),
    /// Answer with this status and body.
    Reject { status: u16, body: String },
}

/// The mathematical content of an [`AccessStep`].
pub enum AccessStepView {
    Proceed(Option<IdentityView>),
    FetchKeys(Seq<char>),
    ReadClaims(Seq<char>),
    Reject { status: u16, body: Seq<char> },
}

impl View for AccessStep {
    type V = AccessStepView;

    open spec fn view(&self) -> AccessStepView {
        match self {
            AccessStep::Proceed(Some(identity)) => AccessStepView::Proceed(Some(identity@)),
            AccessStep::Proceed(None) => AccessStepView::Proceed(None),
            AccessStep::FetchKeys(url) => AccessStepView::FetchKeys(url@),
            AccessStep::ReadClaims(token) => AccessStepView::ReadClaims(token@),
            AccessStep::Reject { status, body } => AccessStepView::Reject {
                status: *status,
                body: body@,
            },
        }
    }
}

/// The refusal of a request whose token is not valid.
pub open spec fn refusal(reason: Seq<char>) -> AccessStepView {
    AccessStepView::Reject {
        status: UNAUTHORIZED,
        body: "Invalid authentication token: "@ + reason,
    }
}

/// The refusal of a request whose token is not valid.
pub fn refuse(reason: &str) -> (step: AccessStep)
    ensures
        step@ == refusal(reason@),
{
    AccessStep::Reject {
        status: UNAUTHORIZED,
        body: concat_text("Invalid authentication token: ", reason),
    }
}

/// The treatment of a request that the signature of its token leads to.
pub open spec fn access_after_step(step: JwtStepView, token: Seq<char>) -> AccessStepView {
    match step {
        JwtStepView::KeysNeeded(url) => AccessStepView::FetchKeys(url),
        JwtStepView::Authentic => AccessStepView::ReadClaims(token),
        JwtStepView::Invalid(reason) => refusal(reason),
    }
}

/// The treatment of a request that the signature of its token leads to.
pub fn access_after_authentication(step: JwtStep, token: &str) -> (access: AccessStep)
    ensures
        access@ == access_after_step(step@, token@),
{
    match step {
        JwtStep::KeysNeeded(url) => AccessStep::FetchKeys(url),
        JwtStep::Authentic => AccessStep::ReadClaims(token.to_string()),
        JwtStep::Invalid(reason) => refuse(reason.as_str()),
    }
}

/// The treatment of a request that the verdict on its token leads to.
pub open spec fn access_after_verdict(verdict: JwtVerdictView) -> AccessStepView {
    match verdict {
        JwtVerdictView::KeysNeeded(url) => AccessStepView::FetchKeys(url),
        JwtVerdictView::Valid(identity) => AccessStepView::Proceed(Some(identity)),
        JwtVerdictView::Invalid(reason) => refusal(reason),
    }
}

/// The treatment of a request that the verdict on its token leads to.
pub fn access_after_validation(verdict: JwtVerdict) -> (access: AccessStep)
    ensures
        access@ == access_after_verdict(verdict@),
{
    match verdict {
        JwtVerdict::KeysNeeded(url) => AccessStep::FetchKeys(url),
        JwtVerdict::Valid(identity) => AccessStep::Proceed(Some(identity)),
        JwtVerdict::Invalid(reason) => refuse(reason.as_str()),
    }
}

/// Whether request headers have a line for the token, readable or not.
pub open spec fn token_present(lines: Map<Seq<char>, Seq<Seq<u8>>>) -> bool {
    first_value(lines, CF_ACCESS_JWT_HEADER@) is Some
}

/// The treatment of a request with the given header lines before its claims are read: without
/// a configuration or the token's header it is served anonymously, a token that is no text is
/// refused, and otherwise the signature of the token decides.
pub open spec fn access_of(
    config: Option<ConfigView>,
    lines: Map<Seq<char>, Seq<Seq<u8>>>,
) -> AccessStepView {
    match config {
        None => AccessStepView::Proceed(None),
        Some(config) => if !token_present(lines) {
            AccessStepView::Proceed(None)
        } else {
            match carried_token(lines) {
                None => refusal(UNREADABLE_TOKEN@),
                Some(token) => access_after_step(
                    authentication_of(key_choice(token_header(token), config.cache), token),
                    token,
                ),
            }
        },
    }
}

/// Whether `access` is the treatment that a request with the given header lines gets once its
/// claims were read as `read`: as before the reading, but that the validation of the whole
/// token decides.
pub open spec fn access_leads_to(
    config: Option<ConfigView>,
    lines: Map<Seq<char>, Seq<Seq<u8>>>,
    read: Result<IdentityView, Seq<char>>,
    access: AccessStepView,
) -> bool {
    match config {
        None => access == AccessStepView::Proceed(None),
        Some(config) => if !token_present(lines) {
            access == AccessStepView::Proceed(None)
        } else {
            match carried_token(lines) {
                None => access == refusal(UNREADABLE_TOKEN@),
                Some(token) => exists|verdict: JwtVerdictView|
                    {
                        &&& #[trigger] validation_leads_to(
                            key_choice(token_header(token), config.cache),
                            token,
                            config.audience,
                            issuer_of(config.cache.team),
                            read,
                            verdict,
                        )
                        &&& access == access_after_verdict(verdict)
                    },
            }
        },
    }
}

/// What is done with a request that carries no readable token: it is served anonymously where
/// the token's header is absent, and refused otherwise.
fn treat_tokenless(
    headers: &axum::http::HeaderMap<axum::http::HeaderValue>,
) -> (access: AccessStep)
    ensures
        access@ == (if token_present(header_lines(*headers)) {
            refusal(UNREADABLE_TOKEN@)
        } else {
            AccessStepView::Proceed(None)
        }),
{
    match header_value(headers, CF_ACCESS_JWT_HEADER) {
        Some(_) => refuse(UNREADABLE_TOKEN),
        None => AccessStep::Proceed(None),
    }
}

/// Treats a request under a configuration, before its claims are read.
fn treat_request(
    config: &CfAccessConfig,
    headers: &axum::http::HeaderMap<axum::http::HeaderValue>,
) -> (access: AccessStep)
    ensures
        access@ == access_of(Some(config@), header_lines(*headers)),
{
    match extract_cf_jwt(headers) {
        None => treat_tokenless(headers),
        Some(token) => access_after_authentication(
            authenticate_cf_jwt(token, &config.jwks_cache),
            token,
        ),
    }
}

/// Authentication of a request for Cloudflare Access.
///
/// - No configuration, or no token header: the request proceeds anonymously.
/// - An authentic token: its claims are to be read, and the request then goes on with
///   [`cf_access_claims_read`].
/// - An invalid token, or a token header that is no text: the request is refused as
///   unauthorized.
pub fn cf_access_middleware(
    config: &Option<CfAccessConfig>,
    headers: &axum::http::HeaderMap<axum::http::HeaderValue>,
) -> (access: AccessStep)
    ensures
        access@ == access_of(config_option_view(*config), header_lines(*headers)),
{
    match config {
        None => AccessStep::Proceed(None),
        Some(config) => treat_request(config, headers),
    }
}

/// Goes on with a request for which the public keys had to be fetched: the fetched keys are
/// cached and the request is treated with them; where there are none, it is refused.
pub fn cf_access_keys_fetched(
    config: &mut CfAccessConfig,
    headers: &axum::http::HeaderMap<axum::http::HeaderValue>,
    reply: JwksReply,
) -> (access: AccessStep)
    ensures
        final(config)@ == (ConfigView {
            cache: refreshed(old(config)@.cache, reply_keys(reply)),
            audience: old(config)@.audience,
        }),
        access@ == match reply_keys(reply) {
            Err(error) => refusal(error),
            Ok(_) => access_of(Some(final(config)@), header_lines(*headers)),
        },
        !(access@ is FetchKeys),
{
    let fetched: Result<jsonwebtoken::jwk::JwkSet, String> = JwksCache::fetch_jwks(reply);
    match config.jwks_cache.refresh(fetched) {
        Err(error) => refuse(error.as_str()),
        Ok(_) => treat_request(config, headers),
    }
}

/// Goes on with a request whose claims were read: the whole token is validated, and the request
/// proceeds under the identity that its claims state. It is refused where the token is not
/// valid or its claims could not be read.
pub fn cf_access_claims_read(
    config: &Option<CfAccessConfig>,
    headers: &axum::http::HeaderMap<axum::http::HeaderValue>,
    read: Result<CfAccessClaims, String>,
) -> (access: AccessStep)
    ensures
        access_leads_to(
            config_option_view(*config),
            header_lines(*headers),
            claims_result_view(read),
            access@,
        ),
{
    match config {
        None => AccessStep::Proceed(None),
        Some(config) => match extract_cf_jwt(headers) {
            None => treat_tokenless(headers),
            Some(token) => {
                let ghost claims = claims_result_view(read);
                let verdict: JwtVerdict = validate_cf_jwt(
                    token,
                    &config.jwks_cache,
                    config.audience.as_str(),
                    read,
                );
                assert(validation_leads_to(
                    key_choice(token_header(token@), config@.cache),
                    token@,
                    config@.audience,
                    issuer_of(config@.cache.team),
                    claims,
                    verdict@,
                ));
                access_after_validation(verdict)
            },
        },
    }
}

/// Where authentication is not configured, and for every request without the token's header,
/// the request proceeds anonymously.
pub proof fn law_no_token_is_anonymous(
    config: Option<ConfigView>,
    lines: Map<Seq<char>, Seq<Seq<u8>>>,
    read: Result<IdentityView, Seq<char>>,
    access: AccessStepView,
)
    requires
        config is None || first_value(lines, CF_ACCESS_JWT_HEADER@) is None,
    ensures
        access_of(config, lines) == AccessStepView::Proceed(None),
        access_leads_to(config, lines, read, access) ==> access == AccessStepView::Proceed(None),
{
}

/// Where authentication is configured, a request that has the token's header is never served
/// anonymously, and not at all before its claims are read.
pub proof fn law_token_is_never_ignored(
    config: ConfigView,
    lines: Map<Seq<char>, Seq<Seq<u8>>>,
    read: Result<IdentityView, Seq<char>>,
    access: AccessStepView,
)
    requires
        first_value(lines, CF_ACCESS_JWT_HEADER@) is Some,
    ensures
        !(access_of(Some(config), lines) is Proceed),
        access_leads_to(Some(config), lines, read, access) ==> access != AccessStepView::Proceed(
            None,
        ),
{
}

/// Where authentication is configured, a request whose token is there and is no text is
/// refused.
pub proof fn law_unreadable_token_is_refused(
    config: ConfigView,
    lines: Map<Seq<char>, Seq<Seq<u8>>>,
    read: Result<IdentityView, Seq<char>>,
    access: AccessStepView,
)
    requires
        first_value(lines, CF_ACCESS_JWT_HEADER@) is Some,
        carried_token(lines) is None,
    ensures
        access_of(Some(config), lines) is Reject,
        access_leads_to(Some(config), lines, read, access) ==> access is Reject,
{
}

/// A request is refused in one way only: with status 401 and a body that starts with
/// `Invalid authentication token: `.
pub proof fn law_refusals_are_unauthorized(
    config: Option<ConfigView>,
    lines: Map<Seq<char>, Seq<Seq<u8>>>,
    read: Result<IdentityView, Seq<char>>,
    access: AccessStepView,
)
    requires
        access == access_of(config, lines) || access_leads_to(config, lines, read, access),
    ensures
        access matches AccessStepView::Reject { status, body } ==> status == 401
            && "Invalid authentication token: "@.is_prefix_of(body),
{
}

/// The keys are asked for only while none are cached: once a fetch has succeeded, no request
/// leads to another one.
pub proof fn law_keys_fetched_once(
    config: ConfigView,
    lines: Map<Seq<char>, Seq<Seq<u8>>>,
    read: Result<IdentityView, Seq<char>>,
    access: AccessStepView,
)
    requires
        access == access_of(Some(config), lines) || access_leads_to(
            Some(config),
            lines,
            read,
            access,
        ),
        access is FetchKeys,
    ensures
        config.cache.keys is None,
        access == AccessStepView::FetchKeys(certs_url(config.cache.team)),
{
}

/// A token whose header names no cached key is refused, whatever else it holds.
pub proof fn law_unknown_key_is_refused(
    config: ConfigView,
    lines: Map<Seq<char>, Seq<Seq<u8>>>,
    read: Result<IdentityView, Seq<char>>,
    access: AccessStepView,
)
    requires
        carried_token(lines) is Some,
        config.cache.keys is Some,
        match token_header(carried_token(lines)->0) {
            Ok(header) => match header.key_id {
                Some(id) => first_with_id(jwk_set_entries(config.cache.keys->0), id) is None,
                None => true,
            },
            Err(_) => true,
        },
    ensures
        access_of(Some(config), lines) is Reject,
        access_leads_to(Some(config), lines, read, access) ==> access is Reject,
{
}

/// The text of the claims of the token that a request with the given header lines carries,
/// where the token is authentic and its claims have one.
pub open spec fn claims_text(
    config: ConfigView,
    lines: Map<Seq<char>, Seq<Seq<u8>>>,
) -> Option<Seq<char>> {
    match carried_token(lines) {
        None => None,
        Some(token) => match key_choice(token_header(token), config.cache) {
            KeyChoiceView::Key { key, algorithm } => match token_text(token, key, algorithm) {
                Ok(text) => Some(text),
                Err(_) => None,
            },
            _ => None,
        },
    }
}

/// The claims are read only of the token that the request carries, and only after its
/// signature was accepted.
pub proof fn law_claims_read_of_authentic_tokens(
    config: ConfigView,
    lines: Map<Seq<char>, Seq<Seq<u8>>>,
    token: Seq<char>,
)
    requires
        access_of(Some(config), lines) == AccessStepView::ReadClaims(token),
    ensures
        carried_token(lines) == Some(token),
        key_choice(token_header(token), config.cache) matches KeyChoiceView::Key {
            key,
            algorithm,
        } && !(token_text(token, key, algorithm) matches Err(DecodeErrorView::Other(_))),
{
}

/// An identity is attached to a request only where its token has been verified, at the time of
/// the decision, with the cached key and the algorithm that its header names, the audience of
/// this application and the issuer of the team. The identity is what was read, and is what the
/// claims of the token state.
pub proof fn law_identity_only_of_verified_tokens(
    config: ConfigView,
    lines: Map<Seq<char>, Seq<Seq<u8>>>,
    read: Result<IdentityView, Seq<char>>,
    identity: IdentityView,
) -> (now: u64)
    requires
        access_leads_to(Some(config), lines, read, AccessStepView::Proceed(Some(identity))),
    ensures
        read == Ok::<IdentityView, Seq<char>>(identity),
        carried_token(lines) is Some,
        access_of(Some(config), lines) == AccessStepView::ReadClaims(carried_token(lines)->0),
        key_choice(token_header(carried_token(lines)->0), config.cache) is Key,
        verified_at(
            carried_token(lines)->0,
            key_choice(token_header(carried_token(lines)->0), config.cache)->key,
            key_choice(token_header(carried_token(lines)->0), config.cache)->algorithm,
            config.audience,
            issuer_of(config.cache.team),
            now,
            Ok(()),
        ),
        claims_text(config, lines) matches Some(text) ==> (parsed_json(text) matches Ok(document)
            ==> states_identity(document, identity)),
{
    let token = carried_token(lines)->0;
    let choice = key_choice(token_header(token), config.cache);
    let issuer = issuer_of(config.cache.team);
    let verdict = choose|verdict: JwtVerdictView|
        {
            &&& #[trigger] validation_leads_to(
                choice,
                token,
                config.audience,
                issuer,
                read,
                verdict,
            )
            &&& AccessStepView::Proceed(Some(identity)) == access_after_verdict(verdict)
        };
    assert(verdict == JwtVerdictView::Valid(identity));
    let text = token_text(token, choice->key, choice->algorithm);
    let (now, outcome) = choose|now: u64, outcome: Result<(), Seq<char>>|
        {
            &&& #[trigger] verified_at(
                token,
                choice->key,
                choice->algorithm,
                config.audience,
                issuer,
                now,
                outcome,
            )
            &&& verdict == verified_verdict(outcome, text, read->Ok_0)
        };
    assert(outcome is Ok && outcome->Ok_0 == ());
    now
}

/// A token for another application or of another team is refused, and so is one without an
/// expiry; what its claims were read as does not matter. This is for claims that are JSON text
/// and spell no private name of the JSON reader.
pub proof fn law_foreign_token_is_refused(
    config: ConfigView,
    lines: Map<Seq<char>, Seq<Seq<u8>>>,
    text: Seq<char>,
    read: Result<IdentityView, Seq<char>>,
    access: AccessStepView,
)
    requires
        claims_text(config, lines) == Some(text),
        free_of_markers(text),
        parsed_json(text) is Ok,
        ({
            let claims = parsed_json(text)->Ok_0;
            ||| claims.member("exp"@) is None
            ||| !claim_admits(claims.member("aud"@), config.audience)
            ||| !claim_admits(claims.member("iss"@), issuer_of(config.cache.team))
        }),
        access_leads_to(Some(config), lines, read, access),
    ensures
        access is Reject,
{
    if let AccessStepView::Proceed(Some(identity)) = access {
        let _ = law_identity_only_of_verified_tokens(config, lines, read, identity);
    }
}

/// A token whose claims do not state an identity of the wanted form is refused, whatever they
/// were read as: the email address and the subject are texts, the two times whole numbers.
pub proof fn law_token_without_identity_is_refused(
    config: ConfigView,
    lines: Map<Seq<char>, Seq<Seq<u8>>>,
    text: Seq<char>,
    read: Result<IdentityView, Seq<char>>,
    access: AccessStepView,
)
    requires
        claims_text(config, lines) == Some(text),
        parsed_json(text) is Ok,
        forall|identity: IdentityView| !states_identity(parsed_json(text)->Ok_0, identity),
        access_leads_to(Some(config), lines, read, access),
    ensures
        access is Reject,
{
    if let AccessStepView::Proceed(Some(identity)) = access {
        let _ = law_identity_only_of_verified_tokens(config, lines, read, identity);
    }
}

/// An identity is attached only at a time that is no more than sixty seconds past its expiry.
/// This is for claims that are JSON text and spell no private name of the JSON reader.
pub proof fn law_accepted_token_is_not_expired(
    config: ConfigView,
    lines: Map<Seq<char>, Seq<Seq<u8>>>,
    text: Seq<char>,
    read: Result<IdentityView, Seq<char>>,
    identity: IdentityView,
) -> (now: u64)
    requires
        claims_text(config, lines) == Some(text),
        free_of_markers(text),
        parsed_json(text) is Ok,
        access_leads_to(Some(config), lines, read, AccessStepView::Proceed(Some(identity))),
    ensures
        verified_at(
            carried_token(lines)->0,
            key_choice(token_header(carried_token(lines)->0), config.cache)->key,
            key_choice(token_header(carried_token(lines)->0), config.cache)->algorithm,
            config.audience,
            issuer_of(config.cache.team),
            now,
            Ok(()),
        ),
        now <= identity.exp + 60,
{
    law_identity_only_of_verified_tokens(config, lines, read, identity)
}

} // verus!
