//! What holds of the treatment of requests by Cloudflare Access as a whole, told from what a
//! request carries, what the keys and the token are, and what was read.
use vstd::prelude::*;

use crate::auth::{
    access_after_step, access_after_verdict, access_leads_to, access_of, authenticated_step,
    authentication_of, carried_token, certs_url, claims_result_view, config_option_view,
    issuer_of, key_choice, law_identity_only_of_verified_tokens, refreshed, refusal, reply_keys,
    string_option_view, validation_leads_to, verified_at, verified_verdict, AccessStep,
    AccessStepView, CacheView, CfAccessClaims, CfAccessConfig, CloudflareIdentity, ConfigView,
    IdentityView, JwksReply, JwtStep, JwtStepView, JwtVerdict, JwtVerdictView, KeyChoice,
    KeyChoiceView,
};
use crate::headers::{first_value, header_name, visible_text};
use crate::json::{parsed_json, JsonView};
use crate::jwt::{
    decode_result_view, error_text, first_with_id, header_result_view, jwk_decoding_key,
    jwk_option_view, jwk_set_entries, token_header, token_text, token_verdict, DecodeError,
    DecodeErrorView, TokenHeader, TokenHeaderView,
};

verus! {

/// The lines of the token's header among the lines of a request.
pub open spec fn token_lines(lines: Map<Seq<char>, Seq<Seq<u8>>>) -> Seq<Seq<u8>> {
    if lines.contains_key("cf-access-jwt-assertion"@) {
        lines["cf-access-jwt-assertion"@]
    } else {
        Seq::empty()
    }
}

/// The name of the token's header in the form in which header names are kept.
proof fn lemma_token_header_name()
    ensures
        header_name("Cf-Access-Jwt-Assertion"@) == "cf-access-jwt-assertion"@,
{
    reveal_strlit("Cf-Access-Jwt-Assertion");
    reveal_strlit("cf-access-jwt-assertion");
    assert(header_name("Cf-Access-Jwt-Assertion"@) == "cf-access-jwt-assertion"@);
}

/// The token of a request is the first line of its header, character for byte, where all of its
/// bytes are printable ASCII or tabs; otherwise there is none. Further lines and other headers do
/// not matter.
pub proof fn law_token_is_first_line(lines: Map<Seq<char>, Seq<Seq<u8>>>, token: Seq<char>)
    ensures
        carried_token(lines) == Some(token) <==> {
            &&& token_lines(lines).len() > 0
            &&& token.len() == token_lines(lines)[0].len()
            &&& forall|i: int|
                0 <= i < token.len() ==> {
                    let byte = #[trigger] token_lines(lines)[0][i];
                    &&& (32 <= byte < 127 || byte == 9)
                    &&& token[i] == byte as char
                }
        },
        first_value(lines, "Cf-Access-Jwt-Assertion"@) is Some <==> token_lines(lines).len() > 0,
{
    lemma_token_header_name();
    if token_lines(lines).len() > 0 {
        let bytes = token_lines(lines)[0];
        assert(first_value(lines, "Cf-Access-Jwt-Assertion"@) == Some(bytes));
        if carried_token(lines) == Some(token) {
            assert(visible_text(bytes) == Some(token));
        }
        if token.len() == bytes.len() && forall|i: int|
            0 <= i < token.len() ==> {
                let byte = #[trigger] bytes[i];
                &&& (32 <= byte < 127 || byte == 9)
                &&& token[i] == byte as char
            } {
            assert(visible_text(bytes) is Some);
            assert(visible_text(bytes)->0 == token);
        }
    }
}

/// The place of the key with id `id` in a key set is that of the first entry that bears it.
pub proof fn law_first_key_with_id_is_found(
    entries: Seq<(Option<Seq<char>>, jsonwebtoken::jwk::Jwk)>,
    id: Seq<char>,
    place: int,
)
    requires
        0 <= place < entries.len(),
        entries[place].0 == Some(id),
        forall|i: int| 0 <= i < place ==> (#[trigger] entries[i]).0 != Some(id),
    ensures
        first_with_id(entries, id) == Some(entries[place].1),
    decreases entries.len(),
{
    if place > 0 {
        let rest = entries.drop_first();
        assert(entries[0].0 != Some(id));
        assert forall|i: int| 0 <= i < place - 1 implies (#[trigger] rest[i]).0 != Some(id) by {
            assert(entries[i + 1].0 != Some(id));
        }
        law_first_key_with_id_is_found(rest, id, place - 1);
    }
}

/// No key is found where no entry of a key set bears the id.
pub proof fn law_missing_key_is_not_found(
    entries: Seq<(Option<Seq<char>>, jsonwebtoken::jwk::Jwk)>,
    id: Seq<char>,
)
    requires
        forall|i: int| 0 <= i < entries.len() ==> (#[trigger] entries[i]).0 != Some(id),
    ensures
        first_with_id(entries, id) is None,
    decreases entries.len(),
{
    if entries.len() > 0 {
        let rest = entries.drop_first();
        assert(entries[0].0 != Some(id));
        assert forall|i: int| 0 <= i < rest.len() implies (#[trigger] rest[i]).0 != Some(id) by {
            assert(entries[i + 1].0 != Some(id));
        }
        law_missing_key_is_not_found(rest, id);
    }
}

proof fn lemma_place_of_found_key(
    entries: Seq<(Option<Seq<char>>, jsonwebtoken::jwk::Jwk)>,
    id: Seq<char>,
) -> (place: int)
    requires
        first_with_id(entries, id) is Some,
    ensures
        0 <= place < entries.len(),
        entries[place].0 == Some(id),
        forall|i: int| 0 <= i < place ==> (#[trigger] entries[i]).0 != Some(id),
        first_with_id(entries, id) == Some(entries[place].1),
    decreases entries.len(),
{
    if entries[0].0 == Some(id) {
        0
    } else {
        let rest = entries.drop_first();
        let place = lemma_place_of_found_key(rest, id) + 1;
        assert forall|i: int| 0 <= i < place implies (#[trigger] entries[i]).0 != Some(id) by {
            if i > 0 {
                assert(rest[i - 1].0 != Some(id));
            }
        }
        place
    }
}

/// A token is to be verified with the first cached key that bears the id of its header, and with
/// the algorithm of its header.
pub proof fn law_token_is_verified_with_its_own_key(
    header: TokenHeaderView,
    id: Seq<char>,
    keys: jsonwebtoken::jwk::JwkSet,
    team: Seq<char>,
    place: int,
    key: jsonwebtoken::DecodingKey,
)
    requires
        header.key_id == Some(id),
        0 <= place < jwk_set_entries(keys).len(),
        jwk_set_entries(keys)[place].0 == Some(id),
        forall|i: int| 0 <= i < place ==> (#[trigger] jwk_set_entries(keys)[i]).0 != Some(id),
        jwk_decoding_key(jwk_set_entries(keys)[place].1) == Ok::<
            jsonwebtoken::DecodingKey,
            Seq<char>,
        >(key),
    ensures
        key_choice(Ok(header), CacheView { keys: Some(keys), team }) == (KeyChoiceView::Key {
            key,
            algorithm: header.algorithm,
        }),
{
    law_first_key_with_id_is_found(jwk_set_entries(keys), id, place);
}

/// A request is served under the identity that its claims state, whatever that identity is,
/// wherever its token names a cached key that can be used, has an accepted signature and holds
/// at every time for this application and this team, and its claims were read as they are
/// written.
pub proof fn law_valid_token_is_served(
    config: ConfigView,
    lines: Map<Seq<char>, Seq<Seq<u8>>>,
    token: Seq<char>,
    header: TokenHeaderView,
    place: int,
    key: jsonwebtoken::DecodingKey,
    claims: IdentityView,
    access: AccessStepView,
)
    requires
        carried_token(lines) == Some(token),
        token_header(token) == Ok::<TokenHeaderView, Seq<char>>(header),
        header.key_id is Some,
        config.cache.keys is Some,
        ({
            let entries = jwk_set_entries(config.cache.keys->0);
            &&& 0 <= place < entries.len()
            &&& entries[place].0 == header.key_id
            &&& forall|i: int| 0 <= i < place ==> (#[trigger] entries[i]).0 != header.key_id
            &&& jwk_decoding_key(entries[place].1) == Ok::<jsonwebtoken::DecodingKey, Seq<char>>(
                key,
            )
        }),
        match token_text(token, key, header.algorithm) {
            Ok(text) => match parsed_json(text) {
                Ok(document) => {
                    &&& document.member("email"@) == Some(JsonView::Text(claims.email))
                    &&& document.member("sub"@) == Some(JsonView::Text(claims.sub))
                    &&& document.member("iat"@) == Some(JsonView::Integer(claims.iat as int))
                    &&& document.member("exp"@) == Some(JsonView::Integer(claims.exp as int))
                    &&& document.member("aud"@) is Some
                    &&& claims.identity_nonce matches Some(nonce) ==> document.member(
                        "identity_nonce"@,
                    ) == Some(JsonView::Text(nonce))
                    &&& claims.identity_nonce is None ==> document.member("identity_nonce"@) is None
                        || document.member("identity_nonce"@) == Some(JsonView::Null)
                },
                Err(_) => true,
            },
            Err(error) => error is Json,
        },
        forall|now: u64| #[trigger]
            token_verdict(
                token,
                key,
                header.algorithm,
                config.audience,
                "https://"@ + config.cache.team + ".cloudflareaccess.com"@,
                now,
            ) is Ok,
        access_leads_to(Some(config), lines, Ok(claims), access),
    ensures
        access == AccessStepView::Proceed(Some(claims)),
        access_of(Some(config), lines) == AccessStepView::ReadClaims(token),
{
    law_first_key_with_id_is_found(
        jwk_set_entries(config.cache.keys->0),
        header.key_id->0,
        place,
    );
    law_token_is_first_line(lines, token);
    let choice = key_choice(token_header(token), config.cache);
    assert(choice == KeyChoiceView::Key { key, algorithm: header.algorithm });
    let issuer = issuer_of(config.cache.team);
    let verdict = choose|verdict: JwtVerdictView|
        {
            &&& #[trigger] validation_leads_to(
                choice,
                token,
                config.audience,
                issuer,
                Ok(claims),
                verdict,
            )
            &&& access == access_after_verdict(verdict)
        };
    assert(verdict == JwtVerdictView::Valid(claims));
}

/// Once the claims of an authentic token were read, its verdict at the time of the decision, and
/// nothing else, decides: where the token holds then and its claims are written as they were
/// read, the request is served under them; where it does not hold, it is answered with 401 and
/// the reason. Tells the time.
pub proof fn law_decision_follows_verdict(
    config: ConfigView,
    lines: Map<Seq<char>, Seq<Seq<u8>>>,
    token: Seq<char>,
    header: TokenHeaderView,
    place: int,
    key: jsonwebtoken::DecodingKey,
    claims: IdentityView,
    access: AccessStepView,
) -> (now: u64)
    requires
        carried_token(lines) == Some(token),
        token_header(token) == Ok::<TokenHeaderView, Seq<char>>(header),
        header.key_id is Some,
        config.cache.keys is Some,
        ({
            let entries = jwk_set_entries(config.cache.keys->0);
            &&& 0 <= place < entries.len()
            &&& entries[place].0 == header.key_id
            &&& forall|i: int| 0 <= i < place ==> (#[trigger] entries[i]).0 != header.key_id
            &&& jwk_decoding_key(entries[place].1) == Ok::<jsonwebtoken::DecodingKey, Seq<char>>(
                key,
            )
        }),
        !(token_text(token, key, header.algorithm) matches Err(DecodeErrorView::Other(_))),
        access_leads_to(Some(config), lines, Ok(claims), access),
    ensures
        match token_verdict(
            token,
            key,
            header.algorithm,
            config.audience,
            "https://"@ + config.cache.team + ".cloudflareaccess.com"@,
            now,
        ) {
            Err(error) => access == (AccessStepView::Reject {
                status: 401,
                body: "Invalid authentication token: "@ + ("JWT validation failed: "@ + error),
            }),
            Ok(_) => match token_text(token, key, header.algorithm) {
                Ok(text) => match parsed_json(text) {
                    Ok(document) => {
                        let written = {
                            &&& document.member("email"@) == Some(JsonView::Text(claims.email))
                            &&& document.member("sub"@) == Some(JsonView::Text(claims.sub))
                            &&& document.member("iat"@) == Some(
                                JsonView::Integer(claims.iat as int),
                            )
                            &&& document.member("exp"@) == Some(
                                JsonView::Integer(claims.exp as int),
                            )
                            &&& document.member("aud"@) is Some
                            &&& claims.identity_nonce matches Some(nonce) ==> document.member(
                                "identity_nonce"@,
                            ) == Some(JsonView::Text(nonce))
                            &&& claims.identity_nonce is None ==> document.member(
                                "identity_nonce"@,
                            ) is None || document.member("identity_nonce"@) == Some(JsonView::Null)
                        };
                        &&& written ==> access == AccessStepView::Proceed(Some(claims))
                        &&& !written ==> access is Reject
                    },
                    Err(_) => access == AccessStepView::Proceed(Some(claims)),
                },
                Err(_) => access == AccessStepView::Proceed(Some(claims)),
            },
        },
{
    law_first_key_with_id_is_found(
        jwk_set_entries(config.cache.keys->0),
        header.key_id->0,
        place,
    );
    law_token_is_first_line(lines, token);
    let choice = key_choice(token_header(token), config.cache);
    assert(choice == KeyChoiceView::Key { key, algorithm: header.algorithm });
    let issuer = issuer_of(config.cache.team);
    let verdict = choose|verdict: JwtVerdictView|
        {
            &&& #[trigger] validation_leads_to(
                choice,
                token,
                config.audience,
                issuer,
                Ok(claims),
                verdict,
            )
            &&& access == access_after_verdict(verdict)
        };
    let text = token_text(token, key, header.algorithm);
    let (now, outcome) = choose|now: u64, outcome: Result<(), Seq<char>>|
        {
            &&& #[trigger] verified_at(
                token,
                key,
                header.algorithm,
                config.audience,
                issuer,
                now,
                outcome,
            )
            &&& verdict == verified_verdict(outcome, text, claims)
        };
    now
}

/// A token that holds at no time is refused, with the reason for which it does not hold.
pub proof fn law_token_that_never_holds_is_refused(
    config: ConfigView,
    lines: Map<Seq<char>, Seq<Seq<u8>>>,
    token: Seq<char>,
    header: TokenHeaderView,
    key: jsonwebtoken::DecodingKey,
    claims: IdentityView,
    access: AccessStepView,
) -> (now: u64)
    requires
        carried_token(lines) == Some(token),
        token_header(token) == Ok::<TokenHeaderView, Seq<char>>(header),
        key_choice(token_header(token), config.cache) == (KeyChoiceView::Key {
            key,
            algorithm: header.algorithm,
        }),
        !(token_text(token, key, header.algorithm) matches Err(DecodeErrorView::Other(_))),
        forall|now: u64| #[trigger]
            token_verdict(
                token,
                key,
                header.algorithm,
                config.audience,
                "https://"@ + config.cache.team + ".cloudflareaccess.com"@,
                now,
            ) is Err,
        access_leads_to(Some(config), lines, Ok(claims), access),
    ensures
        access == (AccessStepView::Reject {
            status: 401,
            body: "Invalid authentication token: "@ + ("JWT validation failed: "@ + token_verdict(
                token,
                key,
                header.algorithm,
                config.audience,
                "https://"@ + config.cache.team + ".cloudflareaccess.com"@,
                now,
            )->Err_0),
        }),
{
    law_token_is_first_line(lines, token);
    let choice = key_choice(token_header(token), config.cache);
    let issuer = issuer_of(config.cache.team);
    let verdict = choose|verdict: JwtVerdictView|
        {
            &&& #[trigger] validation_leads_to(
                choice,
                token,
                config.audience,
                issuer,
                Ok(claims),
                verdict,
            )
            &&& access == access_after_verdict(verdict)
        };
    let text = token_text(token, key, header.algorithm);
    let (now, outcome) = choose|now: u64, outcome: Result<(), Seq<char>>|
        {
            &&& #[trigger] verified_at(
                token,
                key,
                header.algorithm,
                config.audience,
                issuer,
                now,
                outcome,
            )
            &&& verdict == verified_verdict(outcome, text, claims)
        };
    assert(outcome is Err);
    now
}

/// A request is served under an identity only where its token names a cached key that can be
/// used, has an accepted signature, holds at the time of the decision for this application and
/// this team, and its claims are written as the identity tells. Tells the place of the key and
/// the time.
pub proof fn law_served_identity_is_written_in_token(
    config: ConfigView,
    lines: Map<Seq<char>, Seq<Seq<u8>>>,
    read: Result<IdentityView, Seq<char>>,
    identity: IdentityView,
) -> (found: (int, u64))
    requires
        access_leads_to(Some(config), lines, read, AccessStepView::Proceed(Some(identity))),
    ensures
        read == Ok::<IdentityView, Seq<char>>(identity),
        carried_token(lines) is Some,
        token_header(carried_token(lines)->0) is Ok,
        config.cache.keys is Some,
        ({
            let (place, now) = found;
            let token = carried_token(lines)->0;
            let header = token_header(token)->Ok_0;
            let entries = jwk_set_entries(config.cache.keys->0);
            let key = jwk_decoding_key(entries[place].1)->Ok_0;
            &&& header.key_id is Some
            &&& 0 <= place < entries.len()
            &&& entries[place].0 == header.key_id
            &&& forall|i: int| 0 <= i < place ==> (#[trigger] entries[i]).0 != header.key_id
            &&& jwk_decoding_key(entries[place].1) is Ok
            &&& token_verdict(
                token,
                key,
                header.algorithm,
                config.audience,
                "https://"@ + config.cache.team + ".cloudflareaccess.com"@,
                now,
            ) is Ok
            &&& !(token_text(token, key, header.algorithm) matches Err(DecodeErrorView::Other(_)))
            &&& token_text(token, key, header.algorithm) matches Ok(text) ==> (parsed_json(
                text,
            ) matches Ok(document) ==> {
                &&& document.member("email"@) == Some(JsonView::Text(identity.email))
                &&& document.member("sub"@) == Some(JsonView::Text(identity.sub))
                &&& document.member("iat"@) == Some(JsonView::Integer(identity.iat as int))
                &&& document.member("exp"@) == Some(JsonView::Integer(identity.exp as int))
                &&& document.member("aud"@) is Some
                &&& identity.identity_nonce matches Some(nonce) ==> document.member(
                    "identity_nonce"@,
                ) == Some(JsonView::Text(nonce))
                &&& identity.identity_nonce is None ==> document.member("identity_nonce"@) is None
                    || document.member("identity_nonce"@) == Some(JsonView::Null)
            })
        }),
{
    let now = law_identity_only_of_verified_tokens(config, lines, read, identity);
    let token = carried_token(lines)->0;
    let header = token_header(token)->Ok_0;
    let place = lemma_place_of_found_key(
        jwk_set_entries(config.cache.keys->0),
        header.key_id->0,
    );
    (place, now)
}

/// A request without the token's header, and every request where authentication is not
/// configured, is served anonymously; where it is configured, a header whose first line is not
/// printable ASCII is answered with 401.
pub proof fn law_requests_without_readable_token(
    config: ConfigView,
    lines: Map<Seq<char>, Seq<Seq<u8>>>,
    read: Result<IdentityView, Seq<char>>,
    access: AccessStepView,
)
    ensures
        access_of(None, lines) == AccessStepView::Proceed(None),
        access_leads_to(None, lines, read, access) <==> access == AccessStepView::Proceed(None),
        token_lines(lines).len() == 0 ==> access_of(Some(config), lines)
            == AccessStepView::Proceed(None),
        token_lines(lines).len() == 0 ==> (access_leads_to(Some(config), lines, read, access)
            <==> access == AccessStepView::Proceed(None)),
        token_lines(lines).len() > 0 && carried_token(lines) is None ==> access_of(
            Some(config),
            lines,
        ) == (AccessStepView::Reject {
            status: 401,
            body: "Invalid authentication token: "@ + "JWT header is not visible ASCII"@,
        }),
        token_lines(lines).len() > 0 && carried_token(lines) is None ==> (access_leads_to(
            Some(config),
            lines,
            read,
            access,
        ) <==> access == (AccessStepView::Reject {
            status: 401,
            body: "Invalid authentication token: "@ + "JWT header is not visible ASCII"@,
        })),
{
    law_token_is_first_line(lines, Seq::empty());
}

/// A token for which there is no key to verify it is answered with 401 and the reason: its header
/// cannot be read, names no key or one that is not there, or the key cannot be used. Where no
/// keys are there at all, those of the team are fetched first.
pub proof fn law_tokens_without_usable_key(
    config: ConfigView,
    lines: Map<Seq<char>, Seq<Seq<u8>>>,
    read: Result<IdentityView, Seq<char>>,
    access: AccessStepView,
    place: int,
)
    requires
        carried_token(lines) is Some,
        access == access_of(Some(config), lines) || access_leads_to(
            Some(config),
            lines,
            read,
            access,
        ),
    ensures
        match token_header(carried_token(lines)->0) {
            Err(error) => access == (AccessStepView::Reject {
                status: 401,
                body: "Invalid authentication token: "@ + ("Failed to decode JWT header: "@
                    + error),
            }),
            Ok(header) => match (header.key_id, config.cache.keys) {
                (None, _) => access == (AccessStepView::Reject {
                    status: 401,
                    body: "Invalid authentication token: "@ + "JWT header missing 'kid' field"@,
                }),
                (Some(id), None) => access == AccessStepView::FetchKeys(
                    "https://"@ + config.cache.team
                        + ".cloudflareaccess.com/cdn-cgi/access/certs"@,
                ),
                (Some(id), Some(keys)) => {
                    let entries = jwk_set_entries(keys);
                    &&& (forall|i: int|
                        0 <= i < entries.len() ==> (#[trigger] entries[i]).0 != Some(id))
                        ==> access == (AccessStepView::Reject {
                        status: 401,
                        body: "Invalid authentication token: "@ + (
                        "No matching key found for kid: "@ + id),
                    })
                    &&& 0 <= place < entries.len() && entries[place].0 == Some(id) && (forall|
                        i: int,
                    |
                        0 <= i < place ==> (#[trigger] entries[i]).0 != Some(id)) ==> (
                    jwk_decoding_key(entries[place].1) matches Err(error) ==> access == (
                    AccessStepView::Reject {
                        status: 401,
                        body: "Invalid authentication token: "@ + (
                        "Failed to create decoding key from JWK: "@ + error),
                    }))
                },
            },
        },
{
    law_token_is_first_line(lines, carried_token(lines)->0);
    if let Ok(header) = token_header(carried_token(lines)->0) {
        if header.key_id is Some && config.cache.keys is Some {
            let id = header.key_id->0;
            let entries = jwk_set_entries(config.cache.keys->0);
            if forall|i: int| 0 <= i < entries.len() ==> (#[trigger] entries[i]).0 != Some(id) {
                law_missing_key_is_not_found(entries, id);
            }
            if 0 <= place < entries.len() && entries[place].0 == Some(id) && forall|i: int|
                0 <= i < place ==> (#[trigger] entries[i]).0 != Some(id) {
                law_first_key_with_id_is_found(entries, id, place);
            }
        }
    }
}

/// With a key, the signature comes first: a token whose signature or form is bad is answered with
/// 401 and the reason, before and after its claims are read; any other token has its claims
/// read, and is answered with 401 and the reason where they could not be.
pub proof fn law_signature_comes_before_claims(
    config: ConfigView,
    lines: Map<Seq<char>, Seq<Seq<u8>>>,
    token: Seq<char>,
    key: jsonwebtoken::DecodingKey,
    algorithm: jsonwebtoken::Algorithm,
    read: Result<IdentityView, Seq<char>>,
    access: AccessStepView,
)
    requires
        carried_token(lines) == Some(token),
        key_choice(token_header(token), config.cache) == (KeyChoiceView::Key { key, algorithm }),
        access_leads_to(Some(config), lines, read, access),
    ensures
        match token_text(token, key, algorithm) {
            Err(DecodeErrorView::Other(error)) => {
                &&& access_of(Some(config), lines) == (AccessStepView::Reject {
                    status: 401,
                    body: "Invalid authentication token: "@ + ("JWT validation failed: "@ + error),
                })
                &&& access == access_of(Some(config), lines)
            },
            _ => {
                &&& access_of(Some(config), lines) == AccessStepView::ReadClaims(token)
                &&& read matches Err(error) ==> access == (AccessStepView::Reject {
                    status: 401,
                    body: "Invalid authentication token: "@ + ("JWT validation failed: "@ + error),
                })
                &&& read is Ok ==> access is Reject || access == AccessStepView::Proceed(
                    Some(read->Ok_0),
                )
            },
        },
{
    law_token_is_first_line(lines, token);
}

/// What each finding on a token leads to, and what each of these leads to for the request.
pub proof fn law_findings_lead_on(
    text: Seq<char>,
    error: Seq<char>,
    claims: IdentityView,
    token: Seq<char>,
)
    ensures
        authenticated_step(Ok(text)) is Authentic,
        authenticated_step(Err(DecodeErrorView::Json(error))) is Authentic,
        authenticated_step(Err(DecodeErrorView::Other(error))) == JwtStepView::Invalid(
            "JWT validation failed: "@ + error,
        ),
        authentication_of(KeyChoiceView::Unusable(error), token) == JwtStepView::Invalid(error),
        authentication_of(KeyChoiceView::KeysNeeded(text), token) == JwtStepView::KeysNeeded(text),
        verified_verdict(Err(error), Ok(text), claims) == JwtVerdictView::Invalid(
            "JWT validation failed: "@ + error,
        ),
        verified_verdict(Ok(()), Err(DecodeErrorView::Json(error)), claims)
            == JwtVerdictView::Valid(claims),
        parsed_json(text) is Err ==> verified_verdict(Ok(()), Ok(text), claims)
            == JwtVerdictView::Valid(claims),
        access_after_step(JwtStepView::KeysNeeded(text), token) == AccessStepView::FetchKeys(text),
        access_after_step(JwtStepView::Authentic, token) == AccessStepView::ReadClaims(token),
        access_after_step(JwtStepView::Invalid(error), token) == access_after_verdict(
            JwtVerdictView::Invalid(error),
        ),
        access_after_verdict(JwtVerdictView::KeysNeeded(text)) == AccessStepView::FetchKeys(text),
        access_after_verdict(JwtVerdictView::Valid(claims)) == AccessStepView::Proceed(
            Some(claims),
        ),
        access_after_verdict(JwtVerdictView::Invalid(error)) == (AccessStepView::Reject {
            status: 401,
            body: "Invalid authentication token: "@ + error,
        }),
        refusal(error) == (AccessStepView::Reject {
            status: 401,
            body: "Invalid authentication token: "@ + error,
        }),
{
}

/// The verdict on claims whose text is a document turns on what that document says of the
/// identity: where it says the same the identity is valid, and where any part differs it is not.
pub proof fn law_verdict_turns_on_what_is_written(
    text: Seq<char>,
    document: JsonView,
    claims: IdentityView,
)
    requires
        parsed_json(text) == Ok::<JsonView, Seq<char>>(document),
    ensures
        verified_verdict(Ok(()), Ok(text), claims) == JwtVerdictView::Valid(claims) <==> {
            &&& document.member("email"@) == Some(JsonView::Text(claims.email))
            &&& document.member("sub"@) == Some(JsonView::Text(claims.sub))
            &&& document.member("iat"@) == Some(JsonView::Integer(claims.iat as int))
            &&& document.member("exp"@) == Some(JsonView::Integer(claims.exp as int))
            &&& document.member("aud"@) is Some
            &&& claims.identity_nonce matches Some(nonce) ==> document.member("identity_nonce"@)
                == Some(JsonView::Text(nonce))
            &&& claims.identity_nonce is None ==> document.member("identity_nonce"@) is None
                || document.member("identity_nonce"@) == Some(JsonView::Null)
        },
        verified_verdict(Ok(()), Ok(text), claims) == JwtVerdictView::Valid(claims)
            || verified_verdict(Ok(()), Ok(text), claims) == JwtVerdictView::Invalid(
            "JWT claims are not those of the token"@,
        ),
{
}

/// The reply to the request for the keys gives the keys it holds, and otherwise an error that
/// tells why there are none; a team's addresses are its own.
pub proof fn law_reply_gives_keys_or_reason(
    keys: jsonwebtoken::jwk::JwkSet,
    reason: String,
    cache: CacheView,
)
    ensures
        reply_keys(JwksReply::Body(Ok(keys))) == Ok::<jsonwebtoken::jwk::JwkSet, Seq<char>>(keys),
        reply_keys(JwksReply::Body(Err(reason))) == Err::<jsonwebtoken::jwk::JwkSet, Seq<char>>(
            "Failed to parse JWKS: "@ + reason@,
        ),
        reply_keys(JwksReply::Refused(reason)) == Err::<jsonwebtoken::jwk::JwkSet, Seq<char>>(
            "JWKS fetch returned status: "@ + reason@,
        ),
        reply_keys(JwksReply::Unreachable(reason)) == Err::<jsonwebtoken::jwk::JwkSet, Seq<char>>(
            "Failed to fetch JWKS: "@ + reason@,
        ),
        refreshed(cache, Ok(keys)) == (CacheView { keys: Some(keys), team: cache.team }),
        refreshed(cache, Err(reason@)) == cache,
        certs_url(cache.team) == "https://"@ + cache.team
            + ".cloudflareaccess.com/cdn-cgi/access/certs"@,
        issuer_of(cache.team) == "https://"@ + cache.team + ".cloudflareaccess.com"@,
{
}

/// The views of identities and claims leave nothing out and change nothing.
pub proof fn law_identity_views_are_faithful(
    identity: CloudflareIdentity,
    claims: CfAccessClaims,
    text: String,
)
    ensures
        identity@.email == identity.email@,
        identity@.sub == identity.sub@,
        identity@.iat == identity.iat,
        identity@.exp == identity.exp,
        identity@.identity_nonce is Some <==> identity.identity_nonce is Some,
        identity.identity_nonce matches Some(nonce) ==> identity@.identity_nonce == Some(nonce@),
        claims@.email == claims.email@,
        claims@.sub == claims.sub@,
        claims@.iat == claims.iat,
        claims@.exp == claims.exp,
        claims@.identity_nonce is Some <==> claims.identity_nonce is Some,
        claims.identity_nonce matches Some(nonce) ==> claims@.identity_nonce == Some(nonce@),
        claims_result_view(Ok(claims)) == Ok::<IdentityView, Seq<char>>(claims@),
        claims_result_view(Err(text)) == Err::<IdentityView, Seq<char>>(text@),
        string_option_view(Some(text)) == Some(text@),
        string_option_view(None) is None,
{
}

/// The views of steps, verdicts and configurations leave nothing out and change nothing.
pub proof fn law_access_views_are_faithful(
    text: String,
    identity: CloudflareIdentity,
    status: u16,
    key: jsonwebtoken::DecodingKey,
    algorithm: jsonwebtoken::Algorithm,
    config: CfAccessConfig,
)
    ensures
        AccessStep::Proceed(Some(identity))@ == AccessStepView::Proceed(Some(identity@)),
        AccessStep::Proceed(None)@ == AccessStepView::Proceed(None),
        AccessStep::FetchKeys(text)@ == AccessStepView::FetchKeys(text@),
        AccessStep::ReadClaims(text)@ == AccessStepView::ReadClaims(text@),
        (AccessStep::Reject { status, body: text })@ == (AccessStepView::Reject {
            status,
            body: text@,
        }),
        JwtStep::KeysNeeded(text)@ == JwtStepView::KeysNeeded(text@),
        JwtStep::Authentic@ == JwtStepView::Authentic,
        JwtStep::Invalid(text)@ == JwtStepView::Invalid(text@),
        JwtVerdict::KeysNeeded(text)@ == JwtVerdictView::KeysNeeded(text@),
        JwtVerdict::Valid(identity)@ == JwtVerdictView::Valid(identity@),
        JwtVerdict::Invalid(text)@ == JwtVerdictView::Invalid(text@),
        (KeyChoice::Key { key, algorithm })@ == (KeyChoiceView::Key { key, algorithm }),
        KeyChoice::KeysNeeded(text)@ == KeyChoiceView::KeysNeeded(text@),
        KeyChoice::Unusable(text)@ == KeyChoiceView::Unusable(text@),
        config@.audience == config.audience@,
        config@.cache == config.jwks_cache@,
        config_option_view(Some(config)) == Some(config@),
        config_option_view(None) is None,
{
}

/// The views of what the calls on tokens and keys return leave nothing out and change nothing.
pub proof fn law_token_views_are_faithful(
    header: TokenHeader,
    text: String,
    error: DecodeError,
    jwk: &jsonwebtoken::jwk::Jwk,
)
    ensures
        header@.algorithm == header.algorithm,
        header@.key_id is Some <==> header.key_id is Some,
        header.key_id matches Some(id) ==> header@.key_id == Some(id@),
        header_result_view(Ok(header)) == Ok::<TokenHeaderView, Seq<char>>(header@),
        header_result_view(Err(text)) == Err::<TokenHeaderView, Seq<char>>(text@),
        decode_result_view(Ok(text)) == Ok::<Seq<char>, DecodeErrorView>(text@),
        decode_result_view(Err(error)) == Err::<Seq<char>, DecodeErrorView>(error@),
        DecodeError::Json(text)@ == DecodeErrorView::Json(text@),
        DecodeError::Other(text)@ == DecodeErrorView::Other(text@),
        error_text::<()>(Err(text)) == Err::<(), Seq<char>>(text@),
        error_text::<()>(Ok(())) is Ok,
        jwk_option_view(Some(jwk)) == Some(*jwk),
        jwk_option_view(None) is None,
{
}

} // verus!
