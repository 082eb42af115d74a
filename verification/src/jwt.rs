//! Token verification: the sole gate between an untrusted bearer string and
//! an authenticated identity.
//!
//! The cryptographic work — parsing the armored RSA key, checking the
//! envelope and the RS256 signature, deserializing the payload — is done by
//! the `jsonwebtoken` and `serde_json` crates behind a few trusted items.
//! Everything semantic is verified here: which claims a payload must carry,
//! the expiry check against the caller's clock, the exact issuer match and
//! the audience intersection, each tied to the step-tagged rejection it
//! produces.

use vstd::prelude::*;

use std::collections::HashSet;

use crate::auth::{AuthConfiguration, AuthOutcome, Issuer, IssuerView, Token, TokenView, VerifyError};
use crate::pem::pem_of;

use jsonwebtoken::{decode, Algorithm, DecodingKey, Validation};
use jsonwebtoken::errors::ErrorKind;

verus! {

#[verifier::external_type_specification]
#[verifier::external_body]
pub struct ExValue(serde_json::Value);

/// Spec-level image of one field of a decoded payload object, as the
/// engine reads it: the JSON types the claims may carry, and `Other` for
/// any value of a different shape (a float, a negative or oversized
/// number, a nested object, an array holding a non-string).
pub ghost enum JsonField {
    Str(Seq<char>),
    UInt(u64),
    Bool(bool),
    StrArr(Seq<Seq<char>>),
    Other,
}

/// Names what a decoded payload value holds: the map from field name to
/// field image that the trusted field readers below jointly describe. The
/// classification of a field is fixed by the value alone.
pub uninterp spec fn json_fields(v: serde_json::Value) -> Map<Seq<char>, JsonField>;

/// Names the outcome of decoding a token against a PEM-armored key under
/// RS256 with no claim validation: the payload's field map on success, the
/// classified rejection otherwise. RSA signature verification, base64 and
/// JSON decoding are all functions of the two texts alone, so the outcome
/// deserves a name.
pub uninterp spec fn rs256_payload(jwt: Seq<char>, pem: Seq<char>) -> Result<
    Map<Seq<char>, JsonField>,
    VerifyError,
>;

/// Relies on `jsonwebtoken::DecodingKey::from_rsa_pem` and
/// `jsonwebtoken::decode`: the first parses the armored RSA public key,
/// the second checks the token envelope, accepts the fixed algorithm set
/// `{RS256}` — never the header's own claim — verifies the signature and
/// deserializes the payload. Every claim validation of the crate is turned
/// off here (no clock is read); the verified callers perform it. A bad
/// key, a bad envelope or an undecodable payload is `Malformed`; a wrong
/// signature or a non-RS256 algorithm is `SignatureInvalid`.
#[verifier::external_body]
fn decode_rs256(jwt: &str, pem: &str) -> (r: Result<serde_json::Value, VerifyError>)
    ensures
        match r {
            Ok(v) => rs256_payload(jwt@, pem@) matches Ok(p) && p == json_fields(v),
            Err(e) => rs256_payload(jwt@, pem@) matches Err(e2) && e2 == e && (e
                == VerifyError::SignatureInvalid || e == VerifyError::Malformed),
        },
{
    let key = match DecodingKey::from_rsa_pem(pem.as_bytes()) {
        Ok(k) => k,
        Err(_) => return Err(VerifyError::Malformed),
    };
    let v = Validation {
        validate_exp: false, validate_aud: false, required_spec_claims: HashSet::new(),
        ..Validation::new(Algorithm::RS256) };
    match decode::<serde_json::Value>(jwt, &key, &v) {
        Ok(data) => Ok(data.claims),
        Err(e) => Err(match e.kind() {
            ErrorKind::InvalidSignature | ErrorKind::InvalidAlgorithm => VerifyError::SignatureInvalid,
            _ => VerifyError::Malformed,
        }),
    }
}

/// Relies on `serde_json::Value::get` and `Value::as_str`: the named
/// field's text, when the payload carries it as a JSON string.
#[verifier::external_body]
fn get_str_field(v: &serde_json::Value, name: &str) -> (r: Option<String>)
    ensures
        match r {
            Some(s) => json_fields(*v).contains_key(name@) && json_fields(*v)[name@]
                == JsonField::Str(s@),
            None => !(json_fields(*v).contains_key(name@) && json_fields(*v)[name@] is Str),
        },
{
    match v.get(name) {
        Some(f) => match f.as_str() {
            Some(s) => Some(s.to_string()),
            None => None,
        },
        None => None,
    }
}

/// Relies on `serde_json::Value::get` and `Value::as_u64`: the named
/// field's value, when the payload carries it as an integer representable
/// in a `u64`.
#[verifier::external_body]
fn get_u64_field(v: &serde_json::Value, name: &str) -> (r: Option<u64>)
    ensures
        match r {
            Some(x) => json_fields(*v).contains_key(name@) && json_fields(*v)[name@]
                == JsonField::UInt(x),
            None => !(json_fields(*v).contains_key(name@) && json_fields(*v)[name@] is UInt),
        },
{
    match v.get(name) {
        Some(f) => f.as_u64(),
        None => None,
    }
}

/// Relies on `serde_json::Value::get` and `Value::as_bool`: the named
/// field's value, when the payload carries it as a JSON boolean.
#[verifier::external_body]
fn get_bool_field(v: &serde_json::Value, name: &str) -> (r: Option<bool>)
    ensures
        match r {
            Some(b) => json_fields(*v).contains_key(name@) && json_fields(*v)[name@]
                == JsonField::Bool(b),
            None => !(json_fields(*v).contains_key(name@) && json_fields(*v)[name@] is Bool),
        },
{
    match v.get(name) {
        Some(f) => f.as_bool(),
        None => None,
    }
}

/// Relies on `serde_json::Value::get`, `Value::as_array` and
/// `Value::as_str`: the named field's texts, in order, when the payload
/// carries it as a JSON array whose elements are all strings. The loop
/// only converts, element for element.
#[verifier::external_body]
fn get_str_arr_field(v: &serde_json::Value, name: &str) -> (r: Option<Vec<String>>)
    ensures
        match r {
            Some(ss) => json_fields(*v).contains_key(name@) && json_fields(*v)[name@]
                == JsonField::StrArr(ss.deep_view()),
            None => !(json_fields(*v).contains_key(name@) && json_fields(*v)[name@] is StrArr),
        },
{
    let items = match v.get(name) {
        Some(f) => match f.as_array() {
            Some(a) => a,
            None => return None,
        },
        None => return None,
    };
    let mut out: Vec<String> = Vec::with_capacity(items.len());
    for item in items {
        out.push(item.as_str()?.to_string());
    }
    Some(out)
}

/// Whether the payload object carries every claim the engine requires,
/// each with the expected JSON type.
pub open spec fn has_required_claims(m: Map<Seq<char>, JsonField>) -> bool {
    &&& m.contains_key("aud"@) && m["aud"@] is StrArr
    &&& m.contains_key("exp"@) && m["exp"@] is UInt
    &&& m.contains_key("iat"@) && m["iat"@] is UInt
    &&& m.contains_key("iss"@) && m["iss"@] is Str
    &&& m.contains_key("sub"@) && m["sub"@] is Str
    &&& m.contains_key("scope"@) && m["scope"@] is Str
    &&& m.contains_key("name"@) && m["name"@] is Str
    &&& m.contains_key("preferred_username"@) && m["preferred_username"@] is Str
    &&& m.contains_key("given_name"@) && m["given_name"@] is Str
    &&& m.contains_key("family_name"@) && m["family_name"@] is Str
    &&& m.contains_key("email_verified"@) && m["email_verified"@] is Bool
    &&& m.contains_key("email"@) && m["email"@] is Str
}

/// The claim set read off a payload object, when every required claim is
/// present with its expected type; nothing otherwise.
pub open spec fn claims_of(m: Map<Seq<char>, JsonField>) -> Option<TokenView> {
    if has_required_claims(m) {
        Some(
            TokenView {
                aud: m["aud"@]->StrArr_0,
                exp: m["exp"@]->UInt_0,
                iat: m["iat"@]->UInt_0,
                iss: m["iss"@]->Str_0,
                sub: m["sub"@]->Str_0,
                scope: m["scope"@]->Str_0,
                name: m["name"@]->Str_0,
                preferred_username: m["preferred_username"@]->Str_0,
                given_name: m["given_name"@]->Str_0,
                family_name: m["family_name"@]->Str_0,
                email_verified: m["email_verified"@]->Bool_0,
                email: m["email"@]->Str_0,
            },
        )
    } else {
        None
    }
}

/// Read the engine's claim set off a decoded payload: every required claim
/// must be present with its expected JSON type, else the token is
/// `Malformed`.
pub fn extract_claims(v: &serde_json::Value) -> (r: Result<Token, VerifyError>)
    ensures
        match r {
            Ok(t) => claims_of(json_fields(*v)) == Some(t@),
            Err(e) => claims_of(json_fields(*v)) is None && e == VerifyError::Malformed,
        },
{
    let aud = match get_str_arr_field(v, "aud") {
        Some(x) => x,
        None => return Err(VerifyError::Malformed),
    };
    let exp = match get_u64_field(v, "exp") {
        Some(x) => x,
        None => return Err(VerifyError::Malformed),
    };
    let iat = match get_u64_field(v, "iat") {
        Some(x) => x,
        None => return Err(VerifyError::Malformed),
    };
    let iss = match get_str_field(v, "iss") {
        Some(x) => x,
        None => return Err(VerifyError::Malformed),
    };
    let sub = match get_str_field(v, "sub") {
        Some(x) => x,
        None => return Err(VerifyError::Malformed),
    };
    let scope = match get_str_field(v, "scope") {
        Some(x) => x,
        None => return Err(VerifyError::Malformed),
    };
    let name = match get_str_field(v, "name") {
        Some(x) => x,
        None => return Err(VerifyError::Malformed),
    };
    let preferred_username = match get_str_field(v, "preferred_username") {
        Some(x) => x,
        None => return Err(VerifyError::Malformed),
    };
    let given_name = match get_str_field(v, "given_name") {
        Some(x) => x,
        None => return Err(VerifyError::Malformed),
    };
    let family_name = match get_str_field(v, "family_name") {
        Some(x) => x,
        None => return Err(VerifyError::Malformed),
    };
    let email_verified = match get_bool_field(v, "email_verified") {
        Some(x) => x,
        None => return Err(VerifyError::Malformed),
    };
    let email = match get_str_field(v, "email") {
        Some(x) => x,
        None => return Err(VerifyError::Malformed),
    };
    let t = Token {
        aud,
        exp,
        iat,
        iss,
        sub,
        scope,
        name,
        preferred_username,
        given_name,
        family_name,
        email_verified,
        email,
    };
    Ok(t)
}

/// Whether some audience the token was issued for is one this service
/// accepts: a non-empty intersection, where any single match suffices.
pub open spec fn audience_intersects(aud: Seq<Seq<char>>, accepted: Seq<Seq<char>>) -> bool {
    exists|i: int, j: int|
        0 <= i < aud.len() && 0 <= j < accepted.len() && aud[i] == accepted[j]
}

/// Whether the token's audience list and the accepted list share a member.
fn intersects(aud: &Vec<String>, accepted: &Vec<String>) -> (r: bool)
    ensures
        r == audience_intersects(aud.deep_view(), accepted.deep_view()),
{
    let mut i: usize = 0;
    while i < aud.len()
        invariant
            i <= aud@.len(),
            forall|k: int, j: int|
                0 <= k < i && 0 <= j < accepted@.len() ==> aud.deep_view()[k]
                    != accepted.deep_view()[j],
        decreases aud@.len() - i,
    {
        let mut j: usize = 0;
        while j < accepted.len()
            invariant
                i < aud@.len(),
                j <= accepted@.len(),
                forall|l: int|
                    0 <= l < j ==> aud.deep_view()[i as int] != accepted.deep_view()[l],
            decreases accepted@.len() - j,
        {
            if aud[i] == accepted[j] {
                proof {
                    assert(aud.deep_view()[i as int] == accepted.deep_view()[j as int]);
                    assert(audience_intersects(aud.deep_view(), accepted.deep_view()));
                }
                return true;
            }
            j = j + 1;
        }
        i = i + 1;
    }
    false
}

/// Claim validation, as a function of the decoded claim set, the trusted
/// issuer's identity, the accepted audiences and the clock: reject an
/// expired token, then an issuer mismatch, then an audience miss; accept
/// otherwise. The skew tolerance is zero: a token whose `exp` equals the
/// clock reading is still accepted, one strictly before it is `Expired`.
/// The issuer match is exact string equality, with no normalization. The
/// `nbf`/`tokens_not_before` material is deliberately not consulted.
pub open spec fn validate_claims(
    t: TokenView,
    issuer_name: Seq<char>,
    accepted: Seq<Seq<char>>,
    now: u64,
) -> Result<TokenView, VerifyError> {
    if t.exp < now {
        Err(VerifyError::Expired)
    } else if t.iss != issuer_name {
        Err(VerifyError::IssuerMismatch)
    } else if !audience_intersects(t.aud, accepted) {
        Err(VerifyError::AudienceMismatch)
    } else {
        Ok(t)
    }
}

/// End-to-end meaning of verifying one token text against an issuer, a set
/// of accepted audiences and a clock reading: decode under the issuer's
/// re-armored key, read the claim set, validate the claims.
pub open spec fn verify_spec(
    jwt: Seq<char>,
    issuer: IssuerView,
    accepted: Seq<Seq<char>>,
    now: u64,
) -> Result<TokenView, VerifyError> {
    match rs256_payload(jwt, pem_of(issuer.public_key)) {
        Err(e) => Err(e),
        Ok(m) => match claims_of(m) {
            None => Err(VerifyError::Malformed),
            Some(t) => validate_claims(t, issuer.name, accepted, now),
        },
    }
}

/// The view of a verification result.
pub open spec fn result_view(r: Result<Token, VerifyError>) -> Result<TokenView, VerifyError> {
    match r {
        Ok(t) => Ok(t@),
        Err(e) => Err(e),
    }
}

impl Token {
    /// Verify a presented token string against the trusted issuer: derive
    /// the PEM key, check envelope and RS256 signature, then validate the
    /// claims — expiry against `now` (the caller's clock, in epoch
    /// seconds, with zero skew tolerance), exact `iss` equality, and a
    /// non-empty `aud` intersection. Fails closed: every failure anywhere
    /// yields the step's rejection, and no partial trust escapes.
    pub fn from_jwt(jwt: &str, issuer: &Issuer, audience: &Vec<String>, now: u64) -> (r: Result<
        Token,
        VerifyError,
    >)
        ensures
            result_view(r) == verify_spec(jwt@, issuer@, audience.deep_view(), now),
    {
        let pem = issuer.get_pem_public_key();
        let payload = match decode_rs256(jwt, pem.as_str()) {
            Ok(v) => v,
            Err(e) => return Err(e),
        };
        let t = match extract_claims(&payload) {
            Ok(t) => t,
            Err(e) => return Err(e),
        };
        if t.exp < now {
            Err(VerifyError::Expired)
        } else if !(t.iss == issuer.name) {
            Err(VerifyError::IssuerMismatch)
        } else if !intersects(&t.aud, audience) {
            Err(VerifyError::AudienceMismatch)
        } else {
            Ok(t)
        }
    }
}

/// The token portion of a raw `Authorization` value: the text after a
/// literal `"Bearer "` prefix when one stands at the very start — a
/// single, exact, case-sensitive match — and the whole value otherwise.
pub open spec fn bearer_token(header: Seq<char>) -> Seq<char> {
    if header.len() >= 7 && header.take(7) == "Bearer "@ {
        header.skip(7)
    } else {
        header
    }
}

/// Strip the `"Bearer "` scheme prefix off a raw header value, when
/// present at the very start.
pub fn strip_bearer(header: &str) -> (r: &str)
    ensures
        r@ == bearer_token(header@),
{
    let n = header.unicode_len();
    if n >= 7 && header.get_char(0) == 'B' && header.get_char(1) == 'e' && header.get_char(2)
        == 'a' && header.get_char(3) == 'r' && header.get_char(4) == 'e' && header.get_char(5)
        == 'r' && header.get_char(6) == ' ' {
        proof {
            reveal_strlit("Bearer ");
            assert(header@.take(7) =~= "Bearer "@);
        }
        header.substring_char(7, n)
    } else {
        proof {
            reveal_strlit("Bearer ");
            if header@.len() >= 7 && header@.take(7) == "Bearer "@ {
                assert(header@[0] == 'B' && header@[1] == 'e' && header@[2] == 'a' && header@[3]
                    == 'r' && header@[4] == 'e' && header@[5] == 'r' && header@[6] == ' ') by {
                    assert(forall|k: int| 0 <= k < 7 ==> header@.take(7)[k] == header@[k]);
                }
                assert(false);
            }
        }
        header
    }
}

/// Outcome of one request's authentication, as a function of the request's
/// `Authorization` header values, the configuration and a clock reading:
/// with exactly one header value, its token portion is verified and an
/// accepted claim set authenticates the request; with zero or several
/// values, or any rejection, the request is unauthenticated. Which
/// rejection occurred is deliberately not part of the outcome.
pub open spec fn authenticate_spec(
    headers: Seq<Seq<char>>,
    issuer: IssuerView,
    accepted: Seq<Seq<char>>,
    now: u64,
) -> Option<TokenView> {
    if headers.len() == 1 {
        match verify_spec(bearer_token(headers[0]), issuer, accepted, now) {
            Ok(t) => Some(t),
            Err(_) => None,
        }
    } else {
        None
    }
}

/// Authenticate one request from its `Authorization` header values: the
/// explicit result the routing layer dispatches on, in place of any
/// framework control flow.
pub fn authenticate(headers: &Vec<String>, config: &AuthConfiguration, now: u64) -> (r:
    AuthOutcome)
    ensures
        match r {
            AuthOutcome::Authenticated(t) => authenticate_spec(
                headers.deep_view(),
                config.issuer@,
                config.audiences.deep_view(),
                now,
            ) == Some(t@),
            AuthOutcome::Unauthenticated => authenticate_spec(
                headers.deep_view(),
                config.issuer@,
                config.audiences.deep_view(),
                now,
            ) is None,
        },
{
    if headers.len() != 1 {
        return AuthOutcome::Unauthenticated;
    }
    let header: &String = &headers[0];
    let token = strip_bearer(header.as_str());
    match Token::from_jwt(token, &config.issuer, &config.audiences, now) {
        Ok(t) => AuthOutcome::Authenticated(t),
        Err(_) => AuthOutcome::Unauthenticated,
    }
}

/// Expiry boundary law, at zero skew: for a token whose signature and
/// claim shape pass, an `exp` one second before the clock is rejected as
/// `Expired`, and an `exp` one second after the clock — with issuer and
/// audience in order — is accepted.
pub proof fn lemma_expiry_boundary(
    jwt: Seq<char>,
    issuer: IssuerView,
    accepted: Seq<Seq<char>>,
    now: u64,
    m: Map<Seq<char>, JsonField>,
    t: TokenView,
)
    ensures
        (rs256_payload(jwt, pem_of(issuer.public_key)) == Ok::<_, VerifyError>(m) && claims_of(m)
            == Some(t) && now >= 1 && t.exp == now - 1) ==> verify_spec(jwt, issuer, accepted, now)
            == Err::<TokenView, _>(VerifyError::Expired),
        (rs256_payload(jwt, pem_of(issuer.public_key)) == Ok::<_, VerifyError>(m) && claims_of(m)
            == Some(t) && now + 1 <= u64::MAX && t.exp == now + 1 && t.iss == issuer.name
            && audience_intersects(t.aud, accepted)) ==> verify_spec(jwt, issuer, accepted, now)
            == Ok::<_, VerifyError>(t),
{
}

/// Issuer mismatch law: for an unexpired token whose signature and claim
/// shape pass, an `iss` claim that differs from the trusted identity URL
/// in any way — even a trailing slash — is rejected as `IssuerMismatch`,
/// whatever its audiences.
pub proof fn lemma_issuer_mismatch(
    jwt: Seq<char>,
    issuer: IssuerView,
    accepted: Seq<Seq<char>>,
    now: u64,
    m: Map<Seq<char>, JsonField>,
    t: TokenView,
)
    ensures
        (rs256_payload(jwt, pem_of(issuer.public_key)) == Ok::<_, VerifyError>(m) && claims_of(m)
            == Some(t) && now <= t.exp && t.iss != issuer.name) ==> verify_spec(
            jwt,
            issuer,
            accepted,
            now,
        ) == Err::<TokenView, _>(VerifyError::IssuerMismatch),
{
}

/// Audience law: for an unexpired token of the right issuer whose
/// signature and claim shape pass, one accepted audience anywhere in the
/// token's list — however many unaccepted ones stand beside it — makes the
/// token acceptable, and a list meeting none of the accepted audiences is
/// rejected as `AudienceMismatch`.
pub proof fn lemma_audience(
    jwt: Seq<char>,
    issuer: IssuerView,
    accepted: Seq<Seq<char>>,
    now: u64,
    m: Map<Seq<char>, JsonField>,
    t: TokenView,
)
    ensures
        (rs256_payload(jwt, pem_of(issuer.public_key)) == Ok::<_, VerifyError>(m) && claims_of(m)
            == Some(t) && now <= t.exp && t.iss == issuer.name && audience_intersects(
            t.aud,
            accepted,
        )) ==> verify_spec(jwt, issuer, accepted, now) == Ok::<_, VerifyError>(t),
        (rs256_payload(jwt, pem_of(issuer.public_key)) == Ok::<_, VerifyError>(m) && claims_of(m)
            == Some(t) && now <= t.exp && t.iss == issuer.name && !audience_intersects(
            t.aud,
            accepted,
        )) ==> verify_spec(jwt, issuer, accepted, now) == Err::<TokenView, _>(
            VerifyError::AudienceMismatch,
        ),
{
}

/// One match suffices: a single position at which the token's audience
/// list and the accepted list agree makes the intersection non-empty.
pub proof fn lemma_one_audience_match_suffices(
    aud: Seq<Seq<char>>,
    accepted: Seq<Seq<char>>,
    i: int,
    j: int,
)
    ensures
        (0 <= i < aud.len() && 0 <= j < accepted.len() && aud[i] == accepted[j])
            ==> audience_intersects(aud, accepted),
{
    if 0 <= i < aud.len() && 0 <= j < accepted.len() && aud[i] == accepted[j] {
        assert(audience_intersects(aud, accepted));
    }
}

/// Fail-closed law: a token is accepted only if every gate passed — the
/// decode stage returned a payload, the payload carried every required
/// claim, and the claim set is unexpired, of the trusted issuer, and
/// intersects the accepted audiences. No path yields partial trust.
pub proof fn lemma_acceptance_fail_closed(
    jwt: Seq<char>,
    issuer: IssuerView,
    accepted: Seq<Seq<char>>,
    now: u64,
    t: TokenView,
)
    ensures
        verify_spec(jwt, issuer, accepted, now) == Ok::<_, VerifyError>(t) ==> (rs256_payload(
            jwt,
            pem_of(issuer.public_key),
        ) matches Ok(m) && claims_of(m) == Some(t) && now <= t.exp && t.iss == issuer.name
            && audience_intersects(t.aud, accepted)),
{
}

/// Idempotence law: verification is a pure function of the token text, the
/// issuer, the accepted audiences and the clock reading. Any two results
/// that meet `from_jwt`'s contract on identical inputs with a fixed clock
/// are identical; no state carries across calls.
pub proof fn lemma_verify_idempotent(
    r1: Result<Token, VerifyError>,
    r2: Result<Token, VerifyError>,
    jwt: Seq<char>,
    issuer: IssuerView,
    accepted: Seq<Seq<char>>,
    now: u64,
)
    ensures
        (result_view(r1) == verify_spec(jwt, issuer, accepted, now) && result_view(r2)
            == verify_spec(jwt, issuer, accepted, now)) ==> result_view(r1) == result_view(r2),
{
}

} // verus!
