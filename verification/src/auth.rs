//! Core data model: the trusted issuer, the process-wide configuration,
//! the validated claim set of a token, and the rejection reasons.

use vstd::prelude::*;

verus! {

/// Why a presented token was rejected. Every verification failure is
/// request-local: the caller treats any of these as "unauthenticated" and
/// must not leak the variant to the requester.
#[derive(Clone, Copy, Debug, PartialEq, Eq, Structural)]
pub enum VerifyError {
    /// The input is not a well-formed token envelope, or its payload does
    /// not carry the expected claim fields.
    Malformed,
    /// The cryptographic signature does not match the issuer's key, or the
    /// token was signed under an algorithm other than RS256.
    SignatureInvalid,
    /// The `exp` claim lies strictly before the supplied clock reading.
    Expired,
    /// The `iss` claim differs from the trusted issuer's identity URL.
    IssuerMismatch,
    /// No entry of the token's `aud` list is an accepted audience.
    AudienceMismatch,
}

/// The trusted identity provider: its identity URL, its raw signing key
/// (an unarmored base64 body) and informational metadata. Immutable after
/// construction, so it can be shared read-only across verifications.
pub struct Issuer {
    /// Canonical issuer identifier; every accepted token's `iss` claim must
    /// equal this string exactly.
    pub name: String,
    /// Informational grouping label from the provider.
    pub realm: String,
    /// Provider-native encoding of the RSA public key: an unpadded base64
    /// body with no header, footer or line breaks.
    pub public_key: String,
    /// Informational endpoint, not used in verification.
    pub token_service: String,
    /// Informational endpoint, not used in verification.
    pub account_service: String,
    /// Earliest issuance time the provider considers valid. Parsed and kept
    /// but deliberately not enforced: the engine does not check `nbf`.
    pub tokens_not_before: u32,
}

/// Mathematical image of an [`Issuer`].
pub ghost struct IssuerView {
    pub name: Seq<char>,
    pub realm: Seq<char>,
    pub public_key: Seq<char>,
    pub token_service: Seq<char>,
    pub account_service: Seq<char>,
    pub tokens_not_before: u32,
}

impl View for Issuer {
    type V = IssuerView;

    open spec fn view(&self) -> IssuerView {
        IssuerView {
            name: self.name@,
            realm: self.realm@,
            public_key: self.public_key@,
            token_service: self.token_service@,
            account_service: self.account_service@,
            tokens_not_before: self.tokens_not_before,
        }
    }
}

/// Process-wide verification configuration: one trusted issuer and the
/// audiences this service accepts. Constructed once at startup.
pub struct AuthConfiguration {
    pub issuer: Issuer,
    pub audiences: Vec<String>,
}

impl AuthConfiguration {
    /// A configuration is usable only with at least one accepted audience:
    /// with none, every token would be rejected with `AudienceMismatch`.
    pub open spec fn well_formed(&self) -> bool {
        self.audiences@.len() > 0
    }
}

/// The decoded, validated claim set of an accepted token. A plain value:
/// every field is a denormalized copy of a payload claim, and nothing of
/// the token's envelope survives past verification.
#[derive(Debug, PartialEq, Eq)]
pub struct Token {
    /// The `aud` claim: the audiences the token was issued for.
    pub aud: Vec<String>,
    /// The `exp` claim: expiry, in epoch seconds.
    pub exp: u64,
    /// The `iat` claim: issuance time, in epoch seconds.
    pub iat: u64,
    /// The `iss` claim: the issuing provider's identity URL.
    pub iss: String,
    /// The `sub` claim: the authenticated subject.
    pub sub: String,
    /// Granted scopes, space-separated.
    pub scope: String,
    /// Display name of the subject.
    pub name: String,
    /// Preferred login name of the subject.
    pub preferred_username: String,
    pub given_name: String,
    pub family_name: String,
    pub email_verified: bool,
    pub email: String,
}

/// Mathematical image of a [`Token`].
pub ghost struct TokenView {
    pub aud: Seq<Seq<char>>,
    pub exp: u64,
    pub iat: u64,
    pub iss: Seq<char>,
    pub sub: Seq<char>,
    pub scope: Seq<char>,
    pub name: Seq<char>,
    pub preferred_username: Seq<char>,
    pub given_name: Seq<char>,
    pub family_name: Seq<char>,
    pub email_verified: bool,
    pub email: Seq<char>,
}

impl View for Token {
    type V = TokenView;

    open spec fn view(&self) -> TokenView {
        TokenView {
            aud: self.aud.deep_view(),
            exp: self.exp,
            iat: self.iat,
            iss: self.iss@,
            sub: self.sub@,
            scope: self.scope@,
            name: self.name@,
            preferred_username: self.preferred_username@,
            given_name: self.given_name@,
            family_name: self.family_name@,
            email_verified: self.email_verified,
            email: self.email@,
        }
    }
}

impl Token {
    /// The greeting line shown to an authenticated subject: display name,
    /// preferred login name, and in parentheses the email, subject and
    /// scopes of the validated claim set.
    pub fn greeting(&self) -> (r: String)
        ensures
            r@ == "Hello, "@ + self.name@ + " / "@ + self.preferred_username@ + " ( "@
                + self.email@ + " | "@ + self.sub@ + " | "@ + self.scope@ + " )!"@,
    {
        let mut out = String::from_str("Hello, ");
        out.append(self.name.as_str());
        out.append(" / ");
        out.append(self.preferred_username.as_str());
        out.append(" ( ");
        out.append(self.email.as_str());
        out.append(" | ");
        out.append(self.sub.as_str());
        out.append(" | ");
        out.append(self.scope.as_str());
        out.append(" )!");
        out
    }
}

/// What the routing layer receives for a request: an authenticated claim
/// set, or the instruction to fall through to unauthenticated handling.
/// The reason for a rejection is deliberately not carried here.
#[derive(Debug, PartialEq, Eq)]
pub enum AuthOutcome {
    Authenticated(Token),
    Unauthenticated,
}

} // verus!
