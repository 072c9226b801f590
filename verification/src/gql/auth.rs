//! Scopes, validated credentials, and the per-operation scope guard.

use vstd::prelude::*;

use crate::gql::error::{Error, ErrorCode};
use crate::strutil::{opt_str_view, split_ascii_tokens, ws_split};

verus! {

/// A failure while validating a bearer credential. The variants are kept
/// apart for logs; the normalizer collapses them all to one outward
/// message.
#[derive(Debug)]
pub enum AuthError {
    /// The identity provider's key-set endpoint could not be fetched.
    GetJwtSetFailed(String),
    /// No key of the cached set can serve the token.
    MissingJwkInOidc,
    /// The token's header could not be decoded.
    DecodeJwtHeader(String),
    /// The token failed signature or claim verification.
    DecodeJwt(String),
}

/// A named capability a caller must hold to perform a protected operation.
#[derive(Debug, Clone, Copy, PartialEq, Eq, Structural)]
pub enum Scope {
    ReadResource,
    WriteResource,
    Challenge,
    ReadPublicResource,
    ReadSolution,
    Execution,
    ReadAnswer,
}

impl Scope {
    /// The scope string granted by the identity provider for this scope.
    pub open spec fn spec_str(self) -> Seq<char> {
        match self {
            Scope::ReadResource => "read:resource"@,
            Scope::WriteResource => "write:resource"@,
            Scope::Challenge => "challenge"@,
            Scope::ReadPublicResource => "read:public_resource"@,
            Scope::ReadSolution => "read:solution"@,
            Scope::Execution => "execute:query"@,
            Scope::ReadAnswer => "read:answer"@,
        }
    }

    /// The scope string granted by the identity provider for this scope.
    pub fn as_str(&self) -> (r: &str)
        ensures
            r@ == self.spec_str(),
    {
        match self {
            Scope::ReadResource => "read:resource",
            Scope::WriteResource => "write:resource",
            Scope::Challenge => "challenge",
            Scope::ReadPublicResource => "read:public_resource",
            Scope::ReadSolution => "read:solution",
            Scope::Execution => "execute:query",
            Scope::ReadAnswer => "read:answer",
        }
    }
}

/// A validated credential: the scope strings granted by the token and, where
/// the token carried one, the subject identifier.
pub struct Auth {
    scopes: Vec<String>,
    sub: Option<String>,
}

impl View for Auth {
    type V = Seq<Seq<char>>;

    /// The granted scope strings.
    closed spec fn view(&self) -> Seq<Seq<char>> {
        self.scopes@.map_values(|s: String| s@)
    }
}

impl Auth {
    /// A credential holding exactly the given scopes and subject.
    pub fn new(scopes: Vec<String>, sub: Option<String>) -> (r: Auth)
        ensures
            r@ == scopes@.map_values(|s: String| s@),
            r.subject_view() == (match sub {
                Some(s) => Some(s@),
                None => None::<Seq<char>>,
            }),
    {
        Auth { scopes, sub }
    }

    /// The subject claim of the token, if it carried one.
    pub closed spec fn subject_view(&self) -> Option<Seq<char>> {
        match self.sub {
            Some(s) => Some(s@),
            None => None,
        }
    }

    /// The subject claim of the token, if it carried one.
    pub fn subject(&self) -> (r: Option<&String>)
        ensures
            r matches Some(s) ==> self.subject_view() == Some(s@),
            r is None <==> self.subject_view() is None,
    {
        self.sub.as_ref()
    }

    /// Whether the credential grants the given scope: true exactly when the
    /// scope's string is among the granted scope strings.
    pub fn has_scope(&self, scope: Scope) -> (r: bool)
        ensures
            r == self@.contains(scope.spec_str()),
    {
        let target = scope.as_str().to_owned();
        let mut i: usize = 0;
        while i < self.scopes.len()
            invariant
                0 <= i <= self.scopes.len(),
                forall|j: int| 0 <= j < i ==> self.scopes@[j]@ != target@,
                target@ == scope.spec_str(),
            decreases self.scopes.len() - i,
        {
            if self.scopes[i] == target {
                assert(self@[i as int] == target@);
                return true;
            }
            i += 1;
        }
        assert(forall|j: int| 0 <= j < self@.len() ==> self@[j] != scope.spec_str());
        false
    }
}

/// The scope guard. With no credential the operation fails as
/// unauthenticated; with a credential it succeeds exactly when the
/// credential grants the required scope, and otherwise fails naming the
/// missing scope.
pub fn require_scope(auth: Option<&Auth>, scope: Scope) -> (r: Result<(), Error>)
    ensures
        auth is None ==> (r matches Err(e) && {
            &&& e.code == ErrorCode::Unauthorized
            &&& e.title@ == "Unauthorized"@
            &&& e.details@ == "You must provide a credential to access this API."@
            &&& e.error is None
        }),
        auth matches Some(a) ==> (r is Ok <==> a@.contains(scope.spec_str())),
        auth matches Some(a) ==> (r matches Err(e) ==> {
            &&& e.code == ErrorCode::Unauthorized
            &&& e.title@ == "Unauthorized"@
            &&& e.details@ == scope.spec_str() + " is required to perform this action"@
            &&& e.error is None
        }),
{
    match auth {
        None => Err(Error {
            code: ErrorCode::Unauthorized,
            title: "Unauthorized".to_owned(),
            details: "You must provide a credential to access this API.".to_owned(),
            error: None,
        }),
        Some(a) => {
            if !a.has_scope(scope) {
                let details = scope.as_str().to_owned().concat(
                    " is required to perform this action",
                );
                Err(Error {
                    code: ErrorCode::Unauthorized,
                    title: "Unauthorized".to_owned(),
                    details,
                    error: None,
                })
            } else {
                Ok(())
            }
        },
    }
}

/// The scope claim and the subject claim carried by a token's payload.
/// Both are functions of the token text alone: whether verification
/// accepts the token depends on the key and the clock, but what the
/// payload says does not.
pub uninterp spec fn token_claims(token: Seq<char>) -> (Seq<char>, Option<Seq<char>>);

/// Whether a token's unverified header decodes, and the key id it carries:
/// both are functions of the token text alone, since the header is plain
/// base64-encoded JSON, read without any signature check.
pub uninterp spec fn token_header(token: Seq<char>) -> (bool, Option<Seq<char>>);

/// Relies on jsonwebtoken::decode_header: the unverified header of the
/// token, read without any signature check; its algorithm and optional key
/// id are handed back.
#[verifier::external_body]
fn decode_header_info(jwt: &str) -> (r: Result<(jsonwebtoken::Algorithm, Option<String>), String>)
    ensures
        (r is Ok) == token_header(jwt@).0,
        r matches Ok(p) ==> opt_str_view(p.1) == token_header(jwt@).1,
{
    let header = jsonwebtoken::decode_header(jwt).map_err(|e| e.to_string())?;
    Ok((header.alg, header.kid))
}

/// Relies on jsonwebtoken::decode with a claims object of a scope string
/// and an optional subject: the signature is verified against the key; the
/// expiry, issuer and audience claims are required to be present, the
/// issuer must equal the expected issuer, the audience must contain the
/// expected audience, and the not-before and expiry claims are honored. On
/// success the scope and subject strings are exactly the token's claims; a
/// token without a string scope claim is rejected, as decoding into a
/// claims struct with a required scope field would reject it.
#[verifier::external_body]
fn decode_verified_claims(
    jwt: &str,
    key: &jsonwebtoken::DecodingKey,
    alg: jsonwebtoken::Algorithm,
    issuer: &str,
    audience: &str,
) -> (r: Result<(String, Option<String>), String>)
    ensures
        r matches Ok(c) ==> c.0@ == token_claims(jwt@).0 && opt_str_view(c.1) == token_claims(
            jwt@,
        ).1,
{
    let mut validation = jsonwebtoken::Validation::new(alg);
    validation.validate_nbf = true;
    validation.set_required_spec_claims(&["exp", "iss", "aud"]);
    validation.set_issuer(&[issuer]);
    validation.set_audience(&[audience]);
    let data = jsonwebtoken::decode::<serde_json::Value>(jwt, key, &validation).map_err(
        |e| e.to_string(),
    )?;
    let scope = match data.claims.get("scope").and_then(|v| v.as_str()) {
        Some(s) => s.to_string(),
        None => return Err("token carries no scope claim".to_string()),
    };
    let sub = data.claims.get("sub").and_then(|v| v.as_str()).map(|s| s.to_string());
    Ok((scope, sub))
}

/// The token's signing algorithm and key id, read from its header without
/// verification so that the matching key can be obtained. It succeeds
/// exactly when the header decodes, handing back the key id the header
/// names; a malformed header fails immediately, and no network round trip
/// is made for it.
pub fn token_key_request(jwt: &str) -> (r: Result<
    (jsonwebtoken::Algorithm, Option<String>),
    AuthError,
>)
    ensures
        (r is Ok) == token_header(jwt@).0,
        r matches Ok(p) ==> opt_str_view(p.1) == token_header(jwt@).1,
        r is Err ==> r matches Err(AuthError::DecodeJwtHeader(_)),
{
    match decode_header_info(jwt) {
        Ok(p) => Ok(p),
        Err(cause) => Err(AuthError::DecodeJwtHeader(cause)),
    }
}

/// The identity of the provider a credential must come from and the
/// audience it must be scoped to.
#[derive(Clone)]
pub struct AuthBuilder {
    pub logto_domain: String,
    pub resource_indicator: String,
}

impl AuthBuilder {
    /// The issuer every accepted token must carry: the provider domain
    /// followed by `/oidc`.
    pub fn issuer(&self) -> (r: String)
        ensures
            r@ == self.logto_domain@ + "/oidc"@,
    {
        self.logto_domain.clone().concat("/oidc")
    }

    /// The provider's published key-set endpoint: the provider domain
    /// followed by `/oidc/jwks`.
    pub fn jwks_url(&self) -> (r: String)
        ensures
            r@ == self.logto_domain@ + "/oidc/jwks"@,
    {
        self.logto_domain.clone().concat("/oidc/jwks")
    }

    /// Verify a token against the signing key its header named and build
    /// the credential. A credential is built only from a token the
    /// verification accepted, and it grants exactly the scopes of the
    /// token's whitespace-delimited scope claim, with the token's subject
    /// where one is present.
    pub fn authenticate(
        &self,
        jwt: &str,
        key: &jsonwebtoken::DecodingKey,
        alg: jsonwebtoken::Algorithm,
    ) -> (r: Result<Auth, AuthError>)
        ensures
            r matches Ok(a) ==> a@ == ws_split(token_claims(jwt@).0) && a.subject_view()
                == token_claims(jwt@).1,
            r is Err ==> r matches Err(AuthError::DecodeJwt(_)),
    {
        let issuer = self.issuer();
        match decode_verified_claims(
            jwt,
            key,
            alg,
            issuer.as_str(),
            self.resource_indicator.as_str(),
        ) {
            Ok((scope, sub)) => {
                let scopes = split_ascii_tokens(scope.as_str());
                Ok(Auth::new(scopes, sub))
            },
            Err(cause) => Err(AuthError::DecodeJwt(cause)),
        }
    }
}

/// The bearer token taken from the value of an authorization header: the
/// text after a literal `"Bearer "` prefix, or nothing when the header is
/// absent or shaped otherwise.
pub fn extract_jwt(header_value: Option<&str>) -> (r: Option<String>)
    ensures
        r matches Some(t) ==> header_value matches Some(h) && h@.len() >= 7 && h@.subrange(0, 7)
            == "Bearer "@ && t@ == h@.skip(7),
        r is None ==> (match header_value {
            None => true,
            Some(h) => h@.len() < 7 || h@.subrange(0, 7) != "Bearer "@,
        }),
{
    proof {
        reveal_strlit("Bearer ");
    }
    match header_value {
        None => None,
        Some(h) => {
            let n = h.unicode_len();
            if n < 7 {
                return None;
            }
            if h.get_char(0) == 'B' && h.get_char(1) == 'e' && h.get_char(2) == 'a' && h.get_char(3)
                == 'r' && h.get_char(4) == 'e' && h.get_char(5) == 'r' && h.get_char(6) == ' ' {
                assert(h@.subrange(0, 7) =~= "Bearer "@);
                let token = h.substring_char(7, n).to_owned();
                assert(token@ =~= h@.skip(7));
                Some(token)
            } else {
                assert(h@.subrange(0, 7) != "Bearer "@) by {
                    if h@.subrange(0, 7) == "Bearer "@ {
                        assert(h@.subrange(0, 7)[0] == h@[0]);
                        assert(h@.subrange(0, 7)[1] == h@[1]);
                        assert(h@.subrange(0, 7)[2] == h@[2]);
                        assert(h@.subrange(0, 7)[3] == h@[3]);
                        assert(h@.subrange(0, 7)[4] == h@[4]);
                        assert(h@.subrange(0, 7)[5] == h@[5]);
                        assert(h@.subrange(0, 7)[6] == h@[6]);
                    }
                }
                None
            }
        },
    }
}

} // verus!
