//! The auth schemes discovered in an OpenAPI spec, as every target sees them.

use vstd::prelude::*;
use vstd::string::*;

verus! {

/// The five auth scheme kinds a generated project can carry a strategy for.
#[derive(Clone, Copy, Debug, PartialEq, Eq, Structural)]
pub enum AuthSchemeKind {
    Basic,
    ApiKey,
    BearerPat,
    OAuth2,
    OAuth1,
}

/// Where a scheme's credential travels on an incoming request.
#[derive(Debug)]
pub enum AuthSchemeLocation {
    Header { name: String },
    Query { name: String },
    Cookie { name: String },
}

/// One `components.securitySchemes` entry, classified.
#[derive(Debug)]
pub struct AuthSchemeDescriptor {
    pub name: String,
    pub kind: AuthSchemeKind,
    pub location: Option<AuthSchemeLocation>,
    /// OAuth2 scope identifiers declared under the scheme's flows.
    pub scopes: Vec<String>,
    pub authorization_url: Option<String>,
    pub token_url: Option<String>,
}

/// The literal `auth_method` config value a kind selects.
pub open spec fn spec_method_key(kind: AuthSchemeKind) -> Seq<char> {
    match kind {
        AuthSchemeKind::Basic => "basic"@,
        AuthSchemeKind::ApiKey => "apiKey"@,
        AuthSchemeKind::BearerPat => "pat"@,
        AuthSchemeKind::OAuth2 => "oauth2"@,
        AuthSchemeKind::OAuth1 => "oauth1"@,
    }
}

/// The `auth_method` value of each kind is its documented literal, and its
/// identifier is the PascalCase form of the same word; so a bearer-token
/// scheme selects `pat`, never another kind's strategy.
pub proof fn law_method_keys_and_idents()
    ensures
        spec_method_key(AuthSchemeKind::Basic) == "basic"@,
        spec_method_key(AuthSchemeKind::ApiKey) == "apiKey"@,
        spec_method_key(AuthSchemeKind::BearerPat) == "pat"@,
        spec_method_key(AuthSchemeKind::OAuth2) == "oauth2"@,
        spec_method_key(AuthSchemeKind::OAuth1) == "oauth1"@,
        spec_method_ident(AuthSchemeKind::Basic) == "Basic"@,
        spec_method_ident(AuthSchemeKind::ApiKey) == "ApiKey"@,
        spec_method_ident(AuthSchemeKind::BearerPat) == "Pat"@,
        spec_method_ident(AuthSchemeKind::OAuth2) == "OAuth2"@,
        spec_method_ident(AuthSchemeKind::OAuth1) == "OAuth1"@,
{
}

/// Different kinds select different config values.
pub proof fn lemma_method_key_injective(a: AuthSchemeKind, b: AuthSchemeKind)
    ensures
        a != b ==> spec_method_key(a) != spec_method_key(b),
{
    reveal_strlit("basic");
    reveal_strlit("apiKey");
    reveal_strlit("pat");
    reveal_strlit("oauth2");
    reveal_strlit("oauth1");
    assert(spec_method_key(AuthSchemeKind::OAuth2)[5] != spec_method_key(AuthSchemeKind::OAuth1)[5]);
    assert(spec_method_key(AuthSchemeKind::ApiKey)[0] != spec_method_key(AuthSchemeKind::OAuth2)[0]);
    assert(spec_method_key(AuthSchemeKind::ApiKey)[0] != spec_method_key(AuthSchemeKind::OAuth1)[0]);
    assert(spec_method_key(AuthSchemeKind::Basic) != spec_method_key(AuthSchemeKind::ApiKey));
    assert(spec_method_key(AuthSchemeKind::Basic)[0] != spec_method_key(AuthSchemeKind::BearerPat)[0]);
    assert(spec_method_key(AuthSchemeKind::Basic) != spec_method_key(AuthSchemeKind::OAuth2));
    assert(spec_method_key(AuthSchemeKind::Basic) != spec_method_key(AuthSchemeKind::OAuth1));
    assert(spec_method_key(AuthSchemeKind::ApiKey) != spec_method_key(AuthSchemeKind::BearerPat));
    assert(spec_method_key(AuthSchemeKind::ApiKey) != spec_method_key(AuthSchemeKind::OAuth2));
    assert(spec_method_key(AuthSchemeKind::ApiKey) != spec_method_key(AuthSchemeKind::OAuth1));
    assert(spec_method_key(AuthSchemeKind::BearerPat) != spec_method_key(AuthSchemeKind::OAuth2));
    assert(spec_method_key(AuthSchemeKind::BearerPat) != spec_method_key(AuthSchemeKind::OAuth1));
    assert(spec_method_key(AuthSchemeKind::OAuth2) != spec_method_key(AuthSchemeKind::OAuth1));
}

/// The PascalCase identifier a kind's strategy type, enum variant or class
/// is named by.
pub open spec fn spec_method_ident(kind: AuthSchemeKind) -> Seq<char> {
    match kind {
        AuthSchemeKind::Basic => "Basic"@,
        AuthSchemeKind::ApiKey => "ApiKey"@,
        AuthSchemeKind::BearerPat => "Pat"@,
        AuthSchemeKind::OAuth2 => "OAuth2"@,
        AuthSchemeKind::OAuth1 => "OAuth1"@,
    }
}

/// Maps a classified auth scheme onto the literal `auth_method` config value
/// the generated project's auth manager selects on.
pub fn auth_method_key(kind: AuthSchemeKind) -> (r: &'static str)
    ensures
        r@ == spec_method_key(kind),
{
    match kind {
        AuthSchemeKind::Basic => "basic",
        AuthSchemeKind::ApiKey => "apiKey",
        AuthSchemeKind::BearerPat => "pat",
        AuthSchemeKind::OAuth2 => "oauth2",
        AuthSchemeKind::OAuth1 => "oauth1",
    }
}

/// Maps a kind onto its PascalCase identifier (strategy type, enum variant
/// or class name, depending on the target language).
pub fn auth_method_ident(kind: AuthSchemeKind) -> (r: &'static str)
    ensures
        r@ == spec_method_ident(kind),
{
    match kind {
        AuthSchemeKind::Basic => "Basic",
        AuthSchemeKind::ApiKey => "ApiKey",
        AuthSchemeKind::BearerPat => "Pat",
        AuthSchemeKind::OAuth2 => "OAuth2",
        AuthSchemeKind::OAuth1 => "OAuth1",
    }
}

/// `(location, name)` as the HTTP transport's request extractor reads them;
/// a scheme with no relayable location is `("none", "")`.
pub open spec fn spec_location_view(loc: Option<AuthSchemeLocation>) -> (Seq<char>, Seq<char>) {
    match loc {
        None => ("none"@, Seq::empty()),
        Some(AuthSchemeLocation::Header { name }) => ("header"@, name@),
        Some(AuthSchemeLocation::Query { name }) => ("query"@, name@),
        Some(AuthSchemeLocation::Cookie { name }) => ("cookie"@, name@),
    }
}

pub fn location_view(loc: &Option<AuthSchemeLocation>) -> (r: (&'static str, String))
    ensures
        (r.0@, r.1@) == spec_location_view(*loc),
{
    match loc {
        None => ("none", String::new()),
        Some(AuthSchemeLocation::Header { name }) => ("header", name.clone()),
        Some(AuthSchemeLocation::Query { name }) => ("query", name.clone()),
        Some(AuthSchemeLocation::Cookie { name }) => ("cookie", name.clone()),
    }
}

/// The location a scheme of the given kind uses when the spec declares none
/// of its own: the `Authorization` header for Basic, PAT and OAuth2, the
/// `X-API-Key` header for API keys, and none for OAuth1, whose signed
/// request cannot be relayed.
pub open spec fn spec_default_location(kind: AuthSchemeKind) -> Option<(Seq<char>, Seq<char>)> {
    match kind {
        AuthSchemeKind::ApiKey => Some(("header"@, "X-API-Key"@)),
        AuthSchemeKind::OAuth1 => None,
        _ => Some(("header"@, "Authorization"@)),
    }
}

pub fn default_location_for(kind: AuthSchemeKind) -> (r: Option<AuthSchemeLocation>)
    ensures
        match r {
            None => spec_default_location(kind) is None,
            Some(loc) => spec_default_location(kind) == Some(spec_location_view(Some(loc))),
        },
{
    match kind {
        AuthSchemeKind::ApiKey => Some(AuthSchemeLocation::Header { name: String::from_str("X-API-Key") }),
        AuthSchemeKind::OAuth1 => None,
        _ => Some(AuthSchemeLocation::Header { name: String::from_str("Authorization") }),
    }
}

} // verus!
