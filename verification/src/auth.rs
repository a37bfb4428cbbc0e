use vstd::prelude::*;

use crate::text::{is_prefix_of, spec_trim};

verus! {

/// The authentication settings: a static token, or none.
#[derive(Debug)]
pub struct AuthConfig {
    pub token: Option<String>,
}

impl AuthConfig {
    /// No token: every request passes.
    pub fn disabled() -> (r: AuthConfig)
        ensures
            r.token is None,
    {
        AuthConfig { token: None }
    }

    /// A static token every request must present.
    pub fn with_token(token: String) -> (r: AuthConfig)
        ensures
            r.token.deep_view() == Some(token@),
    {
        AuthConfig { token: Some(token) }
    }
}

/// The token a request presents: the authorization header's trimmed value
/// behind a bearer or token marker, else the gateway's own header verbatim.
pub open spec fn spec_extract_token(
    authorization: Option<Seq<char>>,
    sandbox_header: Option<Seq<char>>,
) -> Option<Seq<char>> {
    let from_authorization = match authorization {
        Some(value) => {
            let v = spec_trim(value);
            if is_prefix_of("Bearer "@, v) {
                Some(v.skip(7))
            } else if is_prefix_of("Token "@, v) {
                Some(v.skip(6))
            } else {
                None
            }
        },
        None => None,
    };
    if from_authorization is Some {
        from_authorization
    } else {
        sandbox_header
    }
}

/// Reads the token a request presents, if any.
pub fn extract_token(authorization: Option<&str>, sandbox_header: Option<&str>) -> (r: Option<
    String,
>)
    ensures
        r.deep_view() == spec_extract_token(
            authorization.deep_view(),
            sandbox_header.deep_view(),
        ),
{
    proof {
        reveal_strlit("Bearer ");
        reveal_strlit("Token ");
    }
    if let Some(value) = authorization {
        let trimmed = crate::text::str_trim(value);
        if crate::text::str_starts_with(trimmed.as_str(), "Bearer ") {
            let len = trimmed.as_str().unicode_len();
            let tail = trimmed.as_str().substring_char(7, len);
            proof {
                assert(trimmed@.subrange(7, trimmed@.len() as int) =~= trimmed@.skip(7));
            }
            return Some(tail.to_owned());
        }
        if crate::text::str_starts_with(trimmed.as_str(), "Token ") {
            let len = trimmed.as_str().unicode_len();
            let tail = trimmed.as_str().substring_char(6, len);
            proof {
                assert(trimmed@.subrange(6, trimmed@.len() as int) =~= trimmed@.skip(6));
            }
            return Some(tail.to_owned());
        }
    }
    match sandbox_header {
        Some(value) => Some(value.to_owned()),
        None => None,
    }
}

/// Whether a request passes the token check: with no token configured everything
/// passes; with one, the presented token must equal it.
pub open spec fn spec_token_accepted(
    expected: Option<Seq<char>>,
    authorization: Option<Seq<char>>,
    sandbox_header: Option<Seq<char>>,
) -> bool {
    match expected {
        None => true,
        Some(token) => spec_extract_token(authorization, sandbox_header) == Some(token),
    }
}

/// Checks a request against the configured token.
pub fn token_accepted(
    config: &AuthConfig,
    authorization: Option<&str>,
    sandbox_header: Option<&str>,
) -> (r: bool)
    ensures
        r == spec_token_accepted(
            config.token.deep_view(),
            authorization.deep_view(),
            sandbox_header.deep_view(),
        ),
{
    let expected = match &config.token {
        Some(t) => t,
        None => {
            return true;
        }
    };
    match extract_token(authorization, sandbox_header) {
        Some(provided) => crate::json::str_eq(provided.as_str(), expected.as_str()),
        None => false,
    }
}

} // verus!
