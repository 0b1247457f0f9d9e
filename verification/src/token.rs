//! The token-cache step. The driver reads the cache file; this module
//! parses its JSON through the OAuth library's own token record and owns
//! the decision that follows: an absent cache is `NoCredentials`, an
//! unparsable one is `CacheCorrupt`, and a parsed token is handed back to
//! install into the client before the one refresh.
use vstd::prelude::*;
use crate::errors::LauncherError;

verus! {

/// The cached OAuth token, as plain values: the absolute expiry as epoch
/// seconds, the scope set as a list of scope names. The refresh token
/// and the expiry may be absent after some refreshes.
#[derive(Debug, Clone, PartialEq, Eq)]
pub struct Token {
    pub access_token: String,
    pub refresh_token: Option<String>,
    pub expires_at: Option<i64>,
    pub scopes: Vec<String>,
    pub token_type: String,
}

/// What the cache file's JSON parses to, before the launcher fills in
/// what the wire format does not carry.
#[derive(Debug, Clone, PartialEq, Eq)]
pub struct RawToken {
    pub access_token: String,
    pub refresh_token: Option<String>,
    pub expires_at: Option<i64>,
    pub scopes: Vec<String>,
}

/// Whether `s` is a well-formed token-cache document. What the OAuth
/// library's deserializer accepts depends on the text alone.
pub uninterp spec fn cache_parses(s: Seq<char>) -> bool;

/// Relies on serde_json::from_str, deserializing with rspotify's `Token`
/// record (the writer of the cache file): success depends on the text
/// alone, and the error value carries the parser's message.
#[verifier::external_body]
fn parse_cached_token(raw: &str) -> (r: Result<RawToken, String>)
    ensures
        r is Ok <==> cache_parses(raw@),
{
    match serde_json::from_str::<rspotify::Token>(raw) {
        Ok(t) => Ok(RawToken {
            access_token: t.access_token,
            refresh_token: t.refresh_token,
            expires_at: t.expires_at.map(|d| d.timestamp()),
            scopes: t.scopes.into_iter().collect(),
        }),
        Err(e) => Err(e.to_string()),
    }
}

/// Completes a parsed token: the wire format carries no token type, and
/// this flow only ever holds bearer tokens.
pub fn finish_token(raw: RawToken) -> (t: Token)
    ensures
        t.access_token == raw.access_token,
        t.refresh_token == raw.refresh_token,
        t.expires_at == raw.expires_at,
        t.scopes == raw.scopes,
        t.token_type@ == "Bearer"@,
{
    Token {
        access_token: raw.access_token,
        refresh_token: raw.refresh_token,
        expires_at: raw.expires_at,
        scopes: raw.scopes,
        token_type: String::from_str("Bearer"),
    }
}

/// Decides what to install before the first API call, from the cache
/// file's content (`None` when the file is absent or unreadable). When
/// the client already holds a token, nothing is installed and the cache
/// is left alone. Otherwise: an absent cache means no prior authorization
/// was ever done (`NoCredentials`, rather than opening a browser); a file
/// that does not parse is a hard error naming the path and the parser's
/// message; a token is parsed out of anything the cache format accepts
/// and handed back to install.
pub fn ensure_token(has_token: bool, raw: Option<String>, cache_path: &str) -> (r: Result<
    Option<Token>,
    LauncherError,
>)
    ensures
        has_token ==> r == Ok::<Option<Token>, LauncherError>(None),
        !has_token && raw is None ==> r == Err::<Option<Token>, LauncherError>(
            LauncherError::NoCredentials,
        ),
        !has_token ==> (raw matches Some(s) ==> ((r matches Ok(o) && (o matches Some(t)
            && t.token_type@ == "Bearer"@)) <==> cache_parses(s@))),
        !has_token ==> (raw matches Some(s) && !cache_parses(s@) ==> (r matches Err(e) && (
        e matches LauncherError::CacheCorrupt { path, message } && path@ == cache_path@))),
{
    if has_token {
        return Ok(None);
    }
    match raw {
        None => Err(LauncherError::NoCredentials),
        Some(s) => match parse_cached_token(s.as_str()) {
            Ok(rt) => Ok(Some(finish_token(rt))),
            Err(m) => Err(
                LauncherError::CacheCorrupt { path: String::from_str(cache_path), message: m },
            ),
        },
    }
}

} // verus!
