//! Validation of the four required settings. The driver reads the
//! process environment (optionally hydrated from a `.env` file) and hands
//! the raw values here; a missing or empty value fails fast, naming the
//! first missing key in the order they are read.
use vstd::prelude::*;
use crate::errors::LauncherError;

verus! {

/// The immutable settings of one run.
#[derive(Debug, Clone, PartialEq, Eq)]
pub struct AppConfig {
    pub client_id: String,
    pub client_secret: String,
    pub redirect_uri: String,
    pub firetv_ip: String,
}

/// A setting counts as given when it is present and non-empty.
pub open spec fn given(v: Option<String>) -> bool {
    v matches Some(s) && s@.len() > 0
}

/// Builds the configuration from the raw environment values, read in the
/// order `RSPOTIFY_CLIENT_ID`, `RSPOTIFY_CLIENT_SECRET`,
/// `RSPOTIFY_REDIRECT_URI`, `FIRETV_IP`. Succeeds exactly when all four
/// are given; otherwise `MissingConfig` names the first that is not.
pub fn init_config(
    client_id: Option<String>,
    client_secret: Option<String>,
    redirect_uri: Option<String>,
    firetv_ip: Option<String>,
) -> (r: Result<AppConfig, LauncherError>)
    ensures
        r is Ok <==> given(client_id) && given(client_secret) && given(redirect_uri) && given(
            firetv_ip,
        ),
        r matches Ok(c) ==> (client_id matches Some(s) && c.client_id == s) && (
        client_secret matches Some(s) && c.client_secret == s) && (redirect_uri matches Some(s)
            && c.redirect_uri == s) && (firetv_ip matches Some(s) && c.firetv_ip == s),
        !given(client_id) ==> (r matches Err(e) && (e matches LauncherError::MissingConfig(k)
            && k@ == "RSPOTIFY_CLIENT_ID"@)),
        given(client_id) && !given(client_secret) ==> (r matches Err(e) && (
        e matches LauncherError::MissingConfig(k) && k@ == "RSPOTIFY_CLIENT_SECRET"@)),
        given(client_id) && given(client_secret) && !given(redirect_uri) ==> (r matches Err(e) && (
        e matches LauncherError::MissingConfig(k) && k@ == "RSPOTIFY_REDIRECT_URI"@)),
        given(client_id) && given(client_secret) && given(redirect_uri) && !given(firetv_ip) ==> (
        r matches Err(e) && (e matches LauncherError::MissingConfig(k) && k@ == "FIRETV_IP"@)),
{
    let client_id = match take_given(client_id) {
        Some(s) => s,
        None => {
            return Err(LauncherError::MissingConfig(String::from_str("RSPOTIFY_CLIENT_ID")));
        },
    };
    let client_secret = match take_given(client_secret) {
        Some(s) => s,
        None => {
            return Err(LauncherError::MissingConfig(String::from_str("RSPOTIFY_CLIENT_SECRET")));
        },
    };
    let redirect_uri = match take_given(redirect_uri) {
        Some(s) => s,
        None => {
            return Err(LauncherError::MissingConfig(String::from_str("RSPOTIFY_REDIRECT_URI")));
        },
    };
    let firetv_ip = match take_given(firetv_ip) {
        Some(s) => s,
        None => {
            return Err(LauncherError::MissingConfig(String::from_str("FIRETV_IP")));
        },
    };
    Ok(AppConfig { client_id, client_secret, redirect_uri, firetv_ip })
}

/// The value when it is given (present and non-empty), nothing otherwise.
fn take_given(v: Option<String>) -> (r: Option<String>)
    ensures
        given(v) <==> r is Some,
        r matches Some(s) ==> (v matches Some(w) && s == w),
{
    match v {
        Some(s) => {
            if s.as_str().is_empty() {
                None
            } else {
                Some(s)
            }
        },
        None => None,
    }
}

} // verus!
