//! The launcher's error kinds. Every failure of the pipeline is one of
//! these; the driver prints it and exits non-zero.
use vstd::prelude::*;

verus! {

/// One failure kind per way the pipeline can stop early.
#[derive(Debug, Clone, PartialEq, Eq)]
pub enum LauncherError {
    /// A required setting is absent or empty; holds the first missing key.
    MissingConfig(String),
    /// The ADB subprocess exited non-zero; holds its arguments, exit code
    /// and captured standard error.
    AdbFailure { args: Vec<String>, exit_code: i32, stderr: String },
    /// The endpoint never appeared in the device list; holds `"<ip>:5555"`.
    ConnectFailed(String),
    /// The token cache file is absent and no token is loaded.
    NoCredentials,
    /// The token cache file exists but does not parse; holds the path and
    /// the parser's message.
    CacheCorrupt { path: String, message: String },
    /// The OAuth refresh was rejected upstream; holds the upstream message.
    TokenRefreshFailed(String),
    /// A Spotify Web API call failed; holds the upstream message.
    SpotifyError(String),
    /// No listed device name contains the target substring.
    NoTargetDevice,
    /// The chosen device has no identifier to address it by.
    TargetHasNoId,
}

} // verus!
