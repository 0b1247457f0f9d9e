//! The decision core: pick the TV out of the listed devices and choose
//! exactly one playback action for it.
//!
//! The target is the first listed device whose name contains the
//! substring `"TV"`. The match is case-sensitive on purpose: it mirrors
//! the behaviour this launcher always had, and a device named
//! `"Living Room tv"` is not matched. The needle can be widened by
//! calling [`find_named_target`] with another needle.
use vstd::prelude::*;
use crate::errors::LauncherError;
use crate::text::{contains_seq, str_contains};

verus! {

/// A playback device as listed by the Spotify Web API. A device without
/// an identifier is listed but not addressable.
#[derive(Debug, Clone, PartialEq, Eq)]
pub struct Device {
    pub id: Option<String>,
    pub name: String,
}

/// The playback snapshot: which device is active, if any, and whether it
/// is playing. A missing snapshot means no active session anywhere.
#[derive(Debug, Clone, PartialEq, Eq)]
pub struct PlaybackSnapshot {
    pub device_id: Option<String>,
    pub is_playing: bool,
}

/// The one action a run takes on the target device.
#[derive(Debug, Clone, Copy, PartialEq, Eq, Structural)]
pub enum Decision {
    /// The target is already active and playing: pause it.
    PauseOnTarget,
    /// The target is already active but paused: resume it.
    ResumeOnTarget,
    /// Some other device (or none) is active: transfer and start playing.
    TransferAndPlay,
}

/// `d`'s name contains `needle`.
pub open spec fn name_matches(d: Device, needle: Seq<char>) -> bool {
    contains_seq(d.name@, needle)
}

/// `i` is the first index of `devs` whose name contains `needle`.
pub open spec fn first_match_at(devs: Seq<Device>, needle: Seq<char>, i: int) -> bool {
    &&& 0 <= i < devs.len()
    &&& name_matches(devs[i], needle)
    &&& forall|k: int| 0 <= k < i ==> !name_matches(devs[k], needle)
}

/// No listed device name contains `needle`.
pub open spec fn no_match(devs: Seq<Device>, needle: Seq<char>) -> bool {
    forall|i: int| 0 <= i < devs.len() ==> !name_matches(devs[i], needle)
}

/// The identifier of the first device whose name contains `needle`.
/// `NoTargetDevice` exactly when no name matches; `TargetHasNoId` exactly
/// when the first matching device has no identifier.
pub fn find_named_target(devices: &Vec<Device>, needle: &str) -> (r: Result<
    String,
    LauncherError,
>)
    ensures
        r matches Ok(id) ==> exists|i: int|
            first_match_at(devices@, needle@, i) && (devices[i].id matches Some(s)
                && s@ == id@),
        (r matches Err(e) && e == LauncherError::NoTargetDevice) <==> no_match(
            devices@,
            needle@,
        ),
        (r matches Err(e) && e == LauncherError::TargetHasNoId) <==> exists|i: int|
            first_match_at(devices@, needle@, i) && devices[i].id is None,
        r is Ok || r == Err::<String, LauncherError>(LauncherError::NoTargetDevice) || r == Err::<
            String,
            LauncherError,
        >(LauncherError::TargetHasNoId),
{
    let n = devices.len();
    let mut i: usize = 0;
    while i < n
        invariant
            n == devices.len(),
            i <= n,
            forall|k: int| 0 <= k < i ==> !name_matches(devices@[k], needle@),
        decreases n - i,
    {
        if str_contains(devices[i].name.as_str(), needle) {
            assert(first_match_at(devices@, needle@, i as int));
            match &devices[i].id {
                Some(s) => {
                    return Ok(s.clone());
                },
                None => {
                    assert(devices@[i as int].id is None);
                    return Err(LauncherError::TargetHasNoId);
                },
            }
        }
        i += 1;
    }
    Err(LauncherError::NoTargetDevice)
}

/// [`find_named_target`] with the launcher's default needle `"TV"`.
pub fn find_target(devices: &Vec<Device>) -> (r: Result<String, LauncherError>)
    ensures
        r matches Ok(id) ==> exists|i: int|
            first_match_at(devices@, "TV"@, i) && (devices[i].id matches Some(s) && s@
                == id@),
        (r matches Err(e) && e == LauncherError::NoTargetDevice) <==> no_match(
            devices@,
            "TV"@,
        ),
        (r matches Err(e) && e == LauncherError::TargetHasNoId) <==> exists|i: int|
            first_match_at(devices@, "TV"@, i) && devices[i].id is None,
        r is Ok || r == Err::<String, LauncherError>(LauncherError::NoTargetDevice) || r == Err::<
            String,
            LauncherError,
        >(LauncherError::TargetHasNoId),
{
    find_named_target(devices, "TV")
}

/// The decision table, over the snapshot and the target identifier:
/// the target already active decides between pause and resume by
/// `is_playing`; anything else (another device active, an active device
/// without an identifier, or no session at all) transfers and plays.
pub open spec fn spec_decide(snapshot: Option<PlaybackSnapshot>, target_id: Seq<char>) -> Decision {
    match snapshot {
        Some(s) => match s.device_id {
            Some(cur) => if cur@ == target_id {
                if s.is_playing {
                    Decision::PauseOnTarget
                } else {
                    Decision::ResumeOnTarget
                }
            } else {
                Decision::TransferAndPlay
            },
            None => Decision::TransferAndPlay,
        },
        None => Decision::TransferAndPlay,
    }
}

/// Law: the decision table. With no active session, an active session on
/// another device, or an active device without an identifier, playback is
/// transferred to the target and started; with the target itself active,
/// `is_playing` decides between pausing and resuming. Exactly one
/// decision comes out of every input.
pub proof fn lemma_decision_table(s: PlaybackSnapshot, target: Seq<char>)
    ensures
        spec_decide(None::<PlaybackSnapshot>, target) == Decision::TransferAndPlay,
        (s.device_id matches Some(cur) && cur@ == target) && s.is_playing ==> spec_decide(
            Some(s),
            target,
        ) == Decision::PauseOnTarget,
        (s.device_id matches Some(cur) && cur@ == target) && !s.is_playing ==> spec_decide(
            Some(s),
            target,
        ) == Decision::ResumeOnTarget,
        (s.device_id matches Some(cur) && cur@ != target) ==> spec_decide(Some(s), target)
            == Decision::TransferAndPlay,
        s.device_id is None ==> spec_decide(Some(s), target) == Decision::TransferAndPlay,
{
}

/// Law: the target is unambiguous. There is at most one first matching
/// index, so "the first device whose name contains the needle" picks one
/// device: order decides every tie.
pub proof fn lemma_first_match_unique(devs: Seq<Device>, needle: Seq<char>, i: int, j: int)
    requires
        first_match_at(devs, needle, i),
        first_match_at(devs, needle, j),
    ensures
        i == j,
{
}

/// Chooses the one playback action for the target device.
pub fn decide(snapshot: &Option<PlaybackSnapshot>, target_id: &String) -> (d: Decision)
    ensures
        d == spec_decide(*snapshot, target_id@),
{
    match snapshot {
        Some(s) => match &s.device_id {
            Some(cur) => if *cur == *target_id {
                if s.is_playing {
                    Decision::PauseOnTarget
                } else {
                    Decision::ResumeOnTarget
                }
            } else {
                Decision::TransferAndPlay
            },
            None => Decision::TransferAndPlay,
        },
        None => Decision::TransferAndPlay,
    }
}

/// The pair the driver prints before deciding: the active device's
/// identifier and whether it is playing. A snapshot whose device has no
/// identifier yields nothing, like a missing snapshot.
pub fn playback_status(snapshot: &Option<PlaybackSnapshot>) -> (r: Option<(String, bool)>)
    ensures
        match *snapshot {
            Some(s) => match s.device_id {
                Some(id) => r matches Some(p) && p.0@ == id@ && p.1 == s.is_playing,
                None => r is None,
            },
            None => r is None,
        },
{
    match snapshot {
        Some(s) => match &s.device_id {
            Some(id) => Some((id.clone(), s.is_playing)),
            None => None,
        },
        None => None,
    }
}

/// The whole transfer step: find the target among `devices` and choose
/// the action for it. Errors exactly as [`find_target`]; on success the
/// returned identifier is the first `"TV"` device's and the decision
/// follows [`spec_decide`] for it.
pub fn transfer_session(snapshot: &Option<PlaybackSnapshot>, devices: &Vec<Device>) -> (r: Result<
    (Decision, String),
    LauncherError,
>)
    ensures
        r matches Ok(p) ==> (exists|i: int|
            first_match_at(devices@, "TV"@, i) && (devices[i].id matches Some(s) && s@
                == p.1@)) && p.0 == spec_decide(*snapshot, p.1@),
        (r matches Err(e) && e == LauncherError::NoTargetDevice) <==> no_match(
            devices@,
            "TV"@,
        ),
        (r matches Err(e) && e == LauncherError::TargetHasNoId) <==> exists|i: int|
            first_match_at(devices@, "TV"@, i) && devices[i].id is None,
        r is Ok || r == Err::<(Decision, String), LauncherError>(LauncherError::NoTargetDevice) || r
            == Err::<(Decision, String), LauncherError>(LauncherError::TargetHasNoId),
{
    match find_target(devices) {
        Ok(target_id) => {
            let d = decide(snapshot, &target_id);
            Ok((d, target_id))
        },
        Err(e) => Err(e),
    }
}

} // verus!
