//! The ADB side of the pipeline: the exact argument vectors handed to the
//! `adb` program, screen-state detection from a `dumpsys power` dump, the
//! connect handshake, and the bounded wake loop.
//!
//! Nothing here spawns a process. Each interaction is a small state
//! machine: the caller runs the requested command, hands the captured
//! standard output back, and the machine decides the next step. A run of
//! `adb` that exits non-zero aborts the whole pipeline, so the machines
//! only ever see successful outputs.
use vstd::prelude::*;
use crate::errors::LauncherError;
use crate::text::{contains_seq, ci_contains_seq, str_contains, str_contains_ci};

verus! {

/// One invocation of the `adb` program, by its argument vector.
#[derive(Debug, Clone, PartialEq, Eq)]
pub enum AdbCommand {
    /// `adb devices`
    Devices,
    /// `adb connect <endpoint>`
    Connect(String),
    /// `adb shell dumpsys power`
    DumpsysPower,
    /// `adb shell input keyevent 224`
    WakeKey,
    /// `adb shell monkey -p com.spotify.tv.android 1`
    OpenSpotify,
}

/// The argument vector of `c`, as character sequences.
pub open spec fn spec_argv(c: AdbCommand) -> Seq<Seq<char>> {
    match c {
        AdbCommand::Devices => seq!["devices"@],
        AdbCommand::Connect(ep) => seq!["connect"@, ep@],
        AdbCommand::DumpsysPower => seq!["shell"@, "dumpsys"@, "power"@],
        AdbCommand::WakeKey => seq!["shell"@, "input"@, "keyevent"@, "224"@],
        AdbCommand::OpenSpotify => seq![
            "shell"@,
            "monkey"@,
            "-p"@,
            "com.spotify.tv.android"@,
            "1"@,
        ],
    }
}

impl AdbCommand {
    /// The literal arguments to pass to the `adb` program.
    pub fn argv(&self) -> (r: Vec<String>)
        ensures
            r.deep_view() == spec_argv(*self),
    {
        let mut v: Vec<String> = Vec::new();
        match self {
            AdbCommand::Devices => {
                v.push(String::from_str("devices"));
            },
            AdbCommand::Connect(ep) => {
                v.push(String::from_str("connect"));
                v.push(ep.clone());
            },
            AdbCommand::DumpsysPower => {
                v.push(String::from_str("shell"));
                v.push(String::from_str("dumpsys"));
                v.push(String::from_str("power"));
            },
            AdbCommand::WakeKey => {
                v.push(String::from_str("shell"));
                v.push(String::from_str("input"));
                v.push(String::from_str("keyevent"));
                v.push(String::from_str("224"));
            },
            AdbCommand::OpenSpotify => {
                v.push(String::from_str("shell"));
                v.push(String::from_str("monkey"));
                v.push(String::from_str("-p"));
                v.push(String::from_str("com.spotify.tv.android"));
                v.push(String::from_str("1"));
            },
        }
        proof {
            assert(v.deep_view() =~= spec_argv(*self));
        }
        v
    }
}

/// The ADB endpoint for a TV at `ip`: the literal `"<ip>:5555"`.
pub fn tv_endpoint(ip: &str) -> (r: String)
    ensures
        r@ == ip@ + ":5555"@,
{
    String::from_str(ip).concat(":5555")
}

/// A power dump reports the screen awake: it contains one of the
/// wakefulness tokens, compared without regard to ASCII case.
/// `dreaming` counts as awake on purpose: a screensaver still renders.
pub open spec fn spec_screen_on(dump: Seq<char>) -> bool {
    ||| ci_contains_seq(dump, "minteractive=true"@)
    ||| ci_contains_seq(dump, "mscreenon=true"@)
    ||| ci_contains_seq(dump, "state=on"@)
    ||| ci_contains_seq(dump, "mwakefulness=awake"@)
    ||| ci_contains_seq(dump, "mwakefulness=dreaming"@)
}

/// Decides from the output of `adb shell dumpsys power` whether the TV
/// screen is awake.
pub fn screen_is_on(dump: &str) -> (r: bool)
    ensures
        r == spec_screen_on(dump@),
{
    str_contains_ci(dump, "minteractive=true") || str_contains_ci(dump, "mscreenon=true")
        || str_contains_ci(dump, "state=on") || str_contains_ci(dump, "mwakefulness=awake")
        || str_contains_ci(dump, "mwakefulness=dreaming")
}

/// Where the connect handshake stands.
#[derive(Debug, Clone, Copy, PartialEq, Eq, Structural)]
pub enum ConnectPhase {
    /// Waiting for the first `adb devices` output.
    Probe,
    /// Waiting for the output of `adb connect <endpoint>`.
    Connecting,
    /// Waiting for the second `adb devices` output.
    Reprobe,
    /// Settled, one way or the other.
    Done,
}

/// What the driver must do next during the connect handshake.
#[derive(Debug, Clone, PartialEq, Eq)]
pub enum ConnectAction {
    /// Run this command and feed its output back.
    Run(AdbCommand),
    /// The endpoint is listed; the TV is connected.
    Connected,
    /// The endpoint never appeared; give up.
    Failed(LauncherError),
}

/// The connect handshake: probe `adb devices`; if the endpoint is absent,
/// issue one `adb connect` and probe again; if it is still absent, fail.
pub struct ConnectTv {
    /// The `"<ip>:5555"` needle looked for in `adb devices` output.
    pub endpoint: String,
    pub phase: ConnectPhase,
}

/// Starts the connect handshake towards `"<ip>:5555"`. The returned
/// command (`adb devices`) must be run and its output handed to
/// [`ConnectTv::on_output`].
pub fn connect_tv(ip: &str) -> (r: (ConnectTv, AdbCommand))
    ensures
        r.0.endpoint@ == ip@ + ":5555"@,
        r.0.phase == ConnectPhase::Probe,
        r.1 == AdbCommand::Devices,
{
    let endpoint = tv_endpoint(ip);
    (ConnectTv { endpoint, phase: ConnectPhase::Probe }, AdbCommand::Devices)
}

/// The transition of the connect handshake: what the machine becomes and
/// what the driver must do next, given the output of the command that was
/// last requested.
pub open spec fn spec_on_output(m: ConnectTv, out: Seq<char>) -> (ConnectTv, ConnectAction) {
    match m.phase {
        ConnectPhase::Probe => if contains_seq(out, m.endpoint@) {
            (ConnectTv { phase: ConnectPhase::Done, ..m }, ConnectAction::Connected)
        } else {
            (
                ConnectTv { phase: ConnectPhase::Connecting, ..m },
                ConnectAction::Run(AdbCommand::Connect(m.endpoint)),
            )
        },
        ConnectPhase::Connecting => (
            ConnectTv { phase: ConnectPhase::Reprobe, ..m },
            ConnectAction::Run(AdbCommand::Devices),
        ),
        ConnectPhase::Reprobe => if contains_seq(out, m.endpoint@) {
            (ConnectTv { phase: ConnectPhase::Done, ..m }, ConnectAction::Connected)
        } else {
            (
                ConnectTv { phase: ConnectPhase::Done, ..m },
                ConnectAction::Failed(LauncherError::ConnectFailed(m.endpoint)),
            )
        },
        ConnectPhase::Done => (m, ConnectAction::Connected),
    }
}

impl ConnectTv {
    /// Feeds the captured standard output of the previously requested
    /// command back into the handshake and decides the next step:
    /// - first probe listing the endpoint: connected, nothing issued;
    /// - first probe missing it: run `adb connect <endpoint>`;
    /// - after the connect attempt: probe `adb devices` once more;
    /// - second probe listing the endpoint: connected;
    /// - second probe missing it: `ConnectFailed(endpoint)`.
    pub fn on_output(&mut self, out: &str) -> (r: ConnectAction)
        requires
            old(self).phase != ConnectPhase::Done,
        ensures
            *final(self) == spec_on_output(*old(self), out@).0,
            r == spec_on_output(*old(self), out@).1,
    {
        match self.phase {
            ConnectPhase::Probe => {
                if str_contains(out, self.endpoint.as_str()) {
                    self.phase = ConnectPhase::Done;
                    ConnectAction::Connected
                } else {
                    self.phase = ConnectPhase::Connecting;
                    ConnectAction::Run(AdbCommand::Connect(self.endpoint.clone()))
                }
            },
            ConnectPhase::Connecting => {
                self.phase = ConnectPhase::Reprobe;
                ConnectAction::Run(AdbCommand::Devices)
            },
            ConnectPhase::Reprobe => {
                if str_contains(out, self.endpoint.as_str()) {
                    self.phase = ConnectPhase::Done;
                    ConnectAction::Connected
                } else {
                    self.phase = ConnectPhase::Done;
                    ConnectAction::Failed(LauncherError::ConnectFailed(self.endpoint.clone()))
                }
            },
            ConnectPhase::Done => {
                // unreachable under the precondition
                ConnectAction::Connected
            },
        }
    }
}

/// Law: the handshake is idempotent. When the first `adb devices` output
/// already lists the endpoint, the handshake ends connected at once: no
/// `adb connect` (nor any other command) is issued.
pub proof fn lemma_connect_idempotent(m: ConnectTv, out: Seq<char>)
    requires
        m.phase == ConnectPhase::Probe,
        contains_seq(out, m.endpoint@),
    ensures
        spec_on_output(m, out).1 == ConnectAction::Connected,
        spec_on_output(m, out).0.phase == ConnectPhase::Done,
{
}

/// Law: reconnecting works. When the first `adb devices` output omits the
/// endpoint and the probe after `adb connect` lists it, the handshake
/// issues exactly one `adb connect` and ends connected.
pub proof fn lemma_connect_reconnects(m: ConnectTv, out1: Seq<char>, out2: Seq<char>, out3: Seq<char>)
    requires
        m.phase == ConnectPhase::Probe,
        !contains_seq(out1, m.endpoint@),
        contains_seq(out3, m.endpoint@),
    ensures
        spec_on_output(m, out1).1 == ConnectAction::Run(AdbCommand::Connect(m.endpoint)),
        spec_on_output(spec_on_output(m, out1).0, out2).1 == ConnectAction::Run(
            AdbCommand::Devices,
        ),
        spec_on_output(spec_on_output(spec_on_output(m, out1).0, out2).0, out3).1
            == ConnectAction::Connected,
{
}

/// Law: the handshake gives up after one reconnect attempt. When both
/// `adb devices` outputs omit the endpoint, the handshake issues exactly
/// one `adb connect` and fails with `ConnectFailed` naming the endpoint.
pub proof fn lemma_connect_exhaustion(m: ConnectTv, out1: Seq<char>, out2: Seq<char>, out3: Seq<char>)
    requires
        m.phase == ConnectPhase::Probe,
        !contains_seq(out1, m.endpoint@),
        !contains_seq(out3, m.endpoint@),
    ensures
        spec_on_output(m, out1).1 == ConnectAction::Run(AdbCommand::Connect(m.endpoint)),
        spec_on_output(spec_on_output(m, out1).0, out2).1 == ConnectAction::Run(
            AdbCommand::Devices,
        ),
        spec_on_output(spec_on_output(spec_on_output(m, out1).0, out2).0, out3).1
            == ConnectAction::Failed(LauncherError::ConnectFailed(m.endpoint)),
{
}

/// What the driver must do next during the wake loop.
#[derive(Debug, Clone, Copy, PartialEq, Eq, Structural)]
pub enum WakeStep {
    /// The loop is over; the value is the final screen state.
    Done(bool),
    /// Send the wake key, sleep 800 ms, then probe the screen again.
    WakeThenSleep,
    /// Last attempt: send the wake key and probe again without sleeping.
    WakeThenProbe,
}

/// The bounded wake loop: probe the screen; while it is off and attempts
/// remain, send `adb shell input keyevent 224` and probe again, pausing
/// 800 ms between a wake and the next probe except after the last wake.
/// It issues at most `max_tries` wake events and sleeps at most
/// `max_tries - 1` times.
pub struct EnsureAwake {
    pub max_tries: u32,
    /// Wake events still allowed.
    pub remaining: u32,
    /// Wake key events issued so far.
    pub wakes_sent: u32,
    /// Sleeps performed so far.
    pub sleeps_done: u32,
    /// No further step may be taken.
    pub finished: bool,
}

/// Every state the wake loop can reach satisfies this; it pins the
/// counters to the number of attempts spent.
pub open spec fn wake_wf(m: EnsureAwake) -> bool {
    &&& m.wakes_sent + m.remaining == m.max_tries
    &&& if m.remaining > 0 {
        m.sleeps_done == m.wakes_sent
    } else if m.max_tries > 0 {
        m.sleeps_done + 1 == m.max_tries
    } else {
        m.sleeps_done == 0
    }
}

/// Starts the wake loop with a budget of `max_tries` wake events. The
/// returned command (`adb shell dumpsys power`) must be run and the
/// screen state decided from it handed to [`EnsureAwake::on_screen_state`].
pub fn ensure_awake(max_tries: u32) -> (r: (EnsureAwake, AdbCommand))
    ensures
        r.0.max_tries == max_tries,
        r.0.remaining == max_tries,
        r.0.wakes_sent == 0,
        r.0.sleeps_done == 0,
        !r.0.finished,
        wake_wf(r.0),
        r.1 == AdbCommand::DumpsysPower,
{
    (
        EnsureAwake {
            max_tries,
            remaining: max_tries,
            wakes_sent: 0,
            sleeps_done: 0,
            finished: false,
        },
        AdbCommand::DumpsysPower,
    )
}

impl EnsureAwake {
    /// Feeds the probed screen state into the loop and decides the next
    /// step. An awake screen ends the loop with `Done(true)`; an asleep
    /// screen with no attempts left ends it with `Done(false)`; otherwise
    /// one wake event is spent, with a sleep before the next probe unless
    /// it was the last attempt.
    pub fn on_screen_state(&mut self, on: bool) -> (r: WakeStep)
        requires
            !old(self).finished,
            wake_wf(*old(self)),
        ensures
            wake_wf(*final(self)),
            final(self).max_tries == old(self).max_tries,
            on ==> r == WakeStep::Done(true) && *final(self) == (EnsureAwake {
                finished: true,
                ..*old(self)
            }),
            !on && old(self).remaining == 0 ==> r == WakeStep::Done(false) && *final(self) == (
            EnsureAwake { finished: true, ..*old(self) }),
            !on && old(self).remaining > 1 ==> r == WakeStep::WakeThenSleep && *final(self) == (
            EnsureAwake {
                remaining: (old(self).remaining - 1) as u32,
                wakes_sent: (old(self).wakes_sent + 1) as u32,
                sleeps_done: (old(self).sleeps_done + 1) as u32,
                ..*old(self)
            }),
            !on && old(self).remaining == 1 ==> r == WakeStep::WakeThenProbe && *final(self) == (
            EnsureAwake {
                remaining: 0u32,
                wakes_sent: (old(self).wakes_sent + 1) as u32,
                ..*old(self)
            }),
            final(self).wakes_sent <= final(self).max_tries,
            final(self).max_tries > 0 ==> final(self).sleeps_done + 1 <= final(self).max_tries,
            final(self).max_tries == 0 ==> final(self).sleeps_done == 0,
    {
        if on {
            self.finished = true;
            WakeStep::Done(true)
        } else if self.remaining == 0 {
            self.finished = true;
            WakeStep::Done(false)
        } else if self.remaining > 1 {
            self.remaining = self.remaining - 1;
            self.wakes_sent = self.wakes_sent + 1;
            self.sleeps_done = self.sleeps_done + 1;
            WakeStep::WakeThenSleep
        } else {
            self.remaining = 0;
            self.wakes_sent = self.wakes_sent + 1;
            WakeStep::WakeThenProbe
        }
    }
}

/// Every reachable state of the wake loop has issued at most `max_tries`
/// wake events and slept at most `max_tries - 1` times.
pub proof fn lemma_wake_bound(m: EnsureAwake)
    requires
        wake_wf(m),
    ensures
        m.wakes_sent <= m.max_tries,
        m.max_tries > 0 ==> m.sleeps_done + 1 <= m.max_tries,
        m.max_tries == 0 ==> m.sleeps_done == 0,
{
}

/// The command that launches the Spotify application on the TV:
/// `adb shell monkey -p com.spotify.tv.android 1`. The driver runs it;
/// a non-zero exit surfaces as `AdbFailure`.
pub fn open_spotify() -> (r: AdbCommand)
    ensures
        r == AdbCommand::OpenSpotify,
{
    AdbCommand::OpenSpotify
}

} // verus!
