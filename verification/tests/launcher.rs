use tv_launcher::adb::{
    connect_tv, ensure_awake, open_spotify, screen_is_on, tv_endpoint, AdbCommand, ConnectAction,
    WakeStep,
};
use tv_launcher::config::{init_config, AppConfig};
use tv_launcher::errors::LauncherError;
use tv_launcher::token::ensure_token;
use tv_launcher::transfer::{
    decide, find_target, playback_status, transfer_session, Decision, Device, PlaybackSnapshot,
};

fn dev(name: &str, id: Option<&str>) -> Device {
    Device {
        id: id.map(|s| s.to_string()),
        name: name.to_string(),
    }
}

const TOKEN_JSON: &str = "{\"access_token\":\"acc\",\"expires_in\":3600,\"expires_at\":\"2024-01-01T00:00:00Z\",\"refresh_token\":\"ref\",\"scope\":\"user-modify-playback-state user-read-playback-state\"}";

#[test]
fn endpoint_is_ip_and_port() {
    assert_eq!(tv_endpoint("192.168.1.50"), "192.168.1.50:5555");
}

#[test]
fn argv_of_each_command() {
    assert_eq!(AdbCommand::Devices.argv(), vec!["devices"]);
    assert_eq!(
        AdbCommand::Connect("192.168.1.50:5555".to_string()).argv(),
        vec!["connect", "192.168.1.50:5555"]
    );
    assert_eq!(
        AdbCommand::DumpsysPower.argv(),
        vec!["shell", "dumpsys", "power"]
    );
    assert_eq!(
        AdbCommand::WakeKey.argv(),
        vec!["shell", "input", "keyevent", "224"]
    );
    assert_eq!(
        AdbCommand::OpenSpotify.argv(),
        vec!["shell", "monkey", "-p", "com.spotify.tv.android", "1"]
    );
}

#[test]
fn connect_idempotent_when_already_listed() {
    let (mut m, first) = connect_tv("10.0.0.7");
    assert_eq!(first, AdbCommand::Devices);
    let out = "List of devices attached\n10.0.0.7:5555\tdevice\n";
    let a = m.on_output(out);
    assert_eq!(a, ConnectAction::Connected);
}

#[test]
fn connect_issues_one_connect_then_succeeds() {
    let (mut m, first) = connect_tv("10.0.0.7");
    assert_eq!(first, AdbCommand::Devices);
    let a1 = m.on_output("List of devices attached\n");
    assert_eq!(
        a1,
        ConnectAction::Run(AdbCommand::Connect("10.0.0.7:5555".to_string()))
    );
    let a2 = m.on_output("connected to 10.0.0.7:5555");
    assert_eq!(a2, ConnectAction::Run(AdbCommand::Devices));
    let a3 = m.on_output("List of devices attached\n10.0.0.7:5555\tdevice\n");
    assert_eq!(a3, ConnectAction::Connected);
}

#[test]
fn connect_fails_when_endpoint_never_appears() {
    let (mut m, _) = connect_tv("10.0.0.7");
    let a1 = m.on_output("List of devices attached\n");
    assert_eq!(
        a1,
        ConnectAction::Run(AdbCommand::Connect("10.0.0.7:5555".to_string()))
    );
    let a2 = m.on_output("failed to connect");
    assert_eq!(a2, ConnectAction::Run(AdbCommand::Devices));
    let a3 = m.on_output("List of devices attached\n");
    assert_eq!(
        a3,
        ConnectAction::Failed(LauncherError::ConnectFailed("10.0.0.7:5555".to_string()))
    );
}

#[test]
fn screen_tokens_each_detected() {
    assert!(screen_is_on("mInteractive=true"));
    assert!(screen_is_on("mScreenOn=true"));
    assert!(screen_is_on("state=ON"));
    assert!(screen_is_on("mWakefulness=Awake"));
    assert!(screen_is_on("mWakefulness=Dreaming"));
}

#[test]
fn screen_tokens_mixed_casing() {
    assert!(screen_is_on("MINTERACTIVE=TRUE"));
    assert!(screen_is_on("mscreenon=True"));
    assert!(screen_is_on("prefix STATE=On suffix"));
    assert!(screen_is_on("...mWAKEFULNESS=aWaKe..."));
    assert!(screen_is_on("mwakefulness=DREAMING"));
}

#[test]
fn screen_asleep_not_detected() {
    assert!(!screen_is_on("mWakefulness=Asleep"));
    assert!(!screen_is_on(""));
    assert!(!screen_is_on("mInteractive=false mScreenOn=false"));
}

#[test]
fn wake_loop_spends_full_budget_when_screen_stays_off() {
    let (mut m, first) = ensure_awake(4);
    assert_eq!(first, AdbCommand::DumpsysPower);
    let mut wakes = 0;
    let mut sleeps = 0;
    loop {
        match m.on_screen_state(false) {
            WakeStep::Done(v) => {
                assert!(!v);
                break;
            }
            WakeStep::WakeThenSleep => {
                wakes += 1;
                sleeps += 1;
            }
            WakeStep::WakeThenProbe => {
                wakes += 1;
            }
        }
    }
    assert_eq!(wakes, 4);
    assert_eq!(sleeps, 3);
    assert_eq!(m.wakes_sent, 4);
    assert_eq!(m.sleeps_done, 3);
}

#[test]
fn wake_loop_stops_at_once_when_screen_is_on() {
    let (mut m, _) = ensure_awake(4);
    assert_eq!(m.on_screen_state(true), WakeStep::Done(true));
    assert_eq!(m.wakes_sent, 0);
    assert_eq!(m.sleeps_done, 0);
}

#[test]
fn wake_loop_reports_success_after_some_wakes() {
    let (mut m, _) = ensure_awake(4);
    assert_eq!(m.on_screen_state(false), WakeStep::WakeThenSleep);
    assert_eq!(m.on_screen_state(false), WakeStep::WakeThenSleep);
    assert_eq!(m.on_screen_state(true), WakeStep::Done(true));
    assert_eq!(m.wakes_sent, 2);
    assert_eq!(m.sleeps_done, 2);
}

#[test]
fn wake_loop_zero_budget_probes_once() {
    let (mut m, _) = ensure_awake(0);
    assert_eq!(m.on_screen_state(false), WakeStep::Done(false));
    assert_eq!(m.wakes_sent, 0);
    assert_eq!(m.sleeps_done, 0);
}

#[test]
fn open_spotify_is_the_monkey_command() {
    assert_eq!(open_spotify(), AdbCommand::OpenSpotify);
}

#[test]
fn decision_table_no_snapshot_transfers() {
    let devices = vec![dev("Living Room TV", Some("T"))];
    let r = transfer_session(&None, &devices).unwrap();
    assert_eq!(r, (Decision::TransferAndPlay, "T".to_string()));
}

#[test]
fn decision_table_target_playing_pauses() {
    let devices = vec![dev("Living Room TV", Some("T"))];
    let snap = Some(PlaybackSnapshot {
        device_id: Some("T".to_string()),
        is_playing: true,
    });
    let r = transfer_session(&snap, &devices).unwrap();
    assert_eq!(r, (Decision::PauseOnTarget, "T".to_string()));
}

#[test]
fn decision_table_target_paused_resumes() {
    let devices = vec![dev("Living Room TV", Some("T"))];
    let snap = Some(PlaybackSnapshot {
        device_id: Some("T".to_string()),
        is_playing: false,
    });
    let r = transfer_session(&snap, &devices).unwrap();
    assert_eq!(r, (Decision::ResumeOnTarget, "T".to_string()));
}

#[test]
fn decision_table_other_device_transfers() {
    let devices = vec![dev("Living Room TV", Some("T"))];
    let snap = Some(PlaybackSnapshot {
        device_id: Some("P".to_string()),
        is_playing: true,
    });
    let r = transfer_session(&snap, &devices).unwrap();
    assert_eq!(r, (Decision::TransferAndPlay, "T".to_string()));
}

#[test]
fn first_tv_device_wins() {
    let devices = vec![
        dev("Phone", None),
        dev("TV-1", Some("A")),
        dev("TV-2", Some("B")),
    ];
    assert_eq!(find_target(&devices).unwrap(), "A");
}

#[test]
fn tv_match_is_case_sensitive() {
    let devices = vec![dev("Living Room tv", Some("A")), dev("Big TV", Some("B"))];
    assert_eq!(find_target(&devices).unwrap(), "B");
}

#[test]
fn no_tv_name_is_no_target_device() {
    let devices = vec![dev("Phone", Some("P")), dev("Laptop", Some("L"))];
    assert_eq!(
        find_target(&devices).unwrap_err(),
        LauncherError::NoTargetDevice
    );
    assert_eq!(
        transfer_session(&None, &devices).unwrap_err(),
        LauncherError::NoTargetDevice
    );
}

#[test]
fn tv_without_id_is_target_has_no_id() {
    let devices = vec![dev("Living Room TV", None), dev("Other TV", Some("B"))];
    assert_eq!(
        find_target(&devices).unwrap_err(),
        LauncherError::TargetHasNoId
    );
}

#[test]
fn playback_status_drops_idless_snapshot() {
    assert_eq!(playback_status(&None), None);
    let no_id = Some(PlaybackSnapshot {
        device_id: None,
        is_playing: true,
    });
    assert_eq!(playback_status(&no_id), None);
    let with_id = Some(PlaybackSnapshot {
        device_id: Some("X".to_string()),
        is_playing: true,
    });
    assert_eq!(playback_status(&with_id), Some(("X".to_string(), true)));
}

#[test]
fn decide_matches_table_directly() {
    let target = "T".to_string();
    assert_eq!(decide(&None, &target), Decision::TransferAndPlay);
    let paused_elsewhere = Some(PlaybackSnapshot {
        device_id: Some("P".to_string()),
        is_playing: false,
    });
    assert_eq!(decide(&paused_elsewhere, &target), Decision::TransferAndPlay);
}

#[test]
fn config_ok_when_all_given() {
    let r = init_config(
        Some("id".to_string()),
        Some("secret".to_string()),
        Some("http://localhost:8888/callback".to_string()),
        Some("192.168.1.50".to_string()),
    );
    assert_eq!(
        r.unwrap(),
        AppConfig {
            client_id: "id".to_string(),
            client_secret: "secret".to_string(),
            redirect_uri: "http://localhost:8888/callback".to_string(),
            firetv_ip: "192.168.1.50".to_string(),
        }
    );
}

#[test]
fn config_names_first_missing_key() {
    let r = init_config(None, Some("s".to_string()), None, None);
    assert_eq!(
        r.unwrap_err(),
        LauncherError::MissingConfig("RSPOTIFY_CLIENT_ID".to_string())
    );
    let r = init_config(Some("i".to_string()), None, Some("u".to_string()), None);
    assert_eq!(
        r.unwrap_err(),
        LauncherError::MissingConfig("RSPOTIFY_CLIENT_SECRET".to_string())
    );
    let r = init_config(
        Some("i".to_string()),
        Some("s".to_string()),
        None,
        Some("ip".to_string()),
    );
    assert_eq!(
        r.unwrap_err(),
        LauncherError::MissingConfig("RSPOTIFY_REDIRECT_URI".to_string())
    );
    let r = init_config(
        Some("i".to_string()),
        Some("s".to_string()),
        Some("u".to_string()),
        None,
    );
    assert_eq!(
        r.unwrap_err(),
        LauncherError::MissingConfig("FIRETV_IP".to_string())
    );
}

#[test]
fn config_empty_value_counts_as_missing() {
    let r = init_config(
        Some("".to_string()),
        Some("s".to_string()),
        Some("u".to_string()),
        Some("ip".to_string()),
    );
    assert_eq!(
        r.unwrap_err(),
        LauncherError::MissingConfig("RSPOTIFY_CLIENT_ID".to_string())
    );
}

#[test]
fn token_install_when_client_is_empty() {
    let t = ensure_token(false, Some(TOKEN_JSON.to_string()), "/home/u/.cache/token.json")
        .unwrap()
        .unwrap();
    assert_eq!(t.access_token, "acc");
    assert_eq!(t.refresh_token.as_deref(), Some("ref"));
    assert_eq!(t.expires_at, Some(1_704_067_200));
    let mut scopes = t.scopes.clone();
    scopes.sort();
    assert_eq!(
        scopes,
        vec![
            "user-modify-playback-state".to_string(),
            "user-read-playback-state".to_string(),
        ]
    );
    assert_eq!(t.token_type, "Bearer");
}

#[test]
fn token_kept_when_client_already_has_one() {
    let r = ensure_token(true, None, "/home/u/.cache/token.json");
    assert_eq!(r.unwrap(), None);
}

#[test]
fn absent_cache_is_no_credentials() {
    let r = ensure_token(false, None, "/home/u/.cache/token.json");
    assert_eq!(r.unwrap_err(), LauncherError::NoCredentials);
}

#[test]
fn corrupt_cache_names_path_and_message() {
    // a document whose first byte is cut off no longer parses
    let truncated = TOKEN_JSON[1..].to_string();
    let r = ensure_token(false, Some(truncated), "/home/u/.cache/token.json");
    match r.unwrap_err() {
        LauncherError::CacheCorrupt { path, message } => {
            assert_eq!(path, "/home/u/.cache/token.json");
            assert!(!message.is_empty());
        }
        other => panic!("expected CacheCorrupt, got {other:?}"),
    }
}

#[test]
fn token_round_trip_through_the_cache_format() {
    // what the OAuth library writes, the launcher reads back unchanged
    let mut written = rspotify::Token::default();
    written.access_token = "acc".to_string();
    written.refresh_token = Some("ref".to_string());
    written.scopes = vec!["user-read-playback-state".to_string()]
        .into_iter()
        .collect();
    let json = serde_json::to_string(&written).unwrap();
    let reloaded = ensure_token(false, Some(json), "/p").unwrap().unwrap();
    assert_eq!(reloaded.access_token, written.access_token);
    assert_eq!(reloaded.refresh_token, written.refresh_token);
    assert_eq!(
        reloaded.expires_at,
        written.expires_at.map(|d| d.timestamp())
    );
    assert_eq!(
        reloaded.scopes,
        vec!["user-read-playback-state".to_string()]
    );
}
