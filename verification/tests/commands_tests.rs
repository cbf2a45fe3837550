use control_centre::commands::{
    get_all_states, get_bluetooth_status, get_bluetooth_status_internal, get_brightness,
    get_brightness_internal, get_max_brightness, get_max_brightness_internal, get_mute_status,
    get_mute_status_internal, get_network_state_internal, get_night_light_internal,
    get_night_light_status, get_volume, get_volume_internal, get_wifi_status, set_bluetooth_enabled,
    set_brightness, set_night_light_enabled, set_volume, set_wifi_enabled, suspend_system,
    toggle_mute, AllStates, BrightnessState, DisplayState, NetworkState, Readings, SnapshotStep,
    Step, VolumeState,
};
use control_centre::error::ControlCentreError;
use control_centre::request::{invocation_for, Companion, Request};
use control_centre::runner::CommandReply;
use control_centre::state::AppState;

fn ok(text: &str) -> CommandReply {
    Ok(text.to_string())
}

fn failed(text: &str) -> CommandReply {
    Err(ControlCentreError::CommandFailed(text.to_string()))
}

fn missing(text: &str) -> CommandReply {
    Err(ControlCentreError::CommandNotFound(text.to_string()))
}

fn all_off() -> NetworkState {
    NetworkState {
        wifi_enabled: false,
        wifi_connected: false,
        wifi_ssid: None,
        bluetooth_enabled: false,
        bluetooth_connected: false,
    }
}

#[test]
fn get_volume_asks_the_mixer_on_a_miss() {
    let mut state = AppState::new();
    assert_eq!(get_volume(&mut state, &[]), Step::Run(Request::VolumeQuery));
    assert_eq!(state.get_cached_volume(), None);
}

#[test]
fn get_volume_answers_from_the_cache_on_a_hit() {
    let mut state = AppState::new();
    state.set_cached_volume(42);
    assert_eq!(get_volume(&mut state, &[]), Step::Done(Ok(42)));
}

#[test]
fn get_volume_reads_the_reply_and_stores_it() {
    let mut state = AppState::new();
    let replies = vec![ok("Volume: front-left: 65536 / 100% / 0.00 dB")];
    assert_eq!(get_volume(&mut state, &replies), Step::Done(Ok(100)));
    assert_eq!(state.get_cached_volume(), Some(100));
}

#[test]
fn get_volume_defaults_where_the_reply_has_no_percentage() {
    let mut state = AppState::new();
    let replies = vec![ok("No percentage here")];
    assert_eq!(get_volume(&mut state, &replies), Step::Done(Ok(50)));
    assert_eq!(state.get_cached_volume(), Some(50));
}

#[test]
fn get_volume_gives_the_default_for_a_failed_run() {
    let mut state = AppState::new();
    assert_eq!(get_volume(&mut state, &[missing("pactl")]), Step::Done(Ok(50)));
    assert_eq!(state.get_cached_volume(), None);
    assert_eq!(
        get_volume(&mut state, &[failed("Connection failure: Connection refused")]),
        Step::Done(Ok(50))
    );
    assert_eq!(state.get_cached_volume(), None);
    // What was fetched before stays in the cache.
    state.set_cached_volume(80);
    assert_eq!(get_volume(&mut state, &[missing("pactl")]), Step::Done(Ok(50)));
    assert_eq!(state.get_cached_volume(), Some(80));
}

#[test]
fn set_volume_refuses_more_than_a_hundred_before_anything_runs() {
    let mut state = AppState::new();
    let refused = Step::Done(Err(
        "Invalid argument: Percentage must be 0-100, got 101".to_string()
    ));
    assert_eq!(set_volume(&mut state, 101, &[]), refused);
    assert_eq!(set_volume(&mut state, 101, &[ok("")]), refused);
    assert_eq!(
        set_volume(&mut state, 255, &[]),
        Step::Done(Err(
            "Invalid argument: Percentage must be 0-100, got 255".to_string()
        ))
    );
    assert_eq!(state.get_cached_volume(), None);
}

#[test]
fn set_volume_runs_the_change_and_stores_the_value() {
    let mut state = AppState::new();
    assert_eq!(
        set_volume(&mut state, 65, &[]),
        Step::Run(Request::VolumeChange(65))
    );
    assert_eq!(state.get_cached_volume(), None);
    assert_eq!(set_volume(&mut state, 65, &[ok("")]), Step::Done(Ok(65)));
    assert_eq!(state.get_cached_volume(), Some(65));
    assert_eq!(set_volume(&mut state, 0, &[]), Step::Run(Request::VolumeChange(0)));
    assert_eq!(set_volume(&mut state, 100, &[]), Step::Run(Request::VolumeChange(100)));
}

#[test]
fn set_volume_hands_on_the_error_and_leaves_the_cache() {
    let mut state = AppState::new();
    state.set_cached_volume(10);
    assert_eq!(
        set_volume(&mut state, 65, &[failed("Failure: No such entity")]),
        Step::Done(Err(
            "Command execution failed: Failure: No such entity".to_string()
        ))
    );
    assert_eq!(state.get_cached_volume(), Some(10));
}

#[test]
fn toggle_mute_flips_then_asks() {
    let mut state = AppState::new();
    assert_eq!(toggle_mute(&mut state, &[]), Step::Run(Request::MuteToggle));
    assert_eq!(toggle_mute(&mut state, &[ok("")]), Step::Run(Request::MuteQuery));
    assert_eq!(state.get_cached_muted(), None);
    assert_eq!(
        toggle_mute(&mut state, &[ok(""), ok("Mute: yes")]),
        Step::Done(Ok(true))
    );
    assert_eq!(state.get_cached_muted(), Some(true));
    assert_eq!(
        toggle_mute(&mut state, &[ok(""), ok("Mute: no")]),
        Step::Done(Ok(false))
    );
    assert_eq!(state.get_cached_muted(), Some(false));
}

#[test]
fn toggle_mute_hands_on_either_error() {
    let mut state = AppState::new();
    assert_eq!(
        toggle_mute(&mut state, &[failed("a")]),
        Step::Done(Err("Command execution failed: a".to_string()))
    );
    assert_eq!(
        toggle_mute(&mut state, &[failed("a"), ok("Mute: yes")]),
        Step::Done(Err("Command execution failed: a".to_string()))
    );
    assert_eq!(
        toggle_mute(&mut state, &[ok(""), failed("b")]),
        Step::Done(Err("Command execution failed: b".to_string()))
    );
    assert_eq!(state.get_cached_muted(), None);
}

#[test]
fn get_mute_status_goes_through_the_cache() {
    let mut state = AppState::new();
    assert_eq!(get_mute_status(&mut state, &[]), Step::Run(Request::MuteQuery));
    assert_eq!(
        get_mute_status(&mut state, &[ok("Mute: YES")]),
        Step::Done(Ok(true))
    );
    assert_eq!(get_mute_status(&mut state, &[]), Step::Done(Ok(true)));
    let mut other = AppState::new();
    assert_eq!(get_mute_status(&mut other, &[failed("x")]), Step::Done(Ok(false)));
    assert_eq!(other.get_cached_muted(), None);
}

#[test]
fn get_brightness_goes_through_the_cache() {
    let mut state = AppState::new();
    assert_eq!(get_brightness(&mut state, &[]), Step::Run(Request::BrightnessQuery));
    assert_eq!(
        get_brightness(&mut state, &[ok("intel_backlight,backlight,1000,39%,2550")]),
        Step::Done(Ok(39))
    );
    assert_eq!(state.get_cached_brightness(), Some(39));
    assert_eq!(get_brightness(&mut state, &[]), Step::Done(Ok(39)));
    let mut other = AppState::new();
    assert_eq!(get_brightness(&mut other, &[ok("invalid")]), Step::Done(Ok(50)));
    assert_eq!(other.get_cached_brightness(), Some(50));
    let mut third = AppState::new();
    assert_eq!(
        get_brightness(&mut third, &[missing("brightnessctl")]),
        Step::Done(Ok(50))
    );
    assert_eq!(third.get_cached_brightness(), None);
}

#[test]
fn set_brightness_asks_for_one_in_place_of_zero() {
    let mut state = AppState::new();
    assert_eq!(
        set_brightness(&mut state, 0, &[]),
        Step::Run(Request::BrightnessChange(1))
    );
    let run = invocation_for(Request::BrightnessChange(1));
    assert_eq!(run.program, "brightnessctl");
    assert_eq!(run.args, vec!["set".to_string(), "1%".to_string()]);
    assert_eq!(set_brightness(&mut state, 0, &[ok("")]), Step::Done(Ok(1)));
    assert_eq!(state.get_cached_brightness(), Some(1));
}

#[test]
fn set_brightness_keeps_any_other_percentage() {
    let mut state = AppState::new();
    assert_eq!(
        set_brightness(&mut state, 1, &[]),
        Step::Run(Request::BrightnessChange(1))
    );
    assert_eq!(
        set_brightness(&mut state, 39, &[]),
        Step::Run(Request::BrightnessChange(39))
    );
    assert_eq!(
        set_brightness(&mut state, 100, &[]),
        Step::Run(Request::BrightnessChange(100))
    );
    assert_eq!(set_brightness(&mut state, 39, &[ok("")]), Step::Done(Ok(39)));
    assert_eq!(state.get_cached_brightness(), Some(39));
}

#[test]
fn set_brightness_refuses_and_hands_on_errors() {
    let mut state = AppState::new();
    assert_eq!(
        set_brightness(&mut state, 101, &[]),
        Step::Done(Err(
            "Invalid argument: Percentage must be 0-100, got 101".to_string()
        ))
    );
    assert_eq!(
        set_brightness(&mut state, 50, &[failed("Device not found")]),
        Step::Done(Err(
            "Command execution failed: Device not found".to_string()
        ))
    );
    assert_eq!(state.get_cached_brightness(), None);
}

#[test]
fn get_max_brightness_reads_a_number() {
    assert_eq!(get_max_brightness(&[]), Step::Run(Request::MaxBrightnessQuery));
    assert_eq!(get_max_brightness(&[ok("2550")]), Step::Done(Ok(2550)));
    assert_eq!(get_max_brightness(&[ok("0")]), Step::Done(Ok(0)));
    assert_eq!(get_max_brightness(&[ok("4294967295")]), Step::Done(Ok(4294967295)));
}

#[test]
fn get_max_brightness_gives_the_default_where_it_reads_none() {
    assert_eq!(get_max_brightness(&[ok("many")]), Step::Done(Ok(100)));
    assert_eq!(get_max_brightness(&[ok("")]), Step::Done(Ok(100)));
    assert_eq!(get_max_brightness(&[ok("99999999999")]), Step::Done(Ok(100)));
    assert_eq!(get_max_brightness(&[missing("brightnessctl")]), Step::Done(Ok(100)));
    assert_eq!(get_max_brightness(&[failed("no device")]), Step::Done(Ok(100)));
}

#[test]
fn get_wifi_status_with_wifi_enabled_asks_three_times() {
    let mut state = AppState::new();
    assert_eq!(get_wifi_status(&mut state, &[]), Step::Run(Request::WifiQuery));
    assert_eq!(state.get_cached_wifi(), None);
    let mut replies = vec![ok("enabled")];
    assert_eq!(
        get_wifi_status(&mut state, &replies),
        Step::Run(Request::WifiConnectionQuery)
    );
    assert_eq!(state.get_cached_wifi(), Some(true));
    replies.push(ok("no:Neighbour\nyes:Home"));
    assert_eq!(
        get_wifi_status(&mut state, &replies),
        Step::Run(Request::BluetoothQuery)
    );
    assert_eq!(state.get_cached_bluetooth(), None);
    replies.push(ok("Controller 00:11\n\tPowered: yes"));
    assert_eq!(
        get_wifi_status(&mut state, &replies),
        Step::Done(Ok(NetworkState {
            wifi_enabled: true,
            wifi_connected: true,
            wifi_ssid: Some("Home".to_string()),
            bluetooth_enabled: true,
            bluetooth_connected: false,
        }))
    );
    assert_eq!(state.get_cached_bluetooth(), Some(true));
}

#[test]
fn get_wifi_status_with_wifi_disabled_skips_the_device_list() {
    let mut state = AppState::new();
    let mut replies = vec![ok("disabled")];
    assert_eq!(
        get_wifi_status(&mut state, &replies),
        Step::Run(Request::BluetoothQuery)
    );
    assert_eq!(state.get_cached_wifi(), Some(false));
    replies.push(ok("Powered: no"));
    assert_eq!(
        get_wifi_status(&mut state, &replies),
        Step::Done(Ok(all_off()))
    );
    assert_eq!(state.get_cached_bluetooth(), Some(false));
}

#[test]
fn get_wifi_status_gives_the_default_for_a_failed_run() {
    let mut state = AppState::new();
    assert_eq!(
        get_wifi_status(&mut state, &[missing("nmcli")]),
        Step::Done(Ok(all_off()))
    );
    assert_eq!(state.get_cached_wifi(), None);
    assert_eq!(state.get_cached_bluetooth(), None);
    assert_eq!(
        get_wifi_status(&mut state, &[missing("nmcli"), ok("Powered: yes")]),
        Step::Done(Ok(all_off()))
    );
    assert_eq!(state.get_cached_bluetooth(), None);
    let replies = vec![ok("enabled"), failed("list"), failed("bluetooth")];
    assert_eq!(
        get_wifi_status(&mut state, &replies),
        Step::Done(Ok(NetworkState {
            wifi_enabled: true,
            wifi_connected: false,
            wifi_ssid: None,
            bluetooth_enabled: false,
            bluetooth_connected: false,
        }))
    );
}

#[test]
fn bluetooth_is_never_reported_as_connected() {
    let replies = vec![ok("enabled"), ok("yes:Home"), ok("Powered: yes\nConnected: yes")];
    match get_network_state_internal(&replies) {
        Step::Done(network) => {
            assert!(network.bluetooth_enabled);
            assert!(!network.bluetooth_connected);
        }
        other => panic!("not done: {:?}", other),
    }
}

#[test]
fn network_state_for_a_snapshot_never_fails() {
    assert_eq!(get_network_state_internal(&[]), Step::Run(Request::WifiQuery));
    assert_eq!(
        get_network_state_internal(&[missing("nmcli")]),
        Step::Run(Request::BluetoothQuery)
    );
    assert_eq!(
        get_network_state_internal(&[missing("nmcli"), missing("bluetoothctl")]),
        Step::Done(all_off())
    );
    assert_eq!(
        get_network_state_internal(&[ok("enabled")]),
        Step::Run(Request::WifiConnectionQuery)
    );
    assert_eq!(
        get_network_state_internal(&[ok("enabled"), ok("yes:Home")]),
        Step::Run(Request::BluetoothQuery)
    );
    assert_eq!(
        get_network_state_internal(&[ok("enabled"), ok("yes:Home"), ok("Powered: yes")]),
        Step::Done(NetworkState {
            wifi_enabled: true,
            wifi_connected: true,
            wifi_ssid: Some("Home".to_string()),
            bluetooth_enabled: true,
            bluetooth_connected: false,
        })
    );
}

#[test]
fn set_wifi_enabled_asks_what_came_of_it() {
    let mut state = AppState::new();
    assert_eq!(
        set_wifi_enabled(&mut state, true, &[]),
        Step::Run(Request::WifiChange(true))
    );
    assert_eq!(
        set_wifi_enabled(&mut state, false, &[]),
        Step::Run(Request::WifiChange(false))
    );
    assert_eq!(
        set_wifi_enabled(&mut state, true, &[ok("")]),
        Step::Run(Request::WifiQuery)
    );
    assert_eq!(state.get_cached_wifi(), None);
    assert_eq!(
        set_wifi_enabled(&mut state, true, &[ok(""), ok("enabled")]),
        Step::Done(Ok(true))
    );
    assert_eq!(state.get_cached_wifi(), Some(true));
    // The radio may not have followed: what it reports is what counts.
    assert_eq!(
        set_wifi_enabled(&mut state, true, &[ok(""), ok("disabled")]),
        Step::Done(Ok(false))
    );
    assert_eq!(state.get_cached_wifi(), Some(false));
}

#[test]
fn set_wifi_enabled_hands_on_either_error() {
    let mut state = AppState::new();
    assert_eq!(
        set_wifi_enabled(&mut state, true, &[failed("a")]),
        Step::Done(Err("Command execution failed: a".to_string()))
    );
    assert_eq!(
        set_wifi_enabled(&mut state, true, &[ok(""), failed("b")]),
        Step::Done(Err("Command execution failed: b".to_string()))
    );
    assert_eq!(state.get_cached_wifi(), None);
}

#[test]
fn get_bluetooth_status_goes_through_the_cache() {
    let mut state = AppState::new();
    assert_eq!(
        get_bluetooth_status(&mut state, &[]),
        Step::Run(Request::BluetoothQuery)
    );
    assert_eq!(
        get_bluetooth_status(&mut state, &[ok("\tPowered: yes")]),
        Step::Done(Ok(true))
    );
    assert_eq!(get_bluetooth_status(&mut state, &[]), Step::Done(Ok(true)));
    let mut other = AppState::new();
    assert_eq!(
        get_bluetooth_status(&mut other, &[missing("bluetoothctl")]),
        Step::Done(Ok(false))
    );
    assert_eq!(other.get_cached_bluetooth(), None);
}

#[test]
fn set_bluetooth_enabled_asks_what_came_of_it() {
    let mut state = AppState::new();
    assert_eq!(
        set_bluetooth_enabled(&mut state, true, &[]),
        Step::Run(Request::BluetoothChange(true))
    );
    assert_eq!(
        set_bluetooth_enabled(&mut state, true, &[ok("")]),
        Step::Run(Request::BluetoothQuery)
    );
    assert_eq!(
        set_bluetooth_enabled(&mut state, true, &[ok(""), ok("Powered: yes")]),
        Step::Done(Ok(true))
    );
    assert_eq!(state.get_cached_bluetooth(), Some(true));
    assert_eq!(
        set_bluetooth_enabled(&mut state, false, &[ok(""), ok("Powered: no")]),
        Step::Done(Ok(false))
    );
    assert_eq!(state.get_cached_bluetooth(), Some(false));
    assert_eq!(
        set_bluetooth_enabled(&mut state, false, &[failed("a")]),
        Step::Done(Err("Command execution failed: a".to_string()))
    );
    assert_eq!(
        set_bluetooth_enabled(&mut state, false, &[ok(""), failed("b")]),
        Step::Done(Err("Command execution failed: b".to_string()))
    );
}

#[test]
fn night_light_is_read_from_the_settings_daemon_first() {
    let mut state = AppState::new();
    assert_eq!(
        get_night_light_status(&mut state, &[]),
        Step::Run(Request::NightLightQuery)
    );
    assert_eq!(
        get_night_light_status(&mut state, &[ok("true")]),
        Step::Done(Ok(true))
    );
    assert_eq!(state.get_cached_night_light(), Some(true));
    assert_eq!(get_night_light_status(&mut state, &[]), Step::Done(Ok(true)));
    let mut other = AppState::new();
    assert_eq!(
        get_night_light_status(&mut other, &[ok("false")]),
        Step::Done(Ok(false))
    );
    assert_eq!(other.get_cached_night_light(), Some(false));
}

#[test]
fn night_light_falls_back_to_the_companion_processes_in_order() {
    let mut state = AppState::new();
    assert_eq!(
        get_night_light_status(&mut state, &[missing("gsettings")]),
        Step::Run(Request::CompanionProbe(Companion::Gammastep))
    );
    assert_eq!(state.get_cached_night_light(), None);
    assert_eq!(
        get_night_light_status(&mut state, &[missing("gsettings"), ok("4242")]),
        Step::Done(Ok(true))
    );
    let mut second = AppState::new();
    assert_eq!(
        get_night_light_status(&mut second, &[missing("gsettings"), ok("")]),
        Step::Done(Ok(false))
    );
    let mut third = AppState::new();
    assert_eq!(
        get_night_light_status(&mut third, &[missing("gsettings"), failed("")]),
        Step::Run(Request::CompanionProbe(Companion::Redshift))
    );
    assert_eq!(
        get_night_light_status(&mut third, &[missing("gsettings"), failed(""), ok("17")]),
        Step::Done(Ok(true))
    );
    let mut fourth = AppState::new();
    assert_eq!(
        get_night_light_status(&mut fourth, &[missing("gsettings"), failed(""), failed("")]),
        Step::Done(Ok(false))
    );
    assert_eq!(fourth.get_cached_night_light(), Some(false));
}

#[test]
fn night_light_for_a_snapshot_probes_one_companion() {
    assert_eq!(get_night_light_internal(&[]), Step::Run(Request::NightLightQuery));
    assert_eq!(get_night_light_internal(&[ok(" true\n")]), Step::Done(Ok(true)));
    assert_eq!(
        get_night_light_internal(&[failed("no schema")]),
        Step::Run(Request::CompanionProbe(Companion::Gammastep))
    );
    assert_eq!(
        get_night_light_internal(&[failed("no schema"), ok("99")]),
        Step::Done(Ok(true))
    );
    assert_eq!(
        get_night_light_internal(&[failed("no schema"), failed("")]),
        Step::Done(Ok(false))
    );
}

#[test]
fn set_night_light_asks_the_settings_daemon_what_came_of_it() {
    let mut state = AppState::new();
    assert_eq!(
        set_night_light_enabled(&mut state, true, &[]),
        Step::Run(Request::NightLightChange(true))
    );
    assert_eq!(
        set_night_light_enabled(&mut state, false, &[]),
        Step::Run(Request::NightLightChange(false))
    );
    assert_eq!(
        set_night_light_enabled(&mut state, true, &[ok("")]),
        Step::Run(Request::NightLightQuery)
    );
    assert_eq!(state.get_cached_night_light(), None);
    assert_eq!(
        set_night_light_enabled(&mut state, true, &[ok(""), ok("true")]),
        Step::Done(Ok(true))
    );
    assert_eq!(state.get_cached_night_light(), Some(true));
    assert_eq!(
        set_night_light_enabled(&mut state, true, &[ok(""), ok("false")]),
        Step::Done(Ok(false))
    );
    assert_eq!(state.get_cached_night_light(), Some(false));
    assert_eq!(
        set_night_light_enabled(&mut state, true, &[ok(""), failed("gone")]),
        Step::Done(Err("Command execution failed: gone".to_string()))
    );
}

#[test]
fn set_night_light_falls_back_to_the_companion_processes() {
    let mut state = AppState::new();
    assert_eq!(
        set_night_light_enabled(&mut state, true, &[missing("gsettings")]),
        Step::Run(Request::CompanionStart)
    );
    assert_eq!(state.get_cached_night_light(), None);
    assert_eq!(
        set_night_light_enabled(&mut state, true, &[missing("gsettings"), failed("x")]),
        Step::Done(Ok(true))
    );
    assert_eq!(state.get_cached_night_light(), Some(true));

    let mut other = AppState::new();
    assert_eq!(
        set_night_light_enabled(&mut other, false, &[missing("gsettings")]),
        Step::Run(Request::CompanionStop(Companion::Gammastep))
    );
    assert_eq!(
        set_night_light_enabled(&mut other, false, &[missing("gsettings"), ok("")]),
        Step::Run(Request::CompanionStop(Companion::Wlsunset))
    );
    assert_eq!(other.get_cached_night_light(), None);
    assert_eq!(
        set_night_light_enabled(
            &mut other,
            false,
            &[missing("gsettings"), failed("a"), failed("b")]
        ),
        Step::Done(Ok(false))
    );
    assert_eq!(other.get_cached_night_light(), Some(false));
}

#[test]
fn suspend_runs_once() {
    assert_eq!(suspend_system(&[]), Step::Run(Request::Suspend));
    assert_eq!(suspend_system(&[ok("")]), Step::Done(Ok(())));
    assert_eq!(
        suspend_system(&[failed("Access denied")]),
        Step::Done(Err(
            "Command execution failed: Access denied".to_string()
        ))
    );
}

#[test]
fn reads_for_a_snapshot_hand_on_errors() {
    assert_eq!(get_volume_internal(&[]), Step::Run(Request::VolumeQuery));
    assert_eq!(get_volume_internal(&[ok("vol 77%")]), Step::Done(Ok(77)));
    assert_eq!(get_volume_internal(&[ok("silence")]), Step::Done(Ok(50)));
    assert_eq!(
        get_volume_internal(&[missing("pactl")]),
        Step::Done(Err(ControlCentreError::CommandNotFound("pactl".to_string())))
    );
    assert_eq!(get_mute_status_internal(&[]), Step::Run(Request::MuteQuery));
    assert_eq!(get_mute_status_internal(&[ok("Mute: yes")]), Step::Done(Ok(true)));
    assert_eq!(
        get_mute_status_internal(&[failed("x")]),
        Step::Done(Err(ControlCentreError::CommandFailed("x".to_string())))
    );
    assert_eq!(get_brightness_internal(&[]), Step::Run(Request::BrightnessQuery));
    assert_eq!(get_brightness_internal(&[ok("a,b,c,12%,d")]), Step::Done(Ok(12)));
    assert_eq!(get_brightness_internal(&[ok("a,b")]), Step::Done(Ok(50)));
    assert_eq!(
        get_brightness_internal(&[failed("x")]),
        Step::Done(Err(ControlCentreError::CommandFailed("x".to_string())))
    );
    assert_eq!(
        get_max_brightness_internal(&[]),
        Step::Run(Request::MaxBrightnessQuery)
    );
    assert_eq!(get_max_brightness_internal(&[ok("255")]), Step::Done(Ok(255)));
    assert_eq!(
        get_max_brightness_internal(&[ok("max")]),
        Step::Done(Err(ControlCentreError::ParseError(
            "invalid digit found in string".to_string()
        )))
    );
    assert_eq!(
        get_max_brightness_internal(&[failed("x")]),
        Step::Done(Err(ControlCentreError::CommandFailed("x".to_string())))
    );
    assert_eq!(
        get_bluetooth_status_internal(&[]),
        Step::Run(Request::BluetoothQuery)
    );
    assert_eq!(
        get_bluetooth_status_internal(&[ok("Powered: yes")]),
        Step::Done(Ok(true))
    );
    assert_eq!(
        get_bluetooth_status_internal(&[failed("x")]),
        Step::Done(Err(ControlCentreError::CommandFailed("x".to_string())))
    );
}

#[test]
fn snapshot_empties_the_cache_before_the_reads() {
    let mut state = AppState::new();
    state.set_cached_volume(10);
    state.set_cached_muted(true);
    state.set_cached_brightness(20);
    state.set_cached_wifi(true);
    state.set_cached_bluetooth(true);
    state.set_cached_night_light(true);
    assert_eq!(get_all_states(&mut state, None), SnapshotStep::Gather);
    assert_eq!(state.get_cached_volume(), None);
    assert_eq!(state.get_cached_muted(), None);
    assert_eq!(state.get_cached_brightness(), None);
    assert_eq!(state.get_cached_wifi(), None);
    assert_eq!(state.get_cached_bluetooth(), None);
    assert_eq!(state.get_cached_night_light(), None);
}

#[test]
fn snapshot_of_failed_reads_holds_the_defaults() {
    let mut state = AppState::new();
    let readings = Readings {
        volume: Err(ControlCentreError::CommandNotFound("pactl".to_string())),
        muted: Err(ControlCentreError::CommandNotFound("pactl".to_string())),
        brightness: Err(ControlCentreError::CommandNotFound("brightnessctl".to_string())),
        max_brightness: Err(ControlCentreError::ParseError("x".to_string())),
        network: all_off(),
        night_light: Err(ControlCentreError::SystemError("x".to_string())),
    };
    assert_eq!(
        get_all_states(&mut state, Some(readings)),
        SnapshotStep::Done(Ok(AllStates {
            volume: VolumeState { volume: 50, muted: false },
            brightness: BrightnessState { brightness: 50, max_brightness: 100 },
            network: all_off(),
            display: DisplayState { night_light_enabled: false },
        }))
    );
    assert_eq!(state.get_cached_volume(), Some(50));
    assert_eq!(state.get_cached_muted(), Some(false));
    assert_eq!(state.get_cached_brightness(), Some(50));
    assert_eq!(state.get_cached_wifi(), Some(false));
    assert_eq!(state.get_cached_bluetooth(), Some(false));
    assert_eq!(state.get_cached_night_light(), Some(false));
}

#[test]
fn snapshot_of_failed_runs_holds_the_defaults() {
    let down = vec![missing("a"), missing("b"), missing("c")];
    let volume = match get_volume_internal(&down) {
        Step::Done(found) => found,
        other => panic!("not done: {:?}", other),
    };
    let muted = match get_mute_status_internal(&down) {
        Step::Done(found) => found,
        other => panic!("not done: {:?}", other),
    };
    let brightness = match get_brightness_internal(&down) {
        Step::Done(found) => found,
        other => panic!("not done: {:?}", other),
    };
    let max_brightness = match get_max_brightness_internal(&down) {
        Step::Done(found) => found,
        other => panic!("not done: {:?}", other),
    };
    let network = match get_network_state_internal(&down) {
        Step::Done(found) => found,
        other => panic!("not done: {:?}", other),
    };
    let night_light = match get_night_light_internal(&down) {
        Step::Done(found) => found,
        other => panic!("not done: {:?}", other),
    };
    let mut state = AppState::new();
    assert_eq!(get_all_states(&mut state, None), SnapshotStep::Gather);
    let readings = Readings { volume, muted, brightness, max_brightness, network, night_light };
    assert_eq!(
        get_all_states(&mut state, Some(readings)),
        SnapshotStep::Done(Ok(AllStates {
            volume: VolumeState { volume: 50, muted: false },
            brightness: BrightnessState { brightness: 50, max_brightness: 100 },
            network: all_off(),
            display: DisplayState { night_light_enabled: false },
        }))
    );
}

#[test]
fn snapshot_holds_what_was_read_and_warms_the_cache() {
    let mut state = AppState::new();
    let network = NetworkState {
        wifi_enabled: true,
        wifi_connected: true,
        wifi_ssid: Some("Home".to_string()),
        bluetooth_enabled: true,
        bluetooth_connected: false,
    };
    let readings = Readings {
        volume: Ok(65),
        muted: Ok(true),
        brightness: Ok(39),
        max_brightness: Ok(2550),
        network: network.clone(),
        night_light: Ok(true),
    };
    assert_eq!(
        get_all_states(&mut state, Some(readings)),
        SnapshotStep::Done(Ok(AllStates {
            volume: VolumeState { volume: 65, muted: true },
            brightness: BrightnessState { brightness: 39, max_brightness: 2550 },
            network,
            display: DisplayState { night_light_enabled: true },
        }))
    );
    assert_eq!(state.get_cached_volume(), Some(65));
    assert_eq!(state.get_cached_muted(), Some(true));
    assert_eq!(state.get_cached_brightness(), Some(39));
    assert_eq!(state.get_cached_wifi(), Some(true));
    assert_eq!(state.get_cached_bluetooth(), Some(true));
    assert_eq!(state.get_cached_night_light(), Some(true));
    assert_eq!(get_volume(&mut state, &[]), Step::Done(Ok(65)));
}

#[test]
fn single_reads_never_fail() {
    let down = vec![missing("a"), failed("b"), missing("c")];
    let mut state = AppState::new();
    assert_eq!(get_volume(&mut state, &down), Step::Done(Ok(50)));
    assert_eq!(get_mute_status(&mut state, &down), Step::Done(Ok(false)));
    assert_eq!(get_brightness(&mut state, &down), Step::Done(Ok(50)));
    assert_eq!(get_max_brightness(&down), Step::Done(Ok(100)));
    assert_eq!(get_wifi_status(&mut state, &down), Step::Done(Ok(all_off())));
    assert_eq!(get_bluetooth_status(&mut state, &down), Step::Done(Ok(false)));
    assert_eq!(get_night_light_status(&mut state, &down), Step::Done(Ok(false)));
    assert_eq!(state.get_cached_volume(), None);
    assert_eq!(state.get_cached_muted(), None);
    assert_eq!(state.get_cached_brightness(), None);
    assert_eq!(state.get_cached_wifi(), None);
    assert_eq!(state.get_cached_bluetooth(), None);
}
