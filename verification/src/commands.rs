//! The operations that a front end asks for.
//!
//! An operation that needs an external program does not run it. It is a
//! function of the replies that its requests have had so far, and answers
//! with the next request or with its result. A driver starts with no
//! replies, runs each request that comes back, adds the reply and calls
//! again, until the operation is done.

use vstd::prelude::*;
use vstd::string::*;
use crate::decimal::{decimal_text, format_unsigned, parse_unsigned, ParseFailure};
use crate::error::{CCResult, ControlCentreError};
use crate::parse::{
    DEFAULT_BRIGHTNESS, DEFAULT_VOLUME,
    active_ssid, bluetooth_powered_of, brightness_of, muted_of, night_light_of,
    parse_active_ssid, parse_bluetooth_powered, parse_brightness, parse_max_brightness,
    parse_muted, parse_night_light, parse_volume, parse_wifi_enabled, reported_volume,
    volume_capture, volume_of, volume_or_default, wifi_enabled_of,
};
use crate::text::trimmed;
use crate::request::{Companion, Request};
use crate::runner::CommandReply;
use crate::state::{fresh, AppState, CacheView};

verus! {

/// The volume and whether the sink is muted.
#[derive(Debug, Clone, PartialEq, Eq)]
pub struct VolumeState {
    pub volume: u8,
    pub muted: bool,
}

/// The brightness as a percentage, and the backlight's largest raw value.
#[derive(Debug, Clone, PartialEq, Eq)]
pub struct BrightnessState {
    pub brightness: u8,
    pub max_brightness: u32,
}

/// The state of the radios.
#[derive(Debug, Clone, PartialEq, Eq)]
pub struct NetworkState {
    pub wifi_enabled: bool,
    pub wifi_connected: bool,
    pub wifi_ssid: Option<String>,
    pub bluetooth_enabled: bool,
    pub bluetooth_connected: bool,
}

/// The state of the radios as contracts see it.
pub struct NetworkStateView {
    pub wifi_enabled: bool,
    pub wifi_connected: bool,
    pub wifi_ssid: Option<Seq<char>>,
    pub bluetooth_enabled: bool,
    pub bluetooth_connected: bool,
}

impl View for NetworkState {
    type V = NetworkStateView;

    open spec fn view(&self) -> NetworkStateView {
        NetworkStateView {
            wifi_enabled: self.wifi_enabled,
            wifi_connected: self.wifi_connected,
            wifi_ssid: match self.wifi_ssid {
                Some(name) => Some(name@),
                None => None,
            },
            bluetooth_enabled: self.bluetooth_enabled,
            bluetooth_connected: self.bluetooth_connected,
        }
    }
}

/// The state of the display.
#[derive(Debug, Clone, PartialEq, Eq)]
pub struct DisplayState {
    pub night_light_enabled: bool,
}

/// Every setting at once.
#[derive(Debug, Clone, PartialEq, Eq)]
pub struct AllStates {
    pub volume: VolumeState,
    pub brightness: BrightnessState,
    pub network: NetworkState,
    pub display: DisplayState,
}

/// Every setting at once, as contracts see it.
pub struct AllStatesView {
    pub volume: VolumeState,
    pub brightness: BrightnessState,
    pub network: NetworkStateView,
    pub display: DisplayState,
}

impl View for AllStates {
    type V = AllStatesView;

    open spec fn view(&self) -> AllStatesView {
        AllStatesView {
            volume: self.volume,
            brightness: self.brightness,
            network: self.network@,
            display: self.display,
        }
    }
}

/// What an operation answers: the next request to run, or its result.
#[derive(Debug, Clone, PartialEq, Eq)]
pub enum Step<T> {
    /// Run this request, add its reply to the replies, and call again.
    Run(Request),
    /// The operation has ended with this result.
    Done(T),
}

/// The step of a read that looks into the cache first: the cached value
/// where there is one, else the request that fetches it.
pub open spec fn cached_or<T>(cached: Option<T>, request: Request) -> Step<Result<T, String>> {
    match cached {
        Some(value) => Step::Done(Ok(value)),
        None => Step::Run(request),
    }
}

/// The operation has ended by telling the user `words`.
pub open spec fn fails_saying<T>(r: Step<Result<T, String>>, words: Seq<char>) -> bool {
    r matches Step::Done(Err(text)) && text@ == words
}

/// The operation has ended by telling the user of the error `e`.
pub open spec fn fails_with<T>(r: Step<Result<T, String>>, e: ControlCentreError) -> bool {
    fails_saying(r, e.rendered())
}

/// What a user is told of a percentage that is refused.
pub open spec fn refusal(value: u8) -> Seq<char> {
    "Invalid argument: "@ + percentage_complaint(value)
}

/// The words that refuse a percentage.
pub open spec fn percentage_complaint(value: u8) -> Seq<char> {
    "Percentage must be 0-100, got "@ + decimal_text(value as nat)
}

/// Accepts a percentage from 0 to 100 and refuses any other value.
pub fn validate_percentage(value: u8) -> (r: CCResult<u8>)
    ensures
        value <= 100 ==> r == Ok::<u8, ControlCentreError>(value),
        value > 100 ==> (r matches Err(ControlCentreError::InvalidArgument(text)) && text@
            == percentage_complaint(value)),
{
    if value > 100 {
        let number = format_unsigned(value as u64);
        Err(
            ControlCentreError::InvalidArgument(
                String::from_str("Percentage must be 0-100, got ").concat(number.as_str()),
            ),
        )
    } else {
        Ok(value)
    }
}

/// Reads the volume: from the cache while it is fresh, else from the mixer.
///
/// A read does not fail. A reply with output ends it with the volume
/// that the output reports, which is stored in the cache. A reply that
/// is an error ends it with the default volume; the cache then stays as
/// it is, for it holds only what was fetched.
pub fn get_volume(state: &mut AppState, replies: &[CommandReply]) -> (r: Step<Result<u8, String>>)
    ensures
        replies@.len() == 0 ==> final(state)@ == old(state)@ && exists|now: u64|
            r == cached_or(fresh(old(state)@.volume, now), Request::VolumeQuery),
        replies@.len() > 0 ==> match replies@[0] {
            Err(_) => final(state)@ == old(state)@ && r == Step::Done(
                Ok::<u8, String>(DEFAULT_VOLUME),
            ),
            Ok(output) => r == Step::Done(Ok::<u8, String>(reported_volume(output@)))
                && exists|now: u64|
                final(state)@ == old(state)@.with_volume(reported_volume(output@), now),
        },
        replies@.len() >= 1 ==> r is Done,
{
    if replies.len() == 0 {
        return match state.get_cached_volume() {
            Some(cached) => Step::Done(Ok(cached)),
            None => Step::Run(Request::VolumeQuery),
        };
    }
    match &replies[0] {
        Err(_) => Step::Done(Ok(DEFAULT_VOLUME)),
        Ok(output) => {
            let volume = volume_or_default(output.as_str());
            state.set_cached_volume(volume);
            Step::Done(Ok(volume))
        },
    }
}

/// Sets the volume to a percentage from 0 to 100.
///
/// A value above 100 is refused before anything is run. Where the mixer
/// accepts the change, the value is stored in the cache and returned.
pub fn set_volume(state: &mut AppState, value: u8, replies: &[CommandReply]) -> (r: Step<
    Result<u8, String>,
>)
    ensures
        value > 100 ==> final(state)@ == old(state)@ && fails_saying(r, refusal(value)),
        value <= 100 && replies@.len() == 0 ==> final(state)@ == old(state)@ && r == Step::Run::<
            Result<u8, String>,
        >(Request::VolumeChange(value)),
        value <= 100 && replies@.len() > 0 ==> match replies@[0] {
            Err(e) => final(state)@ == old(state)@ && fails_with(r, e),
            Ok(_) => r == Step::Done(Ok::<u8, String>(value)) && exists|now: u64|
                final(state)@ == old(state)@.with_volume(value, now),
        },
        replies@.len() >= 1 ==> r is Done,
{
    let value = match validate_percentage(value) {
        Ok(value) => value,
        Err(e) => {
            return Step::Done(Err(e.to_string()));
        },
    };
    if replies.len() == 0 {
        return Step::Run(Request::VolumeChange(value));
    }
    match &replies[0] {
        Err(e) => Step::Done(Err(e.to_string())),
        Ok(_) => {
            state.set_cached_volume(value);
            Step::Done(Ok(value))
        },
    }
}

/// Asks the mixer whether the sink is muted.
pub fn get_mute_status_internal(replies: &[CommandReply]) -> (r: Step<CCResult<bool>>)
    ensures
        replies@.len() == 0 ==> r == Step::Run::<CCResult<bool>>(Request::MuteQuery),
        replies@.len() > 0 ==> match replies@[0] {
            Err(e) => r == Step::Done(Err::<bool, ControlCentreError>(e)),
            Ok(output) => r == Step::Done(Ok::<bool, ControlCentreError>(muted_of(output@))),
        },
        replies@.len() >= 1 ==> r is Done,
{
    if replies.len() == 0 {
        return Step::Run(Request::MuteQuery);
    }
    match &replies[0] {
        Err(e) => Step::Done(Err(e.clone())),
        Ok(output) => Step::Done(Ok(parse_muted(output.as_str()))),
    }
}

/// Flips the mute state of the sink, then asks the mixer what it is now.
///
/// An error of either run ends the operation with that error. Else the
/// state that the mixer reports is stored in the cache and returned.
pub fn toggle_mute(state: &mut AppState, replies: &[CommandReply]) -> (r: Step<
    Result<bool, String>,
>)
    ensures
        replies@.len() == 0 ==> final(state)@ == old(state)@ && r == Step::Run::<
            Result<bool, String>,
        >(Request::MuteToggle),
        replies@.len() > 0 ==> match replies@[0] {
            Err(e) => final(state)@ == old(state)@ && fails_with(r, e),
            Ok(_) => if replies@.len() == 1 {
                final(state)@ == old(state)@ && r == Step::Run::<Result<bool, String>>(
                    Request::MuteQuery,
                )
            } else {
                match replies@[1] {
                    Err(e) => final(state)@ == old(state)@ && fails_with(r, e),
                    Ok(output) => r == Step::Done(Ok::<bool, String>(muted_of(output@)))
                        && exists|now: u64|
                        final(state)@ == old(state)@.with_muted(muted_of(output@), now),
                }
            },
        },
        replies@.len() >= 2 ==> r is Done,
{
    if replies.len() == 0 {
        return Step::Run(Request::MuteToggle);
    }
    if let Err(e) = &replies[0] {
        return Step::Done(Err(e.to_string()));
    }
    if replies.len() == 1 {
        return Step::Run(Request::MuteQuery);
    }
    match &replies[1] {
        Err(e) => Step::Done(Err(e.to_string())),
        Ok(output) => {
            let muted = parse_muted(output.as_str());
            state.set_cached_muted(muted);
            Step::Done(Ok(muted))
        },
    }
}

/// Reads whether the sink is muted: from the cache while it is fresh,
/// else from the mixer.
///
/// A read does not fail. A reply with output ends it with what the
/// output reports, which is stored in the cache. A reply that is an
/// error ends it with the default, not muted; the cache then stays as
/// it is.
pub fn get_mute_status(state: &mut AppState, replies: &[CommandReply]) -> (r: Step<
    Result<bool, String>,
>)
    ensures
        replies@.len() == 0 ==> final(state)@ == old(state)@ && exists|now: u64|
            r == cached_or(fresh(old(state)@.muted, now), Request::MuteQuery),
        replies@.len() > 0 ==> match replies@[0] {
            Err(_) => final(state)@ == old(state)@ && r == Step::Done(Ok::<bool, String>(false)),
            Ok(output) => r == Step::Done(Ok::<bool, String>(muted_of(output@))) && exists|
                now: u64,
            | final(state)@ == old(state)@.with_muted(muted_of(output@), now),
        },
        replies@.len() >= 1 ==> r is Done,
{
    if replies.len() == 0 {
        return match state.get_cached_muted() {
            Some(cached) => Step::Done(Ok(cached)),
            None => Step::Run(Request::MuteQuery),
        };
    }
    match &replies[0] {
        Err(_) => Step::Done(Ok(false)),
        Ok(output) => {
            let muted = parse_muted(output.as_str());
            state.set_cached_muted(muted);
            Step::Done(Ok(muted))
        },
    }
}

/// Reads the brightness: from the cache while it is fresh, else from the
/// backlight utility.
///
/// A read does not fail. A reply with output ends it with the
/// brightness that the output reports, which is stored in the cache. A
/// reply that is an error ends it with the default brightness; the
/// cache then stays as it is.
pub fn get_brightness(state: &mut AppState, replies: &[CommandReply]) -> (r: Step<
    Result<u8, String>,
>)
    ensures
        replies@.len() == 0 ==> final(state)@ == old(state)@ && exists|now: u64|
            r == cached_or(fresh(old(state)@.brightness, now), Request::BrightnessQuery),
        replies@.len() > 0 ==> match replies@[0] {
            Err(_) => final(state)@ == old(state)@ && r == Step::Done(
                Ok::<u8, String>(DEFAULT_BRIGHTNESS),
            ),
            Ok(output) => r == Step::Done(Ok::<u8, String>(brightness_of(output@))) && exists|
                now: u64,
            | final(state)@ == old(state)@.with_brightness(brightness_of(output@), now),
        },
        replies@.len() >= 1 ==> r is Done,
{
    if replies.len() == 0 {
        return match state.get_cached_brightness() {
            Some(cached) => Step::Done(Ok(cached)),
            None => Step::Run(Request::BrightnessQuery),
        };
    }
    match &replies[0] {
        Err(_) => Step::Done(Ok(DEFAULT_BRIGHTNESS)),
        Ok(output) => {
            let brightness = parse_brightness(output.as_str());
            state.set_cached_brightness(brightness);
            Step::Done(Ok(brightness))
        },
    }
}

/// The brightness that is asked of the backlight for a percentage: never
/// less than 1, so that the display does not go black.
pub open spec fn safe_brightness(value: u8) -> u8 {
    if value == 0 {
        1
    } else {
        value
    }
}

/// The backlight is never asked for a brightness of 0, and every other
/// percentage is asked for as it is.
pub proof fn law_brightness_is_never_zero(value: u8)
    ensures
        safe_brightness(value) >= 1,
        safe_brightness(0) == 1,
        value >= 1 ==> safe_brightness(value) == value,
{
}

/// Sets the brightness to a percentage from 0 to 100, and to 1 in place
/// of 0.
///
/// A value above 100 is refused before anything is run. Where the
/// backlight utility accepts the change, the percentage that was asked
/// of it is stored in the cache and returned.
pub fn set_brightness(state: &mut AppState, value: u8, replies: &[CommandReply]) -> (r: Step<
    Result<u8, String>,
>)
    ensures
        value > 100 ==> final(state)@ == old(state)@ && fails_saying(r, refusal(value)),
        value <= 100 && replies@.len() == 0 ==> final(state)@ == old(state)@ && r == Step::Run::<
            Result<u8, String>,
        >(Request::BrightnessChange(safe_brightness(value))),
        value <= 100 && replies@.len() > 0 ==> match replies@[0] {
            Err(e) => final(state)@ == old(state)@ && fails_with(r, e),
            Ok(_) => r == Step::Done(Ok::<u8, String>(safe_brightness(value))) && exists|
                now: u64,
            | final(state)@ == old(state)@.with_brightness(safe_brightness(value), now),
        },
        replies@.len() >= 1 ==> r is Done,
{
    let value = match validate_percentage(value) {
        Ok(value) => value,
        Err(e) => {
            return Step::Done(Err(e.to_string()));
        },
    };
    let safe_value: u8 = if value == 0 {
        1
    } else {
        value
    };
    if replies.len() == 0 {
        return Step::Run(Request::BrightnessChange(safe_value));
    }
    match &replies[0] {
        Err(e) => Step::Done(Err(e.to_string())),
        Ok(_) => {
            state.set_cached_brightness(safe_value);
            Step::Done(Ok(safe_value))
        },
    }
}

/// The largest raw brightness that the backlight utility's output
/// writes, or why it writes none.
pub open spec fn max_brightness_of(output: Seq<char>) -> Result<int, ParseFailure> {
    parse_unsigned(trimmed(output), u32::MAX as int)
}

/// The largest raw brightness that a reply reports: the number that its
/// output writes, or the default where the run failed or the output
/// writes none.
pub open spec fn reported_max_brightness(reply: CommandReply) -> u32 {
    match reply {
        Ok(output) => match max_brightness_of(output@) {
            Ok(v) => v as u32,
            Err(_) => DEFAULT_MAX_BRIGHTNESS,
        },
        Err(_) => DEFAULT_MAX_BRIGHTNESS,
    }
}

/// Asks the backlight utility for its largest raw value.
///
/// A read does not fail: a run that failed, and an output that writes
/// no number, give the default.
pub fn get_max_brightness(replies: &[CommandReply]) -> (r: Step<Result<u32, String>>)
    ensures
        replies@.len() == 0 ==> r == Step::Run::<Result<u32, String>>(
            Request::MaxBrightnessQuery,
        ),
        replies@.len() > 0 ==> r == Step::Done(
            Ok::<u32, String>(reported_max_brightness(replies@[0])),
        ),
{
    if replies.len() == 0 {
        return Step::Run(Request::MaxBrightnessQuery);
    }
    match &replies[0] {
        Err(_) => Step::Done(Ok(DEFAULT_MAX_BRIGHTNESS)),
        Ok(output) => match parse_max_brightness(output.as_str()) {
            Ok(max) => Step::Done(Ok(max)),
            Err(_) => Step::Done(Ok(DEFAULT_MAX_BRIGHTNESS)),
        },
    }
}

/// Whether a reply of the Bluetooth controller reports it as powered. An
/// error counts as not powered.
pub open spec fn bluetooth_reply(reply: CommandReply) -> bool {
    match reply {
        Ok(output) => bluetooth_powered_of(output@),
        Err(_) => false,
    }
}

/// The network name of the active connection in a reply to the request
/// for the device list. An error counts as no connection.
pub open spec fn ssid_reply(reply: CommandReply) -> Option<Seq<char>> {
    match reply {
        Ok(output) => active_ssid(output@),
        Err(_) => None,
    }
}

/// The state of the radios for what was found. WiFi counts as connected
/// where an active network was found. Whether a Bluetooth device is
/// connected is not looked for: it is always reported as not connected.
pub open spec fn network_of(
    wifi_enabled: bool,
    ssid: Option<Seq<char>>,
    bluetooth_enabled: bool,
) -> NetworkStateView {
    NetworkStateView {
        wifi_enabled,
        wifi_connected: ssid is Some,
        wifi_ssid: ssid,
        bluetooth_enabled,
        bluetooth_connected: false,
    }
}

/// What a read of the radios does next, once the first reply has said
/// whether WiFi is enabled. With WiFi enabled the device list is asked
/// for, then the Bluetooth controller; else the Bluetooth controller at
/// once.
pub open spec fn network_step(wifi_enabled: bool, replies: Seq<CommandReply>) -> Step<
    NetworkStateView,
> {
    if wifi_enabled {
        if replies.len() < 2 {
            Step::Run(Request::WifiConnectionQuery)
        } else if replies.len() < 3 {
            Step::Run(Request::BluetoothQuery)
        } else {
            Step::Done(network_of(true, ssid_reply(replies[1]), bluetooth_reply(replies[2])))
        }
    } else {
        if replies.len() < 2 {
            Step::Run(Request::BluetoothQuery)
        } else {
            Step::Done(network_of(false, None, bluetooth_reply(replies[1])))
        }
    }
}

/// Whether a step over states of the radios is the step `expected` over
/// their views.
pub open spec fn is_network_step(r: Step<NetworkState>, expected: Step<NetworkStateView>) -> bool {
    match expected {
        Step::Run(request) => r == Step::Run::<NetworkState>(request),
        Step::Done(network) => r matches Step::Done(found) && found@ == network,
    }
}

fn bluetooth_from(reply: &CommandReply) -> (r: bool)
    ensures
        r == bluetooth_reply(*reply),
{
    match reply {
        Ok(output) => parse_bluetooth_powered(output.as_str()),
        Err(_) => false,
    }
}

fn network_rest(wifi_enabled: bool, replies: &[CommandReply]) -> (r: Step<NetworkState>)
    ensures
        is_network_step(r, network_step(wifi_enabled, replies@)),
{
    if wifi_enabled {
        if replies.len() < 2 {
            return Step::Run(Request::WifiConnectionQuery);
        }
        if replies.len() < 3 {
            return Step::Run(Request::BluetoothQuery);
        }
        let wifi_ssid = match &replies[1] {
            Ok(output) => parse_active_ssid(output.as_str()),
            Err(_) => None,
        };
        let wifi_connected = wifi_ssid.is_some();
        Step::Done(
            NetworkState {
                wifi_enabled: true,
                wifi_connected,
                wifi_ssid,
                bluetooth_enabled: bluetooth_from(&replies[2]),
                bluetooth_connected: false,
            },
        )
    } else {
        if replies.len() < 2 {
            return Step::Run(Request::BluetoothQuery);
        }
        Step::Done(
            NetworkState {
                wifi_enabled: false,
                wifi_connected: false,
                wifi_ssid: None,
                bluetooth_enabled: bluetooth_from(&replies[1]),
                bluetooth_connected: false,
            },
        )
    }
}

/// Whether the first reply of a read of the radios reports WiFi as
/// enabled. An error counts as not enabled.
pub open spec fn wifi_reply(reply: CommandReply) -> bool {
    match reply {
        Ok(output) => wifi_enabled_of(output@),
        Err(_) => false,
    }
}

/// Reads the state of the radios, where every run that fails counts as
/// a radio that is off.
pub fn get_network_state_internal(replies: &[CommandReply]) -> (r: Step<NetworkState>)
    ensures
        replies@.len() == 0 ==> r == Step::Run::<NetworkState>(Request::WifiQuery),
        replies@.len() > 0 ==> is_network_step(
            r,
            network_step(wifi_reply(replies@[0]), replies@),
        ),
        replies@.len() >= 3 ==> r is Done,
{
    if replies.len() == 0 {
        return Step::Run(Request::WifiQuery);
    }
    let wifi_enabled = match &replies[0] {
        Ok(output) => parse_wifi_enabled(output.as_str()),
        Err(_) => false,
    };
    network_rest(wifi_enabled, replies)
}

/// Reads the state of the radios and stores it in the cache.
///
/// A read does not fail. An error of the first run, which asks whether
/// WiFi is enabled, ends it with the default, every radio off and no
/// network; nothing more is asked then, and the cache stays as it is.
/// After the first run, a run that fails counts as no connection, or as
/// Bluetooth off. What the first reply says of WiFi is stored when that
/// reply is the last, and what is found of Bluetooth when the read ends.
pub fn get_wifi_status(state: &mut AppState, replies: &[CommandReply]) -> (r: Step<
    Result<NetworkState, String>,
>)
    ensures
        replies@.len() == 0 ==> final(state)@ == old(state)@ && r == Step::Run::<
            Result<NetworkState, String>,
        >(Request::WifiQuery),
        replies@.len() > 0 ==> match replies@[0] {
            Err(_) => final(state)@ == old(state)@ && (r matches Step::Done(Ok(found))
                && found@ == network_of(false, None, false)),
            Ok(output) => match network_step(wifi_enabled_of(output@), replies@) {
                Step::Run(request) => r == Step::Run::<Result<NetworkState, String>>(request)
                    && if replies@.len() == 1 {
                    exists|now: u64|
                        final(state)@ == old(state)@.with_wifi(wifi_enabled_of(output@), now)
                } else {
                    final(state)@ == old(state)@
                },
                Step::Done(network) => (r matches Step::Done(Ok(found)) && found@ == network)
                    && exists|now: u64|
                    final(state)@ == old(state)@.with_bluetooth(network.bluetooth_enabled, now),
            },
        },
        replies@.len() >= 3 ==> r is Done,
{
    if replies.len() == 0 {
        return Step::Run(Request::WifiQuery);
    }
    let wifi_enabled = match &replies[0] {
        Ok(output) => parse_wifi_enabled(output.as_str()),
        Err(_) => {
            return Step::Done(
                Ok(
                    NetworkState {
                        wifi_enabled: false,
                        wifi_connected: false,
                        wifi_ssid: None,
                        bluetooth_enabled: false,
                        bluetooth_connected: false,
                    },
                ),
            );
        },
    };
    match network_rest(wifi_enabled, replies) {
        Step::Run(request) => {
            if replies.len() == 1 {
                state.set_cached_wifi(wifi_enabled);
            }
            Step::Run(request)
        },
        Step::Done(network) => {
            state.set_cached_bluetooth(network.bluetooth_enabled);
            assert(network.bluetooth_enabled == network@.bluetooth_enabled);
            Step::Done(Ok(network))
        },
    }
}

/// Switches the WiFi radio on or off, then asks the network manager
/// what it is now.
///
/// An error of either run ends the operation with that error. Else the
/// state that the network manager reports is stored in the cache and
/// returned.
pub fn set_wifi_enabled(state: &mut AppState, enabled: bool, replies: &[CommandReply]) -> (r: Step<
    Result<bool, String>,
>)
    ensures
        replies@.len() == 0 ==> final(state)@ == old(state)@ && r == Step::Run::<
            Result<bool, String>,
        >(Request::WifiChange(enabled)),
        replies@.len() > 0 ==> match replies@[0] {
            Err(e) => final(state)@ == old(state)@ && fails_with(r, e),
            Ok(_) => if replies@.len() == 1 {
                final(state)@ == old(state)@ && r == Step::Run::<Result<bool, String>>(
                    Request::WifiQuery,
                )
            } else {
                match replies@[1] {
                    Err(e) => final(state)@ == old(state)@ && fails_with(r, e),
                    Ok(output) => r == Step::Done(Ok::<bool, String>(wifi_enabled_of(output@)))
                        && exists|now: u64|
                        final(state)@ == old(state)@.with_wifi(wifi_enabled_of(output@), now),
                }
            },
        },
        replies@.len() >= 2 ==> r is Done,
{
    if replies.len() == 0 {
        return Step::Run(Request::WifiChange(enabled));
    }
    if let Err(e) = &replies[0] {
        return Step::Done(Err(e.to_string()));
    }
    if replies.len() == 1 {
        return Step::Run(Request::WifiQuery);
    }
    match &replies[1] {
        Err(e) => Step::Done(Err(e.to_string())),
        Ok(output) => {
            let actual = parse_wifi_enabled(output.as_str());
            state.set_cached_wifi(actual);
            Step::Done(Ok(actual))
        },
    }
}

/// Asks the Bluetooth controller whether it is powered.
pub fn get_bluetooth_status_internal(replies: &[CommandReply]) -> (r: Step<CCResult<bool>>)
    ensures
        replies@.len() == 0 ==> r == Step::Run::<CCResult<bool>>(Request::BluetoothQuery),
        replies@.len() > 0 ==> match replies@[0] {
            Err(e) => r == Step::Done(Err::<bool, ControlCentreError>(e)),
            Ok(output) => r == Step::Done(
                Ok::<bool, ControlCentreError>(bluetooth_powered_of(output@)),
            ),
        },
        replies@.len() >= 1 ==> r is Done,
{
    if replies.len() == 0 {
        return Step::Run(Request::BluetoothQuery);
    }
    match &replies[0] {
        Err(e) => Step::Done(Err(e.clone())),
        Ok(output) => Step::Done(Ok(parse_bluetooth_powered(output.as_str()))),
    }
}

/// Reads whether Bluetooth is powered: from the cache while it is fresh,
/// else from the controller.
///
/// A read does not fail. A reply with output ends it with what the
/// output reports, which is stored in the cache. A reply that is an
/// error ends it with the default, not powered; the cache then stays as
/// it is.
pub fn get_bluetooth_status(state: &mut AppState, replies: &[CommandReply]) -> (r: Step<
    Result<bool, String>,
>)
    ensures
        replies@.len() == 0 ==> final(state)@ == old(state)@ && exists|now: u64|
            r == cached_or(fresh(old(state)@.bluetooth_enabled, now), Request::BluetoothQuery),
        replies@.len() > 0 ==> match replies@[0] {
            Err(_) => final(state)@ == old(state)@ && r == Step::Done(Ok::<bool, String>(false)),
            Ok(output) => r == Step::Done(Ok::<bool, String>(bluetooth_powered_of(output@)))
                && exists|now: u64|
                final(state)@ == old(state)@.with_bluetooth(bluetooth_powered_of(output@), now),
        },
        replies@.len() >= 1 ==> r is Done,
{
    if replies.len() == 0 {
        return match state.get_cached_bluetooth() {
            Some(cached) => Step::Done(Ok(cached)),
            None => Step::Run(Request::BluetoothQuery),
        };
    }
    match &replies[0] {
        Err(_) => Step::Done(Ok(false)),
        Ok(output) => {
            let enabled = parse_bluetooth_powered(output.as_str());
            state.set_cached_bluetooth(enabled);
            Step::Done(Ok(enabled))
        },
    }
}

/// Switches the Bluetooth controller on or off, then asks it what it is
/// now.
///
/// An error of either run ends the operation with that error. Else the
/// state that the controller reports is stored in the cache and returned.
pub fn set_bluetooth_enabled(state: &mut AppState, enabled: bool, replies: &[CommandReply]) -> (r:
    Step<Result<bool, String>>)
    ensures
        replies@.len() == 0 ==> final(state)@ == old(state)@ && r == Step::Run::<
            Result<bool, String>,
        >(Request::BluetoothChange(enabled)),
        replies@.len() > 0 ==> match replies@[0] {
            Err(e) => final(state)@ == old(state)@ && fails_with(r, e),
            Ok(_) => if replies@.len() == 1 {
                final(state)@ == old(state)@ && r == Step::Run::<Result<bool, String>>(
                    Request::BluetoothQuery,
                )
            } else {
                match replies@[1] {
                    Err(e) => final(state)@ == old(state)@ && fails_with(r, e),
                    Ok(output) => r == Step::Done(
                        Ok::<bool, String>(bluetooth_powered_of(output@)),
                    ) && exists|now: u64|
                        final(state)@ == old(state)@.with_bluetooth(
                            bluetooth_powered_of(output@),
                            now,
                        ),
                }
            },
        },
        replies@.len() >= 2 ==> r is Done,
{
    if replies.len() == 0 {
        return Step::Run(Request::BluetoothChange(enabled));
    }
    if let Err(e) = &replies[0] {
        return Step::Done(Err(e.to_string()));
    }
    if replies.len() == 1 {
        return Step::Run(Request::BluetoothQuery);
    }
    match &replies[1] {
        Err(e) => Step::Done(Err(e.to_string())),
        Ok(output) => {
            let actual = parse_bluetooth_powered(output.as_str());
            state.set_cached_bluetooth(actual);
            Step::Done(Ok(actual))
        },
    }
}

/// What the output of a probe for night light says: the settings daemon
/// says whether the feature is enabled, and a search for a companion
/// process finds one where it prints anything.
pub open spec fn probe_answer(request: Request, output: Seq<char>) -> bool {
    match request {
        Request::NightLightQuery => night_light_of(output),
        _ => output.len() > 0,
    }
}

/// What a chain of probes does next, from the probe of index `from` on.
/// The probes are tried in order. The first whose run succeeds decides;
/// one whose run fails hands over to the next; where every run has
/// failed, the answer is no.
pub open spec fn probe_step(probes: Seq<Request>, replies: Seq<CommandReply>, from: int) -> Step<
    bool,
>
    decreases probes.len() - from,
{
    if from < 0 || from >= probes.len() {
        Step::Done(false)
    } else if from >= replies.len() {
        Step::Run(probes[from])
    } else {
        match replies[from] {
            Ok(output) => Step::Done(probe_answer(probes[from], output@)),
            Err(_) => probe_step(probes, replies, from + 1),
        }
    }
}

/// The probes of a read of night light, in the order in which they are
/// tried: the settings daemon, then two companion processes.
pub open spec fn night_light_probes() -> Seq<Request> {
    seq![
        Request::NightLightQuery,
        Request::CompanionProbe(Companion::Gammastep),
        Request::CompanionProbe(Companion::Redshift),
    ]
}

/// The probes of night light for a snapshot: the settings daemon, then
/// one companion process.
pub open spec fn snapshot_night_light_probes() -> Seq<Request> {
    seq![Request::NightLightQuery, Request::CompanionProbe(Companion::Gammastep)]
}

fn answer_probe(request: Request, output: &str) -> (r: bool)
    ensures
        r == probe_answer(request, output@),
{
    match request {
        Request::NightLightQuery => parse_night_light(output),
        _ => !output.is_empty(),
    }
}

fn run_probes(probes: &[Request], replies: &[CommandReply]) -> (r: Step<bool>)
    ensures
        r == probe_step(probes@, replies@, 0),
        replies@.len() >= probes@.len() ==> r is Done,
{
    let mut i: usize = 0;
    while i < probes.len()
        invariant
            i <= probes@.len(),
            probe_step(probes@, replies@, 0) == probe_step(probes@, replies@, i as int),
            i <= replies@.len(),
        decreases probes@.len() - i,
    {
        if i >= replies.len() {
            return Step::Run(probes[i]);
        }
        if let Ok(output) = &replies[i] {
            return Step::Done(answer_probe(probes[i], output.as_str()));
        }
        i += 1;
    }
    Step::Done(false)
}

/// Reads whether night light is enabled, for a snapshot.
pub fn get_night_light_internal(replies: &[CommandReply]) -> (r: Step<CCResult<bool>>)
    ensures
        match probe_step(snapshot_night_light_probes(), replies@, 0) {
            Step::Run(request) => r == Step::Run::<CCResult<bool>>(request),
            Step::Done(enabled) => r == Step::Done(Ok::<bool, ControlCentreError>(enabled)),
        },
        replies@.len() >= 2 ==> r is Done,
{
    let probes = vec![Request::NightLightQuery, Request::CompanionProbe(Companion::Gammastep)];
    match run_probes(probes.as_slice(), replies) {
        Step::Run(request) => Step::Run(request),
        Step::Done(enabled) => Step::Done(Ok(enabled)),
    }
}

/// Reads whether night light is enabled: from the cache while it is
/// fresh, else by the probes in their order. The answer is stored in the
/// cache. A read of night light never fails.
pub fn get_night_light_status(state: &mut AppState, replies: &[CommandReply]) -> (r: Step<
    Result<bool, String>,
>)
    ensures
        replies@.len() == 0 ==> final(state)@ == old(state)@ && exists|now: u64|
            r == cached_or(
                fresh(old(state)@.night_light_enabled, now),
                Request::NightLightQuery,
            ),
        replies@.len() > 0 ==> match probe_step(night_light_probes(), replies@, 0) {
            Step::Run(request) => final(state)@ == old(state)@ && r == Step::Run::<
                Result<bool, String>,
            >(request),
            Step::Done(enabled) => r == Step::Done(Ok::<bool, String>(enabled)) && exists|
                now: u64,
            | final(state)@ == old(state)@.with_night_light(enabled, now),
        },
        replies@.len() >= 3 ==> r is Done,
{
    if replies.len() == 0 {
        return match state.get_cached_night_light() {
            Some(cached) => Step::Done(Ok(cached)),
            None => Step::Run(Request::NightLightQuery),
        };
    }
    let probes = vec![
        Request::NightLightQuery,
        Request::CompanionProbe(Companion::Gammastep),
        Request::CompanionProbe(Companion::Redshift),
    ];
    match run_probes(probes.as_slice(), replies) {
        Step::Run(request) => Step::Run(request),
        Step::Done(enabled) => {
            state.set_cached_night_light(enabled);
            Step::Done(Ok(enabled))
        },
    }
}

/// The request with which night light is switched through the companion
/// processes, where the settings daemon has refused, for the number of
/// replies so far. To enable, the tinting process is started; to
/// disable, two companion processes are stopped. `None` when all is run.
pub open spec fn fallback_request(enabled: bool, replies: nat) -> Option<Request> {
    if enabled {
        if replies < 2 {
            Some(Request::CompanionStart)
        } else {
            None
        }
    } else {
        if replies < 2 {
            Some(Request::CompanionStop(Companion::Gammastep))
        } else if replies < 3 {
            Some(Request::CompanionStop(Companion::Wlsunset))
        } else {
            None
        }
    }
}

/// Enables or disables night light.
///
/// The settings daemon is told first. Where it accepts, it is asked what
/// the state is now; that state is stored in the cache and returned, and
/// an error of that question ends the operation with the error. Where
/// the daemon refuses, the companion processes are started or stopped
/// instead, whatever comes of it, and the requested state is stored in
/// the cache and returned: there is nothing to ask then.
pub fn set_night_light_enabled(state: &mut AppState, enabled: bool, replies: &[CommandReply]) -> (r:
    Step<Result<bool, String>>)
    ensures
        replies@.len() == 0 ==> final(state)@ == old(state)@ && r == Step::Run::<
            Result<bool, String>,
        >(Request::NightLightChange(enabled)),
        replies@.len() > 0 ==> match replies@[0] {
            Ok(_) => if replies@.len() == 1 {
                final(state)@ == old(state)@ && r == Step::Run::<Result<bool, String>>(
                    Request::NightLightQuery,
                )
            } else {
                match replies@[1] {
                    Err(e) => final(state)@ == old(state)@ && fails_with(r, e),
                    Ok(output) => r == Step::Done(Ok::<bool, String>(night_light_of(output@)))
                        && exists|now: u64|
                        final(state)@ == old(state)@.with_night_light(
                            night_light_of(output@),
                            now,
                        ),
                }
            },
            Err(_) => match fallback_request(enabled, replies@.len()) {
                Some(request) => final(state)@ == old(state)@ && r == Step::Run::<
                    Result<bool, String>,
                >(request),
                None => r == Step::Done(Ok::<bool, String>(enabled)) && exists|now: u64|
                    final(state)@ == old(state)@.with_night_light(enabled, now),
            },
        },
        replies@.len() >= 3 ==> r is Done,
{
    if replies.len() == 0 {
        return Step::Run(Request::NightLightChange(enabled));
    }
    if replies[0].is_ok() {
        if replies.len() == 1 {
            return Step::Run(Request::NightLightQuery);
        }
        return match &replies[1] {
            Err(e) => Step::Done(Err(e.to_string())),
            Ok(output) => {
                let actual = parse_night_light(output.as_str());
                state.set_cached_night_light(actual);
                Step::Done(Ok(actual))
            },
        };
    }
    if enabled {
        if replies.len() < 2 {
            return Step::Run(Request::CompanionStart);
        }
    } else {
        if replies.len() < 2 {
            return Step::Run(Request::CompanionStop(Companion::Gammastep));
        }
        if replies.len() < 3 {
            return Step::Run(Request::CompanionStop(Companion::Wlsunset));
        }
    }
    state.set_cached_night_light(enabled);
    Step::Done(Ok(enabled))
}

/// Suspends the machine, after a short wait.
pub fn suspend_system(replies: &[CommandReply]) -> (r: Step<Result<(), String>>)
    ensures
        replies@.len() == 0 ==> r == Step::Run::<Result<(), String>>(Request::Suspend),
        replies@.len() > 0 ==> match replies@[0] {
            Err(e) => fails_with(r, e),
            Ok(_) => r == Step::Done(Ok::<(), String>(())),
        },
        replies@.len() >= 1 ==> r is Done,
{
    if replies.len() == 0 {
        return Step::Run(Request::Suspend);
    }
    match &replies[0] {
        Err(e) => Step::Done(Err(e.to_string())),
        Ok(_) => Step::Done(Ok(())),
    }
}

/// Asks the mixer for the volume.
///
/// An error of the run is handed on. Where the volume pattern is no
/// regular expression, the result is a `ParseError`.
pub fn get_volume_internal(replies: &[CommandReply]) -> (r: Step<CCResult<u8>>)
    ensures
        replies@.len() == 0 ==> r == Step::Run::<CCResult<u8>>(Request::VolumeQuery),
        replies@.len() > 0 ==> match replies@[0] {
            Err(e) => r == Step::Done(Err::<u8, ControlCentreError>(e)),
            Ok(output) => match volume_capture(output@) {
                Some(capture) => r == Step::Done(
                    Ok::<u8, ControlCentreError>(volume_of(capture)),
                ),
                None => r matches Step::Done(Err(ControlCentreError::ParseError(_))),
            },
        },
        replies@.len() >= 1 ==> r is Done,
{
    if replies.len() == 0 {
        return Step::Run(Request::VolumeQuery);
    }
    match &replies[0] {
        Err(e) => Step::Done(Err(e.clone())),
        Ok(output) => match parse_volume(output.as_str()) {
            Ok(volume) => Step::Done(Ok(volume)),
            Err(e) => Step::Done(Err(ControlCentreError::ParseError(e.to_string()))),
        },
    }
}

/// Asks the backlight utility for the brightness.
pub fn get_brightness_internal(replies: &[CommandReply]) -> (r: Step<CCResult<u8>>)
    ensures
        replies@.len() == 0 ==> r == Step::Run::<CCResult<u8>>(Request::BrightnessQuery),
        replies@.len() > 0 ==> match replies@[0] {
            Err(e) => r == Step::Done(Err::<u8, ControlCentreError>(e)),
            Ok(output) => r == Step::Done(Ok::<u8, ControlCentreError>(brightness_of(output@))),
        },
        replies@.len() >= 1 ==> r is Done,
{
    if replies.len() == 0 {
        return Step::Run(Request::BrightnessQuery);
    }
    match &replies[0] {
        Err(e) => Step::Done(Err(e.clone())),
        Ok(output) => Step::Done(Ok(parse_brightness(output.as_str()))),
    }
}

/// Asks the backlight utility for its largest raw value.
///
/// An error of the run is handed on. An output that writes no number
/// gives a `ParseError` that says why.
pub fn get_max_brightness_internal(replies: &[CommandReply]) -> (r: Step<CCResult<u32>>)
    ensures
        replies@.len() == 0 ==> r == Step::Run::<CCResult<u32>>(Request::MaxBrightnessQuery),
        replies@.len() > 0 ==> match replies@[0] {
            Err(e) => r == Step::Done(Err::<u32, ControlCentreError>(e)),
            Ok(output) => match max_brightness_of(output@) {
                Ok(v) => r matches Step::Done(Ok(max)) && max == v,
                Err(failure) => r matches Step::Done(Err(ControlCentreError::ParseError(text)))
                    && text@ == failure.words(),
            },
        },
        replies@.len() >= 1 ==> r is Done,
{
    if replies.len() == 0 {
        return Step::Run(Request::MaxBrightnessQuery);
    }
    match &replies[0] {
        Err(e) => Step::Done(Err(e.clone())),
        Ok(output) => match parse_max_brightness(output.as_str()) {
            Ok(max) => Step::Done(Ok(max)),
            Err(failure) => Step::Done(Err(ControlCentreError::from(failure))),
        },
    }
}

/// The largest raw brightness that a snapshot reports where none can be read.
pub const DEFAULT_MAX_BRIGHTNESS: u32 = 100;

/// What the six reads of a snapshot have found.
#[derive(Debug, PartialEq, Eq)]
pub struct Readings {
    pub volume: CCResult<u8>,
    pub muted: CCResult<bool>,
    pub brightness: CCResult<u8>,
    pub max_brightness: CCResult<u32>,
    pub network: NetworkState,
    pub night_light: CCResult<bool>,
}

/// What a snapshot does next.
#[derive(Debug, PartialEq, Eq)]
pub enum SnapshotStep {
    /// Make the six reads, in any order or at once, and call again with
    /// what they have found.
    Gather,
    /// The snapshot.
    Done(Result<AllStates, String>),
}

/// The snapshot for what the six reads have found. A read that failed
/// gives its default: volume 50, not muted, brightness 50, largest
/// brightness 100, night light off.
pub open spec fn snapshot_of(readings: Readings) -> AllStatesView {
    AllStatesView {
        volume: VolumeState {
            volume: match readings.volume {
                Ok(v) => v,
                Err(_) => DEFAULT_VOLUME,
            },
            muted: match readings.muted {
                Ok(v) => v,
                Err(_) => false,
            },
        },
        brightness: BrightnessState {
            brightness: match readings.brightness {
                Ok(v) => v,
                Err(_) => DEFAULT_BRIGHTNESS,
            },
            max_brightness: match readings.max_brightness {
                Ok(v) => v,
                Err(_) => DEFAULT_MAX_BRIGHTNESS,
            },
        },
        network: readings.network@,
        display: DisplayState {
            night_light_enabled: match readings.night_light {
                Ok(v) => v,
                Err(_) => false,
            },
        },
    }
}

/// The cache in which every slot holds what a snapshot reports, fetched
/// at time `now`.
pub open spec fn warmed(cache: CacheView, snapshot: AllStatesView, now: u64) -> CacheView {
    cache.with_volume(snapshot.volume.volume, now).with_muted(
        snapshot.volume.muted,
        now,
    ).with_brightness(snapshot.brightness.brightness, now).with_wifi(
        snapshot.network.wifi_enabled,
        now,
    ).with_bluetooth(snapshot.network.bluetooth_enabled, now).with_night_light(
        snapshot.display.night_light_enabled,
        now,
    )
}

/// Takes a snapshot of every setting.
///
/// Called with no readings, it empties the cache and asks for the six
/// reads. Called with what they have found, it puts the snapshot
/// together, stores every value in the cache, and is done. A snapshot
/// never fails: a read that failed gives its default.
pub fn get_all_states(state: &mut AppState, readings: Option<Readings>) -> (r: SnapshotStep)
    ensures
        match readings {
            None => r is Gather && final(state)@ == CacheView::empty(),
            Some(found) => (r matches SnapshotStep::Done(Ok(all)) && all@ == snapshot_of(found))
                && exists|now: u64| final(state)@ == warmed(old(state)@, snapshot_of(found), now),
        },
{
    let found = match readings {
        None => {
            state.invalidate_all();
            return SnapshotStep::Gather;
        },
        Some(found) => found,
    };
    let volume: u8 = match found.volume {
        Ok(v) => v,
        Err(_) => DEFAULT_VOLUME,
    };
    let muted: bool = match found.muted {
        Ok(v) => v,
        Err(_) => false,
    };
    let brightness: u8 = match found.brightness {
        Ok(v) => v,
        Err(_) => DEFAULT_BRIGHTNESS,
    };
    let max_brightness: u32 = match found.max_brightness {
        Ok(v) => v,
        Err(_) => DEFAULT_MAX_BRIGHTNESS,
    };
    let night_light: bool = match found.night_light {
        Ok(v) => v,
        Err(_) => false,
    };
    let network = found.network;
    let now = state.now();
    state.set_cached_volume_at(volume, now);
    state.set_cached_muted_at(muted, now);
    state.set_cached_brightness_at(brightness, now);
    state.set_cached_wifi_at(network.wifi_enabled, now);
    state.set_cached_bluetooth_at(network.bluetooth_enabled, now);
    state.set_cached_night_light_at(night_light, now);
    let all = AllStates {
        volume: VolumeState { volume, muted },
        brightness: BrightnessState { brightness, max_brightness },
        network,
        display: DisplayState { night_light_enabled: night_light },
    };
    assert(state@ == warmed(old(state)@, snapshot_of(found), now));
    SnapshotStep::Done(Ok(all))
}

/// The snapshot in which every setting has its default.
pub open spec fn default_snapshot() -> AllStatesView {
    AllStatesView {
        volume: VolumeState { volume: DEFAULT_VOLUME, muted: false },
        brightness: BrightnessState {
            brightness: DEFAULT_BRIGHTNESS,
            max_brightness: DEFAULT_MAX_BRIGHTNESS,
        },
        network: network_of(false, None, false),
        display: DisplayState { night_light_enabled: false },
    }
}

/// Where every run fails, a chain of probes answers no as soon as each
/// probe has had its reply.
pub proof fn law_probes_degrade(probes: Seq<Request>, replies: Seq<CommandReply>, from: int)
    requires
        0 <= from,
        replies.len() >= probes.len(),
        forall|i: int| 0 <= i < replies.len() ==> replies[i] is Err,
    ensures
        probe_step(probes, replies, from) == Step::Done(false),
    decreases probes.len() - from,
{
    if from < probes.len() {
        law_probes_degrade(probes, replies, from + 1);
    }
}

/// Where every run fails, a read of the radios for a snapshot ends after
/// two runs and reports every radio as off.
pub proof fn law_network_degrades(replies: Seq<CommandReply>)
    requires
        replies.len() >= 2,
        forall|i: int| 0 <= i < replies.len() ==> replies[i] is Err,
    ensures
        network_step(wifi_reply(replies[0]), replies) == Step::Done(
            network_of(false, None, false),
        ),
{
}

/// A snapshot holds a value for every setting, whatever was read; where
/// every read failed or found nothing, these are the defaults.
pub proof fn law_failed_snapshot_is_default(readings: Readings)
    requires
        readings.volume is Err,
        readings.muted is Err,
        readings.brightness is Err,
        readings.max_brightness is Err,
        readings.night_light is Err || readings.night_light == Ok::<bool, ControlCentreError>(
            false,
        ),
        readings.network@ == network_of(false, None, false),
    ensures
        snapshot_of(readings) == default_snapshot(),
{
}

} // verus!
