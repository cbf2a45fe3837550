//! The fixed set of program runs that the control centre asks for, and the
//! exact program name and arguments of each.

use vstd::prelude::*;
use vstd::string::*;
use crate::decimal::{decimal_text, format_unsigned};
use crate::runner::{Invocation, InvocationView};

verus! {

/// A process that provides night light where the settings daemon is absent.
#[derive(Debug, Clone, Copy, PartialEq, Eq)]
pub enum Companion {
    Gammastep,
    Redshift,
    Wlsunset,
}

/// One thing that the control centre asks of an external utility.
#[derive(Debug, Clone, Copy, PartialEq, Eq)]
pub enum Request {
    /// Ask the mixer for the volume of the default sink.
    VolumeQuery,
    /// Set the volume of the default sink to a percentage.
    VolumeChange(u8),
    /// Ask the mixer whether the default sink is muted.
    MuteQuery,
    /// Flip the mute state of the default sink.
    MuteToggle,
    /// Ask for the backlight's state, in machine-readable form.
    BrightnessQuery,
    /// Set the backlight to a percentage.
    BrightnessChange(u8),
    /// Ask for the backlight's largest raw value.
    MaxBrightnessQuery,
    /// Ask the network manager whether the WiFi radio is enabled.
    WifiQuery,
    /// Ask the network manager for the WiFi networks and which is active.
    WifiConnectionQuery,
    /// Switch the WiFi radio on or off.
    WifiChange(bool),
    /// Ask the Bluetooth controller for its state.
    BluetoothQuery,
    /// Switch the Bluetooth controller on or off.
    BluetoothChange(bool),
    /// Ask the settings daemon whether night light is enabled.
    NightLightQuery,
    /// Tell the settings daemon to enable or disable night light.
    NightLightChange(bool),
    /// Look for a running companion process.
    CompanionProbe(Companion),
    /// Start the companion process that tints the screen.
    CompanionStart,
    /// Stop a companion process.
    CompanionStop(Companion),
    /// Suspend the machine, after a short wait.
    Suspend,
}

/// The name under which a companion process runs.
pub open spec fn companion_name(companion: Companion) -> Seq<char> {
    match companion {
        Companion::Gammastep => "gammastep"@,
        Companion::Redshift => "redshift"@,
        Companion::Wlsunset => "wlsunset"@,
    }
}

/// The word that switches a radio on or off.
pub open spec fn switch_word(enabled: bool) -> Seq<char> {
    if enabled {
        "on"@
    } else {
        "off"@
    }
}

/// The word that the settings daemon takes for a flag.
pub open spec fn flag_word(enabled: bool) -> Seq<char> {
    if enabled {
        "true"@
    } else {
        "false"@
    }
}

/// A percentage as the utilities take it: the number, then a percent sign.
pub open spec fn percent_text(value: u8) -> Seq<char> {
    decimal_text(value as nat) + "%"@
}

/// The milliseconds to wait before the machine is suspended.
pub const SUSPEND_DELAY_MS: u64 = 200;

/// The program and the arguments of a request.
pub open spec fn request_command(request: Request) -> (Seq<char>, Seq<Seq<char>>) {
    match request {
        Request::VolumeQuery => ("pactl"@, seq!["get-sink-volume"@, "@DEFAULT_SINK@"@]),
        Request::VolumeChange(value) => (
            "pactl"@,
            seq!["set-sink-volume"@, "@DEFAULT_SINK@"@, percent_text(value)],
        ),
        Request::MuteQuery => ("pactl"@, seq!["get-sink-mute"@, "@DEFAULT_SINK@"@]),
        Request::MuteToggle => ("pactl"@, seq!["set-sink-mute"@, "@DEFAULT_SINK@"@, "toggle"@]),
        Request::BrightnessQuery => ("brightnessctl"@, seq!["-m"@, "info"@]),
        Request::BrightnessChange(value) => ("brightnessctl"@, seq!["set"@, percent_text(value)]),
        Request::MaxBrightnessQuery => ("brightnessctl"@, seq!["max"@]),
        Request::WifiQuery => ("nmcli"@, seq!["radio"@, "wifi"@]),
        Request::WifiConnectionQuery => (
            "nmcli"@,
            seq!["-t"@, "-f"@, "ACTIVE,SSID"@, "device"@, "wifi"@],
        ),
        Request::WifiChange(enabled) => ("nmcli"@, seq!["radio"@, "wifi"@, switch_word(enabled)]),
        Request::BluetoothQuery => ("bluetoothctl"@, seq!["show"@]),
        Request::BluetoothChange(enabled) => (
            "bluetoothctl"@,
            seq!["power"@, switch_word(enabled)],
        ),
        Request::NightLightQuery => (
            "gsettings"@,
            seq!["get"@, "org.gnome.settings-daemon.plugins.color"@, "night-light-enabled"@],
        ),
        Request::NightLightChange(enabled) => (
            "gsettings"@,
            seq![
                "set"@,
                "org.gnome.settings-daemon.plugins.color"@,
                "night-light-enabled"@,
                flag_word(enabled),
            ],
        ),
        Request::CompanionProbe(companion) => ("pgrep"@, seq!["-x"@, companion_name(companion)]),
        Request::CompanionStart => ("gammastep"@, seq!["-O"@, "4500"@]),
        Request::CompanionStop(companion) => ("pkill"@, seq!["-x"@, companion_name(companion)]),
        Request::Suspend => ("loginctl"@, seq!["suspend"@]),
    }
}

/// Whether the output of a request is wanted: that of every query.
pub open spec fn request_captures(request: Request) -> bool {
    match request {
        Request::VolumeQuery
        | Request::MuteQuery
        | Request::BrightnessQuery
        | Request::MaxBrightnessQuery
        | Request::WifiQuery
        | Request::WifiConnectionQuery
        | Request::BluetoothQuery
        | Request::NightLightQuery
        | Request::CompanionProbe(_) => true,
        _ => false,
    }
}

/// The run of an external program that a request stands for.
pub open spec fn request_shape(request: Request) -> InvocationView {
    InvocationView {
        program: request_command(request).0,
        args: request_command(request).1,
        capture: request_captures(request),
        delay_ms: if request is Suspend {
            SUSPEND_DELAY_MS
        } else {
            0
        },
    }
}

fn command(program: &str, capture: bool) -> (r: Invocation)
    ensures
        r@ == (InvocationView {
            program: program@,
            args: Seq::<Seq<char>>::empty(),
            capture,
            delay_ms: 0,
        }),
{
    let r = Invocation { program: String::from_str(program), args: Vec::new(), capture, delay_ms: 0 };
    assert(r@.args =~= Seq::<Seq<char>>::empty());
    r
}

fn with_arg(invocation: Invocation, arg: &str) -> (r: Invocation)
    ensures
        r@ == (InvocationView { args: invocation@.args.push(arg@), ..invocation@ }),
{
    let mut r = invocation;
    r.args.push(String::from_str(arg));
    assert(r@.args =~= invocation@.args.push(arg@));
    r
}

fn companion_text(companion: Companion) -> (r: &'static str)
    ensures
        r@ == companion_name(companion),
{
    match companion {
        Companion::Gammastep => "gammastep",
        Companion::Redshift => "redshift",
        Companion::Wlsunset => "wlsunset",
    }
}

fn percent(value: u8) -> (r: String)
    ensures
        r@ == percent_text(value),
{
    format_unsigned(value as u64).concat("%")
}

fn switch_text(enabled: bool) -> (r: &'static str)
    ensures
        r@ == switch_word(enabled),
{
    if enabled {
        "on"
    } else {
        "off"
    }
}

fn flag_text(enabled: bool) -> (r: &'static str)
    ensures
        r@ == flag_word(enabled),
{
    if enabled {
        "true"
    } else {
        "false"
    }
}

/// The run of an external program that `request` stands for: its program,
/// its arguments, whether its output is wanted, and the wait before it.
pub fn invocation_for(request: Request) -> (r: Invocation)
    ensures
        r@ == request_shape(request),
{
    let r = match request {
        Request::VolumeQuery => with_arg(
            with_arg(command("pactl", true), "get-sink-volume"),
            "@DEFAULT_SINK@",
        ),
        Request::VolumeChange(value) => {
            let amount = percent(value);
            with_arg(
                with_arg(with_arg(command("pactl", false), "set-sink-volume"), "@DEFAULT_SINK@"),
                amount.as_str(),
            )
        },
        Request::MuteQuery => with_arg(
            with_arg(command("pactl", true), "get-sink-mute"),
            "@DEFAULT_SINK@",
        ),
        Request::MuteToggle => with_arg(
            with_arg(with_arg(command("pactl", false), "set-sink-mute"), "@DEFAULT_SINK@"),
            "toggle",
        ),
        Request::BrightnessQuery => with_arg(with_arg(command("brightnessctl", true), "-m"), "info"),
        Request::BrightnessChange(value) => {
            let amount = percent(value);
            with_arg(with_arg(command("brightnessctl", false), "set"), amount.as_str())
        },
        Request::MaxBrightnessQuery => with_arg(command("brightnessctl", true), "max"),
        Request::WifiQuery => with_arg(with_arg(command("nmcli", true), "radio"), "wifi"),
        Request::WifiConnectionQuery => with_arg(
            with_arg(
                with_arg(with_arg(with_arg(command("nmcli", true), "-t"), "-f"), "ACTIVE,SSID"),
                "device",
            ),
            "wifi",
        ),
        Request::WifiChange(enabled) => with_arg(
            with_arg(with_arg(command("nmcli", false), "radio"), "wifi"),
            switch_text(enabled),
        ),
        Request::BluetoothQuery => with_arg(command("bluetoothctl", true), "show"),
        Request::BluetoothChange(enabled) => with_arg(
            with_arg(command("bluetoothctl", false), "power"),
            switch_text(enabled),
        ),
        Request::NightLightQuery => with_arg(
            with_arg(
                with_arg(command("gsettings", true), "get"),
                "org.gnome.settings-daemon.plugins.color",
            ),
            "night-light-enabled",
        ),
        Request::NightLightChange(enabled) => with_arg(
            with_arg(
                with_arg(
                    with_arg(command("gsettings", false), "set"),
                    "org.gnome.settings-daemon.plugins.color",
                ),
                "night-light-enabled",
            ),
            flag_text(enabled),
        ),
        Request::CompanionProbe(companion) => with_arg(
            with_arg(command("pgrep", true), "-x"),
            companion_text(companion),
        ),
        Request::CompanionStart => with_arg(with_arg(command("gammastep", false), "-O"), "4500"),
        Request::CompanionStop(companion) => with_arg(
            with_arg(command("pkill", false), "-x"),
            companion_text(companion),
        ),
        Request::Suspend => {
            let mut run = with_arg(command("loginctl", false), "suspend");
            run.delay_ms = SUSPEND_DELAY_MS;
            run
        },
    };
    assert(r@.args =~= request_shape(request).args);
    r
}

} // verus!
