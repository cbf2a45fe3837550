//! What the output of each utility says. Every parser is permissive: an
//! output that it cannot read gives the documented default.

use vstd::prelude::*;
use vstd::string::*;
use crate::decimal::{parse_bounded, parse_unsigned, ParseFailure};
use crate::pattern::{capture_group, group_capture};
use crate::text::{
    contains, contains_text, field, find_from, index_of, lowercase_of, matches_at, nth_field,
    occurs_at, same_text, to_chars, to_lowercase, trim, trim_end_matches, trimmed,
    without_trailing,
};

verus! {

/// The regular expression that finds a volume: digits before a percent sign.
pub const VOLUME_PATTERN: &'static str = "(\\d+)%";

/// The group of the volume pattern that takes the digits.
pub const VOLUME_GROUP: usize = 1;

/// What the volume pattern captures in `output`: `None` where the
/// pattern is no regular expression, else the digits, if it found any.
pub open spec fn volume_capture(output: Seq<char>) -> Option<Option<Seq<char>>> {
    group_capture(VOLUME_PATTERN@, output, VOLUME_GROUP as nat)
}

/// The volume that is reported where none can be read.
pub const DEFAULT_VOLUME: u8 = 50;

/// The brightness that is reported where none can be read.
pub const DEFAULT_BRIGHTNESS: u8 = 50;

/// The number from 0 to 255 that `text` writes, if it writes one.
pub open spec fn level_of(text: Seq<char>) -> Option<u8> {
    match parse_unsigned(text, 255) {
        Ok(v) => Some(v as u8),
        Err(_) => None,
    }
}

/// Reads `text` as a number from 0 to 255.
pub fn parse_level(text: &str) -> (r: Option<u8>)
    ensures
        r == level_of(text@),
{
    match parse_bounded(text, 255) {
        Ok(v) => Some(v as u8),
        Err(_) => None,
    }
}

/// The volume that the volume pattern's capture writes, if it captured
/// anything and that writes a number from 0 to 255.
pub open spec fn volume_reading(capture: Option<Seq<char>>) -> Option<u8> {
    match capture {
        Some(digits) => level_of(digits),
        None => None,
    }
}

/// The volume for what the volume pattern captured: the number read,
/// or the default where none is read.
pub open spec fn volume_of(capture: Option<Seq<char>>) -> u8 {
    match volume_reading(capture) {
        Some(volume) => volume,
        None => DEFAULT_VOLUME,
    }
}

/// The volume that the volume pattern's capture writes, if it captured
/// anything and that writes a number from 0 to 255.
pub fn volume_from_capture(capture: Option<&str>) -> (r: Option<u8>)
    ensures
        r == volume_reading(
            match capture {
                Some(digits) => Some(digits@),
                None => None,
            },
        ),
{
    match capture {
        Some(digits) => parse_level(digits),
        None => None,
    }
}

/// The volume that the mixer's output writes, if it writes one: the
/// first run of digits that a percent sign follows, as the volume
/// pattern finds it. The error is that of a volume pattern that is no
/// regular expression.
pub fn read_volume(output: &str) -> (r: Result<Option<u8>, regex::Error>)
    ensures
        match r {
            Ok(reading) => volume_capture(output@) matches Some(capture)
                && reading == volume_reading(capture),
            Err(_) => volume_capture(output@) is None,
        },
{
    match capture_group(VOLUME_PATTERN, output, VOLUME_GROUP) {
        Ok(Some(digits)) => Ok(volume_from_capture(Some(digits.as_str()))),
        Ok(None) => Ok(volume_from_capture(None)),
        Err(e) => Err(e),
    }
}

/// The volume that the mixer's output reports: the one that it writes,
/// or the default where it writes none.
pub fn parse_volume(output: &str) -> (r: Result<u8, regex::Error>)
    ensures
        match r {
            Ok(volume) => volume_capture(output@) matches Some(capture)
                && volume == volume_of(capture),
            Err(_) => volume_capture(output@) is None,
        },
{
    match read_volume(output) {
        Ok(Some(volume)) => Ok(volume),
        Ok(None) => Ok(DEFAULT_VOLUME),
        Err(e) => Err(e),
    }
}

/// The volume that a read reports of the mixer's output: the one that
/// the output writes, or the default where it writes none or the volume
/// pattern is no regular expression.
pub open spec fn reported_volume(output: Seq<char>) -> u8 {
    match volume_capture(output) {
        Some(capture) => volume_of(capture),
        None => DEFAULT_VOLUME,
    }
}

/// The volume that a read reports of the mixer's output.
pub fn volume_or_default(output: &str) -> (r: u8)
    ensures
        r == reported_volume(output@),
{
    match parse_volume(output) {
        Ok(volume) => volume,
        Err(_) => DEFAULT_VOLUME,
    }
}

/// The brightness that the backlight utility's output writes, if it
/// writes one: the number in its fourth field between commas, without
/// the percent signs at the field's end.
pub open spec fn brightness_reading(output: Seq<char>) -> Option<u8> {
    match field(output, ',', 3) {
        Some(part) => level_of(without_trailing(part, '%')),
        None => None,
    }
}

/// The brightness that the backlight utility's output reports: the one
/// that it writes, or the default where it writes none.
pub open spec fn brightness_of(output: Seq<char>) -> u8 {
    match brightness_reading(output) {
        Some(brightness) => brightness,
        None => DEFAULT_BRIGHTNESS,
    }
}

/// The brightness that the backlight utility's output writes, if it
/// writes one.
pub fn read_brightness(output: &str) -> (r: Option<u8>)
    ensures
        r == brightness_reading(output@),
{
    match nth_field(output, ',', 3) {
        Some(part) => parse_level(trim_end_matches(part, '%')),
        None => None,
    }
}

/// The brightness that the backlight utility's output reports.
pub fn parse_brightness(output: &str) -> (r: u8)
    ensures
        r == brightness_of(output@),
{
    match read_brightness(output) {
        Some(brightness) => brightness,
        None => DEFAULT_BRIGHTNESS,
    }
}

/// The largest raw brightness that the backlight utility's output reports.
pub fn parse_max_brightness(output: &str) -> (r: Result<u32, ParseFailure>)
    ensures
        match r {
            Ok(v) => parse_unsigned(trimmed(output@), u32::MAX as int) == Ok::<int, ParseFailure>(
                v as int,
            ),
            Err(e) => parse_unsigned(trimmed(output@), u32::MAX as int) == Err::<
                int,
                ParseFailure,
            >(e),
        },
{
    parse_bounded(trim(output), u32::MAX)
}

/// Whether the mixer's output reports the sink as muted: it says `yes`,
/// in any case of letters.
pub open spec fn muted_of(output: Seq<char>) -> bool {
    contains_text(lowercase_of(output), "yes"@)
}

/// Whether the network manager's output reports the radio as enabled: it
/// says `enabled` and nothing else, in any case of letters.
pub open spec fn wifi_enabled_of(output: Seq<char>) -> bool {
    trimmed(lowercase_of(output)) == "enabled"@
}

/// Whether the Bluetooth controller's output reports it as powered.
pub open spec fn bluetooth_powered_of(output: Seq<char>) -> bool {
    contains_text(output, "Powered: yes"@)
}

/// Whether the settings daemon's output reports night light as enabled:
/// it says `true` and nothing else.
pub open spec fn night_light_of(output: Seq<char>) -> bool {
    trimmed(output) == "true"@
}

/// Whether the mixer's output reports the sink as muted.
pub fn parse_muted(output: &str) -> (r: bool)
    ensures
        r == muted_of(output@),
{
    let lowered = to_lowercase(output);
    contains(lowered.as_str(), "yes")
}

/// Whether the network manager's output reports the radio as enabled.
pub fn parse_wifi_enabled(output: &str) -> (r: bool)
    ensures
        r == wifi_enabled_of(output@),
{
    let lowered = to_lowercase(output);
    same_text(trim(lowered.as_str()), "enabled")
}

/// Whether the Bluetooth controller's output reports it as powered.
pub fn parse_bluetooth_powered(output: &str) -> (r: bool)
    ensures
        r == bluetooth_powered_of(output@),
{
    contains(output, "Powered: yes")
}

/// Whether the settings daemon's output reports night light as enabled.
pub fn parse_night_light(output: &str) -> (r: bool)
    ensures
        r == night_light_of(output@),
{
    same_text(trim(output), "true")
}

/// The text of the line that holds position `from`, from there to the
/// line's end. The line ends before the next line feed, and before a
/// carriage return that stands directly before that line feed.
pub open spec fn rest_of_line(s: Seq<char>, from: int) -> Seq<char> {
    let end = from + index_of(s.subrange(from, s.len() as int), '\n');
    let stop = if from < end < s.len() && s[end - 1] == '\r' {
        end - 1
    } else {
        end
    };
    s.subrange(from, stop)
}

/// The network name of the first line, at or after position `from`, that
/// marks an active connection. `from` is the start of a line.
pub open spec fn active_ssid_from(s: Seq<char>, from: int) -> Option<Seq<char>>
    decreases s.len() - from,
{
    if from < 0 || from >= s.len() {
        None
    } else if occurs_at(s, "yes:"@, from) {
        Some(rest_of_line(s, from + "yes:"@.len()))
    } else {
        let end = from + index_of(s.subrange(from, s.len() as int), '\n');
        if end >= s.len() || end < from {
            None
        } else {
            active_ssid_from(s, end + 1)
        }
    }
}

/// The network name of the first line of the device list that marks an
/// active connection: what follows `yes:` on that line.
pub open spec fn active_ssid(output: Seq<char>) -> Option<Seq<char>> {
    active_ssid_from(output, 0)
}

/// The network name of the active connection in the device list, if a
/// line marks one.
pub fn parse_active_ssid(output: &str) -> (r: Option<String>)
    ensures
        match r {
            Some(name) => active_ssid(output@) == Some(name@),
            None => active_ssid(output@) is None,
        },
{
    let chars = to_chars(output);
    let marker = to_chars("yes:");
    let len: usize = chars.len();
    let mut from: usize = 0;
    while from < len
        invariant
            chars@ == output@,
            marker@ == "yes:"@,
            len == chars.len(),
            from <= len,
            active_ssid(output@) == active_ssid_from(output@, from as int),
        decreases len - from,
    {
        let end: usize = find_from(&chars, from, '\n');
        if marker.len() <= len - from && matches_at(&chars, &marker, from) {
            let begin: usize = from + marker.len();
            let stop_line: usize = find_from(&chars, begin, '\n');
            let stop: usize = if begin < stop_line && stop_line < len && chars[stop_line - 1]
                == '\r' {
                stop_line - 1
            } else {
                stop_line
            };
            return Some(String::from_str(output.substring_char(begin, stop)));
        }
        if end >= len {
            return None;
        }
        from = end + 1;
    }
    None
}

} // verus!
