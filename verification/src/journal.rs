//! The lines of the hub's debug log.

use vstd::prelude::*;
use vstd::string::StringExecFns;
use crate::text::{decimal, decimal_text};

verus! {

/// Logged once when the listener starts.
pub open spec fn service_start_note() -> Seq<char> {
    "SERVICE START: Shared Memory Listener Initialized."@
}

/// Logged on a fresh connection to a publishing SDK.
pub open spec fn connected_note() -> Seq<char> {
    "SUCCESS: Connected to Shared Memory and SDK is ACTIVE."@
}

/// Logged when the block is there but the SDK is not publishing.
pub open spec fn waiting_note() -> Seq<char> {
    "WAITING: Memory block found, but SDK is not sending data yet."@
}

/// Logged when the block vanished after a connection.
pub open spec fn lost_note(os_error: nat) -> Seq<char> {
    "LOST CONNECTION: Mapping vanished (WinErr "@ + decimal(os_error) + "). Waiting for game..."@
}

/// A number with a leading minus sign when negative.
pub open spec fn signed_decimal(v: int) -> Seq<char> {
    if v < 0 {
        "-"@ + decimal((-v) as nat)
    } else {
        decimal(v as nat)
    }
}

/// The periodic progress line, from the already rendered speed and route
/// distance.
pub open spec fn pulse_note(speed: Seq<char>, gear: int, distance: Seq<char>) -> Seq<char> {
    "DATA PULSE -> Speed: "@ + speed + " | Gear: "@ + signed_decimal(gear) + " | GPS Dist: "@
        + distance + "km"@
}

/// One line of the log file: the time stamp in brackets, the message, and
/// the line end.
pub open spec fn log_line_of(stamp: Seq<char>, message: Seq<char>) -> Seq<char> {
    "["@ + stamp + "] "@ + message + "\n"@
}

pub fn service_start_message() -> (m: String)
    ensures
        m@ == service_start_note(),
{
    String::from_str("SERVICE START: Shared Memory Listener Initialized.")
}

pub fn connected_message() -> (m: String)
    ensures
        m@ == connected_note(),
{
    String::from_str("SUCCESS: Connected to Shared Memory and SDK is ACTIVE.")
}

pub fn waiting_message() -> (m: String)
    ensures
        m@ == waiting_note(),
{
    String::from_str("WAITING: Memory block found, but SDK is not sending data yet.")
}

/// The message for a vanished block, with the OS error code.
pub fn lost_connection_message(os_error: u32) -> (m: String)
    ensures
        m@ == lost_note(os_error as nat),
{
    let mut m = String::from_str("LOST CONNECTION: Mapping vanished (WinErr ");
    let code = decimal_text(os_error);
    m.append(code.as_str());
    m.append("). Waiting for game...");
    m
}

/// Renders a signed 32-bit number in decimal.
pub fn signed_decimal_text(v: i32) -> (t: String)
    ensures
        t@ == signed_decimal(v as int),
{
    if v < 0 {
        let magnitude: u32 = if v == i32::MIN {
            0x8000_0000
        } else {
            (-v) as u32
        };
        let mut t = String::from_str("-");
        let digits = decimal_text(magnitude);
        t.append(digits.as_str());
        t
    } else {
        decimal_text(v as u32)
    }
}

/// The periodic progress line.
pub fn pulse_message(speed: &str, gear: i32, distance: &str) -> (m: String)
    ensures
        m@ == pulse_note(speed@, gear as int, distance@),
{
    let mut m = String::from_str("DATA PULSE -> Speed: ");
    m.append(speed);
    m.append(" | Gear: ");
    let g = signed_decimal_text(gear);
    m.append(g.as_str());
    m.append(" | GPS Dist: ");
    m.append(distance);
    m.append("km");
    m
}

/// One line of the log file.
pub fn log_line(stamp: &str, message: &str) -> (line: String)
    ensures
        line@ == log_line_of(stamp@, message@),
{
    let mut line = String::from_str("[");
    line.append(stamp);
    line.append("] ");
    line.append(message);
    line.append("\n");
    line
}

/// The pattern of the log's time stamps.
pub open spec fn stamp_pattern() -> Seq<char> {
    "%Y-%m-%d %H:%M:%S"@
}

pub open spec fn is_ascii_digit(c: char) -> bool {
    '0' <= c <= '9'
}

/// A rendering of a date and time that ends in `-MM-DD HH:MM:SS` after a
/// year of at least four characters.
pub open spec fn stamp_shaped(s: Seq<char>) -> bool {
    let n = s.len() as int;
    &&& n >= 19
    &&& s[n - 15] == '-'
    &&& s[n - 12] == '-'
    &&& s[n - 9] == ' '
    &&& s[n - 6] == ':'
    &&& s[n - 3] == ':'
    &&& is_ascii_digit(s[n - 14]) && is_ascii_digit(s[n - 13])
    &&& is_ascii_digit(s[n - 11]) && is_ascii_digit(s[n - 10])
    &&& is_ascii_digit(s[n - 8]) && is_ascii_digit(s[n - 7])
    &&& is_ascii_digit(s[n - 5]) && is_ascii_digit(s[n - 4])
    &&& is_ascii_digit(s[n - 2]) && is_ascii_digit(s[n - 1])
}

/// Calls `chrono::Local::now()` and renders the result with
/// `DateTime::format(pattern)` through `Display` (the date-time itself
/// cannot be carried through the library, as `DateTime` is bounded by an
/// outside trait). The reading depends on the clock and the time zone, so
/// only the text's shape is stated. The pattern must be the log's pattern
/// (another, malformed one would make the rendering fail and `to_string`
/// panic); for it chrono writes the
/// year zero-padded to at least four characters (with a sign outside
/// 0..=9999), then month, day, hour, minute and second as two zero-padded
/// digits each (a leap second shows as 60), with the pattern's separators.
/// The clock reading can panic only when the system clock or the local
/// time-zone data is unusable, which no argument decides.
#[verifier::external_body]
fn local_time_text(pattern: &str) -> (text: String)
    requires
        pattern@ == stamp_pattern(),
    ensures
        stamp_shaped(text@),
{
    chrono::Local::now().format(pattern).to_string()
}

/// The current local time, as the log writes it.
pub fn log_stamp() -> (stamp: String)
    ensures
        stamp_shaped(stamp@),
{
    local_time_text("%Y-%m-%d %H:%M:%S")
}

/// One line of the log file for `message`, stamped with the current local
/// time.
pub fn stamped_log_line(message: &str) -> (line: String)
    ensures
        exists|stamp: Seq<char>| stamp_shaped(stamp) && line@ == log_line_of(stamp, message@),
{
    let stamp = log_stamp();
    let line = log_line(stamp.as_str(), message);
    assert(stamp_shaped(stamp@) && line@ == log_line_of(stamp@, message@));
    line
}

/// A log line is one line: it opens with the bracketed stamp, ends with
/// the line break, and holds the message right before it, after "] ".
pub proof fn log_line_frames_the_message(stamp: Seq<char>, message: Seq<char>)
    ensures
        ({
            let line = log_line_of(stamp, message);
            &&& line.len() == stamp.len() + message.len() + 4
            &&& line[0] == '['
            &&& line.subrange(1, stamp.len() + 1int) == stamp
            &&& line[stamp.len() + 1int] == ']'
            &&& line[stamp.len() + 2int] == ' '
            &&& line.subrange(stamp.len() + 3int, line.len() - 1) == message
            &&& line.last() == '\n'
        }),
{
    reveal_strlit("[");
    reveal_strlit("] ");
    reveal_strlit("\n");
    let line = log_line_of(stamp, message);
    assert(line.subrange(1, stamp.len() + 1int) =~= stamp);
    assert(line.subrange(stamp.len() + 3int, line.len() - 1) =~= message);
}

} // verus!
