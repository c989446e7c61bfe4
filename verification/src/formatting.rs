//! Rendering of status values for a report: icons with a tone, durations,
//! table rows, and truncated or centred text.
//!
//! A tone names a colour; painting is left to the caller.

use crate::system::{size_string, size_text};
use crate::text::{
    append_decimal, append_repeated, append_two_digit, decimal, lowercased, repeated,
    same_text, to_lowercase, two_digit,
};
use vstd::prelude::*;

verus! {

/// The colour in which a text is shown.
#[derive(Clone, Copy, Debug, PartialEq, Eq, Structural)]
pub enum Tone {
    Green,
    Yellow,
    Red,
    Blue,
    Dimmed,
    BrightBlack,
}

/// A text and the colour in which it is shown.
#[derive(Debug, PartialEq, Eq)]
pub struct Styled {
    pub text: String,
    pub tone: Tone,
}

/// Mathematical model of a [`Styled`] text.
pub struct StyledView {
    pub text: Seq<char>,
    pub tone: Tone,
}

impl View for Styled {
    type V = StyledView;

    open spec fn view(&self) -> StyledView {
        StyledView { text: self.text@, tone: self.tone }
    }
}

impl Styled {
    /// `text` in the colour `tone`.
    pub fn new(text: &str, tone: Tone) -> (r: Styled)
        ensures
            r@ == styled(text@, tone),
    {
        Styled { text: String::from_str(text), tone }
    }
}

/// `text` in the colour `tone`.
pub open spec fn styled(text: Seq<char>, tone: Tone) -> StyledView {
    StyledView { text: text, tone: tone }
}

/// The icon for a status word in lower case: a check mark for a good
/// state, a warning sign for a middling one, a cross for a bad one, a
/// question mark for an unknown one, and an information sign otherwise.
pub open spec fn status_icon(lower: Seq<char>) -> StyledView {
    if lower == "good"@ || lower == "normal"@ || lower == "ok"@ || lower == "healthy"@ {
        styled("✅"@, Tone::Green)
    } else if lower == "warning"@ || lower == "medium"@ || lower == "moderate"@ {
        styled("⚠️"@, Tone::Yellow)
    } else if lower == "error"@ || lower == "critical"@ || lower == "bad"@ || lower == "high"@ {
        styled("❌"@, Tone::Red)
    } else if lower == "unknown"@ || lower == "unavailable"@ {
        styled("❓"@, Tone::Dimmed)
    } else {
        styled("ℹ️"@, Tone::Blue)
    }
}

/// The icon for a status word that is already in lower case.
pub fn status_icon_for(lower: &str) -> (r: Styled)
    ensures
        r@ == status_icon(lower@),
{
    if same_text(lower, "good") || same_text(lower, "normal") || same_text(lower, "ok")
        || same_text(lower, "healthy") {
        Styled::new("✅", Tone::Green)
    } else if same_text(lower, "warning") || same_text(lower, "medium") || same_text(
        lower,
        "moderate",
    ) {
        Styled::new("⚠️", Tone::Yellow)
    } else if same_text(lower, "error") || same_text(lower, "critical") || same_text(lower, "bad")
        || same_text(lower, "high") {
        Styled::new("❌", Tone::Red)
    } else if same_text(lower, "unknown") || same_text(lower, "unavailable") {
        Styled::new("❓", Tone::Dimmed)
    } else {
        Styled::new("ℹ️", Tone::Blue)
    }
}

/// The icon for a status word, whatever its case.
pub fn format_status_icon(status: &str) -> (r: Styled)
    ensures
        r@ == status_icon(lowercased(status@)),
{
    let lower = to_lowercase(status);
    status_icon_for(lower.as_str())
}

/// The icon for a level in percent: green above 80, yellow above 50,
/// orange above 20, red otherwise.
pub open spec fn percentage_icon(percentage: u8) -> StyledView {
    if 81 <= percentage <= 100 {
        styled("🟢"@, Tone::Green)
    } else if 51 <= percentage <= 80 {
        styled("🟡"@, Tone::Yellow)
    } else if 21 <= percentage <= 50 {
        styled("🟠"@, Tone::Yellow)
    } else {
        styled("🔴"@, Tone::Red)
    }
}

/// The word for a level in percent.
pub open spec fn percentage_word(percentage: u8) -> Seq<char> {
    if 81 <= percentage <= 100 {
        "Good"@
    } else if 51 <= percentage <= 80 {
        "Medium"@
    } else if 21 <= percentage <= 50 {
        "Low"@
    } else {
        "Critical"@
    }
}

/// The icon and the word for a level in percent. A level above 100 counts
/// as critical.
pub fn format_percentage_status(percentage: u8) -> (r: (Styled, &'static str))
    ensures
        r.0@ == percentage_icon(percentage),
        r.1@ == percentage_word(percentage),
{
    if 81 <= percentage && percentage <= 100 {
        (Styled::new("🟢", Tone::Green), "Good")
    } else if 51 <= percentage && percentage <= 80 {
        (Styled::new("🟡", Tone::Yellow), "Medium")
    } else if 21 <= percentage && percentage <= 50 {
        (Styled::new("🟠", Tone::Yellow), "Low")
    } else {
        (Styled::new("🔴", Tone::Red), "Critical")
    }
}

/// The line for the power source: mains power wins over the battery.
pub open spec fn power_source_text(on_battery: bool, on_ac: bool) -> StyledView {
    if on_ac {
        styled("🔌 AC Power"@, Tone::Green)
    } else if on_battery {
        styled("🔋 Battery Power"@, Tone::Yellow)
    } else {
        styled("❓ Unknown Power Source"@, Tone::Red)
    }
}

/// The line for the power source.
pub fn format_power_source(on_battery: bool, on_ac: bool) -> (r: Styled)
    ensures
        r@ == power_source_text(on_battery, on_ac),
{
    if on_ac {
        Styled::new("🔌 AC Power", Tone::Green)
    } else if on_battery {
        Styled::new("🔋 Battery Power", Tone::Yellow)
    } else {
        Styled::new("❓ Unknown Power Source", Tone::Red)
    }
}

/// The line for a service.
pub open spec fn service_status_text(running: bool, enabled: bool) -> StyledView {
    if running && enabled {
        styled("🟢 Running"@, Tone::Green)
    } else if running {
        styled("🟡 Running (not enabled)"@, Tone::Yellow)
    } else if enabled {
        styled("🔴 Stopped (enabled)"@, Tone::Red)
    } else {
        styled("⚫ Stopped"@, Tone::Dimmed)
    }
}

/// The line for a service.
pub fn format_service_status(running: bool, enabled: bool) -> (r: Styled)
    ensures
        r@ == service_status_text(running, enabled),
{
    if running && enabled {
        Styled::new("🟢 Running", Tone::Green)
    } else if running {
        Styled::new("🟡 Running (not enabled)", Tone::Yellow)
    } else if enabled {
        Styled::new("🔴 Stopped (enabled)", Tone::Red)
    } else {
        Styled::new("⚫ Stopped", Tone::Dimmed)
    }
}

/// The line for a connection at the time `now`: connected, else seen
/// within the last hour, else within the last day, else offline, or never
/// seen. Times are seconds since the Unix epoch.
pub open spec fn connection_status_text(connected: bool, last_seen: Option<i64>, now: i64)
    -> StyledView {
    if connected {
        styled("🟢 Connected"@, Tone::Green)
    } else {
        match last_seen {
            Some(time) => if now - time < 3600 {
                styled("🟡 Recently seen"@, Tone::Yellow)
            } else if now - time < 86400 {
                styled("🟠 Seen today"@, Tone::BrightBlack)
            } else {
                styled("🔴 Offline"@, Tone::Red)
            },
            None => styled("⚫ Never seen"@, Tone::Dimmed),
        }
    }
}

/// The line for a connection at the time `now`. The caller reads the
/// clock.
pub fn format_connection_status(connected: bool, last_seen: Option<i64>, now: i64) -> (r: Styled)
    ensures
        r@ == connection_status_text(connected, last_seen, now),
{
    if connected {
        Styled::new("🟢 Connected", Tone::Green)
    } else {
        match last_seen {
            Some(time) => {
                let elapsed: i128 = now as i128 - time as i128;
                if elapsed < 3600 {
                    Styled::new("🟡 Recently seen", Tone::Yellow)
                } else if elapsed < 86400 {
                    Styled::new("🟠 Seen today", Tone::BrightBlack)
                } else {
                    Styled::new("🔴 Offline", Tone::Red)
                }
            },
            None => Styled::new("⚫ Never seen", Tone::Dimmed),
        }
    }
}

/// Renders a size in bytes in the largest unit, up to petabytes, that it
/// reaches.
pub fn format_bytes(bytes: u64) -> (r: String)
    ensures
        r@ == size_text(bytes as nat, 5),
{
    size_string(bytes, 5)
}

/// A duration with its two or three leading parts: days, hours and
/// minutes from a day on; hours and minutes from an hour on; minutes and
/// seconds from a minute on; else seconds.
pub open spec fn short_duration_text(seconds: nat) -> Seq<char> {
    let days = seconds / 86400;
    let hours = (seconds % 86400) / 3600;
    let minutes = (seconds % 3600) / 60;
    let secs = seconds % 60;
    if days > 0 {
        decimal(days) + "d "@ + decimal(hours) + "h "@ + decimal(minutes) + "m"@
    } else if hours > 0 {
        decimal(hours) + "h "@ + decimal(minutes) + "m"@
    } else if minutes > 0 {
        decimal(minutes) + "m "@ + decimal(secs) + "s"@
    } else {
        decimal(secs) + "s"@
    }
}

/// Renders a duration given in seconds, in short.
pub fn format_duration(seconds: u64) -> (r: String)
    ensures
        r@ == short_duration_text(seconds as nat),
{
    let days = seconds / 86400;
    let hours = (seconds % 86400) / 3600;
    let minutes = (seconds % 3600) / 60;
    let secs = seconds % 60;
    let mut r = String::new();
    if days > 0 {
        append_decimal(&mut r, days);
        r.append("d ");
        append_decimal(&mut r, hours);
        r.append("h ");
        append_decimal(&mut r, minutes);
        r.append("m");
    } else if hours > 0 {
        append_decimal(&mut r, hours);
        r.append("h ");
        append_decimal(&mut r, minutes);
        r.append("m");
    } else if minutes > 0 {
        append_decimal(&mut r, minutes);
        r.append("m ");
        append_decimal(&mut r, secs);
        r.append("s");
    } else {
        append_decimal(&mut r, secs);
        r.append("s");
    }
    assert(r@ =~= short_duration_text(seconds as nat));
    r
}

/// Remaining time as hours and two-digit minutes, or `Unknown`.
pub open spec fn time_remaining_text(minutes: Option<u32>) -> Seq<char> {
    match minutes {
        Some(m) => decimal((m / 60) as nat) + ":"@ + two_digit((m % 60) as nat),
        None => "Unknown"@,
    }
}

/// Renders the time that remains, given in minutes.
pub fn format_time_remaining(minutes: Option<u32>) -> (r: String)
    ensures
        r@ == time_remaining_text(minutes),
{
    match minutes {
        Some(m) => {
            let mut r = String::new();
            append_decimal(&mut r, (m / 60) as u64);
            r.append(":");
            append_two_digit(&mut r, (m % 60) as u64);
            assert(r@ =~= time_remaining_text(minutes));
            r
        },
        None => String::from_str("Unknown"),
    }
}

/// `text` followed by as many spaces as it lacks to the width `width`.
pub open spec fn padded(text: Seq<char>, width: nat) -> Seq<char> {
    if text.len() >= width {
        text
    } else {
        text + repeated(" "@, (width - text.len()) as nat)
    }
}

/// The first `count` columns of a table row: each column that has a
/// width is padded to it and, unless it is the last column of the row,
/// followed by a bar. Columns without a width are left out.
pub open spec fn row_text(columns: Seq<Seq<char>>, widths: Seq<usize>, count: int) -> Seq<char>
    decreases count,
{
    if count <= 0 {
        Seq::empty()
    } else {
        let i = count - 1;
        let before = row_text(columns, widths, i);
        if i < widths.len() {
            let cell = before + padded(columns[i], widths[i] as nat);
            if i < columns.len() - 1 {
                cell + " | "@
            } else {
                cell
            }
        } else {
            before
        }
    }
}

/// The texts of a list of string slices.
pub open spec fn slice_texts(columns: Seq<&str>) -> Seq<Seq<char>> {
    columns.map_values(|s: &str| s@)
}

/// Renders one row of a table.
pub fn format_table_row(columns: &[&str], widths: &[usize]) -> (r: String)
    ensures
        r@ == row_text(slice_texts(columns@), widths@, columns@.len() as int),
{
    let mut row = String::new();
    let mut i: usize = 0;
    while i < columns.len()
        invariant
            i <= columns.len(),
            row@ == row_text(slice_texts(columns@), widths@, i as int),
        decreases columns.len() - i,
    {
        if i < widths.len() {
            let col: &str = columns[i];
            row.append(col);
            let have = col.unicode_len();
            if have < widths[i] {
                append_repeated(&mut row, " ", widths[i] - have);
            }
            if i < columns.len() - 1 {
                row.append(" | ");
            }
        }
        i += 1;
        assert(row@ =~= row_text(slice_texts(columns@), widths@, i as int));
    }
    row
}

/// The first `count` parts of the rule under a table head: dashes for
/// each width, joined by `-+-`.
pub open spec fn separator_text(widths: Seq<usize>, count: int) -> Seq<char>
    decreases count,
{
    if count <= 0 {
        Seq::empty()
    } else if count == 1 {
        repeated("-"@, widths[0] as nat)
    } else {
        separator_text(widths, count - 1) + "-+-"@ + repeated("-"@, widths[count - 1] as nat)
    }
}

/// Renders the rule under a table head.
pub fn format_table_separator(widths: &[usize]) -> (r: String)
    ensures
        r@ == separator_text(widths@, widths@.len() as int),
{
    let mut r = String::new();
    let mut i: usize = 0;
    while i < widths.len()
        invariant
            i <= widths.len(),
            r@ == separator_text(widths@, i as int),
        decreases widths.len() - i,
    {
        if i > 0 {
            r.append("-+-");
        }
        append_repeated(&mut r, "-", widths[i]);
        i += 1;
        assert(r@ =~= separator_text(widths@, i as int));
    }
    r
}

/// `s` if it has at most `max_len` characters; else its first
/// `max_len - 3` characters (none if `max_len` is below 3) and an
/// ellipsis of three dots.
pub open spec fn truncated(s: Seq<char>, max_len: nat) -> Seq<char> {
    if s.len() <= max_len {
        s
    } else if max_len < 3 {
        "..."@
    } else {
        s.subrange(0, max_len - 3) + "..."@
    }
}

/// Shortens `s` to fit `max_len` characters, marking the cut.
pub fn truncate_string(s: &str, max_len: usize) -> (r: String)
    ensures
        r@ == truncated(s@, max_len as nat),
{
    let n = s.unicode_len();
    if n <= max_len {
        String::from_str(s)
    } else {
        let keep = if max_len < 3 {
            0
        } else {
            max_len - 3
        };
        let mut r = String::from_str(s.substring_char(0, keep));
        r.append("...");
        assert(s@.subrange(0, 0) =~= Seq::<char>::empty());
        assert(r@ =~= truncated(s@, max_len as nat));
        r
    }
}

/// `text` in the middle of `width` characters: the spaces it lacks are
/// split between both sides, the odd one going to the right.
pub open spec fn centered(text: Seq<char>, width: nat) -> Seq<char> {
    if text.len() >= width {
        text
    } else {
        let padding = (width - text.len()) as nat;
        repeated(" "@, padding / 2) + text + repeated(" "@, (padding - padding / 2) as nat)
    }
}

/// Centres `text` in `width` characters.
pub fn center_text(text: &str, width: usize) -> (r: String)
    ensures
        r@ == centered(text@, width as nat),
{
    let n = text.unicode_len();
    if n >= width {
        return String::from_str(text);
    }
    let padding = width - n;
    let left = padding / 2;
    let right = padding - left;
    let mut r = String::new();
    append_repeated(&mut r, " ", left);
    r.append(text);
    append_repeated(&mut r, " ", right);
    assert(r@ =~= centered(text@, width as nat));
    r
}

/// How long ago a target was seen.
#[derive(Clone, Copy, Debug, PartialEq, Eq, Structural)]
pub enum SeenAge {
    /// Less than an hour ago.
    Recently,
    /// Less than a day ago.
    Today,
    /// This many whole days ago.
    DaysAgo(i64),
}

/// How long before `now` the time `seen` lies. Times are seconds since
/// the Unix epoch; whole days are counted towards zero.
pub open spec fn seen_age(seen: i64, now: i64) -> SeenAge {
    if now - seen < 3600 {
        SeenAge::Recently
    } else if now - seen < 86400 {
        SeenAge::Today
    } else {
        SeenAge::DaysAgo(((now - seen) / 86400) as i64)
    }
}

/// How long before `now` the time `seen` lies.
pub fn last_seen_age(seen: i64, now: i64) -> (r: SeenAge)
    ensures
        r == seen_age(seen, now),
{
    let elapsed: i128 = now as i128 - seen as i128;
    if elapsed < 3600 {
        SeenAge::Recently
    } else if elapsed < 86400 {
        SeenAge::Today
    } else {
        SeenAge::DaysAgo((elapsed / 86400) as i64)
    }
}

} // verus!
