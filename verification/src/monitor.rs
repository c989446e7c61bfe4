//! Reading what the power tools of the machine print: the power source,
//! the battery charge, the time that remains, and the health of the
//! battery. Also where a monitoring command runs and which script it
//! calls on a target.

use crate::text::{
    chars_of, contains, contains_text, find_digit, find_from, find_numeric, first_digit,
    first_index, first_numeric, lines_of, lowercased,
    opt_text, parse_unsigned, parsed_unsigned, split_lines, strip_trailing, texts, to_lowercase,
    trim, trimmed, without_trailing,
};
use vstd::prelude::*;

verus! {

/// Where a command runs.
#[derive(Debug, PartialEq, Eq)]
pub enum ExecutionMode {
    /// On this machine.
    Local,
    /// On the target `host`, unless the command names another.
    Remote { host: String },
    /// On the target that the command names, else on this machine.
    Auto,
}

/// Mathematical model of an [`ExecutionMode`].
pub enum ExecutionModeView {
    Local,
    Remote { host: Seq<char> },
    Auto,
}

impl View for ExecutionMode {
    type V = ExecutionModeView;

    open spec fn view(&self) -> ExecutionModeView {
        match self {
            ExecutionMode::Local => ExecutionModeView::Local,
            ExecutionMode::Remote { host } => ExecutionModeView::Remote { host: host@ },
            ExecutionMode::Auto => ExecutionModeView::Auto,
        }
    }
}

impl Clone for ExecutionMode {
    fn clone(&self) -> (r: Self)
        ensures
            r@ == self@,
    {
        match self {
            ExecutionMode::Local => ExecutionMode::Local,
            ExecutionMode::Remote { host } => ExecutionMode::Remote { host: host.clone() },
            ExecutionMode::Auto => ExecutionMode::Auto,
        }
    }
}

/// The target on which a command runs, or none if it runs on this
/// machine: in local mode always this machine; in remote mode the named
/// host, else the host of the mode; in automatic mode the named host, if
/// one is named.
pub open spec fn target_of(mode: ExecutionModeView, host: Option<Seq<char>>) -> Option<Seq<char>> {
    match mode {
        ExecutionModeView::Local => None,
        ExecutionModeView::Remote { host: default_host } => match host {
            Some(h) => Some(h),
            None => Some(default_host),
        },
        ExecutionModeView::Auto => host,
    }
}

/// The mode that the two mode flags of a command line select: local where
/// the server flag is set, automatic otherwise.
pub fn determine_execution_mode(server_mode: bool, client_mode: bool) -> (r: ExecutionMode)
    ensures
        r@ == (if server_mode {
            ExecutionModeView::Local
        } else {
            ExecutionModeView::Auto
        }),
{
    if server_mode {
        ExecutionMode::Local
    } else if client_mode {
        ExecutionMode::Auto
    } else {
        ExecutionMode::Auto
    }
}

/// The target on which a command runs, or none if it runs on this
/// machine.
pub fn target_host(mode: &ExecutionMode, host: Option<String>) -> (r: Option<String>)
    ensures
        opt_text(r) == target_of(mode@, opt_text(host)),
{
    match mode {
        ExecutionMode::Local => None,
        ExecutionMode::Remote { host: default_host } => match host {
            Some(h) => Some(h),
            None => Some(default_host.clone()),
        },
        ExecutionMode::Auto => host,
    }
}

/// The call of the battery script on a target.
pub fn battery_script_command(detailed: bool, raw: bool) -> (r: &'static str)
    ensures
        r@ == (if raw {
            "~/scripts/battery -r"@
        } else if detailed {
            "~/scripts/battery -d"@
        } else {
            "~/scripts/battery"@
        }),
{
    if raw {
        "~/scripts/battery -r"
    } else if detailed {
        "~/scripts/battery -d"
    } else {
        "~/scripts/battery"
    }
}

/// The call of the temperature script on a target.
pub fn temp_script_command(raw: bool) -> (r: &'static str)
    ensures
        r@ == (if raw {
            "~/scripts/temp -r"@
        } else {
            "~/scripts/temp"@
        }),
{
    if raw {
        "~/scripts/temp -r"
    } else {
        "~/scripts/temp"
    }
}

/// `base` followed by ` flag` where `set` holds.
pub open spec fn with_flag(base: Seq<char>, set: bool, flag: Seq<char>) -> Seq<char> {
    if set {
        base + " "@ + flag
    } else {
        base
    }
}

/// The call of the power diagnostics script on a target: the script, then
/// one flag for each option that is set, in the order verbose, battery,
/// sleep, all, fixes.
pub open spec fn power_script_text(verbose: bool, battery: bool, sleep: bool, all: bool, fixes: bool)
    -> Seq<char> {
    with_flag(
        with_flag(
            with_flag(
                with_flag(with_flag("~/scripts/power_diagnostics"@, verbose, "-v"@), battery, "-b"@),
                sleep,
                "-s"@,
            ),
            all,
            "-a"@,
        ),
        fixes,
        "-f"@,
    )
}

/// The call of the power diagnostics script on a target.
pub fn power_script_command(verbose: bool, battery: bool, sleep: bool, all: bool, fixes: bool) -> (r:
    String)
    ensures
        r@ == power_script_text(verbose, battery, sleep, all, fixes),
{
    let mut r = String::from_str("~/scripts/power_diagnostics");
    if verbose {
        r.append(" ");
        r.append("-v");
    }
    if battery {
        r.append(" ");
        r.append("-b");
    }
    if sleep {
        r.append(" ");
        r.append("-s");
    }
    if all {
        r.append(" ");
        r.append("-a");
    }
    if fixes {
        r.append(" ");
        r.append("-f");
    }
    r
}

/// Whether the battery report says that the machine runs on its battery.
pub fn is_on_battery(battery_report: &str) -> (r: bool)
    ensures
        r == contains_text(battery_report@, "Battery Power"@),
{
    contains(battery_report, "Battery Power")
}

/// Whether the battery report says that the machine runs on mains power.
pub fn is_on_ac_power(battery_report: &str) -> (r: bool)
    ensures
        r == contains_text(battery_report@, "AC Power"@),
{
    contains(battery_report, "AC Power")
}

/// Where a charge stands in a line: from the character at `start` to the
/// first percent sign at or after it. None if no percent sign follows.
pub open spec fn percent_end(line: Seq<char>, start: int) -> Option<int> {
    if 0 <= start < line.len() {
        let end = start + first_index(line.subrange(start, line.len() as int), '%');
        if end < line.len() {
            Some(end)
        } else {
            None
        }
    } else {
        None
    }
}

/// The charge that a line states, with its percent sign: the text from
/// the first numeric character to the first percent sign after it.
pub open spec fn percentage_text(line: Seq<char>) -> Option<Seq<char>> {
    let start = first_numeric(line);
    match percent_end(line, start) {
        Some(end) => Some(line.subrange(start, end + 1)),
        None => None,
    }
}

/// The charge that a line states, as a number: what stands between the
/// first numeric character and the first percent sign after it, if that
/// is a number of at most 255.
pub open spec fn percentage_value(line: Seq<char>) -> Option<u8> {
    let start = first_numeric(line);
    match percent_end(line, start) {
        Some(end) => match parsed_unsigned(line.subrange(start, end), 255) {
            Some(n) => Some(n as u8),
            None => None,
        },
        None => None,
    }
}

/// The charge stated by the first line, at or after `from`, that states
/// one.
pub open spec fn first_percentage_text(lines: Seq<Seq<char>>, from: int) -> Option<Seq<char>>
    decreases lines.len() - from,
{
    if from < 0 || from >= lines.len() {
        None
    } else if percentage_text(lines[from]) is Some {
        percentage_text(lines[from])
    } else {
        first_percentage_text(lines, from + 1)
    }
}

/// The charge stated as a number by the first line, at or after `from`,
/// that states one.
pub open spec fn first_percentage_value(lines: Seq<Seq<char>>, from: int) -> Option<u8>
    decreases lines.len() - from,
{
    if from < 0 || from >= lines.len() {
        None
    } else if percentage_value(lines[from]) is Some {
        percentage_value(lines[from])
    } else {
        first_percentage_value(lines, from + 1)
    }
}

/// The index of the first percent sign of `line` at or after `start`.
pub fn find_percent(line: &str, start: usize) -> (r: Option<usize>)
    ensures
        match r {
            Some(end) => percent_end(line@, start as int) == Some(end as int) && start <= end
                < line@.len(),
            None => percent_end(line@, start as int) is None,
        },
{
    let v = chars_of(line);
    if start >= v.len() {
        return None;
    }
    let end = find_from(&v, start, '%');
    if end < v.len() {
        Some(end)
    } else {
        None
    }
}

/// The charge that a line states, with its percent sign.
pub fn extract_percentage(line: &str) -> (r: Option<String>)
    ensures
        opt_text(r) == percentage_text(line@),
{
    let v = chars_of(line);
    let start = find_numeric(&v);
    match find_percent(line, start) {
        Some(end) => Some(String::from_str(line.substring_char(start, end + 1))),
        None => None,
    }
}

/// The charge that a line states, as a number.
pub fn percentage_of_line(line: &str) -> (r: Option<u8>)
    ensures
        r == percentage_value(line@),
{
    let v = chars_of(line);
    let start = find_numeric(&v);
    match find_percent(line, start) {
        Some(end) => match parse_unsigned(line.substring_char(start, end), 255) {
            Some(n) => Some(n as u8),
            None => None,
        },
        None => None,
    }
}

/// The charge that a battery report states, with its percent sign: that
/// of its first line that states one.
pub fn extract_battery_percentage(battery_report: &str) -> (r: Option<String>)
    ensures
        opt_text(r) == first_percentage_text(lines_of(battery_report@), 0),
{
    let lines = split_lines(battery_report);
    let mut i: usize = 0;
    while i < lines.len()
        invariant
            i <= lines.len(),
            texts(lines@) == lines_of(battery_report@),
            first_percentage_text(lines_of(battery_report@), 0) == first_percentage_text(
                lines_of(battery_report@),
                i as int,
            ),
        decreases lines.len() - i,
    {
        assert(texts(lines@)[i as int] == lines@[i as int]@);
        match extract_percentage(lines[i].as_str()) {
            Some(text) => {
                return Some(text);
            },
            None => {},
        }
        i += 1;
    }
    None
}

/// The charge that a battery report states, as a number: that of its
/// first line that states one.
pub fn get_battery_percentage(battery_report: &str) -> (r: Option<u8>)
    ensures
        r == first_percentage_value(lines_of(battery_report@), 0),
{
    let lines = split_lines(battery_report);
    let mut i: usize = 0;
    while i < lines.len()
        invariant
            i <= lines.len(),
            texts(lines@) == lines_of(battery_report@),
            first_percentage_value(lines_of(battery_report@), 0) == first_percentage_value(
                lines_of(battery_report@),
                i as int,
            ),
        decreases lines.len() - i,
    {
        assert(texts(lines@)[i as int] == lines@[i as int]@);
        match percentage_of_line(lines[i].as_str()) {
            Some(value) => {
                return Some(value);
            },
            None => {},
        }
        i += 1;
    }
    None
}

/// The number in a charge written with percent signs behind it; zero if
/// what stands before them is no number of at most 255.
pub fn percentage_number(percentage: &str) -> (r: u8)
    ensures
        r == (match parsed_unsigned(without_trailing(percentage@, '%'), 255) {
            Some(n) => n as u8,
            None => 0u8,
        }),
{
    let number = strip_trailing(percentage, '%');
    match parse_unsigned(number.as_str(), 255) {
        Some(n) => n as u8,
        None => 0,
    }
}

/// What a battery does.
#[derive(Clone, Copy, Debug, PartialEq, Eq, Structural)]
pub enum ChargeState {
    /// The machine is on mains power.
    Charging,
    Discharging,
    FullyCharged,
    Unknown,
}

/// What the battery does by its report: on mains power it charges; else
/// the report says that it discharges or that it is charged.
pub open spec fn charge_state_of(report: Seq<char>) -> ChargeState {
    if contains_text(report, "AC Power"@) {
        ChargeState::Charging
    } else if contains_text(report, "discharging"@) {
        ChargeState::Discharging
    } else if contains_text(report, "charged"@) {
        ChargeState::FullyCharged
    } else {
        ChargeState::Unknown
    }
}

/// The line that shows a charge state.
pub open spec fn charge_state_text(state: ChargeState) -> Seq<char> {
    match state {
        ChargeState::Charging => "🔌 Charging (AC Power)"@,
        ChargeState::Discharging => "⚡ Discharging"@,
        ChargeState::FullyCharged => "✅ Fully Charged"@,
        ChargeState::Unknown => "❓ Unknown"@,
    }
}

impl ChargeState {
    /// What the battery does by its report.
    pub fn from_report(battery_report: &str) -> (r: ChargeState)
        ensures
            r == charge_state_of(battery_report@),
    {
        if contains(battery_report, "AC Power") {
            ChargeState::Charging
        } else if contains(battery_report, "discharging") {
            ChargeState::Discharging
        } else if contains(battery_report, "charged") {
            ChargeState::FullyCharged
        } else {
            ChargeState::Unknown
        }
    }

    /// The line that shows this state.
    pub fn describe(&self) -> (r: &'static str)
        ensures
            r@ == charge_state_text(*self),
    {
        match self {
            ChargeState::Charging => "🔌 Charging (AC Power)",
            ChargeState::Discharging => "⚡ Discharging",
            ChargeState::FullyCharged => "✅ Fully Charged",
            ChargeState::Unknown => "❓ Unknown",
        }
    }
}

/// The time of day that a line states, as written: from its first digit
/// to two characters behind the colon, where the colon is the second or
/// third character from that digit on and two characters follow it.
pub open spec fn clock_text(line: Seq<char>) -> Option<Seq<char>> {
    let start = first_digit(line);
    if start < line.len() {
        let rest = line.subrange(start, line.len() as int);
        let colon = first_index(rest, ':');
        if colon < 3 && rest.len() > colon + 2 {
            Some(rest.subrange(0, colon + 3))
        } else {
            None
        }
    } else {
        None
    }
}

/// The line on the time that remains: the time that `line` states, as
/// the time that remains where the report says that the battery
/// discharges, as the time to a full charge where it says that it
/// charges, and nothing otherwise.
pub open spec fn time_remaining_line(line: Seq<char>, report: Seq<char>) -> Option<Seq<char>> {
    match clock_text(line) {
        Some(time) => if contains_text(report, "discharging"@) {
            Some("Time Remaining: "@ + time)
        } else if contains_text(report, "charging"@) {
            Some("Time to Full: "@ + time)
        } else {
            None
        },
        None => None,
    }
}

/// The line on the time that remains, from the first line of `lines`, at
/// or after `from`, that states a time.
pub open spec fn first_time_remaining(lines: Seq<Seq<char>>, report: Seq<char>, from: int)
    -> Option<Seq<char>>
    decreases lines.len() - from,
{
    if from < 0 || from >= lines.len() {
        None
    } else if time_remaining_line(lines[from], report) is Some {
        time_remaining_line(lines[from], report)
    } else {
        first_time_remaining(lines, report, from + 1)
    }
}

/// The time of day that a line states, as written.
pub fn extract_clock(line: &str) -> (r: Option<String>)
    ensures
        opt_text(r) == clock_text(line@),
{
    let v = chars_of(line);
    let start = find_digit(&v);
    if start >= v.len() {
        return None;
    }
    let colon_at = find_from(&v, start, ':');
    let colon = colon_at - start;
    let rest_len = v.len() - start;
    if colon < 3 && rest_len > colon + 2 {
        proof {
            let rest = v@.subrange(start as int, v.len() as int);
            assert(rest.subrange(0, colon + 3) =~= v@.subrange(start as int, start + colon + 3));
        }
        Some(String::from_str(line.substring_char(start, start + colon + 3)))
    } else {
        None
    }
}

/// The line on the time that remains that `line` yields within the
/// battery report `full_info`.
pub fn extract_time_remaining(line: &str, full_info: &str) -> (r: Option<String>)
    ensures
        opt_text(r) == time_remaining_line(line@, full_info@),
{
    match extract_clock(line) {
        Some(time) => {
            if contains(full_info, "discharging") {
                let mut r = String::from_str("Time Remaining: ");
                r.append(time.as_str());
                Some(r)
            } else if contains(full_info, "charging") {
                let mut r = String::from_str("Time to Full: ");
                r.append(time.as_str());
                Some(r)
            } else {
                None
            }
        },
        None => None,
    }
}

/// What a battery report says.
#[derive(Debug, PartialEq, Eq)]
pub struct BatteryInfo {
    /// The charge with its percent sign; empty if the report states none.
    pub percentage: String,
    pub state: ChargeState,
    /// The line on the time that remains, if the report states a time.
    pub time_remaining: Option<String>,
}

/// Reads a battery report.
pub fn parse_battery_info(battery_info: &str) -> (r: BatteryInfo)
    ensures
        r.percentage@ == (match first_percentage_text(lines_of(battery_info@), 0) {
            Some(text) => text,
            None => Seq::<char>::empty(),
        }),
        r.state == charge_state_of(battery_info@),
        opt_text(r.time_remaining) == first_time_remaining(
            lines_of(battery_info@),
            battery_info@,
            0,
        ),
{
    let percentage = match extract_battery_percentage(battery_info) {
        Some(text) => text,
        None => String::new(),
    };
    let state = ChargeState::from_report(battery_info);
    let lines = split_lines(battery_info);
    let mut time_remaining: Option<String> = None;
    let mut i: usize = 0;
    while i < lines.len()
        invariant_except_break
            i <= lines.len(),
            time_remaining is None,
            texts(lines@) == lines_of(battery_info@),
            first_time_remaining(lines_of(battery_info@), battery_info@, 0)
                == first_time_remaining(lines_of(battery_info@), battery_info@, i as int),
        ensures
            opt_text(time_remaining) == first_time_remaining(
                lines_of(battery_info@),
                battery_info@,
                0,
            ),
        decreases lines.len() - i,
    {
        assert(texts(lines@)[i as int] == lines@[i as int]@);
        match extract_time_remaining(lines[i].as_str(), battery_info) {
            Some(line) => {
                time_remaining = Some(line);
                break ;
            },
            None => {},
        }
        i += 1;
    }
    BatteryInfo { percentage, state, time_remaining }
}

/// How full a battery is, in three steps.
#[derive(Clone, Copy, Debug, PartialEq, Eq, Structural)]
pub enum BatteryLevel {
    /// At most 20 percent.
    Low,
    /// Above 20 and at most 50 percent.
    Medium,
    /// Above 50 percent.
    Good,
}

/// The step of a charge in percent.
pub open spec fn battery_level_of(percent: u8) -> BatteryLevel {
    if percent <= 20 {
        BatteryLevel::Low
    } else if percent <= 50 {
        BatteryLevel::Medium
    } else {
        BatteryLevel::Good
    }
}

/// The step of a charge written with its percent sign; none if the text
/// does not end in a percent sign or no number of at most 255 stands
/// before it.
pub open spec fn battery_level_text(percentage: Seq<char>) -> Option<BatteryLevel> {
    if percentage.len() > 0 && percentage.last() == '%' {
        match parsed_unsigned(percentage.drop_last(), 255) {
            Some(n) => Some(battery_level_of(n as u8)),
            None => None,
        }
    } else {
        None
    }
}

impl BatteryLevel {
    /// The step of a charge in percent.
    pub fn of(percent: u8) -> (r: BatteryLevel)
        ensures
            r == battery_level_of(percent),
    {
        if percent <= 20 {
            BatteryLevel::Low
        } else if percent <= 50 {
            BatteryLevel::Medium
        } else {
            BatteryLevel::Good
        }
    }

    /// The step of a charge written with its percent sign.
    pub fn from_text(percentage: &str) -> (r: Option<BatteryLevel>)
        ensures
            r == battery_level_text(percentage@),
    {
        let v = chars_of(percentage);
        if v.len() > 0 && v[v.len() - 1] == '%' {
            assert(percentage@.subrange(0, v.len() - 1) =~= percentage@.drop_last());
            match parse_unsigned(percentage.substring_char(0, v.len() - 1), 255) {
                Some(n) => Some(BatteryLevel::of(n as u8)),
                None => None,
            }
        } else {
            None
        }
    }
}

/// How worn a battery is by its charge cycles.
#[derive(Clone, Copy, Debug, PartialEq, Eq, Structural)]
pub enum CycleWear {
    /// At most 500 cycles.
    Low,
    /// Above 500 and at most 1000 cycles.
    Moderate,
    /// Above 1000 cycles.
    High,
}

/// The wear of a battery after `cycles` charge cycles.
pub open spec fn cycle_wear_of(cycles: u32) -> CycleWear {
    if cycles <= 500 {
        CycleWear::Low
    } else if cycles <= 1000 {
        CycleWear::Moderate
    } else {
        CycleWear::High
    }
}

impl CycleWear {
    /// The wear of a battery after `cycles` charge cycles.
    pub fn of(cycles: u32) -> (r: CycleWear)
        ensures
            r == cycle_wear_of(cycles),
    {
        if cycles <= 500 {
            CycleWear::Low
        } else if cycles <= 1000 {
            CycleWear::Moderate
        } else {
            CycleWear::High
        }
    }
}

/// The second field of a line split at colons: what stands between the
/// first colon and the next one, or the end of the line. None without a
/// colon.
pub open spec fn second_field(line: Seq<char>) -> Option<Seq<char>> {
    let first = first_index(line, ':');
    if first < line.len() {
        let rest = line.subrange(first + 1, line.len() as int);
        Some(rest.subrange(0, first_index(rest, ':')))
    } else {
        None
    }
}

/// The second field of a line split at colons.
pub fn field_after_colon(line: &str) -> (r: Option<String>)
    ensures
        opt_text(r) == second_field(line@),
{
    let v = chars_of(line);
    let first = find_from(&v, 0, ':');
    assert(v@.subrange(0, v.len() as int) =~= v@);
    if first < v.len() {
        let second = find_from(&v, first + 1, ':');
        proof {
            let rest = v@.subrange(first + 1, v.len() as int);
            assert(rest.subrange(0, second - first - 1) =~= v@.subrange(
                first + 1,
                second as int,
            ));
        }
        Some(String::from_str(line.substring_char(first + 1, second)))
    } else {
        None
    }
}

/// What one line of a battery health report says.
#[derive(Debug, PartialEq, Eq)]
pub enum HealthLine {
    /// The number of charge cycles and the wear it means.
    CycleCount { cycles: u32, wear: CycleWear },
    /// The condition as written, and whether it is normal.
    Condition { condition: String, normal: bool },
    /// A line on the capacity, without surrounding whitespace.
    Capacity(String),
    /// Nothing that is shown.
    Other,
}

/// Mathematical model of a [`HealthLine`].
pub enum HealthLineView {
    CycleCount { cycles: u32, wear: CycleWear },
    Condition { condition: Seq<char>, normal: bool },
    Capacity(Seq<char>),
    Other,
}

impl View for HealthLine {
    type V = HealthLineView;

    open spec fn view(&self) -> HealthLineView {
        match self {
            HealthLine::CycleCount { cycles, wear } => HealthLineView::CycleCount {
                cycles: *cycles,
                wear: *wear,
            },
            HealthLine::Condition { condition, normal } => HealthLineView::Condition {
                condition: condition@,
                normal: *normal,
            },
            HealthLine::Capacity(line) => HealthLineView::Capacity(line@),
            HealthLine::Other => HealthLineView::Other,
        }
    }
}

/// What a line of a battery health report says. A line on the cycle
/// count yields the count, if a number follows its first colon; a line
/// on the condition yields what follows its first colon, which is normal
/// if it holds the word in any case; a line on the capacity is shown as
/// it is.
pub open spec fn health_line_of(line: Seq<char>) -> HealthLineView {
    if contains_text(line, "Cycle Count"@) {
        match second_field(line) {
            Some(field) => match parsed_unsigned(trimmed(field), 0xFFFF_FFFF) {
                Some(n) => HealthLineView::CycleCount {
                    cycles: n as u32,
                    wear: cycle_wear_of(n as u32),
                },
                None => HealthLineView::Other,
            },
            None => HealthLineView::Other,
        }
    } else if contains_text(line, "Condition"@) {
        match second_field(line) {
            Some(field) => HealthLineView::Condition {
                condition: trimmed(field),
                normal: contains_text(lowercased(trimmed(field)), "normal"@),
            },
            None => HealthLineView::Other,
        }
    } else if contains_text(line, "Maximum Capacity"@) || contains_text(
        line,
        "Full Charge Capacity"@,
    ) {
        HealthLineView::Capacity(trimmed(line))
    } else {
        HealthLineView::Other
    }
}

/// Reads one line of a battery health report.
pub fn parse_health_line(line: &str) -> (r: HealthLine)
    ensures
        r@ == health_line_of(line@),
{
    if contains(line, "Cycle Count") {
        match field_after_colon(line) {
            Some(field) => {
                let text = trim(field.as_str());
                match parse_unsigned(text.as_str(), 0xFFFF_FFFF) {
                    Some(n) => HealthLine::CycleCount {
                        cycles: n as u32,
                        wear: CycleWear::of(n as u32),
                    },
                    None => HealthLine::Other,
                }
            },
            None => HealthLine::Other,
        }
    } else if contains(line, "Condition") {
        match field_after_colon(line) {
            Some(field) => {
                let condition = trim(field.as_str());
                let lower = to_lowercase(condition.as_str());
                let normal = contains(lower.as_str(), "normal");
                HealthLine::Condition { condition, normal }
            },
            None => HealthLine::Other,
        }
    } else if contains(line, "Maximum Capacity") || contains(line, "Full Charge Capacity") {
        HealthLine::Capacity(trim(line))
    } else {
        HealthLine::Other
    }
}

/// Whether a line of the power profile belongs to the battery health
/// report.
pub open spec fn is_health_line(line: Seq<char>) -> bool {
    contains_text(line, "Cycle Count"@) || contains_text(line, "Condition"@) || contains_text(
        line,
        "Full Charge Capacity"@,
    ) || contains_text(line, "Maximum Capacity"@)
}

/// The lines of `lines` before index `count` that belong to the battery
/// health report, in order.
pub open spec fn health_lines(lines: Seq<Seq<char>>, count: int) -> Seq<Seq<char>>
    decreases count,
{
    if count <= 0 {
        Seq::empty()
    } else if is_health_line(lines[count - 1]) {
        health_lines(lines, count - 1).push(lines[count - 1])
    } else {
        health_lines(lines, count - 1)
    }
}

/// The lines of a power profile that belong to the battery health
/// report, in order.
pub fn battery_health_lines(power_profile: &str) -> (r: Vec<String>)
    ensures
        texts(r@) == health_lines(
            lines_of(power_profile@),
            lines_of(power_profile@).len() as int,
        ),
{
    let lines = split_lines(power_profile);
    let mut r: Vec<String> = Vec::new();
    let mut i: usize = 0;
    assert(texts(r@) =~= health_lines(lines_of(power_profile@), 0));
    while i < lines.len()
        invariant
            i <= lines.len(),
            lines@.len() == lines_of(power_profile@).len(),
            texts(lines@) == lines_of(power_profile@),
            texts(r@) == health_lines(lines_of(power_profile@), i as int),
        decreases lines.len() - i,
    {
        assert(texts(lines@)[i as int] == lines@[i as int]@);
        let line = lines[i].as_str();
        if contains(line, "Cycle Count") || contains(line, "Condition") || contains(
            line,
            "Full Charge Capacity",
        ) || contains(line, "Maximum Capacity") {
            let ghost before = texts(r@);
            r.push(lines[i].clone());
            assert(texts(r@) =~= before.push(lines@[i as int]@));
        }
        i += 1;
    }
    r
}

/// Number of lines that the battery section of a power profile holds at
/// most.
pub const BATTERY_SECTION_LINES: usize = 20;

/// Whether a line mentions the battery, in any case.
pub open spec fn mentions_battery(line: Seq<char>) -> bool {
    contains_text(lowercased(line), "battery"@)
}

/// The index of the first line, at or after `from`, that mentions the
/// battery, or the number of lines if none does.
pub open spec fn first_mention(lines: Seq<Seq<char>>, from: int) -> int
    decreases lines.len() - from,
{
    if from < 0 || from >= lines.len() {
        lines.len() as int
    } else if mentions_battery(lines[from]) {
        from
    } else {
        first_mention(lines, from + 1)
    }
}

/// The battery section among `lines`: the lines from the first that
/// mentions the battery on, twenty at most.
pub open spec fn section_of(lines: Seq<Seq<char>>) -> Seq<Seq<char>> {
    let start = first_mention(lines, 0);
    let end = if start + BATTERY_SECTION_LINES <= lines.len() {
        start + BATTERY_SECTION_LINES
    } else {
        lines.len() as int
    };
    lines.subrange(start, end)
}

/// The battery section of a power profile: its lines from the first that
/// mentions the battery on, twenty at most.
pub fn battery_section(report: &str) -> (r: Vec<String>)
    ensures
        texts(r@) == section_of(lines_of(report@)),
{
    let lines = split_lines(report);
    let mut start: usize = 0;
    while start < lines.len()
        invariant
            start <= lines.len(),
            lines@.len() == lines_of(report@).len(),
            texts(lines@) == lines_of(report@),
            first_mention(lines_of(report@), 0) == first_mention(lines_of(report@), start as int),
        ensures
            start <= lines.len(),
            first_mention(lines_of(report@), 0) == start,
        decreases lines.len() - start,
    {
        assert(texts(lines@)[start as int] == lines@[start as int]@);
        let lower = to_lowercase(lines[start].as_str());
        if contains(lower.as_str(), "battery") {
            break ;
        }
        start += 1;
    }
    let end: usize = if lines.len() - start >= BATTERY_SECTION_LINES {
        start + BATTERY_SECTION_LINES
    } else {
        lines.len()
    };
    let mut r: Vec<String> = Vec::new();
    let mut k: usize = start;
    assert(texts(r@) =~= lines_of(report@).subrange(start as int, start as int));
    while k < end
        invariant
            start <= k <= end <= lines.len(),
            lines@.len() == lines_of(report@).len(),
            texts(lines@) == lines_of(report@),
            texts(r@) == lines_of(report@).subrange(start as int, k as int),
        decreases end - k,
    {
        let ghost before = texts(r@);
        assert(texts(lines@)[k as int] == lines@[k as int]@);
        r.push(lines[k].clone());
        assert(texts(r@) =~= before.push(lines@[k as int]@));
        k += 1;
        assert(texts(r@) =~= lines_of(report@).subrange(start as int, k as int));
    }
    r
}

} // verus!
