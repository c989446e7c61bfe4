//! Health checks of a machine: what counts as an issue, how full a disk
//! may be, which processes run, and what an answer to a question means.

use crate::text::{
    chars_of, contains, contains_text, first_where, is_space, is_space_char, lemma_first_where,
    lines_of, lowercased, opt_text, parse_unsigned, parsed_unsigned, same_text, split_lines,
    strip_trailing, texts, to_lowercase, trim, trimmed, without_trailing,
};
use vstd::prelude::*;

verus! {

/// Something that a status report flags.
#[derive(Clone, Copy, Debug, PartialEq, Eq, Structural)]
pub enum HealthIssue {
    /// Nothing keeps the machine awake.
    CaffeinateNotRunning,
    /// The machine runs on a battery that is below 20 percent.
    BatteryCritical(u8),
    /// The machine runs on a battery that is below 50 percent.
    BatteryLow(u8),
}

/// What a status report flags: that nothing keeps the machine awake, and
/// a battery in use that is below 20 percent, or else below 50 percent.
pub open spec fn health_issues(caffeinate_running: bool, on_battery: bool, battery: Option<u8>)
    -> Seq<HealthIssue> {
    let awake = if caffeinate_running {
        Seq::<HealthIssue>::empty()
    } else {
        seq![HealthIssue::CaffeinateNotRunning]
    };
    if on_battery && battery is Some && battery->0 < 20 {
        awake.push(HealthIssue::BatteryCritical(battery->0))
    } else if on_battery && battery is Some && battery->0 < 50 {
        awake.push(HealthIssue::BatteryLow(battery->0))
    } else {
        awake
    }
}

/// Collects what a status report flags.
pub fn status_health(caffeinate_running: bool, on_battery: bool, battery: Option<u8>) -> (r: Vec<
    HealthIssue,
>)
    ensures
        r@ == health_issues(caffeinate_running, on_battery, battery),
{
    let mut issues: Vec<HealthIssue> = Vec::new();
    if !caffeinate_running {
        issues.push(HealthIssue::CaffeinateNotRunning);
    }
    if on_battery {
        match battery {
            Some(percent) => {
                if percent < 20 {
                    issues.push(HealthIssue::BatteryCritical(percent));
                } else if percent < 50 {
                    issues.push(HealthIssue::BatteryLow(percent));
                }
            },
            None => {},
        }
    }
    assert(issues@ =~= health_issues(caffeinate_running, on_battery, battery));
    issues
}

/// How full a disk is.
#[derive(Clone, Copy, Debug, PartialEq, Eq, Structural)]
pub enum DiskUsageLevel {
    /// At most 80 percent.
    Normal,
    /// Above 80 and at most 90 percent.
    High,
    /// Above 90 percent.
    Critical,
}

/// The level of a disk that is full to `percent` percent.
pub fn disk_usage_level(percent: u32) -> (r: DiskUsageLevel)
    ensures
        r == (if percent > 90 {
            DiskUsageLevel::Critical
        } else if percent > 80 {
            DiskUsageLevel::High
        } else {
            DiskUsageLevel::Normal
        }),
{
    if percent > 90 {
        DiskUsageLevel::Critical
    } else if percent > 80 {
        DiskUsageLevel::High
    } else {
        DiskUsageLevel::Normal
    }
}

/// Usage of a disk in whole gigabytes of 10^9 bytes.
#[derive(Clone, Copy, Debug, PartialEq, Eq, Structural)]
pub struct DiskUsageGb {
    pub used: u64,
    pub total: u64,
    /// Share in use, in percent of the whole gigabytes; zero for a disk
    /// below one gigabyte.
    pub percent: u64,
}

/// Usage of a disk of `total_space` bytes of which `available_space` are
/// free, in whole gigabytes.
pub fn disk_usage_gb(total_space: u64, available_space: u64) -> (r: DiskUsageGb)
    requires
        available_space <= total_space,
    ensures
        r.total == total_space / 1_000_000_000,
        r.used == total_space / 1_000_000_000 - available_space / 1_000_000_000,
        r.percent == (if r.total > 0 {
            r.used * 100 / (r.total as int)
        } else {
            0
        }),
{
    let total = total_space / 1_000_000_000;
    let available = available_space / 1_000_000_000;
    let used = total - available;
    let percent = if total > 0 {
        used * 100 / total
    } else {
        0
    };
    DiskUsageGb { used, total, percent }
}

/// Where the next word begins: the index of the first character at or
/// after `from` that is no whitespace, or the length of `s`.
pub open spec fn word_start(s: Seq<char>, from: int) -> int {
    from + first_where(s.subrange(from, s.len() as int), |c: char| !is_space(c))
}

/// Where a word ends: the index of the first whitespace at or after
/// `from`, or the length of `s`.
pub open spec fn word_end(s: Seq<char>, from: int) -> int {
    from + first_where(s.subrange(from, s.len() as int), |c: char| is_space(c))
}

/// The word with index `n`, counted from zero, among the words of `s` at
/// or after `from`. Words are separated by whitespace.
pub open spec fn nth_word(s: Seq<char>, n: nat, from: int) -> Option<Seq<char>>
    decreases n,
{
    if from < 0 || from > s.len() {
        None
    } else {
        let start = word_start(s, from);
        if start >= s.len() {
            None
        } else if n == 0 {
            Some(s.subrange(start, word_end(s, start)))
        } else {
            nth_word(s, (n - 1) as nat, word_end(s, start))
        }
    }
}

fn skip_spaces(v: &Vec<char>, from: usize) -> (k: usize)
    requires
        from <= v.len(),
    ensures
        from <= k <= v.len(),
        k == word_start(v@, from as int),
{
    let mut k: usize = from;
    while k < v.len() && is_space_char(v[k])
        invariant
            from <= k <= v.len(),
            forall|i: int| from <= i < k ==> is_space(v@[i]),
        decreases v.len() - k,
    {
        k += 1;
    }
    proof {
        let rest = v@.subrange(from as int, v.len() as int);
        let p = |c: char| !is_space(c);
        assert forall|i: int| 0 <= i < k - from implies !p(rest[i]) by {
            assert(rest[i] == v@[from + i]);
        }
        lemma_first_where(rest, p, k - from);
    }
    k
}

fn skip_word(v: &Vec<char>, from: usize) -> (k: usize)
    requires
        from <= v.len(),
    ensures
        from <= k <= v.len(),
        k == word_end(v@, from as int),
{
    let mut k: usize = from;
    while k < v.len() && !is_space_char(v[k])
        invariant
            from <= k <= v.len(),
            forall|i: int| from <= i < k ==> !is_space(v@[i]),
        decreases v.len() - k,
    {
        k += 1;
    }
    proof {
        let rest = v@.subrange(from as int, v.len() as int);
        let p = |c: char| is_space(c);
        assert forall|i: int| 0 <= i < k - from implies !p(rest[i]) by {
            assert(rest[i] == v@[from + i]);
        }
        lemma_first_where(rest, p, k - from);
    }
    k
}

/// The word of `line` with index `n`, counted from zero.
pub fn word_at(line: &str, n: usize) -> (r: Option<String>)
    ensures
        opt_text(r) == nth_word(line@, n as nat, 0),
{
    let v = chars_of(line);
    let mut from: usize = 0;
    let mut left: usize = n;
    loop
        invariant
            from <= v.len(),
            v@ == line@,
            nth_word(line@, n as nat, 0) == nth_word(line@, left as nat, from as int),
        decreases left,
    {
        let start = skip_spaces(&v, from);
        if start >= v.len() {
            return None;
        }
        let end = skip_word(&v, start);
        if left == 0 {
            return Some(String::from_str(line.substring_char(start, end)));
        }
        left -= 1;
        from = end;
    }
}

/// The share in use that a line of the disk report states: its fifth
/// word, without trailing percent signs, if that is a number.
pub open spec fn usage_of_line(line: Seq<char>) -> Option<u32> {
    match nth_word(line, 4, 0) {
        Some(word) => match parsed_unsigned(without_trailing(word, '%'), 0xFFFF_FFFF) {
            Some(n) => Some(n as u32),
            None => None,
        },
        None => None,
    }
}

/// The share in use that a disk report states: that of its second line.
pub open spec fn usage_of_report(report: Seq<char>) -> Option<u32> {
    if lines_of(report).len() >= 2 {
        usage_of_line(lines_of(report)[1])
    } else {
        None
    }
}

/// The share of the disk in use, in percent, by the report of the disk
/// tool for one file system.
pub fn disk_usage_percent(disk_report: &str) -> (r: Option<u32>)
    ensures
        r == usage_of_report(disk_report@),
{
    let lines = split_lines(disk_report);
    if lines.len() < 2 {
        return None;
    }
    assert(texts(lines@)[1] == lines@[1]@);
    match word_at(lines[1].as_str(), 4) {
        Some(word) => {
            let number = strip_trailing(word.as_str(), '%');
            match parse_unsigned(number.as_str(), 0xFFFF_FFFF) {
                Some(n) => Some(n as u32),
                None => None,
            }
        },
        None => None,
    }
}

/// Whether the setting `name` has the value `expected` by the first line,
/// at or after `from`, that mentions the setting; none if no line does.
pub open spec fn setting_matches(
    lines: Seq<Seq<char>>,
    name: Seq<char>,
    expected: Seq<char>,
    from: int,
) -> Option<bool>
    decreases lines.len() - from,
{
    if from < 0 || from >= lines.len() {
        None
    } else if contains_text(lines[from], name) {
        Some(contains_text(lines[from], name + " "@ + expected))
    } else {
        setting_matches(lines, name, expected, from + 1)
    }
}

/// Whether the listing of the power tool shows the setting `name` with
/// the value `expected`; none if it does not show the setting.
pub fn setting_state(listing: &str, name: &str, expected: &str) -> (r: Option<bool>)
    ensures
        r == setting_matches(lines_of(listing@), name@, expected@, 0),
{
    let lines = split_lines(listing);
    let mut i: usize = 0;
    while i < lines.len()
        invariant
            i <= lines.len(),
            texts(lines@) == lines_of(listing@),
            setting_matches(lines_of(listing@), name@, expected@, 0) == setting_matches(
                lines_of(listing@),
                name@,
                expected@,
                i as int,
            ),
        decreases lines.len() - i,
    {
        assert(texts(lines@)[i as int] == lines@[i as int]@);
        if contains(lines[i].as_str(), name) {
            let mut wanted = String::from_str(name);
            wanted.append(" ");
            wanted.append(expected);
            return Some(contains(lines[i].as_str(), wanted.as_str()));
        }
        i += 1;
    }
    None
}

/// The process number that a line states, if the line, trimmed, is one.
pub open spec fn pid_of_line(line: Seq<char>) -> Option<u32> {
    match parsed_unsigned(trimmed(line), 0xFFFF_FFFF) {
        Some(n) => Some(n as u32),
        None => None,
    }
}

/// The process numbers that the first `count` lines state, in order.
pub open spec fn pids_of(lines: Seq<Seq<char>>, count: int) -> Seq<u32>
    decreases count,
{
    if count <= 0 {
        Seq::empty()
    } else {
        match pid_of_line(lines[count - 1]) {
            Some(pid) => pids_of(lines, count - 1).push(pid),
            None => pids_of(lines, count - 1),
        }
    }
}

fn parse_pid(line: &str) -> (r: Option<u32>)
    ensures
        r == pid_of_line(line@),
{
    let t = trim(line);
    match parse_unsigned(t.as_str(), 0xFFFF_FFFF) {
        Some(n) => Some(n as u32),
        None => None,
    }
}

/// The process numbers in what the process finder printed, one per line.
pub fn get_caffeinate_pids(finder_output: &str) -> (r: Vec<u32>)
    ensures
        r@ == pids_of(lines_of(finder_output@), lines_of(finder_output@).len() as int),
{
    let lines = split_lines(finder_output);
    let mut pids: Vec<u32> = Vec::new();
    let mut i: usize = 0;
    assert(pids@ =~= pids_of(lines_of(finder_output@), 0));
    while i < lines.len()
        invariant
            i <= lines.len(),
            lines@.len() == lines_of(finder_output@).len(),
            texts(lines@) == lines_of(finder_output@),
            pids@ == pids_of(lines_of(finder_output@), i as int),
        decreases lines.len() - i,
    {
        assert(texts(lines@)[i as int] == lines@[i as int]@);
        match parse_pid(lines[i].as_str()) {
            Some(pid) => {
                pids.push(pid);
            },
            None => {},
        }
        i += 1;
    }
    pids
}

/// The process number on the first line of what the process finder
/// printed, if that line is one.
pub fn get_service_pid(finder_output: &str) -> (r: Option<u32>)
    ensures
        r == (if lines_of(finder_output@).len() > 0 {
            pid_of_line(lines_of(finder_output@)[0])
        } else {
            None
        }),
{
    let lines = split_lines(finder_output);
    if lines.len() == 0 {
        return None;
    }
    assert(texts(lines@)[0] == lines@[0]@);
    parse_pid(lines[0].as_str())
}

/// Whether a process finder that exited with `success` and printed
/// `output` found a process.
pub fn is_service_running(success: bool, output: &str) -> (r: bool)
    ensures
        r == (success && output@.len() > 0),
{
    success && output.unicode_len() > 0
}

/// What an answer in lower case means: nothing typed means the default,
/// `y` and `yes` mean yes, `n` and `no` mean no, and anything else is no
/// answer.
pub open spec fn answer_of(lower: Seq<char>, default: bool) -> Option<bool> {
    if lower.len() == 0 {
        Some(default)
    } else if lower == "y"@ || lower == "yes"@ {
        Some(true)
    } else if lower == "n"@ || lower == "no"@ {
        Some(false)
    } else {
        None
    }
}

/// What an answer that is trimmed and in lower case means.
pub fn answer_for(lower: &str, default: bool) -> (r: Option<bool>)
    ensures
        r == answer_of(lower@, default),
{
    if lower.unicode_len() == 0 {
        Some(default)
    } else if same_text(lower, "y") || same_text(lower, "yes") {
        Some(true)
    } else if same_text(lower, "n") || same_text(lower, "no") {
        Some(false)
    } else {
        None
    }
}

/// What the typed answer to a yes-or-no question means; none if the
/// question has to be asked again.
pub fn parse_yes_no(input: &str, default: bool) -> (r: Option<bool>)
    ensures
        r == answer_of(lowercased(trimmed(input@)), default),
{
    let t = trim(input);
    let lower = to_lowercase(t.as_str());
    answer_for(lower.as_str(), default)
}

} // verus!
