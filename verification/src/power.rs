//! Power management settings: reading the listing of the power tool,
//! judging the settings for a machine that must stay awake, and the
//! commands that put them right.

use crate::text::{
    append_decimal, chars_of, decimal, find_from, first_index, lines_of, parse_unsigned,
    parsed_unsigned, same_text, split_lines, texts, trim, trimmed,
};
use vstd::prelude::*;

verus! {

/// One setting of the listing: its name and its value.
#[derive(Debug, PartialEq, Eq)]
pub struct SettingEntry {
    pub key: String,
    pub value: String,
}

/// Mathematical model of a [`SettingEntry`].
pub struct SettingEntryView {
    pub key: Seq<char>,
    pub value: Seq<char>,
}

impl View for SettingEntry {
    type V = SettingEntryView;

    open spec fn view(&self) -> SettingEntryView {
        SettingEntryView { key: self.key@, value: self.value@ }
    }
}

/// The models of a list of entries.
pub open spec fn entry_views(entries: Seq<SettingEntry>) -> Seq<SettingEntryView> {
    entries.map_values(|e: SettingEntry| e@)
}

/// The setting that a line of the listing states: the line is trimmed
/// and cut at its first space; the name is what stands before, the value
/// what stands behind, both trimmed. A line without a space, or with an
/// empty name or value, states no setting.
pub open spec fn setting_of_line(line: Seq<char>) -> Option<SettingEntryView> {
    let t = trimmed(line);
    let space = first_index(t, ' ');
    if space < t.len() {
        let key = trimmed(t.subrange(0, space));
        let value = trimmed(t.subrange(space, t.len() as int));
        if key.len() > 0 && value.len() > 0 {
            Some(SettingEntryView { key: key, value: value })
        } else {
            None
        }
    } else {
        None
    }
}

/// The settings that the first `count` lines state, in order.
pub open spec fn settings_of(lines: Seq<Seq<char>>, count: int) -> Seq<SettingEntryView>
    decreases count,
{
    if count <= 0 {
        Seq::empty()
    } else {
        match setting_of_line(lines[count - 1]) {
            Some(entry) => settings_of(lines, count - 1).push(entry),
            None => settings_of(lines, count - 1),
        }
    }
}

/// The value of the setting `key` among the first `count` entries: that
/// of the last entry with this name.
pub open spec fn setting_value(entries: Seq<SettingEntryView>, key: Seq<char>, count: int)
    -> Option<Seq<char>>
    decreases count,
{
    if count <= 0 {
        None
    } else if entries[count - 1].key == key {
        Some(entries[count - 1].value)
    } else {
        setting_value(entries, key, count - 1)
    }
}

/// The value of the setting `key`.
pub open spec fn setting(entries: Seq<SettingEntryView>, key: Seq<char>) -> Option<Seq<char>> {
    setting_value(entries, key, entries.len() as int)
}

/// Reads one line of the listing.
pub fn parse_setting_line(line: &str) -> (r: Option<SettingEntry>)
    ensures
        match r {
            Some(entry) => setting_of_line(line@) == Some(entry@),
            None => setting_of_line(line@) is None,
        },
{
    let t = trim(line);
    let v = chars_of(t.as_str());
    let space = find_from(&v, 0, ' ');
    assert(v@.subrange(0, v.len() as int) =~= v@);
    if space < v.len() {
        let key = trim(t.as_str().substring_char(0, space));
        let value = trim(t.as_str().substring_char(space, v.len()));
        if key.as_str().unicode_len() > 0 && value.as_str().unicode_len() > 0 {
            Some(SettingEntry { key, value })
        } else {
            None
        }
    } else {
        None
    }
}

/// The settings of a listing.
#[derive(Debug, PartialEq, Eq)]
pub struct PowerSettings {
    /// The settings in the order of the listing.
    pub entries: Vec<SettingEntry>,
}

impl View for PowerSettings {
    type V = Seq<SettingEntryView>;

    open spec fn view(&self) -> Seq<SettingEntryView> {
        entry_views(self.entries@)
    }
}

impl PowerSettings {
    /// The value of the setting `key`; where the listing states it more
    /// than once, the last value.
    pub fn get(&self, key: &str) -> (r: Option<&String>)
        ensures
            match r {
                Some(value) => setting(self@, key@) == Some(value@),
                None => setting(self@, key@) is None,
            },
    {
        let mut i: usize = self.entries.len();
        while i > 0
            invariant
                i <= self.entries.len(),
                setting(self@, key@) == setting_value(self@, key@, i as int),
            decreases i,
        {
            if same_text(self.entries[i - 1].key.as_str(), key) {
                return Some(&self.entries[i - 1].value);
            }
            i -= 1;
        }
        None
    }
}

/// Reads the listing of the power tool.
pub fn parse_pmset_settings(output: &str) -> (r: PowerSettings)
    ensures
        r@ == settings_of(lines_of(output@), lines_of(output@).len() as int),
{
    let lines = split_lines(output);
    let mut entries: Vec<SettingEntry> = Vec::new();
    let mut i: usize = 0;
    assert(entry_views(entries@) =~= settings_of(lines_of(output@), 0));
    while i < lines.len()
        invariant
            i <= lines.len(),
            lines@.len() == lines_of(output@).len(),
            texts(lines@) == lines_of(output@),
            entry_views(entries@) == settings_of(lines_of(output@), i as int),
        decreases lines.len() - i,
    {
        assert(texts(lines@)[i as int] == lines@[i as int]@);
        match parse_setting_line(lines[i].as_str()) {
            Some(entry) => {
                let ghost before = entry_views(entries@);
                let ghost view = entry@;
                entries.push(entry);
                assert(entry_views(entries@) =~= before.push(view));
            },
            None => {},
        }
        i += 1;
    }
    PowerSettings { entries }
}

/// The settings that matter for a machine that must stay awake.
#[derive(Clone, Copy, Debug, PartialEq, Eq, Structural)]
pub enum PowerSetting {
    HibernateMode,
    Standby,
    PowerNap,
    Sleep,
    DiskSleep,
    HaltLevel,
}

/// The name of a setting in the listing.
pub open spec fn setting_name(setting: PowerSetting) -> Seq<char> {
    match setting {
        PowerSetting::HibernateMode => "hibernatemode"@,
        PowerSetting::Standby => "standby"@,
        PowerSetting::PowerNap => "powernap"@,
        PowerSetting::Sleep => "sleep"@,
        PowerSetting::DiskSleep => "disksleep"@,
        PowerSetting::HaltLevel => "haltlevel"@,
    }
}

impl PowerSetting {
    /// The name of the setting in the listing.
    pub fn name(&self) -> (r: &'static str)
        ensures
            r@ == setting_name(*self),
    {
        match self {
            PowerSetting::HibernateMode => "hibernatemode",
            PowerSetting::Standby => "standby",
            PowerSetting::PowerNap => "powernap",
            PowerSetting::Sleep => "sleep",
            PowerSetting::DiskSleep => "disksleep",
            PowerSetting::HaltLevel => "haltlevel",
        }
    }
}

/// What the analysis says of one setting.
#[derive(Debug, PartialEq, Eq)]
pub struct PowerFinding {
    pub setting: PowerSetting,
    /// The value as listed.
    pub value: String,
    /// Whether the value can make the machine sleep or shut down.
    pub is_issue: bool,
}

/// Mathematical model of a [`PowerFinding`].
pub struct PowerFindingView {
    pub setting: PowerSetting,
    pub value: Seq<char>,
    pub is_issue: bool,
}

impl View for PowerFinding {
    type V = PowerFindingView;

    open spec fn view(&self) -> PowerFindingView {
        PowerFindingView { setting: self.setting, value: self.value@, is_issue: self.is_issue }
    }
}

/// The models of a list of findings.
pub open spec fn finding_views(findings: Seq<PowerFinding>) -> Seq<PowerFindingView> {
    findings.map_values(|f: PowerFinding| f@)
}

/// Whether a listed value is an issue: hibernation, sleep and disk sleep
/// must be `0`; standby and power nap must not be `1`; the halt level
/// must not be above 10 percent. A halt level that is no number is not
/// judged.
pub open spec fn judged(setting: PowerSetting, value: Seq<char>) -> Option<bool> {
    match setting {
        PowerSetting::HibernateMode | PowerSetting::Sleep | PowerSetting::DiskSleep => Some(
            value != "0"@,
        ),
        PowerSetting::Standby | PowerSetting::PowerNap => Some(value == "1"@),
        PowerSetting::HaltLevel => match parsed_unsigned(value, 255) {
            Some(level) => Some(level > 10),
            None => None,
        },
    }
}

/// The finding on one setting, if the listing states it and it can be
/// judged.
pub open spec fn finding_on(entries: Seq<SettingEntryView>, which: PowerSetting) -> Seq<
    PowerFindingView,
> {
    match setting(entries, setting_name(which)) {
        Some(value) => match judged(which, value) {
            Some(is_issue) => seq![
                PowerFindingView { setting: which, value: value, is_issue: is_issue },
            ],
            None => Seq::empty(),
        },
        None => Seq::empty(),
    }
}

/// The findings on a listing, in the order hibernation, standby, power
/// nap, sleep, disk sleep, halt level.
pub open spec fn findings_on(entries: Seq<SettingEntryView>) -> Seq<PowerFindingView> {
    finding_on(entries, PowerSetting::HibernateMode) + finding_on(entries, PowerSetting::Standby)
        + finding_on(entries, PowerSetting::PowerNap) + finding_on(entries, PowerSetting::Sleep)
        + finding_on(entries, PowerSetting::DiskSleep) + finding_on(
        entries,
        PowerSetting::HaltLevel,
    )
}

/// Number of issues among the first `count` findings.
pub open spec fn issue_count(findings: Seq<PowerFindingView>, count: int) -> nat
    decreases count,
{
    if count <= 0 {
        0
    } else if findings[count - 1].is_issue {
        issue_count(findings, count - 1) + 1
    } else {
        issue_count(findings, count - 1)
    }
}

fn judge(which: PowerSetting, value: &str) -> (r: Option<bool>)
    ensures
        r == judged(which, value@),
{
    match which {
        PowerSetting::HibernateMode | PowerSetting::Sleep | PowerSetting::DiskSleep => Some(
            !same_text(value, "0"),
        ),
        PowerSetting::Standby | PowerSetting::PowerNap => Some(same_text(value, "1")),
        PowerSetting::HaltLevel => match parse_unsigned(value, 255) {
            Some(level) => Some(level > 10),
            None => None,
        },
    }
}

fn add_finding(findings: &mut Vec<PowerFinding>, settings: &PowerSettings, which: PowerSetting)
    ensures
        finding_views(final(findings)@) == finding_views(old(findings)@) + finding_on(
            settings@,
            which,
        ),
{
    let ghost before = finding_views(findings@);
    match settings.get(which.name()) {
        Some(value) => match judge(which, value.as_str()) {
            Some(is_issue) => {
                let finding = PowerFinding { setting: which, value: value.clone(), is_issue };
                let ghost view = finding@;
                findings.push(finding);
                assert(finding_views(findings@) =~= before + seq![view]);
            },
            None => {
                assert(before + Seq::<PowerFindingView>::empty() =~= before);
            },
        },
        None => {
            assert(before + Seq::<PowerFindingView>::empty() =~= before);
        },
    }
}

/// Judges the settings of a listing.
pub fn analyze_power_issues(settings: &PowerSettings) -> (r: Vec<PowerFinding>)
    ensures
        finding_views(r@) == findings_on(settings@),
{
    let mut findings: Vec<PowerFinding> = Vec::new();
    assert(finding_views(findings@) =~= Seq::<PowerFindingView>::empty());
    add_finding(&mut findings, settings, PowerSetting::HibernateMode);
    assert(Seq::<PowerFindingView>::empty() + finding_on(settings@, PowerSetting::HibernateMode)
        =~= finding_on(settings@, PowerSetting::HibernateMode));
    add_finding(&mut findings, settings, PowerSetting::Standby);
    add_finding(&mut findings, settings, PowerSetting::PowerNap);
    add_finding(&mut findings, settings, PowerSetting::Sleep);
    add_finding(&mut findings, settings, PowerSetting::DiskSleep);
    add_finding(&mut findings, settings, PowerSetting::HaltLevel);
    findings
}

/// Counts the issues among findings.
pub fn count_issues(findings: &Vec<PowerFinding>) -> (r: usize)
    ensures
        r == issue_count(finding_views(findings@), findings@.len() as int),
{
    let mut count: usize = 0;
    let mut i: usize = 0;
    while i < findings.len()
        invariant
            i <= findings.len(),
            count <= i,
            count == issue_count(finding_views(findings@), i as int),
        decreases findings.len() - i,
    {
        if findings[i].is_issue {
            count += 1;
        }
        i += 1;
    }
    count
}

/// The line that reports a finding.
pub open spec fn finding_text(finding: PowerFindingView) -> Seq<char> {
    let name = setting_name(finding.setting);
    if !finding.is_issue {
        match finding.setting {
            PowerSetting::HaltLevel => name + ": "@ + finding.value + "% (good)"@,
            _ => name + ": "@ + finding.value + " (good)"@,
        }
    } else {
        match finding.setting {
            PowerSetting::HibernateMode => "ISSUE: hibernatemode is "@ + finding.value
                + " (should be 0 for servers)"@,
            PowerSetting::Standby => "ISSUE: standby is enabled (should be 0 for servers)"@,
            PowerSetting::PowerNap => "ISSUE: powernap is enabled (should be 0 for servers)"@,
            PowerSetting::Sleep => "ISSUE: sleep is enabled ("@ + finding.value + " minutes)"@,
            PowerSetting::DiskSleep => "ISSUE: disksleep is enabled ("@ + finding.value
                + " minutes)"@,
            PowerSetting::HaltLevel => "ISSUE: haltlevel is "@ + finding.value
                + "% (should be 5% or lower)"@,
        }
    }
}

impl PowerFinding {
    /// The line that reports this finding.
    pub fn message(&self) -> (r: String)
        ensures
            r@ == finding_text(self@),
    {
        if !self.is_issue {
            let mut r = String::from_str(self.setting.name());
            r.append(": ");
            r.append(self.value.as_str());
            match self.setting {
                PowerSetting::HaltLevel => {
                    r.append("% (good)");
                },
                _ => {
                    r.append(" (good)");
                },
            }
            r
        } else {
            match self.setting {
                PowerSetting::HibernateMode => {
                    let mut r = String::from_str("ISSUE: hibernatemode is ");
                    r.append(self.value.as_str());
                    r.append(" (should be 0 for servers)");
                    r
                },
                PowerSetting::Standby => String::from_str(
                    "ISSUE: standby is enabled (should be 0 for servers)",
                ),
                PowerSetting::PowerNap => String::from_str(
                    "ISSUE: powernap is enabled (should be 0 for servers)",
                ),
                PowerSetting::Sleep => {
                    let mut r = String::from_str("ISSUE: sleep is enabled (");
                    r.append(self.value.as_str());
                    r.append(" minutes)");
                    r
                },
                PowerSetting::DiskSleep => {
                    let mut r = String::from_str("ISSUE: disksleep is enabled (");
                    r.append(self.value.as_str());
                    r.append(" minutes)");
                    r
                },
                PowerSetting::HaltLevel => {
                    let mut r = String::from_str("ISSUE: haltlevel is ");
                    r.append(self.value.as_str());
                    r.append("% (should be 5% or lower)");
                    r
                },
            }
        }
    }
}

/// A remedy: what it is for, and the command lines that apply it.
#[derive(Debug, PartialEq, Eq)]
pub struct Fix {
    pub comment: String,
    pub commands: Vec<String>,
}

/// Mathematical model of a [`Fix`].
pub struct FixView {
    pub comment: Seq<char>,
    pub commands: Seq<Seq<char>>,
}

impl View for Fix {
    type V = FixView;

    open spec fn view(&self) -> FixView {
        FixView { comment: self.comment@, commands: texts(self.commands@) }
    }
}

/// The models of a list of fixes.
pub open spec fn fix_views(fixes: Seq<Fix>) -> Seq<FixView> {
    fixes.map_values(|f: Fix| f@)
}

/// The value of a setting, `0` where the listing does not state it.
pub open spec fn setting_or_zero(entries: Seq<SettingEntryView>, key: Seq<char>) -> Seq<char> {
    match setting(entries, key) {
        Some(value) => value,
        None => "0"@,
    }
}

/// The fix `fix` if `wanted` holds, else nothing.
pub open spec fn fix_if(wanted: bool, fix: FixView) -> Seq<FixView> {
    if wanted {
        seq![fix]
    } else {
        Seq::empty()
    }
}

/// A fix of one command.
pub open spec fn one_command(comment: Seq<char>, command: Seq<char>) -> FixView {
    FixView { comment: comment, commands: seq![command] }
}

/// The fixes for a listing: one for each setting that is wrong, then the
/// two that are always advised.
pub open spec fn fixes_for(entries: Seq<SettingEntryView>) -> Seq<FixView> {
    let halt = match setting(entries, "haltlevel"@) {
        Some(value) => parsed_unsigned(value, 255),
        None => None,
    };
    fix_if(
        setting_or_zero(entries, "hibernatemode"@) != "0"@,
        one_command(
            "Disable hibernation (prevents unexpected shutdowns)"@,
            "sudo pmset -a hibernatemode 0"@,
        ),
    ) + fix_if(
        setting_or_zero(entries, "standby"@) == "1"@,
        one_command("Disable standby mode"@, "sudo pmset -a standby 0"@),
    ) + fix_if(
        setting_or_zero(entries, "powernap"@) == "1"@,
        one_command("Disable power nap"@, "sudo pmset -a powernap 0"@),
    ) + fix_if(
        setting_or_zero(entries, "sleep"@) != "0"@,
        one_command("Disable system sleep completely"@, "sudo pmset -a sleep 0"@),
    ) + fix_if(
        setting_or_zero(entries, "disksleep"@) != "0"@,
        one_command("Disable disk sleep"@, "sudo pmset -a disksleep 0"@),
    ) + fix_if(
        halt is Some && halt->0 > 5,
        FixView {
            comment: "Set battery halt level to 5% (prevents early shutdown)"@,
            commands: seq!["sudo pmset -b haltlevel 5"@, "sudo pmset -b haltafter 0"@],
        },
    ) + seq![
        one_command("Disable auto power off"@, "sudo pmset -a autopoweroff 0"@),
        FixView {
            comment: "Restart caffeinate if needed"@,
            commands: seq![
                "pkill caffeinate 2>/dev/null"@,
                "nohup caffeinate -imsud > /dev/null 2>&1 &"@,
            ],
        },
    ]
}

fn single_fix(comment: &str, command: &str) -> (r: Fix)
    ensures
        r@ == one_command(comment@, command@),
{
    let mut commands: Vec<String> = Vec::new();
    commands.push(String::from_str(command));
    assert(texts(commands@) =~= seq![command@]);
    Fix { comment: String::from_str(comment), commands }
}

fn double_fix(comment: &str, first: &str, second: &str) -> (r: Fix)
    ensures
        r@ == (FixView { comment: comment@, commands: seq![first@, second@] }),
{
    let mut commands: Vec<String> = Vec::new();
    commands.push(String::from_str(first));
    commands.push(String::from_str(second));
    assert(texts(commands@) =~= seq![first@, second@]);
    Fix { comment: String::from_str(comment), commands }
}

fn add_fix(fixes: &mut Vec<Fix>, wanted: bool, fix: Fix)
    ensures
        fix_views(final(fixes)@) == fix_views(old(fixes)@) + fix_if(wanted, fix@),
{
    let ghost before = fix_views(fixes@);
    let ghost view = fix@;
    if wanted {
        fixes.push(fix);
        assert(fix_views(fixes@) =~= before + seq![view]);
    } else {
        assert(before + Seq::<FixView>::empty() =~= before);
    }
}

fn differs_from_zero(settings: &PowerSettings, key: &str) -> (r: bool)
    ensures
        r == (setting_or_zero(settings@, key@) != "0"@),
{
    match settings.get(key) {
        Some(value) => !same_text(value.as_str(), "0"),
        None => false,
    }
}

fn is_one(settings: &PowerSettings, key: &str) -> (r: bool)
    ensures
        r == (setting_or_zero(settings@, key@) == "1"@),
{
    match settings.get(key) {
        Some(value) => same_text(value.as_str(), "1"),
        None => {
            proof {
                reveal_strlit("0");
                reveal_strlit("1");
            }
            assert("0"@ != "1"@) by {
                assert("0"@[0] != "1"@[0]);
            }
            false
        },
    }
}

/// The fixes that put the settings of a listing right.
pub fn recommended_fixes(settings: &PowerSettings) -> (r: Vec<Fix>)
    ensures
        fix_views(r@) == fixes_for(settings@),
{
    let halt_too_high = match settings.get("haltlevel") {
        Some(value) => match parse_unsigned(value.as_str(), 255) {
            Some(level) => level > 5,
            None => false,
        },
        None => false,
    };
    let mut fixes: Vec<Fix> = Vec::new();
    assert(fix_views(fixes@) =~= Seq::<FixView>::empty());
    add_fix(
        &mut fixes,
        differs_from_zero(settings, "hibernatemode"),
        single_fix(
            "Disable hibernation (prevents unexpected shutdowns)",
            "sudo pmset -a hibernatemode 0",
        ),
    );
    add_fix(
        &mut fixes,
        is_one(settings, "standby"),
        single_fix("Disable standby mode", "sudo pmset -a standby 0"),
    );
    add_fix(
        &mut fixes,
        is_one(settings, "powernap"),
        single_fix("Disable power nap", "sudo pmset -a powernap 0"),
    );
    add_fix(
        &mut fixes,
        differs_from_zero(settings, "sleep"),
        single_fix("Disable system sleep completely", "sudo pmset -a sleep 0"),
    );
    add_fix(
        &mut fixes,
        differs_from_zero(settings, "disksleep"),
        single_fix("Disable disk sleep", "sudo pmset -a disksleep 0"),
    );
    add_fix(
        &mut fixes,
        halt_too_high,
        double_fix(
            "Set battery halt level to 5% (prevents early shutdown)",
            "sudo pmset -b haltlevel 5",
            "sudo pmset -b haltafter 0",
        ),
    );
    add_fix(
        &mut fixes,
        true,
        single_fix("Disable auto power off", "sudo pmset -a autopoweroff 0"),
    );
    add_fix(
        &mut fixes,
        true,
        double_fix(
            "Restart caffeinate if needed",
            "pkill caffeinate 2>/dev/null",
            "nohup caffeinate -imsud > /dev/null 2>&1 &",
        ),
    );
    assert(fix_views(fixes@) =~= fixes_for(settings@));
    fixes
}

/// The halt level of the battery where it is so high that the machine
/// may shut down early: a level above 10 percent.
pub fn high_halt_level(settings: &PowerSettings) -> (r: Option<u8>)
    ensures
        r == (match setting(settings@, "haltlevel"@) {
            Some(value) => match parsed_unsigned(value, 255) {
                Some(level) => if level > 10 {
                    Some(level as u8)
                } else {
                    None
                },
                None => None,
            },
            None => None,
        }),
{
    match settings.get("haltlevel") {
        Some(value) => match parse_unsigned(value.as_str(), 255) {
            Some(level) => if level > 10 {
                Some(level as u8)
            } else {
                None
            },
            None => None,
        },
        None => None,
    }
}

/// Whether the machine may power itself off: the listing states
/// `autopoweroff` as `1`.
pub fn auto_power_off_enabled(settings: &PowerSettings) -> (r: bool)
    ensures
        r == (setting(settings@, "autopoweroff"@) == Some("1"@)),
{
    match settings.get("autopoweroff") {
        Some(value) => same_text(value.as_str(), "1"),
        None => false,
    }
}

/// One call of the power tool: what it is for, and its arguments.
#[derive(Debug, PartialEq, Eq)]
pub struct PowerCommand {
    pub description: String,
    pub args: Vec<String>,
}

/// Mathematical model of a [`PowerCommand`].
pub struct PowerCommandView {
    pub description: Seq<char>,
    pub args: Seq<Seq<char>>,
}

impl View for PowerCommand {
    type V = PowerCommandView;

    open spec fn view(&self) -> PowerCommandView {
        PowerCommandView { description: self.description@, args: texts(self.args@) }
    }
}

/// The models of a list of commands.
pub open spec fn command_views(commands: Seq<PowerCommand>) -> Seq<PowerCommandView> {
    commands.map_values(|c: PowerCommand| c@)
}

/// The call that sets `name` to `value`, for all power sources (`-a`) or
/// for the battery (`-b`).
pub open spec fn pmset(description: Seq<char>, scope: Seq<char>, name: Seq<char>, value: Seq<char>)
    -> PowerCommandView {
    PowerCommandView { description: description, args: seq!["pmset"@, scope, name, value] }
}

/// The command `command` if `wanted` holds, else nothing.
pub open spec fn command_if(wanted: bool, command: PowerCommandView) -> Seq<PowerCommandView> {
    if wanted {
        seq![command]
    } else {
        Seq::empty()
    }
}

/// The calls that configure the power settings as asked: hibernation
/// off; sleep, disk sleep and standby off; the halt level of the battery;
/// and, always, power nap off.
pub open spec fn configure_commands(no_hibernate: bool, no_sleep: bool, halt_level: Option<u8>)
    -> Seq<PowerCommandView> {
    command_if(no_hibernate, pmset("Disable hibernation"@, "-a"@, "hibernatemode"@, "0"@))
        + command_if(no_sleep, pmset("Disable system sleep"@, "-a"@, "sleep"@, "0"@)) + command_if(
        no_sleep,
        pmset("Disable disk sleep"@, "-a"@, "disksleep"@, "0"@),
    ) + command_if(no_sleep, pmset("Disable standby"@, "-a"@, "standby"@, "0"@)) + command_if(
        halt_level is Some,
        pmset("Set battery halt level"@, "-b"@, "haltlevel"@, decimal(halt_level->0 as nat)),
    ) + seq![pmset("Disable power nap"@, "-a"@, "powernap"@, "0"@)]
}

/// The calls that set a machine up as a server.
pub open spec fn server_commands() -> Seq<PowerCommandView> {
    seq![
        pmset("Disable hibernation"@, "-a"@, "hibernatemode"@, "0"@),
        pmset("Disable standby"@, "-a"@, "standby"@, "0"@),
        pmset("Disable power nap"@, "-a"@, "powernap"@, "0"@),
        pmset("Disable system sleep"@, "-a"@, "sleep"@, "0"@),
        pmset("Disable disk sleep"@, "-a"@, "disksleep"@, "0"@),
        pmset("Set battery halt level"@, "-b"@, "haltlevel"@, "5"@),
        pmset("Disable auto power off"@, "-a"@, "autopoweroff"@, "0"@),
        pmset("Enable restart after power failure"@, "-a"@, "autorestart"@, "1"@),
        pmset("Enable restart after system freeze"@, "-a"@, "restartfreeze"@, "1"@),
    ]
}

fn pmset_command(description: &str, scope: &str, name: &str, value: &str) -> (r: PowerCommand)
    ensures
        r@ == pmset(description@, scope@, name@, value@),
{
    let mut args: Vec<String> = Vec::new();
    args.push(String::from_str("pmset"));
    args.push(String::from_str(scope));
    args.push(String::from_str(name));
    args.push(String::from_str(value));
    assert(texts(args@) =~= seq!["pmset"@, scope@, name@, value@]);
    PowerCommand { description: String::from_str(description), args }
}

fn add_command(commands: &mut Vec<PowerCommand>, wanted: bool, command: PowerCommand)
    ensures
        command_views(final(commands)@) == command_views(old(commands)@) + command_if(
            wanted,
            command@,
        ),
{
    let ghost before = command_views(commands@);
    let ghost view = command@;
    if wanted {
        commands.push(command);
        assert(command_views(commands@) =~= before + seq![view]);
    } else {
        assert(before + Seq::<PowerCommandView>::empty() =~= before);
    }
}

/// The calls of the power tool that configure the settings as asked.
pub fn power_configure_commands(no_hibernate: bool, no_sleep: bool, halt_level: Option<u8>) -> (r:
    Vec<PowerCommand>)
    ensures
        command_views(r@) == configure_commands(no_hibernate, no_sleep, halt_level),
{
    let mut commands: Vec<PowerCommand> = Vec::new();
    assert(command_views(commands@) =~= Seq::<PowerCommandView>::empty());
    add_command(
        &mut commands,
        no_hibernate,
        pmset_command("Disable hibernation", "-a", "hibernatemode", "0"),
    );
    add_command(&mut commands, no_sleep, pmset_command("Disable system sleep", "-a", "sleep", "0"));
    add_command(
        &mut commands,
        no_sleep,
        pmset_command("Disable disk sleep", "-a", "disksleep", "0"),
    );
    add_command(&mut commands, no_sleep, pmset_command("Disable standby", "-a", "standby", "0"));
    let level = match halt_level {
        Some(value) => value,
        None => 0,
    };
    let mut level_text = String::new();
    append_decimal(&mut level_text, level as u64);
    assert(level_text@ =~= decimal(level as nat));
    add_command(
        &mut commands,
        halt_level.is_some(),
        pmset_command("Set battery halt level", "-b", "haltlevel", level_text.as_str()),
    );
    add_command(&mut commands, true, pmset_command("Disable power nap", "-a", "powernap", "0"));
    assert(command_views(commands@) =~= configure_commands(no_hibernate, no_sleep, halt_level));
    commands
}

/// The calls of the power tool that set a machine up as a server.
pub fn server_power_commands() -> (r: Vec<PowerCommand>)
    ensures
        command_views(r@) == server_commands(),
{
    let mut commands: Vec<PowerCommand> = Vec::new();
    commands.push(pmset_command("Disable hibernation", "-a", "hibernatemode", "0"));
    commands.push(pmset_command("Disable standby", "-a", "standby", "0"));
    commands.push(pmset_command("Disable power nap", "-a", "powernap", "0"));
    commands.push(pmset_command("Disable system sleep", "-a", "sleep", "0"));
    commands.push(pmset_command("Disable disk sleep", "-a", "disksleep", "0"));
    commands.push(pmset_command("Set battery halt level", "-b", "haltlevel", "5"));
    commands.push(pmset_command("Disable auto power off", "-a", "autopoweroff", "0"));
    commands.push(pmset_command("Enable restart after power failure", "-a", "autorestart", "1"));
    commands.push(pmset_command("Enable restart after system freeze", "-a", "restartfreeze", "1"));
    assert(command_views(commands@) =~= server_commands());
    commands
}

/// What a configuration run covers: everything where no part is asked
/// for, else the parts that are.
pub fn configure_selection(power: bool, monitoring: bool, services: bool) -> (r: (bool, bool, bool))
    ensures
        r.0 == (power || (!power && !monitoring && !services)),
        r.1 == (monitoring || (!power && !monitoring && !services)),
        r.2 == (services || (!power && !monitoring && !services)),
{
    let configure_all = !power && !monitoring && !services;
    (configure_all || power, configure_all || monitoring, configure_all || services)
}

} // verus!
