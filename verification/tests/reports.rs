use plan10::formatting::{
    center_text, format_bytes, format_connection_status, format_duration,
    format_percentage_status, format_power_source, format_service_status, format_status_icon,
    format_table_row, format_table_separator, format_time_remaining, status_icon_for,
    truncate_string, Styled, Tone,
};
use plan10::health::{
    answer_for, disk_usage_gb, disk_usage_level, disk_usage_percent, get_caffeinate_pids,
    get_service_pid, is_service_running, parse_yes_no, setting_state, status_health, word_at,
    DiskUsageGb, DiskUsageLevel, HealthIssue,
};
use plan10::monitor::{
    battery_health_lines, battery_script_command, battery_section, determine_execution_mode, extract_battery_percentage,
    extract_clock, extract_percentage, extract_time_remaining, field_after_colon,
    get_battery_percentage, is_on_ac_power, is_on_battery, parse_battery_info, parse_health_line,
    percentage_number, percentage_of_line, power_script_command, target_host, temp_script_command,
    BatteryInfo,
    BatteryLevel, ChargeState, CycleWear, ExecutionMode, HealthLine,
};
use plan10::power::{
    analyze_power_issues, auto_power_off_enabled, configure_selection, count_issues,
    high_halt_level, parse_pmset_settings,
    parse_setting_line, power_configure_commands, recommended_fixes, server_power_commands, Fix,
    PowerCommand, PowerFinding, PowerSetting, SettingEntry,
};
use plan10::text::{join, split_lines, strip_trailing};

const ON_BATTERY: &str = "Now drawing from 'Battery Power'\n -InternalBattery-0 (id=1234567)\t87%; discharging; 4:32 remaining present: true\n";
const ON_MAINS: &str = "Now drawing from 'AC Power'\n -InternalBattery-0 (id=1234567)\t100%; charged; 0:00 remaining present: true\n";

fn styled(text: &str, tone: Tone) -> Styled {
    Styled { text: text.to_string(), tone }
}

#[test]
fn status_words_get_their_icon() {
    assert_eq!(format_status_icon("good"), styled("✅", Tone::Green));
    assert_eq!(format_status_icon("Healthy"), styled("✅", Tone::Green));
    assert_eq!(format_status_icon("OK"), styled("✅", Tone::Green));
    assert_eq!(format_status_icon("WARNING"), styled("⚠️", Tone::Yellow));
    assert_eq!(format_status_icon("moderate"), styled("⚠️", Tone::Yellow));
    assert_eq!(format_status_icon("Critical"), styled("❌", Tone::Red));
    assert_eq!(format_status_icon("high"), styled("❌", Tone::Red));
    assert_eq!(format_status_icon("Unavailable"), styled("❓", Tone::Dimmed));
    assert_eq!(format_status_icon("something"), styled("ℹ️", Tone::Blue));
    assert_eq!(format_status_icon(""), styled("ℹ️", Tone::Blue));
    assert_eq!(status_icon_for("GOOD"), styled("ℹ️", Tone::Blue));
    assert_eq!(status_icon_for("normal"), styled("✅", Tone::Green));
}

#[test]
fn percentage_levels() {
    assert_eq!(format_percentage_status(100), (styled("🟢", Tone::Green), "Good"));
    assert_eq!(format_percentage_status(81), (styled("🟢", Tone::Green), "Good"));
    assert_eq!(format_percentage_status(80), (styled("🟡", Tone::Yellow), "Medium"));
    assert_eq!(format_percentage_status(51), (styled("🟡", Tone::Yellow), "Medium"));
    assert_eq!(format_percentage_status(50), (styled("🟠", Tone::Yellow), "Low"));
    assert_eq!(format_percentage_status(21), (styled("🟠", Tone::Yellow), "Low"));
    assert_eq!(format_percentage_status(20), (styled("🔴", Tone::Red), "Critical"));
    assert_eq!(format_percentage_status(0), (styled("🔴", Tone::Red), "Critical"));
    assert_eq!(format_percentage_status(101), (styled("🔴", Tone::Red), "Critical"));
}

#[test]
fn power_source_and_service_lines() {
    assert_eq!(format_power_source(false, true), styled("🔌 AC Power", Tone::Green));
    assert_eq!(format_power_source(true, true), styled("🔌 AC Power", Tone::Green));
    assert_eq!(format_power_source(true, false), styled("🔋 Battery Power", Tone::Yellow));
    assert_eq!(format_power_source(false, false), styled("❓ Unknown Power Source", Tone::Red));
    assert_eq!(format_service_status(true, true), styled("🟢 Running", Tone::Green));
    assert_eq!(
        format_service_status(true, false),
        styled("🟡 Running (not enabled)", Tone::Yellow)
    );
    assert_eq!(format_service_status(false, true), styled("🔴 Stopped (enabled)", Tone::Red));
    assert_eq!(format_service_status(false, false), styled("⚫ Stopped", Tone::Dimmed));
}

#[test]
fn connection_status_by_age() {
    let now = 1_700_000_000;
    assert_eq!(format_connection_status(true, None, now), styled("🟢 Connected", Tone::Green));
    assert_eq!(format_connection_status(false, None, now), styled("⚫ Never seen", Tone::Dimmed));
    let recent = styled("🟡 Recently seen", Tone::Yellow);
    let today = styled("🟠 Seen today", Tone::BrightBlack);
    let offline = styled("🔴 Offline", Tone::Red);
    assert_eq!(format_connection_status(false, Some(now), now), recent);
    assert_eq!(format_connection_status(false, Some(now - 3599), now), recent);
    assert_eq!(format_connection_status(false, Some(now + 50), now), recent);
    assert_eq!(format_connection_status(false, Some(now - 3600), now), today);
    assert_eq!(format_connection_status(false, Some(now - 86399), now), today);
    assert_eq!(format_connection_status(false, Some(now - 86400), now), offline);
    assert_eq!(format_connection_status(false, Some(i64::MIN), i64::MAX), offline);
    assert_eq!(format_connection_status(false, Some(i64::MAX), i64::MIN), recent);
}

#[test]
fn durations_and_times() {
    assert_eq!(format_duration(0), "0s");
    assert_eq!(format_duration(59), "59s");
    assert_eq!(format_duration(61), "1m 1s");
    assert_eq!(format_duration(3600), "1h 0m");
    assert_eq!(format_duration(3725), "1h 2m");
    assert_eq!(format_duration(90061), "1d 1h 1m");
    assert_eq!(format_time_remaining(None), "Unknown");
    assert_eq!(format_time_remaining(Some(0)), "0:00");
    assert_eq!(format_time_remaining(Some(5)), "0:05");
    assert_eq!(format_time_remaining(Some(65)), "1:05");
    assert_eq!(format_time_remaining(Some(600)), "10:00");
    assert_eq!(format_time_remaining(Some(u32::MAX)), "71582788:15");
    assert_eq!(format_bytes(1 << 50), "1.0 PB");
    assert_eq!(format_bytes(1536), "1.5 KB");
}

#[test]
fn table_rows_and_rules() {
    let widths = [20, 25, 15, 8, 10];
    let row = format_table_row(&["NAME", "HOST", "USER", "PORT", "STATUS"], &widths);
    assert_eq!(
        row,
        format!("{:<20} | {:<25} | {:<15} | {:<8} | {:<10}", "NAME", "HOST", "USER", "PORT", "STATUS")
    );
    assert_eq!(format_table_row(&["abc", "de"], &[2, 4]), "abc | de  ");
    assert_eq!(format_table_row(&["a", "b", "c"], &[2]), "a  | ");
    assert_eq!(format_table_row(&["a"], &[3, 3]), "a  ");
    assert_eq!(format_table_row(&[], &[3]), "");
    assert_eq!(format_table_row(&["é"], &[3]), "é  ");
    assert_eq!(format_table_separator(&[3, 1, 2]), "----+---+---");
    assert_eq!(format_table_separator(&[2]), "--");
    assert_eq!(format_table_separator(&[]), "");
    assert_eq!(
        format_table_separator(&widths),
        widths.iter().map(|&w| "-".repeat(w)).collect::<Vec<_>>().join("-+-")
    );
}

#[test]
fn truncation_and_centring() {
    assert_eq!(truncate_string("hello", 5), "hello");
    assert_eq!(truncate_string("hello world", 8), "hello...");
    assert_eq!(truncate_string("hello", 3), "...");
    assert_eq!(truncate_string("hello", 2), "...");
    assert_eq!(truncate_string("", 0), "");
    assert_eq!(center_text("ab", 6), "  ab  ");
    assert_eq!(center_text("ab", 5), " ab  ");
    assert_eq!(center_text("abc", 3), "abc");
    assert_eq!(center_text("abcd", 3), "abcd");
    assert_eq!(center_text("", 2), "  ");
}

#[test]
fn lines_are_split_as_the_standard_library_does() {
    for text in ["", "a", "a\n", "a\nb", "a\r\nb\r\n", "\n", "\n\n", "a\r", "a\r\n\r", "\r\n", "a\n\nb", "x\ry\n"] {
        let expected: Vec<String> = text.lines().map(|l| l.to_string()).collect();
        assert_eq!(split_lines(text), expected, "{:?}", text);
    }
    assert_eq!(join(&vec!["a".to_string(), "b".to_string(), "c".to_string()], ", "), "a, b, c");
    assert_eq!(join(&vec!["a".to_string()], ", "), "a");
    assert_eq!(join(&vec![], ", "), "");
}

#[test]
fn execution_mode_picks_the_target() {
    assert_eq!(determine_execution_mode(true, false), ExecutionMode::Local);
    assert_eq!(determine_execution_mode(true, true), ExecutionMode::Local);
    assert_eq!(determine_execution_mode(false, true), ExecutionMode::Auto);
    assert_eq!(determine_execution_mode(false, false), ExecutionMode::Auto);
    let named = Some("mac2".to_string());
    assert_eq!(target_host(&ExecutionMode::Local, named.clone()), None);
    assert_eq!(target_host(&ExecutionMode::Local, None), None);
    let remote = ExecutionMode::Remote { host: "mac1".to_string() };
    assert_eq!(target_host(&remote, None), Some("mac1".to_string()));
    assert_eq!(target_host(&remote, named.clone()), named);
    assert_eq!(target_host(&ExecutionMode::Auto, named.clone()), named);
    assert_eq!(target_host(&ExecutionMode::Auto, None), None);
}

#[test]
fn remote_scripts() {
    assert_eq!(battery_script_command(false, false), "~/scripts/battery");
    assert_eq!(battery_script_command(true, false), "~/scripts/battery -d");
    assert_eq!(battery_script_command(true, true), "~/scripts/battery -r");
    assert_eq!(temp_script_command(false), "~/scripts/temp");
    assert_eq!(temp_script_command(true), "~/scripts/temp -r");
    assert_eq!(
        power_script_command(false, false, false, false, false),
        "~/scripts/power_diagnostics"
    );
    assert_eq!(
        power_script_command(true, false, true, false, true),
        "~/scripts/power_diagnostics -v -s -f"
    );
    assert_eq!(
        power_script_command(true, true, true, true, true),
        "~/scripts/power_diagnostics -v -b -s -a -f"
    );
}

#[test]
fn battery_report_is_read() {
    assert!(is_on_battery(ON_BATTERY));
    assert!(!is_on_ac_power(ON_BATTERY));
    assert!(is_on_ac_power(ON_MAINS));
    assert!(!is_on_battery(ON_MAINS));
    assert_eq!(extract_battery_percentage(ON_BATTERY), Some("0 (id=1234567)\t87%".to_string()));
    assert_eq!(get_battery_percentage(ON_BATTERY), None);
    assert_eq!(extract_percentage("charge: 87%; discharging"), Some("87%".to_string()));
    assert_eq!(extract_percentage("no charge here"), None);
    assert_eq!(extract_percentage("87 percent"), None);
    assert_eq!(extract_percentage("% then 5"), None);
    assert_eq!(extract_percentage("5%"), Some("5%".to_string()));
    assert_eq!(percentage_of_line("charge: 87%; discharging"), Some(87));
    assert_eq!(percentage_of_line("charge: 255%"), Some(255));
    assert_eq!(percentage_of_line("charge: 256%"), None);
    assert_eq!(percentage_of_line("charge: 8 7%"), None);
    assert_eq!(percentage_of_line("charge: ٣%"), None);
    assert_eq!(get_battery_percentage("first 1 2%\nsecond 45%\nthird 46%"), Some(45));
    assert_eq!(get_battery_percentage(""), None);
    assert_eq!(extract_battery_percentage("nothing\nx 12% y 5%\n"), Some("12%".to_string()));
}

#[test]
fn remaining_time_is_read() {
    assert_eq!(extract_clock("4:32 remaining"), Some("4:32".to_string()));
    assert_eq!(extract_clock("about 12:05 left"), Some("12:05".to_string()));
    assert_eq!(extract_clock("id=1234567 4:32"), None);
    assert_eq!(extract_clock("4:3"), None);
    assert_eq!(extract_clock("no digits"), None);
    assert_eq!(extract_clock("4"), None);
    assert_eq!(
        extract_time_remaining("4:32 remaining", "87%; discharging; 4:32 remaining"),
        Some("Time Remaining: 4:32".to_string())
    );
    assert_eq!(
        extract_time_remaining("1:10 remaining", "40%; charging; 1:10 remaining"),
        Some("Time to Full: 1:10".to_string())
    );
    assert_eq!(extract_time_remaining("1:10 remaining", "100%; charged"), None);
    assert_eq!(extract_time_remaining("remaining", "discharging"), None);
}

#[test]
fn battery_info_is_parsed() {
    assert_eq!(
        parse_battery_info("Now drawing from 'Battery Power'\n 87%; discharging;\n 4:32 remaining\n"),
        BatteryInfo {
            percentage: "87%".to_string(),
            state: ChargeState::Discharging,
            time_remaining: Some("Time Remaining: 4:32".to_string()),
        }
    );
    assert_eq!(
        parse_battery_info(ON_MAINS),
        BatteryInfo {
            percentage: "0 (id=1234567)\t100%".to_string(),
            state: ChargeState::Charging,
            time_remaining: None,
        }
    );
    assert_eq!(
        parse_battery_info("battery is charged"),
        BatteryInfo {
            percentage: String::new(),
            state: ChargeState::FullyCharged,
            time_remaining: None,
        }
    );
    // only the first digit of a line is looked at
    assert_eq!(
        parse_battery_info(" 87%; discharging; 4:32 remaining\n").time_remaining,
        None
    );
    assert_eq!(parse_battery_info("").state, ChargeState::Unknown);
    assert_eq!(ChargeState::Charging.describe(), "🔌 Charging (AC Power)");
    assert_eq!(ChargeState::Discharging.describe(), "⚡ Discharging");
    assert_eq!(ChargeState::FullyCharged.describe(), "✅ Fully Charged");
    assert_eq!(ChargeState::Unknown.describe(), "❓ Unknown");
}

#[test]
fn battery_levels_and_wear() {
    assert_eq!(BatteryLevel::of(0), BatteryLevel::Low);
    assert_eq!(BatteryLevel::of(20), BatteryLevel::Low);
    assert_eq!(BatteryLevel::of(21), BatteryLevel::Medium);
    assert_eq!(BatteryLevel::of(50), BatteryLevel::Medium);
    assert_eq!(BatteryLevel::of(51), BatteryLevel::Good);
    assert_eq!(BatteryLevel::from_text("87%"), Some(BatteryLevel::Good));
    assert_eq!(BatteryLevel::from_text("20%"), Some(BatteryLevel::Low));
    assert_eq!(BatteryLevel::from_text("87"), None);
    assert_eq!(BatteryLevel::from_text("x%"), None);
    assert_eq!(BatteryLevel::from_text("300%"), None);
    assert_eq!(BatteryLevel::from_text(""), None);
    assert_eq!(CycleWear::of(0), CycleWear::Low);
    assert_eq!(CycleWear::of(500), CycleWear::Low);
    assert_eq!(CycleWear::of(501), CycleWear::Moderate);
    assert_eq!(CycleWear::of(1000), CycleWear::Moderate);
    assert_eq!(CycleWear::of(1001), CycleWear::High);
}

#[test]
fn battery_health_report_is_read() {
    assert_eq!(field_after_colon("a: b: c"), Some(" b".to_string()));
    assert_eq!(field_after_colon("a:"), Some(String::new()));
    assert_eq!(field_after_colon("a"), None);
    assert_eq!(
        parse_health_line("      Cycle Count: 612"),
        HealthLine::CycleCount { cycles: 612, wear: CycleWear::Moderate }
    );
    assert_eq!(parse_health_line("      Cycle Count: many"), HealthLine::Other);
    assert_eq!(parse_health_line("      Cycle Count 612"), HealthLine::Other);
    assert_eq!(
        parse_health_line("      Condition: Normal"),
        HealthLine::Condition { condition: "Normal".to_string(), normal: true }
    );
    assert_eq!(
        parse_health_line("      Condition: Service Recommended"),
        HealthLine::Condition { condition: "Service Recommended".to_string(), normal: false }
    );
    assert_eq!(
        parse_health_line("      Maximum Capacity: 91%  "),
        HealthLine::Capacity("Maximum Capacity: 91%".to_string())
    );
    assert_eq!(parse_health_line("      Serial Number: X"), HealthLine::Other);
    let profile = "Battery Information:\n  Cycle Count: 12\n  Voltage: 1\n  Condition: Normal\n  Maximum Capacity: 99%\n";
    assert_eq!(
        battery_health_lines(profile),
        vec!["  Cycle Count: 12", "  Condition: Normal", "  Maximum Capacity: 99%"]
    );
}

fn entry(key: &str, value: &str) -> SettingEntry {
    SettingEntry { key: key.to_string(), value: value.to_string() }
}

const LISTING: &str = "System-wide power settings:\nCurrently in use:\n standby              1\n hibernatemode        3\n powernap             0\n sleep                10 (sleep prevented by caffeinate)\n disksleep            0\n haltlevel            15\n noequals\n";

#[test]
fn power_listing_is_parsed() {
    assert_eq!(parse_setting_line(" standby              1"), Some(entry("standby", "1")));
    assert_eq!(parse_setting_line("noequals"), None);
    assert_eq!(parse_setting_line("   "), None);
    assert_eq!(parse_setting_line(""), None);
    assert_eq!(
        parse_setting_line(" sleep 10 (sleep prevented)"),
        Some(entry("sleep", "10 (sleep prevented)"))
    );
    let settings = parse_pmset_settings(LISTING);
    assert_eq!(
        settings.entries,
        vec![
            entry("System-wide", "power settings:"),
            entry("Currently", "in use:"),
            entry("standby", "1"),
            entry("hibernatemode", "3"),
            entry("powernap", "0"),
            entry("sleep", "10 (sleep prevented by caffeinate)"),
            entry("disksleep", "0"),
            entry("haltlevel", "15"),
        ]
    );
    assert_eq!(settings.get("standby"), Some(&"1".to_string()));
    assert_eq!(settings.get("autopoweroff"), None);
    let twice = parse_pmset_settings("sleep 1\nsleep 0\n");
    assert_eq!(twice.get("sleep"), Some(&"0".to_string()));
}

fn finding(setting: PowerSetting, value: &str, is_issue: bool) -> PowerFinding {
    PowerFinding { setting, value: value.to_string(), is_issue }
}

#[test]
fn power_settings_are_judged() {
    let findings = analyze_power_issues(&parse_pmset_settings(LISTING));
    assert_eq!(
        findings,
        vec![
            finding(PowerSetting::HibernateMode, "3", true),
            finding(PowerSetting::Standby, "1", true),
            finding(PowerSetting::PowerNap, "0", false),
            finding(PowerSetting::Sleep, "10 (sleep prevented by caffeinate)", true),
            finding(PowerSetting::DiskSleep, "0", false),
            finding(PowerSetting::HaltLevel, "15", true),
        ]
    );
    assert_eq!(count_issues(&findings), 4);
    let messages: Vec<String> = findings.iter().map(|f| f.message()).collect();
    assert_eq!(
        messages,
        vec![
            "ISSUE: hibernatemode is 3 (should be 0 for servers)",
            "ISSUE: standby is enabled (should be 0 for servers)",
            "powernap: 0 (good)",
            "ISSUE: sleep is enabled (10 (sleep prevented by caffeinate) minutes)",
            "disksleep: 0 (good)",
            "ISSUE: haltlevel is 15% (should be 5% or lower)",
        ]
    );
    let good = analyze_power_issues(&parse_pmset_settings(
        "hibernatemode 0\nstandby 0\npowernap 1\nhaltlevel 10\nhaltlevel x\n",
    ));
    assert_eq!(
        good,
        vec![
            finding(PowerSetting::HibernateMode, "0", false),
            finding(PowerSetting::Standby, "0", false),
            finding(PowerSetting::PowerNap, "1", true),
        ]
    );
    assert_eq!(count_issues(&good), 1);
    assert_eq!(finding(PowerSetting::HaltLevel, "5", false).message(), "haltlevel: 5% (good)");
    assert_eq!(
        finding(PowerSetting::DiskSleep, "10", true).message(),
        "ISSUE: disksleep is enabled (10 minutes)"
    );
    assert_eq!(
        finding(PowerSetting::PowerNap, "1", true).message(),
        "ISSUE: powernap is enabled (should be 0 for servers)"
    );
    assert_eq!(analyze_power_issues(&parse_pmset_settings("")), vec![]);
}

fn fix(comment: &str, commands: &[&str]) -> Fix {
    Fix { comment: comment.to_string(), commands: commands.iter().map(|c| c.to_string()).collect() }
}

#[test]
fn fixes_follow_the_settings() {
    let always = vec![
        fix("Disable auto power off", &["sudo pmset -a autopoweroff 0"]),
        fix(
            "Restart caffeinate if needed",
            &["pkill caffeinate 2>/dev/null", "nohup caffeinate -imsud > /dev/null 2>&1 &"],
        ),
    ];
    assert_eq!(recommended_fixes(&parse_pmset_settings("")), always);
    assert_eq!(
        recommended_fixes(&parse_pmset_settings(
            "hibernatemode 0\nstandby 0\npowernap 0\nsleep 0\ndisksleep 0\nhaltlevel 5\n"
        )),
        always
    );
    let mut all = vec![
        fix(
            "Disable hibernation (prevents unexpected shutdowns)",
            &["sudo pmset -a hibernatemode 0"],
        ),
        fix("Disable standby mode", &["sudo pmset -a standby 0"]),
        fix("Disable power nap", &["sudo pmset -a powernap 0"]),
        fix("Disable system sleep completely", &["sudo pmset -a sleep 0"]),
        fix("Disable disk sleep", &["sudo pmset -a disksleep 0"]),
        fix(
            "Set battery halt level to 5% (prevents early shutdown)",
            &["sudo pmset -b haltlevel 5", "sudo pmset -b haltafter 0"],
        ),
    ];
    all.extend(always);
    assert_eq!(
        recommended_fixes(&parse_pmset_settings(
            "hibernatemode 3\nstandby 1\npowernap 1\nsleep 1\ndisksleep 10\nhaltlevel 6\n"
        )),
        all
    );
}

fn pmset(description: &str, args: &[&str]) -> PowerCommand {
    PowerCommand {
        description: description.to_string(),
        args: args.iter().map(|a| a.to_string()).collect(),
    }
}

#[test]
fn power_commands() {
    assert_eq!(
        power_configure_commands(false, false, None),
        vec![pmset("Disable power nap", &["pmset", "-a", "powernap", "0"])]
    );
    assert_eq!(
        power_configure_commands(true, true, Some(7)),
        vec![
            pmset("Disable hibernation", &["pmset", "-a", "hibernatemode", "0"]),
            pmset("Disable system sleep", &["pmset", "-a", "sleep", "0"]),
            pmset("Disable disk sleep", &["pmset", "-a", "disksleep", "0"]),
            pmset("Disable standby", &["pmset", "-a", "standby", "0"]),
            pmset("Set battery halt level", &["pmset", "-b", "haltlevel", "7"]),
            pmset("Disable power nap", &["pmset", "-a", "powernap", "0"]),
        ]
    );
    let server = server_power_commands();
    assert_eq!(server.len(), 9);
    assert_eq!(server[5], pmset("Set battery halt level", &["pmset", "-b", "haltlevel", "5"]));
    assert_eq!(
        server[8],
        pmset("Enable restart after system freeze", &["pmset", "-a", "restartfreeze", "1"])
    );
    assert_eq!(configure_selection(false, false, false), (true, true, true));
    assert_eq!(configure_selection(true, false, false), (true, false, false));
    assert_eq!(configure_selection(false, true, true), (false, true, true));
}

#[test]
fn status_health_rules() {
    assert_eq!(status_health(true, false, None), vec![]);
    assert_eq!(status_health(false, false, Some(5)), vec![HealthIssue::CaffeinateNotRunning]);
    assert_eq!(status_health(true, true, Some(19)), vec![HealthIssue::BatteryCritical(19)]);
    assert_eq!(status_health(true, true, Some(20)), vec![HealthIssue::BatteryLow(20)]);
    assert_eq!(status_health(true, true, Some(49)), vec![HealthIssue::BatteryLow(49)]);
    assert_eq!(status_health(true, true, Some(50)), vec![]);
    assert_eq!(status_health(true, true, None), vec![]);
    assert_eq!(
        status_health(false, true, Some(3)),
        vec![HealthIssue::CaffeinateNotRunning, HealthIssue::BatteryCritical(3)]
    );
}

#[test]
fn disk_usage_rules() {
    assert_eq!(disk_usage_level(80), DiskUsageLevel::Normal);
    assert_eq!(disk_usage_level(81), DiskUsageLevel::High);
    assert_eq!(disk_usage_level(90), DiskUsageLevel::High);
    assert_eq!(disk_usage_level(91), DiskUsageLevel::Critical);
    let report = "Filesystem     Size   Used  Avail Capacity iused ifree %iused  Mounted on\n/dev/disk3s1  460Gi  200Gi  250Gi    45%  500k  2.0G    0%   /\n";
    assert_eq!(disk_usage_percent(report), Some(45));
    assert_eq!(disk_usage_percent("only one line"), None);
    assert_eq!(disk_usage_percent("head\na b c d\n"), None);
    assert_eq!(disk_usage_percent("head\na b c d e%%\n"), None);
    assert_eq!(disk_usage_percent("head\na b c d 7%% f\n"), Some(7));
    assert_eq!(
        disk_usage_gb(500_000_000_000, 123_456_789_012),
        DiskUsageGb { used: 377, total: 500, percent: 75 }
    );
    assert_eq!(disk_usage_gb(999_999_999, 5), DiskUsageGb { used: 0, total: 0, percent: 0 });
    for line in ["  a  b\tc ", "", "   ", "one", "a b c d e f"] {
        let words: Vec<&str> = line.split_whitespace().collect();
        for n in 0..7 {
            assert_eq!(word_at(line, n), words.get(n).map(|w| w.to_string()), "{:?} {}", line, n);
        }
    }
}

#[test]
fn listing_states_and_processes() {
    assert_eq!(setting_state(LISTING, "hibernatemode", "0"), Some(false));
    assert_eq!(setting_state(LISTING, "powernap", "0"), Some(false));
    assert_eq!(setting_state("powernap 0\n", "powernap", "0"), Some(true));
    assert_eq!(setting_state(LISTING, "autorestart", "1"), None);
    assert_eq!(get_caffeinate_pids("123\n 456 \nabc\n\n789\n"), vec![123, 456, 789]);
    assert_eq!(get_caffeinate_pids(""), vec![]);
    assert_eq!(get_caffeinate_pids("4294967295\n4294967296\n"), vec![4294967295]);
    assert_eq!(get_service_pid("123\n456\n"), Some(123));
    assert_eq!(get_service_pid("abc\n456\n"), None);
    assert_eq!(get_service_pid(""), None);
    assert!(is_service_running(true, "123\n"));
    assert!(!is_service_running(true, ""));
    assert!(!is_service_running(false, "123\n"));
}

#[test]
fn answers_to_a_question() {
    assert_eq!(parse_yes_no("\n", true), Some(true));
    assert_eq!(parse_yes_no("", false), Some(false));
    assert_eq!(parse_yes_no(" Y \n", false), Some(true));
    assert_eq!(parse_yes_no("yes\n", false), Some(true));
    assert_eq!(parse_yes_no("YES\n", false), Some(true));
    assert_eq!(parse_yes_no("n\n", true), Some(false));
    assert_eq!(parse_yes_no("No\n", true), Some(false));
    assert_eq!(parse_yes_no("maybe\n", true), None);
    assert_eq!(answer_for("Y", false), None);
    assert_eq!(answer_for("y", false), Some(true));
}

#[test]
fn battery_warnings() {
    assert_eq!(high_halt_level(&parse_pmset_settings("haltlevel 11\n")), Some(11));
    assert_eq!(high_halt_level(&parse_pmset_settings("haltlevel 10\n")), None);
    assert_eq!(high_halt_level(&parse_pmset_settings("haltlevel high\n")), None);
    assert_eq!(high_halt_level(&parse_pmset_settings("")), None);
    assert!(auto_power_off_enabled(&parse_pmset_settings("autopoweroff 1\n")));
    assert!(!auto_power_off_enabled(&parse_pmset_settings("autopoweroff 0\n")));
    assert!(!auto_power_off_enabled(&parse_pmset_settings("")));
    assert_eq!(percentage_number("87%"), 87);
    assert_eq!(percentage_number("87"), 87);
    assert_eq!(percentage_number("87%%"), 87);
    assert_eq!(percentage_number("0 (id=1234567)\t87%"), 0);
    assert_eq!(percentage_number("300%"), 0);
    assert_eq!(percentage_number(""), 0);
    assert_eq!(strip_trailing("a%b%%", '%'), "a%b");
    assert_eq!(strip_trailing("%%", '%'), "");
    for text in ["", "%", "5%", "%5", "5%%", "a"] {
        assert_eq!(strip_trailing(text, '%'), text.trim_end_matches('%'), "{}", text);
    }
}

#[test]
fn battery_section_of_a_power_profile() {
    let profile = "Power:\n\n    System Power Settings:\n    BATTERY Information:\n      Model: X\n      Charge: 5\n";
    assert_eq!(
        battery_section(profile),
        vec!["    BATTERY Information:", "      Model: X", "      Charge: 5"]
    );
    assert_eq!(battery_section("nothing of the kind\nhere\n"), Vec::<String>::new());
    assert_eq!(battery_section(""), Vec::<String>::new());
    let mut long = String::from("head\nBattery\n");
    for n in 0..30 {
        long.push_str(&format!("line {}\n", n));
    }
    let section = battery_section(&long);
    assert_eq!(section.len(), 20);
    assert_eq!(section[0], "Battery");
    assert_eq!(section[19], "line 18");
    let expected: Vec<String> = long
        .lines()
        .skip_while(|line| !line.to_lowercase().contains("battery"))
        .take(20)
        .map(|line| line.to_string())
        .collect();
    assert_eq!(section, expected);
}
