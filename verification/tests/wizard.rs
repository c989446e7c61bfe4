use plan10::config::Config;
use plan10::executor::{copy_action, DeployAction, LocalKind};
use plan10::formatting::{last_seen_age, SeenAge};
use plan10::wizard::{
    answer_or_default, choose_editor, equals_ignoring_case, interpret_choice, optional_answer,
    shell_rc_name,
};

fn choices(names: &[&str]) -> Vec<String> {
    names.iter().map(|n| n.to_string()).collect()
}

#[test]
fn answers_fall_back_to_the_default() {
    assert_eq!(answer_or_default("\n", "mac1"), "mac1");
    assert_eq!(answer_or_default("  \t\n", "mac1"), "mac1");
    assert_eq!(answer_or_default(" other \n", "mac1"), "other");
    assert_eq!(optional_answer("\n"), None);
    assert_eq!(optional_answer(" ~/.ssh/id \n"), Some("~/.ssh/id".to_string()));
}

#[test]
fn choices_are_taken_by_number_or_by_name() {
    let options = choices(&["alpha", "Beta", "3"]);
    assert_eq!(interpret_choice("\n", &options), Some(String::new()));
    assert_eq!(interpret_choice("1\n", &options), Some("alpha".to_string()));
    assert_eq!(interpret_choice(" 2 \n", &options), Some("Beta".to_string()));
    assert_eq!(interpret_choice("3\n", &options), Some("3".to_string()));
    assert_eq!(interpret_choice("ALPHA\n", &options), Some("alpha".to_string()));
    assert_eq!(interpret_choice("beta\n", &options), Some("Beta".to_string()));
    assert_eq!(interpret_choice("0\n", &options), None);
    assert_eq!(interpret_choice("4\n", &options), None);
    assert_eq!(interpret_choice("gamma\n", &options), None);
    assert_eq!(interpret_choice("99999999999999999999999\n", &options), None);
    let numbers = choices(&["1", "2", "3", "4"]);
    assert_eq!(interpret_choice("4\n", &numbers), Some("4".to_string()));
    assert_eq!(interpret_choice("5\n", &numbers), None);
    assert_eq!(interpret_choice("5\n", &choices(&["a", "5"])), Some("5".to_string()));
    assert_eq!(interpret_choice("x\n", &vec![]), None);
}

#[test]
fn case_of_ascii_letters_is_ignored() {
    assert!(equals_ignoring_case("Beta", "bETA"));
    assert!(equals_ignoring_case("", ""));
    assert!(!equals_ignoring_case("beta", "betas"));
    assert!(!equals_ignoring_case("[", "{"));
    assert!(!equals_ignoring_case("é", "É"));
    for (a, b) in [("@", "`"), ("Z", "z"), ("A", "a"), ("Az09", "aZ09")] {
        assert_eq!(equals_ignoring_case(a, b), a.eq_ignore_ascii_case(b), "{} {}", a, b);
    }
}

#[test]
fn editor_and_shell() {
    assert_eq!(choose_editor(Some("vim".to_string()), Some("code".to_string()), true), "vim");
    assert_eq!(choose_editor(None, Some("code".to_string()), true), "code");
    assert_eq!(choose_editor(None, None, true), "nano");
    assert_eq!(choose_editor(None, None, false), "vi");
    assert_eq!(shell_rc_name("/bin/zsh"), ".zshrc");
    assert_eq!(shell_rc_name("/bin/bash"), ".bashrc");
    assert_eq!(shell_rc_name(""), ".bashrc");
}

#[test]
fn age_of_the_last_contact() {
    let now = 1_700_000_000;
    assert_eq!(last_seen_age(now, now), SeenAge::Recently);
    assert_eq!(last_seen_age(now - 3599, now), SeenAge::Recently);
    assert_eq!(last_seen_age(now + 10, now), SeenAge::Recently);
    assert_eq!(last_seen_age(now - 3600, now), SeenAge::Today);
    assert_eq!(last_seen_age(now - 86399, now), SeenAge::Today);
    assert_eq!(last_seen_age(now - 86400, now), SeenAge::DaysAgo(1));
    assert_eq!(last_seen_age(now - 86400 * 3 - 5, now), SeenAge::DaysAgo(3));
    assert_eq!(last_seen_age(0, i64::MAX), SeenAge::DaysAgo(106751991167300));
}

#[test]
fn monitoring_settings_file() {
    let mut config = Config::with_server_name("laptop".to_string());
    assert_eq!(
        config.server.monitoring_file_text(),
        "# Plan 10 Monitoring Configuration\nTEMP_THRESHOLD=80\nBATTERY_WARNING=20\nMONITORING_INTERVAL=30\nLOG_LEVEL=info\n"
    );
    config.server.temp_threshold = 725;
    config.server.log_level = "debug".to_string();
    assert_eq!(
        config.server.monitoring_file_text(),
        "# Plan 10 Monitoring Configuration\nTEMP_THRESHOLD=72.5\nBATTERY_WARNING=20\nMONITORING_INTERVAL=30\nLOG_LEVEL=debug\n"
    );
    config.server.temp_threshold = -5;
    assert!(config.server.monitoring_file_text().contains("TEMP_THRESHOLD=-0.5\n"));
    config.server.temp_threshold = -20;
    assert!(config.server.monitoring_file_text().contains("TEMP_THRESHOLD=-2\n"));
}

#[test]
fn sources_outside_a_plan() {
    assert_eq!(copy_action(LocalKind::Missing, "a", "b"), None);
    assert_eq!(
        copy_action(LocalKind::File, "a", "b"),
        Some(DeployAction::CopyFile { local: "a".to_string(), remote: "b".to_string() })
    );
    assert_eq!(
        copy_action(LocalKind::Directory, "a", "b"),
        Some(DeployAction::CopyDirectory { local: "a".to_string(), remote: "b".to_string() })
    );
}
