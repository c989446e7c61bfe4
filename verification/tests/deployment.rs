use plan10::deploy::{
    deployment_check_paths, determine_deployment_items, get_deployment_files, plan, Category,
    DeployMode, DeploymentItem, FilePair,
};
use plan10::error::TransferError;
use plan10::executor::{
    AbortCause, DeployAction, DeployEvent, Deployment, LocalKind, PairOutcome, Phase, RunStatus,
};

fn pair(local: &str, remote: &str) -> FilePair {
    FilePair { local: local.to_string(), remote: remote.to_string() }
}

fn scripts() -> Vec<FilePair> {
    vec![
        pair("scripts/temp", "~/scripts/temp"),
        pair("scripts/battery", "~/scripts/battery"),
        pair("scripts/power_diagnostics", "~/scripts/power_diagnostics"),
        pair("scripts/setup_aliases.sh", "~/scripts/setup_aliases.sh"),
    ]
}

/// Drives a run to its end. `answer` says what the local disk holds at a
/// path; the transport fails at the remote action with the number
/// `fail_at`, counted from zero. Returns the actions in the order in which
/// they were asked for.
fn drive(
    run: &mut Deployment,
    answer: &dyn Fn(&str) -> LocalKind,
    fail_at: Option<usize>,
) -> Vec<DeployAction> {
    let mut actions = Vec::new();
    let mut remote_actions = 0;
    while let Some(action) = run.pending() {
        let event = match &action {
            DeployAction::BeginCategory(_) => DeployEvent::Acknowledged,
            DeployAction::ProbeLocal(path) => DeployEvent::Local(answer(path)),
            _ => {
                remote_actions += 1;
                if fail_at == Some(remote_actions - 1) {
                    DeployEvent::TransportFailed
                } else {
                    DeployEvent::Acknowledged
                }
            }
        };
        actions.push(action);
        run.advance(event);
        assert!(actions.len() < 1000);
    }
    actions
}

fn everything_is_a_file(_: &str) -> LocalKind {
    LocalKind::File
}

#[test]
fn plan_for_scripts_only() {
    let items = plan(DeployMode::ScriptsOnly);
    assert_eq!(items, vec![DeploymentItem { category: Category::Scripts, files: scripts() }]);
    assert_eq!(items[0].category.label(), "scripts");
}

#[test]
fn plan_for_everything() {
    let items = plan(DeployMode::All);
    assert_eq!(
        items,
        vec![
            DeploymentItem {
                category: Category::ServerSetup,
                files: vec![pair("server_setup.sh", "~/server_setup.sh")],
            },
            DeploymentItem { category: Category::Scripts, files: scripts() },
            DeploymentItem {
                category: Category::Configs,
                files: vec![pair("caffeinate.plist", "~/Library/LaunchAgents/caffeinate.plist")],
            },
            DeploymentItem {
                category: Category::Services,
                files: vec![pair("docs/", "~/docs/")],
            },
        ]
    );
    let labels: Vec<&str> = items.iter().map(|i| i.category.label()).collect();
    assert_eq!(labels, vec!["server-setup", "scripts", "configs", "services"]);
}

#[test]
fn plan_for_configuration_only() {
    assert_eq!(
        plan(DeployMode::ConfigOnly),
        vec![DeploymentItem {
            category: Category::Configs,
            files: vec![
                pair("caffeinate.plist", "~/Library/LaunchAgents/caffeinate.plist"),
                pair("server_setup.sh", "~/server_setup.sh"),
            ],
        }]
    );
}

#[test]
fn plan_is_the_same_every_time() {
    assert_eq!(plan(DeployMode::All), plan(DeployMode::All));
    assert_eq!(plan(DeployMode::ScriptsOnly), plan(DeployMode::ScriptsOnly));
    assert_eq!(plan(DeployMode::ConfigOnly), plan(DeployMode::ConfigOnly));
}

#[test]
fn flags_select_the_mode() {
    assert_eq!(DeployMode::from_flags(false, false, false), DeployMode::All);
    assert_eq!(DeployMode::from_flags(true, false, false), DeployMode::All);
    assert_eq!(DeployMode::from_flags(true, true, true), DeployMode::All);
    assert_eq!(DeployMode::from_flags(false, true, false), DeployMode::ScriptsOnly);
    assert_eq!(DeployMode::from_flags(false, true, true), DeployMode::ScriptsOnly);
    assert_eq!(DeployMode::from_flags(false, false, true), DeployMode::ConfigOnly);
    assert_eq!(determine_deployment_items(false, false, false), plan(DeployMode::All));
    assert_eq!(determine_deployment_items(false, true, false), plan(DeployMode::ScriptsOnly));
    assert_eq!(determine_deployment_items(false, false, true), plan(DeployMode::ConfigOnly));
}

#[test]
fn installation_files_and_check_paths() {
    assert_eq!(
        get_deployment_files(),
        vec![
            pair("server_setup.sh", "~/server_setup.sh"),
            pair("caffeinate.plist", "~/Library/LaunchAgents/caffeinate.plist"),
            pair("scripts/", "~/scripts/"),
            pair("docs/", "~/docs/"),
        ]
    );
    assert_eq!(
        deployment_check_paths(),
        vec!["~/server_setup.sh", "~/scripts/temp", "~/scripts/battery", "~/scripts/power_diagnostics"]
    );
}

#[test]
fn server_setup_is_transferred_and_made_executable() {
    let items = vec![DeploymentItem {
        category: Category::ServerSetup,
        files: vec![pair("server_setup.sh", "~/server_setup.sh")],
    }];
    let mut run = Deployment::new(items);
    assert_eq!(run.status, RunStatus::Planned);
    let actions = drive(&mut run, &everything_is_a_file, None);
    assert_eq!(
        actions,
        vec![
            DeployAction::BeginCategory(Category::ServerSetup),
            DeployAction::ProbeLocal("server_setup.sh".to_string()),
            DeployAction::CopyFile {
                local: "server_setup.sh".to_string(),
                remote: "~/server_setup.sh".to_string(),
            },
            DeployAction::RunCommand("chmod +x ~/server_setup.sh".to_string()),
        ]
    );
    assert_eq!(run.status, RunStatus::Completed);
    assert_eq!(run.outcomes, vec![PairOutcome::Transferred]);
}

#[test]
fn scripts_are_made_executable_except_the_helper() {
    let mut run = Deployment::new(plan(DeployMode::ScriptsOnly));
    let actions = drive(&mut run, &everything_is_a_file, None);
    let copy = |local: &str, remote: &str| DeployAction::CopyFile {
        local: local.to_string(),
        remote: remote.to_string(),
    };
    let probe = |local: &str| DeployAction::ProbeLocal(local.to_string());
    let command = |line: &str| DeployAction::RunCommand(line.to_string());
    assert_eq!(
        actions,
        vec![
            DeployAction::BeginCategory(Category::Scripts),
            command("mkdir -p ~/scripts"),
            probe("scripts/temp"),
            copy("scripts/temp", "~/scripts/temp"),
            command("chmod +x ~/scripts/temp"),
            probe("scripts/battery"),
            copy("scripts/battery", "~/scripts/battery"),
            command("chmod +x ~/scripts/battery"),
            probe("scripts/power_diagnostics"),
            copy("scripts/power_diagnostics", "~/scripts/power_diagnostics"),
            command("chmod +x ~/scripts/power_diagnostics"),
            probe("scripts/setup_aliases.sh"),
            copy("scripts/setup_aliases.sh", "~/scripts/setup_aliases.sh"),
        ]
    );
    assert_eq!(run.status, RunStatus::Completed);
    assert_eq!(run.outcomes, vec![PairOutcome::Transferred; 4]);
}

#[test]
fn full_deployment_in_order() {
    let mut run = Deployment::new(plan(DeployMode::All));
    let answer = |path: &str| if path == "docs/" { LocalKind::Directory } else { LocalKind::File };
    let actions = drive(&mut run, &answer, None);
    let tail: Vec<DeployAction> = actions[17..].to_vec();
    assert_eq!(
        tail,
        vec![
            DeployAction::BeginCategory(Category::Configs),
            DeployAction::ProbeLocal("caffeinate.plist".to_string()),
            DeployAction::RunCommand("mkdir -p ~/Library/LaunchAgents".to_string()),
            DeployAction::CopyFile {
                local: "caffeinate.plist".to_string(),
                remote: "~/Library/LaunchAgents/caffeinate.plist".to_string(),
            },
            DeployAction::BeginCategory(Category::Services),
            DeployAction::ProbeLocal("docs/".to_string()),
            DeployAction::CopyDirectory {
                local: "docs/".to_string(),
                remote: "~/docs/".to_string(),
            },
        ]
    );
    assert_eq!(run.status, RunStatus::Completed);
    assert_eq!(run.outcomes, vec![PairOutcome::Transferred; 7]);
    assert_eq!(run.position(), 4);
}

#[test]
fn missing_source_is_skipped_and_the_run_goes_on() {
    let mut run = Deployment::new(plan(DeployMode::All));
    let answer = |path: &str| match path {
        "scripts/battery" => LocalKind::Missing,
        "docs/" => LocalKind::Directory,
        _ => LocalKind::File,
    };
    let actions = drive(&mut run, &answer, None);
    assert_eq!(run.status, RunStatus::Completed);
    assert_eq!(
        run.outcomes,
        vec![
            PairOutcome::Transferred,
            PairOutcome::Transferred,
            PairOutcome::Skipped,
            PairOutcome::Transferred,
            PairOutcome::Transferred,
            PairOutcome::Transferred,
            PairOutcome::Transferred,
        ]
    );
    // the skipped source is never sent, and what follows it is
    let sent: Vec<&str> = actions
        .iter()
        .filter_map(|a| match a {
            DeployAction::CopyFile { local, .. } => Some(local.as_str()),
            DeployAction::CopyDirectory { local, .. } => Some(local.as_str()),
            _ => None,
        })
        .collect();
    assert_eq!(
        sent,
        vec![
            "server_setup.sh",
            "scripts/temp",
            "scripts/power_diagnostics",
            "scripts/setup_aliases.sh",
            "caffeinate.plist",
            "docs/",
        ]
    );
}

#[test]
fn missing_bootstrap_script_ends_the_run() {
    let mut run = Deployment::new(plan(DeployMode::All));
    let answer = |path: &str| match path {
        "server_setup.sh" => LocalKind::Missing,
        _ => LocalKind::File,
    };
    let actions = drive(&mut run, &answer, None);
    // nothing is copied, no command is run, and no later category is entered
    assert_eq!(
        actions,
        vec![
            DeployAction::BeginCategory(Category::ServerSetup),
            DeployAction::ProbeLocal("server_setup.sh".to_string()),
        ]
    );
    assert_eq!(run.status, RunStatus::Aborted);
    assert_eq!(run.cause, Some(AbortCause::RequiredSourceMissing));
    assert_eq!(run.outcomes, vec![]);
    assert_eq!(run.position(), 0);
    assert_eq!(run.pending(), None);
    let failure = run.failure().unwrap();
    assert_eq!(
        failure,
        TransferError::LocalFileNotFound {
            path: "server_setup.sh".to_string(),
            detail: String::new(),
        }
    );
    assert_eq!(failure.message(), "Failed to read local file: server_setup.sh");
    run.advance(DeployEvent::Acknowledged);
    run.advance(DeployEvent::Local(LocalKind::File));
    assert_eq!(run.status, RunStatus::Aborted);
    assert_eq!(run.pending(), None);
}

#[test]
fn bootstrap_script_that_vanished_before_the_transfer_ends_the_run() {
    let mut run = Deployment::new(plan(DeployMode::All));
    run.advance(DeployEvent::Acknowledged);
    run.advance(DeployEvent::Local(LocalKind::File));
    assert_eq!(run.phase, Phase::Transfer);
    run.advance(DeployEvent::Local(LocalKind::Missing));
    assert_eq!(run.status, RunStatus::Aborted);
    assert_eq!(run.cause, Some(AbortCause::RequiredSourceMissing));
    assert!(run.failure().is_some());
}

#[test]
fn every_optional_source_missing_still_completes() {
    let mut run = Deployment::new(plan(DeployMode::All));
    let answer = |path: &str| match path {
        "server_setup.sh" => LocalKind::File,
        _ => LocalKind::Missing,
    };
    let actions = drive(&mut run, &answer, None);
    assert_eq!(run.status, RunStatus::Completed);
    assert_eq!(run.cause, None);
    assert_eq!(run.failure(), None);
    let mut expected = vec![PairOutcome::Skipped; 7];
    expected[0] = PairOutcome::Transferred;
    assert_eq!(run.outcomes, expected);
    let copies = actions.iter().filter(|a| matches!(a, DeployAction::CopyFile { .. })).count();
    assert_eq!(copies, 1);
}

#[test]
fn bootstrap_script_among_the_configuration_is_optional() {
    // in a deployment of the configuration alone the script is one file among others
    for mode in [DeployMode::ConfigOnly, DeployMode::ScriptsOnly] {
        let mut run = Deployment::new(plan(mode));
        let actions = drive(&mut run, &|_| LocalKind::Missing, None);
        assert_eq!(run.status, RunStatus::Completed);
        assert!(run.outcomes.iter().all(|o| *o == PairOutcome::Skipped));
        assert!(actions.iter().all(|a| !matches!(a, DeployAction::CopyFile { .. })));
    }
    let mut run = Deployment::new(plan(DeployMode::ConfigOnly));
    drive(&mut run, &|_| LocalKind::Missing, None);
    assert_eq!(run.outcomes, vec![PairOutcome::Skipped; 2]);
    assert_eq!(run.failure(), None);
}

#[test]
fn source_that_vanished_before_the_transfer_is_skipped() {
    let mut run = Deployment::new(plan(DeployMode::ConfigOnly));
    run.advance(DeployEvent::Acknowledged);
    run.advance(DeployEvent::Local(LocalKind::File));
    assert_eq!(run.phase, Phase::MakeParent);
    run.advance(DeployEvent::Acknowledged);
    assert_eq!(run.phase, Phase::Transfer);
    run.advance(DeployEvent::Local(LocalKind::Missing));
    assert_eq!(run.outcomes, vec![PairOutcome::Skipped]);
    assert_eq!(run.status, RunStatus::InProgress);
    assert_eq!(run.pending(), Some(DeployAction::ProbeLocal("server_setup.sh".to_string())));
}

#[test]
fn transport_failure_aborts_the_rest() {
    // remote actions of the scripts plan: mkdir, copy, chmod, copy, ...
    // the fourth one is the transfer of the second script
    let mut run = Deployment::new(plan(DeployMode::ScriptsOnly));
    let actions = drive(&mut run, &everything_is_a_file, Some(3));
    assert_eq!(run.status, RunStatus::Aborted);
    assert_ne!(run.status, RunStatus::Completed);
    assert_eq!(run.cause, Some(AbortCause::TransportFailed));
    assert_eq!(run.failure(), None);
    assert_eq!(run.outcomes, vec![PairOutcome::Transferred]);
    assert_eq!(
        actions.last(),
        Some(&DeployAction::CopyFile {
            local: "scripts/battery".to_string(),
            remote: "~/scripts/battery".to_string(),
        })
    );
    assert!(actions.iter().all(|a| match a {
        DeployAction::ProbeLocal(path) => path == "scripts/temp" || path == "scripts/battery",
        _ => true,
    }));
    // nothing is pending, and later events change nothing
    assert_eq!(run.pending(), None);
    assert!(run.is_finished());
    let frozen = (run.item, run.pair, run.phase, run.outcomes.clone());
    run.advance(DeployEvent::Acknowledged);
    run.advance(DeployEvent::Local(LocalKind::File));
    run.advance(DeployEvent::TransportFailed);
    assert_eq!(run.status, RunStatus::Aborted);
    assert_eq!((run.item, run.pair, run.phase, run.outcomes.clone()), frozen);
}

#[test]
fn transport_failure_in_the_first_category_stops_later_categories() {
    let mut run = Deployment::new(plan(DeployMode::All));
    let actions = drive(&mut run, &everything_is_a_file, Some(0));
    assert_eq!(run.status, RunStatus::Aborted);
    assert_eq!(run.outcomes, vec![]);
    assert_eq!(actions.len(), 3);
    assert_eq!(run.position(), 0);
}

#[test]
fn empty_plan_is_complete_at_once() {
    let mut run = Deployment::new(vec![]);
    assert_eq!(run.status, RunStatus::Completed);
    assert_eq!(run.pending(), None);
    run.advance(DeployEvent::Acknowledged);
    assert_eq!(run.status, RunStatus::Completed);
}

#[test]
fn category_without_files_is_passed_over() {
    let items = vec![
        DeploymentItem { category: Category::Scripts, files: vec![] },
        DeploymentItem { category: Category::Configs, files: vec![pair("a", "b")] },
    ];
    let mut run = Deployment::new(items);
    let actions = drive(&mut run, &everything_is_a_file, None);
    assert_eq!(
        actions,
        vec![
            DeployAction::BeginCategory(Category::Scripts),
            DeployAction::RunCommand("mkdir -p ~/scripts".to_string()),
            DeployAction::BeginCategory(Category::Configs),
            DeployAction::ProbeLocal("a".to_string()),
            DeployAction::RunCommand("mkdir -p ".to_string()),
            DeployAction::CopyFile { local: "a".to_string(), remote: "b".to_string() },
        ]
    );
    assert_eq!(run.status, RunStatus::Completed);
}

#[test]
fn events_that_answer_nothing_are_ignored() {
    let mut run = Deployment::new(plan(DeployMode::ScriptsOnly));
    run.advance(DeployEvent::Local(LocalKind::File));
    assert_eq!(run.status, RunStatus::Planned);
    assert_eq!(run.pending(), Some(DeployAction::BeginCategory(Category::Scripts)));
    run.advance(DeployEvent::Acknowledged);
    assert_eq!(run.status, RunStatus::InProgress);
    run.advance(DeployEvent::Acknowledged);
    assert_eq!(run.phase, Phase::Probe);
    run.advance(DeployEvent::Acknowledged);
    assert_eq!(run.phase, Phase::Probe);
    assert_eq!(run.outcomes, vec![]);
}

#[test]
fn helper_script_is_recognised_by_its_file_name() {
    let items = vec![DeploymentItem {
        category: Category::Scripts,
        files: vec![
            pair("other/dir/setup_aliases.sh", "~/x/setup_aliases.sh"),
            pair("setup_aliases.sh.bak", "~/x/bak"),
            pair("setup_aliases.sh/", "~/x/dir"),
        ],
    }];
    let mut run = Deployment::new(items);
    let actions = drive(&mut run, &everything_is_a_file, None);
    let commands: Vec<&str> = actions
        .iter()
        .filter_map(|a| match a {
            DeployAction::RunCommand(c) => Some(c.as_str()),
            _ => None,
        })
        .collect();
    assert_eq!(commands, vec!["mkdir -p ~/scripts", "chmod +x ~/x/bak"]);
}
