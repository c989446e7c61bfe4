//! Deployment planning: which files go where, by category, for each
//! selection mode.
//!
//! The plan is a fixed manifest. Nothing is discovered on disk.

use crate::config::{resolve, Config, ServerDefinition, ServerDefinitionView, TableView};
use crate::error::{ConfigError, ConfigErrorView};
use crate::text::{opt_text, texts};
use vstd::prelude::*;

verus! {

/// The kinds of deployed assets.
#[derive(Clone, Copy, Debug, PartialEq, Eq, Structural)]
pub enum Category {
    /// The bootstrap script of the server.
    ServerSetup,
    /// The diagnostic scripts.
    Scripts,
    /// Configuration files.
    Configs,
    /// Service files and documentation trees.
    Services,
}

/// The label of a category.
pub open spec fn category_label(category: Category) -> Seq<char> {
    match category {
        Category::ServerSetup => "server-setup"@,
        Category::Scripts => "scripts"@,
        Category::Configs => "configs"@,
        Category::Services => "services"@,
    }
}

impl Category {
    /// The label under which the category is reported.
    pub fn label(&self) -> (r: &'static str)
        ensures
            r@ == category_label(*self),
    {
        match self {
            Category::ServerSetup => "server-setup",
            Category::Scripts => "scripts",
            Category::Configs => "configs",
            Category::Services => "services",
        }
    }
}

/// A local source and its remote destination.
#[derive(Debug, PartialEq, Eq)]
pub struct FilePair {
    pub local: String,
    pub remote: String,
}

/// Mathematical model of a [`FilePair`].
pub struct FilePairView {
    pub local: Seq<char>,
    pub remote: Seq<char>,
}

impl View for FilePair {
    type V = FilePairView;

    open spec fn view(&self) -> FilePairView {
        FilePairView { local: self.local@, remote: self.remote@ }
    }
}

impl Clone for FilePair {
    fn clone(&self) -> (r: Self)
        ensures
            r@ == self@,
    {
        FilePair { local: self.local.clone(), remote: self.remote.clone() }
    }
}

impl FilePair {
    /// The pair of `local` and `remote`.
    pub fn new(local: &str, remote: &str) -> (r: FilePair)
        ensures
            r@ == (FilePairView { local: local@, remote: remote@ }),
    {
        FilePair { local: String::from_str(local), remote: String::from_str(remote) }
    }
}

/// The models of a list of pairs.
pub open spec fn pair_views(pairs: Seq<FilePair>) -> Seq<FilePairView> {
    pairs.map_values(|p: FilePair| p@)
}

/// The files of one category, in the order in which they are shown.
#[derive(Debug, PartialEq, Eq)]
pub struct DeploymentItem {
    pub category: Category,
    pub files: Vec<FilePair>,
}

/// Mathematical model of a [`DeploymentItem`].
pub struct DeploymentItemView {
    pub category: Category,
    pub files: Seq<FilePairView>,
}

impl View for DeploymentItem {
    type V = DeploymentItemView;

    open spec fn view(&self) -> DeploymentItemView {
        DeploymentItemView { category: self.category, files: pair_views(self.files@) }
    }
}

/// The models of a list of items.
pub open spec fn item_views(items: Seq<DeploymentItem>) -> Seq<DeploymentItemView> {
    items.map_values(|i: DeploymentItem| i@)
}

/// What is deployed.
#[derive(Clone, Copy, Debug, PartialEq, Eq, Structural)]
pub enum DeployMode {
    /// Everything: bootstrap script, scripts, configuration and services.
    All,
    /// The diagnostic scripts alone.
    ScriptsOnly,
    /// The configuration alone.
    ConfigOnly,
}

/// The mode that the three flags select: everything if asked for or if
/// nothing narrower is asked for, else the scripts, else the
/// configuration.
pub open spec fn selected_mode(all: bool, scripts_only: bool, config_only: bool) -> DeployMode {
    if all || (!scripts_only && !config_only) {
        DeployMode::All
    } else if scripts_only {
        DeployMode::ScriptsOnly
    } else {
        DeployMode::ConfigOnly
    }
}

/// The pair of a local and a remote path.
pub open spec fn pair(local: Seq<char>, remote: Seq<char>) -> FilePairView {
    FilePairView { local: local, remote: remote }
}

/// The four diagnostic scripts.
pub open spec fn script_files() -> Seq<FilePairView> {
    seq![
        pair("scripts/temp"@, "~/scripts/temp"@),
        pair("scripts/battery"@, "~/scripts/battery"@),
        pair("scripts/power_diagnostics"@, "~/scripts/power_diagnostics"@),
        pair("scripts/setup_aliases.sh"@, "~/scripts/setup_aliases.sh"@),
    ]
}

/// The manifest: what each mode deploys, category by category.
pub open spec fn manifest(mode: DeployMode) -> Seq<DeploymentItemView> {
    match mode {
        DeployMode::All => seq![
            DeploymentItemView {
                category: Category::ServerSetup,
                files: seq![pair("server_setup.sh"@, "~/server_setup.sh"@)],
            },
            DeploymentItemView { category: Category::Scripts, files: script_files() },
            DeploymentItemView {
                category: Category::Configs,
                files: seq![
                    pair("caffeinate.plist"@, "~/Library/LaunchAgents/caffeinate.plist"@),
                ],
            },
            DeploymentItemView {
                category: Category::Services,
                files: seq![pair("docs/"@, "~/docs/"@)],
            },
        ],
        DeployMode::ScriptsOnly => seq![
            DeploymentItemView { category: Category::Scripts, files: script_files() },
        ],
        DeployMode::ConfigOnly => seq![
            DeploymentItemView {
                category: Category::Configs,
                files: seq![
                    pair("caffeinate.plist"@, "~/Library/LaunchAgents/caffeinate.plist"@),
                    pair("server_setup.sh"@, "~/server_setup.sh"@),
                ],
            },
        ],
    }
}

/// The files and directories of a full installation, each with its
/// destination.
pub open spec fn installation_files() -> Seq<FilePairView> {
    seq![
        pair("server_setup.sh"@, "~/server_setup.sh"@),
        pair("caffeinate.plist"@, "~/Library/LaunchAgents/caffeinate.plist"@),
        pair("scripts/"@, "~/scripts/"@),
        pair("docs/"@, "~/docs/"@),
    ]
}

/// The remote paths whose presence shows a working installation.
pub open spec fn installed_paths() -> Seq<Seq<char>> {
    seq![
        "~/server_setup.sh"@,
        "~/scripts/temp"@,
        "~/scripts/battery"@,
        "~/scripts/power_diagnostics"@,
    ]
}

fn scripts_item() -> (r: DeploymentItem)
    ensures
        r@ == (DeploymentItemView { category: Category::Scripts, files: script_files() }),
{
    let mut files: Vec<FilePair> = Vec::new();
    files.push(FilePair::new("scripts/temp", "~/scripts/temp"));
    files.push(FilePair::new("scripts/battery", "~/scripts/battery"));
    files.push(FilePair::new("scripts/power_diagnostics", "~/scripts/power_diagnostics"));
    files.push(FilePair::new("scripts/setup_aliases.sh", "~/scripts/setup_aliases.sh"));
    assert(pair_views(files@) =~= script_files());
    DeploymentItem { category: Category::Scripts, files }
}

impl DeployMode {
    /// The mode that the three flags of a command line select.
    pub fn from_flags(all: bool, scripts_only: bool, config_only: bool) -> (r: DeployMode)
        ensures
            r == selected_mode(all, scripts_only, config_only),
    {
        if all || (!scripts_only && !config_only) {
            DeployMode::All
        } else if scripts_only {
            DeployMode::ScriptsOnly
        } else {
            DeployMode::ConfigOnly
        }
    }
}

/// The ordered work of a deployment in the given mode.
pub fn plan(mode: DeployMode) -> (items: Vec<DeploymentItem>)
    ensures
        item_views(items@) == manifest(mode),
{
    let mut items: Vec<DeploymentItem> = Vec::new();
    match mode {
        DeployMode::All => {
            let mut setup: Vec<FilePair> = Vec::new();
            setup.push(FilePair::new("server_setup.sh", "~/server_setup.sh"));
            assert(pair_views(setup@) =~= seq![pair("server_setup.sh"@, "~/server_setup.sh"@)]);
            items.push(DeploymentItem { category: Category::ServerSetup, files: setup });
            items.push(scripts_item());
            let mut configs: Vec<FilePair> = Vec::new();
            configs.push(
                FilePair::new("caffeinate.plist", "~/Library/LaunchAgents/caffeinate.plist"),
            );
            assert(pair_views(configs@) =~= seq![
                pair("caffeinate.plist"@, "~/Library/LaunchAgents/caffeinate.plist"@),
            ]);
            items.push(DeploymentItem { category: Category::Configs, files: configs });
            let mut services: Vec<FilePair> = Vec::new();
            services.push(FilePair::new("docs/", "~/docs/"));
            assert(pair_views(services@) =~= seq![pair("docs/"@, "~/docs/"@)]);
            items.push(DeploymentItem { category: Category::Services, files: services });
            assert(item_views(items@) =~= manifest(mode));
        },
        DeployMode::ScriptsOnly => {
            items.push(scripts_item());
            assert(item_views(items@) =~= manifest(mode));
        },
        DeployMode::ConfigOnly => {
            let mut configs: Vec<FilePair> = Vec::new();
            configs.push(
                FilePair::new("caffeinate.plist", "~/Library/LaunchAgents/caffeinate.plist"),
            );
            configs.push(FilePair::new("server_setup.sh", "~/server_setup.sh"));
            assert(pair_views(configs@) =~= seq![
                pair("caffeinate.plist"@, "~/Library/LaunchAgents/caffeinate.plist"@),
                pair("server_setup.sh"@, "~/server_setup.sh"@),
            ]);
            items.push(DeploymentItem { category: Category::Configs, files: configs });
            assert(item_views(items@) =~= manifest(mode));
        },
    }
    items
}

/// The ordered work that the three flags of a command line select.
pub fn determine_deployment_items(all: bool, scripts_only: bool, config_only: bool) -> (items:
    Vec<DeploymentItem>)
    ensures
        item_views(items@) == manifest(selected_mode(all, scripts_only, config_only)),
{
    plan(DeployMode::from_flags(all, scripts_only, config_only))
}

/// Planning is a function of the mode alone: two plans for one mode are
/// the same list.
pub proof fn lemma_plan_deterministic(
    mode: DeployMode,
    first: Seq<DeploymentItemView>,
    second: Seq<DeploymentItemView>,
)
    requires
        first == manifest(mode),
        second == manifest(mode),
    ensures
        first == second,
{
}

/// No mode yields an empty plan, and the categories of a plan come in the
/// order server-setup, scripts, configs, services.
pub proof fn lemma_manifest_shape(mode: DeployMode)
    ensures
        manifest(mode).len() > 0,
        manifest(DeployMode::All).len() == 4,
        manifest(DeployMode::All)[0].category == Category::ServerSetup,
        manifest(DeployMode::All)[1].category == Category::Scripts,
        manifest(DeployMode::All)[2].category == Category::Configs,
        manifest(DeployMode::All)[3].category == Category::Services,
        manifest(DeployMode::ScriptsOnly).len() == 1,
        manifest(DeployMode::ScriptsOnly)[0].category == Category::Scripts,
        manifest(DeployMode::ScriptsOnly)[0].files == script_files(),
        manifest(DeployMode::ConfigOnly).len() == 1,
        manifest(DeployMode::ConfigOnly)[0].category == Category::Configs,
{
}

/// The files and directories of a full installation, each with its
/// destination.
pub fn get_deployment_files() -> (files: Vec<FilePair>)
    ensures
        pair_views(files@) == installation_files(),
{
    let mut files: Vec<FilePair> = Vec::new();
    files.push(FilePair::new("server_setup.sh", "~/server_setup.sh"));
    files.push(FilePair::new("caffeinate.plist", "~/Library/LaunchAgents/caffeinate.plist"));
    files.push(FilePair::new("scripts/", "~/scripts/"));
    files.push(FilePair::new("docs/", "~/docs/"));
    assert(pair_views(files@) =~= installation_files());
    files
}

/// The remote paths to look for when an installation is verified.
pub fn deployment_check_paths() -> (paths: Vec<String>)
    ensures
        texts(paths@) == installed_paths(),
{
    let mut paths: Vec<String> = Vec::new();
    paths.push(String::from_str("~/server_setup.sh"));
    paths.push(String::from_str("~/scripts/temp"));
    paths.push(String::from_str("~/scripts/battery"));
    paths.push(String::from_str("~/scripts/power_diagnostics"));
    assert(texts(paths@) =~= installed_paths());
    paths
}

/// The target of a deployment to `host`: the registered server that
/// `host` resolves to, else a temporary definition for `user` at `host`.
pub open spec fn target_for(
    servers: TableView,
    host: Seq<char>,
    user: Option<Seq<char>>,
    port: u32,
) -> Option<ServerDefinitionView> {
    match resolve(servers, host) {
        Some(server) => Some(server),
        None => match user {
            Some(u) => Some(
                ServerDefinitionView {
                    name: host,
                    host: host,
                    user: u,
                    port: port,
                    ssh_key: None,
                    tags: seq!["temporary"@],
                    enabled: true,
                    last_seen: None,
                },
            ),
            None => None,
        },
    }
}

/// Finds the target of a deployment to `host`: the registered server that
/// `host` resolves to, else a temporary definition for `user` at `host`.
///
/// Fails with `UserNotSpecified` if `host` resolves to no server and no
/// user is given.
pub fn resolve_or_create_server(host: &str, user: Option<String>, port: u32, config: &Config) -> (r:
    Result<ServerDefinition, ConfigError>)
    requires
        config.wf(),
    ensures
        match r {
            Ok(server) => target_for(config@.servers, host@, opt_text(user), port)
                == Some(server@),
            Err(e) => target_for(config@.servers, host@, opt_text(user), port)
                is None && e@ == ConfigErrorView::UserNotSpecified(host@),
        },
{
    match config.resolve_server(host) {
        Some(server) => Ok(server.clone()),
        None => match user {
            Some(u) => {
                let mut tags: Vec<String> = Vec::new();
                tags.push(String::from_str("temporary"));
                let server = ServerDefinition {
                    name: String::from_str(host),
                    host: String::from_str(host),
                    user: u,
                    port,
                    ssh_key: None,
                    tags,
                    enabled: true,
                    last_seen: None,
                };
                assert(server@.tags =~= seq!["temporary"@]);
                Ok(server)
            },
            None => Err(ConfigError::UserNotSpecified(String::from_str(host))),
        },
    }
}

} // verus!
