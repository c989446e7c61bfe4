//! The configuration model: client, server and connection defaults together
//! with the registry of named remote targets.
//!
//! The registry keeps its entries in insertion order. Its model is the
//! sequence of `(key, definition)` pairs, and a well-formed registry holds
//! every key once.

use crate::error::{
    append_degrees, degrees_text, ConfigError, ConfigErrorView, ConfigIssue, ConfigIssueView,
};
use crate::path::{join_path, joined};
use crate::platform::{
    config_directory, expand_home, home_directory, local_hostname, tilde_expanded,
};
use crate::text::{
    append_decimal, clone_opt, clone_strings, decimal, opt_text, parse_unsigned, parsed_unsigned,
    same_text, texts,
};
use vstd::prelude::*;

verus! {

/// Client-side defaults.
#[derive(Debug, PartialEq, Eq)]
pub struct ClientConfig {
    /// Name of the target used when a command names none.
    pub default_server: Option<String>,
    /// Seconds after which a deployment is given up.
    pub deployment_timeout: u64,
    pub concurrent_operations: usize,
    pub auto_backup: bool,
}

/// Mathematical model of a [`ClientConfig`].
pub struct ClientConfigView {
    pub default_server: Option<Seq<char>>,
    pub deployment_timeout: u64,
    pub concurrent_operations: usize,
    pub auto_backup: bool,
}

impl View for ClientConfig {
    type V = ClientConfigView;

    open spec fn view(&self) -> ClientConfigView {
        ClientConfigView {
            default_server: opt_text(self.default_server),
            deployment_timeout: self.deployment_timeout,
            concurrent_operations: self.concurrent_operations,
            auto_backup: self.auto_backup,
        }
    }
}

impl Clone for ClientConfig {
    fn clone(&self) -> (r: Self)
        ensures
            r@ == self@,
    {
        ClientConfig {
            default_server: clone_opt(&self.default_server),
            deployment_timeout: self.deployment_timeout,
            concurrent_operations: self.concurrent_operations,
            auto_backup: self.auto_backup,
        }
    }
}

/// Settings of the machine when it acts as a server.
#[derive(Debug, PartialEq, Eq)]
pub struct ServerConfig {
    pub name: String,
    /// Seconds between two monitoring rounds.
    pub monitoring_interval: u64,
    /// Temperature above which the machine counts as hot, in tenths of a
    /// degree Celsius.
    pub temp_threshold: i32,
    /// Battery charge, in percent, below which a warning is due.
    pub battery_warning_level: u8,
    pub auto_restart_services: bool,
    pub log_level: String,
    pub services: Vec<String>,
}

/// Mathematical model of a [`ServerConfig`].
pub struct ServerConfigView {
    pub name: Seq<char>,
    pub monitoring_interval: u64,
    pub temp_threshold: i32,
    pub battery_warning_level: u8,
    pub auto_restart_services: bool,
    pub log_level: Seq<char>,
    pub services: Seq<Seq<char>>,
}

impl View for ServerConfig {
    type V = ServerConfigView;

    open spec fn view(&self) -> ServerConfigView {
        ServerConfigView {
            name: self.name@,
            monitoring_interval: self.monitoring_interval,
            temp_threshold: self.temp_threshold,
            battery_warning_level: self.battery_warning_level,
            auto_restart_services: self.auto_restart_services,
            log_level: self.log_level@,
            services: texts(self.services@),
        }
    }
}

impl Clone for ServerConfig {
    fn clone(&self) -> (r: Self)
        ensures
            r@ == self@,
    {
        ServerConfig {
            name: self.name.clone(),
            monitoring_interval: self.monitoring_interval,
            temp_threshold: self.temp_threshold,
            battery_warning_level: self.battery_warning_level,
            auto_restart_services: self.auto_restart_services,
            log_level: self.log_level.clone(),
            services: clone_strings(&self.services),
        }
    }
}

/// One remote target.
#[derive(Debug, PartialEq, Eq)]
pub struct ServerDefinition {
    /// Logical name, the key under which the registry holds the target.
    pub name: String,
    /// DNS name or address.
    pub host: String,
    pub user: String,
    /// Port of the remote shell; valid ports are `1..=65535`.
    pub port: u32,
    /// Path of a private key used for this target alone.
    pub ssh_key: Option<String>,
    pub tags: Vec<String>,
    pub enabled: bool,
    /// Time of the last successful contact, in seconds since the Unix epoch.
    pub last_seen: Option<i64>,
}

/// Mathematical model of a [`ServerDefinition`].
pub struct ServerDefinitionView {
    pub name: Seq<char>,
    pub host: Seq<char>,
    pub user: Seq<char>,
    pub port: u32,
    pub ssh_key: Option<Seq<char>>,
    pub tags: Seq<Seq<char>>,
    pub enabled: bool,
    pub last_seen: Option<i64>,
}

impl View for ServerDefinition {
    type V = ServerDefinitionView;

    open spec fn view(&self) -> ServerDefinitionView {
        ServerDefinitionView {
            name: self.name@,
            host: self.host@,
            user: self.user@,
            port: self.port,
            ssh_key: opt_text(self.ssh_key),
            tags: texts(self.tags@),
            enabled: self.enabled,
            last_seen: self.last_seen,
        }
    }
}

impl Clone for ServerDefinition {
    fn clone(&self) -> (r: Self)
        ensures
            r@ == self@,
    {
        ServerDefinition {
            name: self.name.clone(),
            host: self.host.clone(),
            user: self.user.clone(),
            port: self.port,
            ssh_key: clone_opt(&self.ssh_key),
            tags: clone_strings(&self.tags),
            enabled: self.enabled,
            last_seen: self.last_seen,
        }
    }
}

/// Connection defaults shared by all targets.
#[derive(Debug, PartialEq, Eq)]
pub struct SshConfig {
    /// Seconds allowed for establishing the transport.
    pub connect_timeout: u64,
    pub command_timeout: u64,
    /// Private key used where a target names none.
    pub key_path: Option<String>,
    pub known_hosts_file: Option<String>,
    pub compression: bool,
    pub keep_alive: bool,
}

/// Mathematical model of an [`SshConfig`].
pub struct SshConfigView {
    pub connect_timeout: u64,
    pub command_timeout: u64,
    pub key_path: Option<Seq<char>>,
    pub known_hosts_file: Option<Seq<char>>,
    pub compression: bool,
    pub keep_alive: bool,
}

impl View for SshConfig {
    type V = SshConfigView;

    open spec fn view(&self) -> SshConfigView {
        SshConfigView {
            connect_timeout: self.connect_timeout,
            command_timeout: self.command_timeout,
            key_path: opt_text(self.key_path),
            known_hosts_file: opt_text(self.known_hosts_file),
            compression: self.compression,
            keep_alive: self.keep_alive,
        }
    }
}

impl Clone for SshConfig {
    fn clone(&self) -> (r: Self)
        ensures
            r@ == self@,
    {
        SshConfig {
            connect_timeout: self.connect_timeout,
            command_timeout: self.command_timeout,
            key_path: clone_opt(&self.key_path),
            known_hosts_file: clone_opt(&self.known_hosts_file),
            compression: self.compression,
            keep_alive: self.keep_alive,
        }
    }
}

/// Model of a registry: its `(key, definition)` pairs in insertion order.
pub type TableView = Seq<(Seq<char>, ServerDefinitionView)>;

/// Whether `t` holds an entry under `key`.
pub open spec fn has_key(t: TableView, key: Seq<char>) -> bool {
    exists|i: int| 0 <= i < t.len() && (#[trigger] t[i]).0 == key
}

/// Whether every key of `t` occurs once.
pub open spec fn keys_distinct(t: TableView) -> bool {
    forall|i: int, j: int| 0 <= i < j < t.len() ==> (#[trigger] t[i]).0 != (#[trigger] t[j]).0
}

/// An index at which `t` holds `key`; the only one where keys are distinct.
pub open spec fn key_index(t: TableView, key: Seq<char>) -> int {
    choose|i: int| 0 <= i < t.len() && (#[trigger] t[i]).0 == key
}

/// The definition that `t` holds under `key`.
pub open spec fn value_of(t: TableView, key: Seq<char>) -> ServerDefinitionView {
    t[key_index(t, key)].1
}

/// Whether some definition of `t` has the host `host`.
pub open spec fn has_host(t: TableView, host: Seq<char>) -> bool {
    exists|i: int| 0 <= i < t.len() && (#[trigger] t[i]).1.host == host
}

/// Whether `i` is the first index of `t` whose definition has the host
/// `host`.
pub open spec fn is_first_host(t: TableView, host: Seq<char>, i: int) -> bool {
    &&& 0 <= i < t.len()
    &&& t[i].1.host == host
    &&& forall|j: int| 0 <= j < i ==> (#[trigger] t[j]).1.host != host
}

/// The first index of `t` whose definition has the host `host`.
pub open spec fn first_host_index(t: TableView, host: Seq<char>) -> int {
    choose|i: int| is_first_host(t, host, i)
}

/// Resolution of an identifier: the definition stored under that name, else
/// the first definition with that host, else nothing.
pub open spec fn resolve(t: TableView, identifier: Seq<char>) -> Option<ServerDefinitionView> {
    if has_key(t, identifier) {
        Some(value_of(t, identifier))
    } else if has_host(t, identifier) {
        Some(t[first_host_index(t, identifier)].1)
    } else {
        None
    }
}

/// In a registry with distinct keys, the index of a key is the one index
/// that holds it.
pub proof fn lemma_key_index(t: TableView, key: Seq<char>, i: int)
    requires
        keys_distinct(t),
        0 <= i < t.len(),
        t[i].0 == key,
    ensures
        has_key(t, key),
        key_index(t, key) == i,
        value_of(t, key) == t[i].1,
{
    let k = key_index(t, key);
    if k < i {
        assert(t[k].0 != t[i].0);
    } else if i < k {
        assert(t[i].0 != t[k].0);
    }
}

/// The first index with a given host is unique.
pub proof fn lemma_first_host(t: TableView, host: Seq<char>, i: int)
    requires
        is_first_host(t, host, i),
    ensures
        has_host(t, host),
        first_host_index(t, host) == i,
{
    let k = first_host_index(t, host);
    if k < i {
        assert(t[k].1.host != host);
    } else if i < k {
        assert(t[i].1.host != host);
    }
}

/// One entry of the registry.
#[derive(Debug, PartialEq, Eq)]
pub struct ServerEntry {
    pub key: String,
    pub server: ServerDefinition,
}

/// The registry of named remote targets, in insertion order.
#[derive(Debug, PartialEq, Eq)]
pub struct ServerTable {
    entries: Vec<ServerEntry>,
}

impl View for ServerTable {
    type V = TableView;

    closed spec fn view(&self) -> TableView {
        self.entries@.map_values(|e: ServerEntry| (e.key@, e.server@))
    }
}

impl Clone for ServerTable {
    fn clone(&self) -> (r: Self)
        ensures
            r@ == self@,
    {
        let mut entries: Vec<ServerEntry> = Vec::new();
        let mut i: usize = 0;
        while i < self.entries.len()
            invariant
                i <= self.entries.len(),
                entries.len() == i,
                forall|k: int|
                    0 <= k < i ==> entries@[k].key@ == self.entries@[k].key@ && entries@[k].server@
                        == self.entries@[k].server@,
            decreases self.entries.len() - i,
        {
            entries.push(
                ServerEntry {
                    key: self.entries[i].key.clone(),
                    server: self.entries[i].server.clone(),
                },
            );
            i += 1;
        }
        let r = ServerTable { entries };
        assert(r@ =~= self@);
        r
    }
}

impl ServerTable {
    /// Whether every key occurs once.
    pub open spec fn wf(&self) -> bool {
        keys_distinct(self@)
    }

    /// The empty registry.
    pub fn new() -> (r: ServerTable)
        ensures
            r@ == Seq::<(Seq<char>, ServerDefinitionView)>::empty(),
            r.wf(),
    {
        let r = ServerTable { entries: Vec::new() };
        assert(r@ =~= Seq::<(Seq<char>, ServerDefinitionView)>::empty());
        r
    }

    /// Number of entries.
    pub fn len(&self) -> (n: usize)
        ensures
            n == self@.len(),
    {
        self.entries.len()
    }

    /// Whether the registry is empty.
    pub fn is_empty(&self) -> (r: bool)
        ensures
            r == (self@.len() == 0),
    {
        self.entries.len() == 0
    }

    /// The key of the entry at `index`.
    pub fn key_at(&self, index: usize) -> (r: &String)
        requires
            index < self@.len(),
        ensures
            r@ == self@[index as int].0,
    {
        &self.entries[index].key
    }

    /// The definition of the entry at `index`.
    pub fn server_at(&self, index: usize) -> (r: &ServerDefinition)
        requires
            index < self@.len(),
        ensures
            r@ == self@[index as int].1,
    {
        &self.entries[index].server
    }

    /// The index of the entry stored under `key`.
    pub fn position(&self, key: &str) -> (r: Option<usize>)
        ensures
            match r {
                Some(i) => i < self@.len() && self@[i as int].0 == key@,
                None => !has_key(self@, key@),
            },
            self.wf() && r is Some ==> r->0 == key_index(self@, key@),
    {
        let mut i: usize = 0;
        while i < self.entries.len()
            invariant
                i <= self.entries.len(),
                forall|k: int| 0 <= k < i ==> (#[trigger] self@[k]).0 != key@,
            decreases self.entries.len() - i,
        {
            if same_text(self.entries[i].key.as_str(), key) {
                proof {
                    if self.wf() {
                        lemma_key_index(self@, key@, i as int);
                    }
                }
                return Some(i);
            }
            i += 1;
        }
        None
    }

    /// Whether an entry is stored under `key`.
    pub fn contains_key(&self, key: &str) -> (r: bool)
        ensures
            r == has_key(self@, key@),
    {
        self.position(key).is_some()
    }

    /// The definition stored under `key`.
    pub fn get(&self, key: &str) -> (r: Option<&ServerDefinition>)
        requires
            self.wf(),
        ensures
            match r {
                Some(s) => has_key(self@, key@) && s@ == value_of(self@, key@),
                None => !has_key(self@, key@),
            },
    {
        match self.position(key) {
            Some(i) => Some(&self.entries[i].server),
            None => None,
        }
    }

    /// The index of the first definition whose host is `host`.
    pub fn position_of_host(&self, host: &str) -> (r: Option<usize>)
        ensures
            match r {
                Some(i) => is_first_host(self@, host@, i as int) && i == first_host_index(
                    self@,
                    host@,
                ),
                None => !has_host(self@, host@),
            },
    {
        let mut i: usize = 0;
        while i < self.entries.len()
            invariant
                i <= self.entries.len(),
                forall|k: int| 0 <= k < i ==> (#[trigger] self@[k]).1.host != host@,
            decreases self.entries.len() - i,
        {
            if same_text(self.entries[i].server.host.as_str(), host) {
                proof {
                    lemma_first_host(self@, host@, i as int);
                }
                return Some(i);
            }
            i += 1;
        }
        None
    }

    /// Stores `server` under `key`, replacing what was stored there, and
    /// returns what it replaced.
    pub fn insert(&mut self, key: String, server: ServerDefinition) -> (r: Option<
        ServerDefinition,
    >)
        requires
            old(self).wf(),
        ensures
            final(self).wf(),
            match r {
                Some(previous) => has_key(old(self)@, key@) && previous@ == value_of(
                    old(self)@,
                    key@,
                ) && final(self)@ == old(self)@.update(
                    key_index(old(self)@, key@),
                    (key@, server@),
                ),
                None => !has_key(old(self)@, key@) && final(self)@ == old(self)@.push(
                    (key@, server@),
                ),
            },
    {
        match self.position(key.as_str()) {
            Some(i) => {
                let ghost before = self@;
                let ghost pair = (key@, server@);
                let previous = self.entries.remove(i);
                self.entries.insert(i, ServerEntry { key, server });
                assert(self@ =~= before.update(i as int, pair));
                Some(previous.server)
            },
            None => {
                let ghost before = self@;
                let ghost pair = (key@, server@);
                self.entries.push(ServerEntry { key, server });
                assert(self@ =~= before.push(pair));
                None
            },
        }
    }

    /// Removes the entry stored under `key` and returns its definition.
    pub fn remove(&mut self, key: &str) -> (r: Option<ServerDefinition>)
        requires
            old(self).wf(),
        ensures
            final(self).wf(),
            match r {
                Some(removed) => has_key(old(self)@, key@) && removed@ == value_of(
                    old(self)@,
                    key@,
                ) && final(self)@ == old(self)@.remove(key_index(old(self)@, key@)),
                None => !has_key(old(self)@, key@) && final(self)@ == old(self)@,
            },
            !has_key(final(self)@, key@),
    {
        match self.position(key) {
            Some(i) => {
                let ghost before = self@;
                let removed = self.entries.remove(i);
                assert(self@ =~= before.remove(i as int));
                assert(!has_key(self@, key@)) by {
                    assert forall|k: int| 0 <= k < self@.len() implies (#[trigger] self@[k]).0
                        != key@ by {
                        if k < i {
                            assert(before[k].0 != before[i as int].0);
                        } else {
                            assert(before[i as int].0 != before[k + 1].0);
                        }
                    }
                }
                Some(removed.server)
            },
            None => None,
        }
    }

    /// Sets the time of last contact of the definition at `index`.
    pub fn set_last_seen_at(&mut self, index: usize, timestamp: i64)
        requires
            index < old(self)@.len(),
        ensures
            final(self)@ == old(self)@.update(
                index as int,
                (
                    old(self)@[index as int].0,
                    ServerDefinitionView {
                        last_seen: Some(timestamp),
                        ..old(self)@[index as int].1
                    },
                ),
            ),
            old(self).wf() ==> final(self).wf(),
    {
        let ghost before = self@;
        let mut entry = self.entries.remove(index);
        entry.server.last_seen = Some(timestamp);
        self.entries.insert(index, entry);
        assert(self@ =~= before.update(
            index as int,
            (
                before[index as int].0,
                ServerDefinitionView { last_seen: Some(timestamp), ..before[index as int].1 },
            ),
        ));
        assert(keys_distinct(before) ==> keys_distinct(self@)) by {
            assert forall|k: int| 0 <= k < self@.len() implies (#[trigger] self@[k]).0
                == before[k].0 by {}
            if keys_distinct(before) {
                assert forall|i: int, j: int| 0 <= i < j < self@.len() implies (
                #[trigger] self@[i]).0 != (#[trigger] self@[j]).0 by {
                    assert(before[i].0 != before[j].0);
                }
            }
        }
    }
}

/// The whole configuration.
#[derive(Debug, PartialEq, Eq)]
pub struct Config {
    pub client: ClientConfig,
    pub server: ServerConfig,
    pub servers: ServerTable,
    pub ssh: SshConfig,
}

/// Mathematical model of a [`Config`].
pub struct ConfigView {
    pub client: ClientConfigView,
    pub server: ServerConfigView,
    pub servers: TableView,
    pub ssh: SshConfigView,
}

impl View for Config {
    type V = ConfigView;

    open spec fn view(&self) -> ConfigView {
        ConfigView {
            client: self.client@,
            server: self.server@,
            servers: self.servers@,
            ssh: self.ssh@,
        }
    }
}

impl Clone for Config {
    fn clone(&self) -> (r: Self)
        ensures
            r@ == self@,
    {
        Config {
            client: self.client.clone(),
            server: self.server.clone(),
            servers: self.servers.clone(),
            ssh: self.ssh.clone(),
        }
    }
}

/// Values taken from the environment of the process that override the
/// stored configuration.
#[derive(Debug, PartialEq, Eq)]
pub struct EnvOverrides {
    /// Host of an ad hoc target.
    pub host: Option<String>,
    /// User of the ad hoc target.
    pub user: Option<String>,
    /// Port of the ad hoc target, as written.
    pub port: Option<String>,
    /// Private key for all targets and for the ad hoc target.
    pub ssh_key: Option<String>,
    pub log_level: Option<String>,
}

/// Mathematical model of [`EnvOverrides`].
pub struct EnvOverridesView {
    pub host: Option<Seq<char>>,
    pub user: Option<Seq<char>>,
    pub port: Option<Seq<char>>,
    pub ssh_key: Option<Seq<char>>,
    pub log_level: Option<Seq<char>>,
}

impl View for EnvOverrides {
    type V = EnvOverridesView;

    open spec fn view(&self) -> EnvOverridesView {
        EnvOverridesView {
            host: opt_text(self.host),
            user: opt_text(self.user),
            port: opt_text(self.port),
            ssh_key: opt_text(self.ssh_key),
            log_level: opt_text(self.log_level),
        }
    }
}

/// The configuration of a fresh installation on the machine named `name`.
pub open spec fn default_config(name: Seq<char>) -> ConfigView {
    ConfigView {
        client: ClientConfigView {
            default_server: None,
            deployment_timeout: 300,
            concurrent_operations: 4,
            auto_backup: true,
        },
        server: ServerConfigView {
            name: name,
            monitoring_interval: 30,
            temp_threshold: 800,
            battery_warning_level: 20,
            auto_restart_services: true,
            log_level: "info"@,
            services: seq!["caffeinate"@, "plan10-monitor"@],
        },
        servers: Seq::empty(),
        ssh: SshConfigView {
            connect_timeout: 30,
            command_timeout: 60,
            key_path: None,
            known_hosts_file: None,
            compression: true,
            keep_alive: true,
        },
    }
}

/// The configuration after `server` was added under its own name.
pub open spec fn add_spec(c: ConfigView, server: ServerDefinitionView) -> ConfigView {
    ConfigView { servers: c.servers.push((server.name, server)), ..c }
}

/// The configuration after the server stored under `name` was removed: the
/// entry is gone, and so is a default target that named it.
pub open spec fn remove_spec(c: ConfigView, name: Seq<char>) -> ConfigView {
    ConfigView {
        servers: c.servers.remove(key_index(c.servers, name)),
        client: ClientConfigView {
            default_server: if c.client.default_server == Some(name) {
                None
            } else {
                c.client.default_server
            },
            ..c.client
        },
        ..c
    }
}

/// The configuration after the server stored under `name` was seen at
/// `timestamp`.
pub open spec fn touch_spec(c: ConfigView, name: Seq<char>, timestamp: i64) -> ConfigView {
    let i = key_index(c.servers, name);
    ConfigView {
        servers: c.servers.update(
            i,
            (c.servers[i].0, ServerDefinitionView { last_seen: Some(timestamp), ..c.servers[i].1 }),
        ),
        ..c
    }
}

/// The definition that the default target names, if it names one that the
/// registry holds.
pub open spec fn default_target(c: ConfigView) -> Option<ServerDefinitionView> {
    match c.client.default_server {
        Some(name) => if has_key(c.servers, name) {
            Some(value_of(c.servers, name))
        } else {
            None
        },
        None => None,
    }
}

/// What is wrong with the definition `server` stored under `key`, if
/// anything: the first of a name that differs from the key, an empty host,
/// an empty user, and a port outside `1..=65535`.
pub open spec fn entry_issue(key: Seq<char>, server: ServerDefinitionView) -> Option<
    ConfigIssueView,
> {
    if server.name != key {
        Some(ConfigIssueView::NameMismatch { key: key, name: server.name })
    } else if server.host.len() == 0 {
        Some(ConfigIssueView::EmptyHost { name: key })
    } else if server.user.len() == 0 {
        Some(ConfigIssueView::EmptyUser { name: key })
    } else if server.port == 0 || server.port > 65535 {
        Some(ConfigIssueView::InvalidPort { name: key, port: server.port })
    } else {
        None
    }
}

/// The issue of the first entry at or after `from` that has one.
pub open spec fn first_entry_issue(t: TableView, from: int) -> Option<ConfigIssueView>
    decreases t.len() - from,
{
    if from < 0 || from >= t.len() {
        None
    } else if entry_issue(t[from].0, t[from].1) is Some {
        entry_issue(t[from].0, t[from].1)
    } else {
        first_entry_issue(t, from + 1)
    }
}

/// What is wrong with the settings outside the registry entries, if
/// anything: the first of a default target that the registry does not hold,
/// a temperature threshold outside 0 to 150 degrees, and a battery warning
/// level above 100 percent.
pub open spec fn settings_issue(c: ConfigView) -> Option<ConfigIssueView> {
    if c.client.default_server is Some && !has_key(c.servers, c.client.default_server->0) {
        Some(ConfigIssueView::MissingDefault { name: c.client.default_server->0 })
    } else if c.server.temp_threshold < 0 || c.server.temp_threshold > 1500 {
        Some(ConfigIssueView::TemperatureThreshold { tenths: c.server.temp_threshold })
    } else if c.server.battery_warning_level > 100 {
        Some(ConfigIssueView::BatteryWarningLevel { level: c.server.battery_warning_level })
    } else {
        None
    }
}

/// The first rule that the configuration breaks, if any: the entries are
/// checked in order, then the settings.
pub open spec fn config_issue(c: ConfigView) -> Option<ConfigIssueView> {
    if first_entry_issue(c.servers, 0) is Some {
        first_entry_issue(c.servers, 0)
    } else {
        settings_issue(c)
    }
}

/// Whether a definition can be registered without making the configuration
/// invalid: it has a host, a user and a port in `1..=65535`.
pub open spec fn definition_ok(server: ServerDefinitionView) -> bool {
    &&& server.host.len() > 0
    &&& server.user.len() > 0
    &&& 1 <= server.port <= 65535
}

/// A configured path with its tilde expanded, else `file` in the `.ssh`
/// directory under the home directory, else nothing.
pub open spec fn ssh_path(
    configured: Option<Seq<char>>,
    home: Option<Seq<char>>,
    file: Seq<char>,
) -> Option<Seq<char>> {
    match configured {
        Some(path) => Some(tilde_expanded(path, home)),
        None => match home {
            Some(h) => Some(joined(joined(h, ".ssh"@), file)),
            None => None,
        },
    }
}

/// The port of the ad hoc target: the number written in the environment
/// where it is a port number, else 22.
pub open spec fn env_port(port: Option<Seq<char>>) -> u32 {
    match port {
        Some(text) => match parsed_unsigned(text, 65535) {
            Some(n) => n as u32,
            None => 22,
        },
        None => 22,
    }
}

/// The ad hoc target that the environment describes.
pub open spec fn env_server(env: EnvOverridesView) -> ServerDefinitionView {
    ServerDefinitionView {
        name: "env"@,
        host: env.host->0,
        user: env.user->0,
        port: env_port(env.port),
        ssh_key: env.ssh_key,
        tags: seq!["env"@],
        enabled: true,
        last_seen: None,
    }
}

/// The registry with `server` stored under `key`, in place of what was
/// stored there before.
pub open spec fn upsert(t: TableView, key: Seq<char>, server: ServerDefinitionView) -> TableView {
    if has_key(t, key) {
        t.update(key_index(t, key), (key, server))
    } else {
        t.push((key, server))
    }
}

/// The configuration with the overrides of the environment applied: with a
/// host and a user, the ad hoc target `env` is stored and made the default
/// target; a key path and a log level replace the stored ones.
pub open spec fn merge_spec(c: ConfigView, env: EnvOverridesView) -> ConfigView {
    let adhoc = env.host is Some && env.user is Some;
    ConfigView {
        client: ClientConfigView {
            default_server: if adhoc {
                Some("env"@)
            } else {
                c.client.default_server
            },
            ..c.client
        },
        server: ServerConfigView {
            log_level: if env.log_level is Some {
                env.log_level->0
            } else {
                c.server.log_level
            },
            ..c.server
        },
        servers: if adhoc {
            upsert(c.servers, "env"@, env_server(env))
        } else {
            c.servers
        },
        ssh: SshConfigView {
            key_path: if env.ssh_key is Some {
                env.ssh_key
            } else {
                c.ssh.key_path
            },
            ..c.ssh
        },
    }
}

/// Checks one registry entry.
fn check_entry(key: &String, server: &ServerDefinition) -> (r: Option<ConfigIssue>)
    ensures
        match r {
            Some(issue) => entry_issue(key@, server@) == Some(issue@),
            None => entry_issue(key@, server@) is None,
        },
{
    if !server.name.eq(key) {
        Some(ConfigIssue::NameMismatch { key: key.clone(), name: server.name.clone() })
    } else if server.host.as_str().unicode_len() == 0 {
        Some(ConfigIssue::EmptyHost { name: key.clone() })
    } else if server.user.as_str().unicode_len() == 0 {
        Some(ConfigIssue::EmptyUser { name: key.clone() })
    } else if server.port == 0 || server.port > 65535 {
        Some(ConfigIssue::InvalidPort { name: key.clone(), port: server.port })
    } else {
        None
    }
}

impl Config {
    /// Whether the registry holds every key once.
    pub open spec fn wf(&self) -> bool {
        self.servers.wf()
    }

    /// The configuration of a fresh installation on the machine named
    /// `name`.
    pub fn with_server_name(name: String) -> (r: Config)
        ensures
            r@ == default_config(name@),
            r.wf(),
    {
        let mut services: Vec<String> = Vec::new();
        services.push(String::from_str("caffeinate"));
        services.push(String::from_str("plan10-monitor"));
        let r = Config {
            client: ClientConfig {
                default_server: None,
                deployment_timeout: 300,
                concurrent_operations: 4,
                auto_backup: true,
            },
            server: ServerConfig {
                name,
                monitoring_interval: 30,
                temp_threshold: 800,
                battery_warning_level: 20,
                auto_restart_services: true,
                log_level: String::from_str("info"),
                services,
            },
            servers: ServerTable::new(),
            ssh: SshConfig {
                connect_timeout: 30,
                command_timeout: 60,
                key_path: None,
                known_hosts_file: None,
                compression: true,
                keep_alive: true,
            },
        };
        assert(r@.server.services =~= seq!["caffeinate"@, "plan10-monitor"@]);
        r
    }

    /// Where the configuration file lies: `plan10/config.toml` under the
    /// given configuration directory.
    pub fn config_path_in(config_dir: &Option<String>) -> (r: Option<String>)
        ensures
            opt_text(r) == match *config_dir {
                Some(dir) => Some(joined(joined(dir@, "plan10"@), "config.toml"@)),
                None => None,
            },
    {
        match config_dir {
            Some(dir) => {
                let sub = join_path(dir.as_str(), "plan10");
                Some(join_path(sub.as_str(), "config.toml"))
            },
            None => None,
        }
    }

    /// Where the configuration file lies for the current user, if the
    /// system names a configuration directory.
    pub fn default_config_path() -> (r: Option<String>)
        ensures
            r matches Some(path) ==> exists|dir: Seq<char>|
                path@ == joined(joined(dir, "plan10"@), "config.toml"@),
    {
        let dir = config_directory();
        Self::config_path_in(&dir)
    }

    /// Registers `server` under its own name.
    ///
    /// Fails with `DuplicateName`, and changes nothing, if that name is
    /// taken.
    pub fn add_server(&mut self, server: ServerDefinition) -> (r: Result<(), ConfigError>)
        requires
            old(self).wf(),
        ensures
            final(self).wf(),
            match r {
                Ok(()) => !has_key(old(self)@.servers, server@.name) && final(self)@ == add_spec(
                    old(self)@,
                    server@,
                ),
                Err(e) => has_key(old(self)@.servers, server@.name) && final(self)@ == old(self)@
                    && e@ == ConfigErrorView::DuplicateName(server@.name),
            },
    {
        if self.servers.contains_key(server.name.as_str()) {
            return Err(ConfigError::DuplicateName(server.name.clone()));
        }
        let key = server.name.clone();
        self.servers.insert(key, server);
        Ok(())
    }

    /// Removes the server registered as `name`, and the default target if
    /// it named that server.
    ///
    /// Fails with `NotFound`, and changes nothing, if no server has that
    /// name.
    pub fn remove_server(&mut self, name: &str) -> (r: Result<(), ConfigError>)
        requires
            old(self).wf(),
        ensures
            final(self).wf(),
            match r {
                Ok(()) => has_key(old(self)@.servers, name@) && final(self)@ == remove_spec(
                    old(self)@,
                    name@,
                ),
                Err(e) => !has_key(old(self)@.servers, name@) && final(self)@ == old(self)@ && e@
                    == ConfigErrorView::NotFound(name@),
            },
    {
        if !self.servers.contains_key(name) {
            return Err(ConfigError::NotFound(String::from_str(name)));
        }
        self.servers.remove(name);
        let is_default = match &self.client.default_server {
            Some(d) => same_text(d.as_str(), name),
            None => false,
        };
        if is_default {
            self.client.default_server = None;
        }
        Ok(())
    }

    /// The server registered as `name`.
    pub fn get_server(&self, name: &str) -> (r: Option<&ServerDefinition>)
        requires
            self.wf(),
        ensures
            match r {
                Some(s) => has_key(self@.servers, name@) && s@ == value_of(self@.servers, name@),
                None => !has_key(self@.servers, name@),
            },
    {
        self.servers.get(name)
    }

    /// The server that the default target names.
    pub fn get_default_server(&self) -> (r: Option<&ServerDefinition>)
        requires
            self.wf(),
        ensures
            match r {
                Some(s) => default_target(self@) == Some(s@),
                None => default_target(self@) is None,
            },
    {
        match &self.client.default_server {
            Some(name) => self.servers.get(name.as_str()),
            None => None,
        }
    }

    /// All registered servers, in the order of the registry.
    pub fn list_servers(&self) -> (r: Vec<&ServerDefinition>)
        ensures
            r@.len() == self@.servers.len(),
            forall|i: int| 0 <= i < r@.len() ==> (#[trigger] r@[i])@ == self@.servers[i].1,
    {
        let mut r: Vec<&ServerDefinition> = Vec::new();
        let mut i: usize = 0;
        while i < self.servers.len()
            invariant
                i <= self.servers@.len(),
                r@.len() == i,
                forall|k: int| 0 <= k < i ==> (#[trigger] r@[k])@ == self.servers@[k].1,
            decreases self.servers@.len() - i,
        {
            r.push(self.servers.server_at(i));
            i += 1;
        }
        r
    }

    /// Records that the server registered as `name` was seen at the time
    /// `timestamp`, in seconds since the Unix epoch. The caller reads the
    /// clock.
    ///
    /// Fails with `NotFound`, and changes nothing, if no server has that
    /// name.
    pub fn update_server_last_seen(&mut self, name: &str, timestamp: i64) -> (r: Result<
        (),
        ConfigError,
    >)
        requires
            old(self).wf(),
        ensures
            final(self).wf(),
            match r {
                Ok(()) => has_key(old(self)@.servers, name@) && final(self)@ == touch_spec(
                    old(self)@,
                    name@,
                    timestamp,
                ),
                Err(e) => !has_key(old(self)@.servers, name@) && final(self)@ == old(self)@ && e@
                    == ConfigErrorView::NotFound(name@),
            },
    {
        match self.servers.position(name) {
            Some(i) => {
                self.servers.set_last_seen_at(i, timestamp);
                Ok(())
            },
            None => Err(ConfigError::NotFound(String::from_str(name))),
        }
    }

    /// Resolves a name or a host to a server: the server registered under
    /// that name, else the first server with that host.
    pub fn resolve_server(&self, name_or_host: &str) -> (r: Option<&ServerDefinition>)
        requires
            self.wf(),
        ensures
            match r {
                Some(s) => resolve(self@.servers, name_or_host@) == Some(s@),
                None => resolve(self@.servers, name_or_host@) is None,
            },
    {
        match self.servers.get(name_or_host) {
            Some(server) => Some(server),
            None => match self.servers.position_of_host(name_or_host) {
                Some(i) => Some(self.servers.server_at(i)),
                None => None,
            },
        }
    }

    /// The private key to use, given the home directory: the configured
    /// path with its tilde expanded, else `.ssh/id_rsa` under the home
    /// directory.
    pub fn ssh_key_path_in(&self, home: &Option<String>) -> (r: Option<String>)
        ensures
            opt_text(r) == ssh_path(self@.ssh.key_path, opt_text(*home), "id_rsa"@),
    {
        Self::path_or_default(&self.ssh.key_path, home, "id_rsa")
    }

    /// The known-hosts file to use, given the home directory: the
    /// configured path with its tilde expanded, else `.ssh/known_hosts`
    /// under the home directory.
    pub fn known_hosts_path_in(&self, home: &Option<String>) -> (r: Option<String>)
        ensures
            opt_text(r) == ssh_path(self@.ssh.known_hosts_file, opt_text(*home), "known_hosts"@),
    {
        Self::path_or_default(&self.ssh.known_hosts_file, home, "known_hosts")
    }

    fn path_or_default(configured: &Option<String>, home: &Option<String>, file: &str) -> (r:
        Option<String>)
        ensures
            opt_text(r) == ssh_path(opt_text(*configured), opt_text(*home), file@),
    {
        match configured {
            Some(path) => Some(expand_home(path.as_str(), home)),
            None => match home {
                Some(h) => {
                    let dir = join_path(h.as_str(), ".ssh");
                    Some(join_path(dir.as_str(), file))
                },
                None => None,
            },
        }
    }

    /// The private key to use for the current user.
    pub fn get_ssh_key_path(&self) -> (r: Option<String>)
        ensures
            exists|home: Option<Seq<char>>|
                opt_text(r) == ssh_path(self@.ssh.key_path, home, "id_rsa"@),
    {
        let home = home_directory();
        let r = self.ssh_key_path_in(&home);
        assert(opt_text(r) == ssh_path(self@.ssh.key_path, opt_text(home), "id_rsa"@));
        r
    }

    /// The known-hosts file to use for the current user.
    pub fn get_known_hosts_path(&self) -> (r: Option<String>)
        ensures
            exists|home: Option<Seq<char>>|
                opt_text(r) == ssh_path(self@.ssh.known_hosts_file, home, "known_hosts"@),
    {
        let home = home_directory();
        let r = self.known_hosts_path_in(&home);
        assert(opt_text(r) == ssh_path(
            self@.ssh.known_hosts_file,
            opt_text(home),
            "known_hosts"@,
        ));
        r
    }

    /// Checks the rules of the configuration and reports the first one
    /// that is broken.
    pub fn validate(&self) -> (r: Result<(), ConfigError>)
        ensures
            match r {
                Ok(()) => config_issue(self@) is None,
                Err(e) => config_issue(self@) is Some && e@ == ConfigErrorView::InvalidConfig(
                    config_issue(self@)->0,
                ),
            },
    {
        let mut i: usize = 0;
        while i < self.servers.len()
            invariant
                i <= self.servers@.len(),
                first_entry_issue(self.servers@, 0) == first_entry_issue(self.servers@, i as int),
            decreases self.servers@.len() - i,
        {
            match check_entry(self.servers.key_at(i), self.servers.server_at(i)) {
                Some(issue) => {
                    return Err(ConfigError::InvalidConfig(issue));
                },
                None => {},
            }
            i += 1;
        }
        match &self.client.default_server {
            Some(name) => {
                if !self.servers.contains_key(name.as_str()) {
                    return Err(
                        ConfigError::InvalidConfig(
                            ConfigIssue::MissingDefault { name: name.clone() },
                        ),
                    );
                }
            },
            None => {},
        }
        if self.server.temp_threshold < 0 || self.server.temp_threshold > 1500 {
            return Err(
                ConfigError::InvalidConfig(
                    ConfigIssue::TemperatureThreshold { tenths: self.server.temp_threshold },
                ),
            );
        }
        if self.server.battery_warning_level > 100 {
            return Err(
                ConfigError::InvalidConfig(
                    ConfigIssue::BatteryWarningLevel { level: self.server.battery_warning_level },
                ),
            );
        }
        Ok(())
    }

    /// Applies the overrides of the environment.
    pub fn merge_env_vars(&mut self, env: &EnvOverrides)
        requires
            old(self).wf(),
        ensures
            final(self).wf(),
            final(self)@ == merge_spec(old(self)@, env@),
    {
        match (&env.host, &env.user) {
            (Some(host), Some(user)) => {
                let port: u32 = match &env.port {
                    Some(text) => match parse_unsigned(text.as_str(), 65535) {
                        Some(n) => n as u32,
                        None => 22,
                    },
                    None => 22,
                };
                let mut tags: Vec<String> = Vec::new();
                tags.push(String::from_str("env"));
                let server = ServerDefinition {
                    name: String::from_str("env"),
                    host: host.clone(),
                    user: user.clone(),
                    port,
                    ssh_key: clone_opt(&env.ssh_key),
                    tags,
                    enabled: true,
                    last_seen: None,
                };
                assert(server@.tags =~= seq!["env"@]);
                assert(server@ == env_server(env@));
                self.servers.insert(String::from_str("env"), server);
                self.client.default_server = Some(String::from_str("env"));
            },
            _ => {},
        }
        match &env.ssh_key {
            Some(key) => {
                self.ssh.key_path = Some(key.clone());
            },
            None => {},
        }
        match &env.log_level {
            Some(level) => {
                self.server.log_level = level.clone();
            },
            None => {},
        }
    }
}

impl Default for Config {
    /// The configuration of a fresh installation on this machine.
    fn default() -> (r: Config)
        ensures
            exists|name: Seq<char>| r@ == default_config(name),
            r.wf(),
    {
        let name = local_hostname();
        let r = Config::with_server_name(name);
        assert(r@ == default_config(name@));
        r
    }
}

/// Whether no entry of `t` at or after `from` breaks a rule.
pub open spec fn entries_clean(t: TableView, from: int) -> bool {
    forall|i: int| from <= i < t.len() ==> entry_issue((#[trigger] t[i]).0, t[i].1) is None
}

/// The entries are reported clean exactly when each of them is.
pub proof fn lemma_entries_clean(t: TableView, from: int)
    requires
        0 <= from,
    ensures
        first_entry_issue(t, from) is None <==> entries_clean(t, from),
    decreases t.len() - from,
{
    if from < t.len() {
        lemma_entries_clean(t, from + 1);
        if entry_issue(t[from].0, t[from].1) is None {
            assert(entries_clean(t, from + 1) ==> entries_clean(t, from)) by {
                if entries_clean(t, from + 1) {
                    assert forall|i: int| from <= i < t.len() implies entry_issue(
                        (#[trigger] t[i]).0,
                        t[i].1,
                    ) is None by {
                        if i > from {
                            assert(entry_issue(t[i].0, t[i].1) is None);
                        }
                    }
                }
            }
            assert(entries_clean(t, from) ==> entries_clean(t, from + 1));
        } else {
            assert(!entries_clean(t, from)) by {
                if entries_clean(t, from) {
                    assert(entry_issue(t[from].0, t[from].1) is None);
                }
            }
        }
    }
}

/// Resolution by name wins: an identifier that is the key of an entry
/// resolves to the definition of that entry, whatever hosts the other
/// entries have.
pub proof fn lemma_resolve_by_name(t: TableView, i: int)
    requires
        keys_distinct(t),
        0 <= i < t.len(),
    ensures
        resolve(t, t[i].0) == Some(t[i].1),
{
    lemma_key_index(t, t[i].0, i);
}

/// Resolution falls back to the host: an identifier that is no key
/// resolves to the first definition with that host.
pub proof fn lemma_resolve_by_host(t: TableView, host: Seq<char>, i: int)
    requires
        !has_key(t, host),
        is_first_host(t, host, i),
    ensures
        resolve(t, host) == Some(t[i].1),
{
    lemma_first_host(t, host, i);
}

/// An identifier that is neither a key nor a host resolves to nothing.
pub proof fn lemma_resolve_unknown(t: TableView, identifier: Seq<char>)
    requires
        !has_key(t, identifier),
        !has_host(t, identifier),
    ensures
        resolve(t, identifier) is None,
{
}

/// After a server was added, its name resolves to an equal definition,
/// and the registry still holds every key once.
pub proof fn lemma_add_then_resolve(c: ConfigView, server: ServerDefinitionView)
    requires
        keys_distinct(c.servers),
        !has_key(c.servers, server.name),
    ensures
        keys_distinct(add_spec(c, server).servers),
        resolve(add_spec(c, server).servers, server.name) == Some(server),
{
    let t = add_spec(c, server).servers;
    assert forall|i: int, j: int| 0 <= i < j < t.len() implies (#[trigger] t[i]).0 != (
    #[trigger] t[j]).0 by {
        assert(t[i] == c.servers[i]);
        if j < c.servers.len() {
            assert(t[j] == c.servers[j]);
        }
    }
    lemma_resolve_by_name(t, t.len() - 1);
}

/// Removing a server clears the default target exactly when the default
/// target named that server; any other default target stays.
pub proof fn lemma_remove_default(c: ConfigView, name: Seq<char>)
    ensures
        c.client.default_server == Some(name) ==> remove_spec(c, name).client.default_server
            is None,
        c.client.default_server != Some(name) ==> remove_spec(c, name).client.default_server
            == c.client.default_server,
{
}

/// After a server was removed, its name is no key any more, the other
/// entries are kept in order, and the registry still holds every key once.
pub proof fn lemma_remove_entry(c: ConfigView, name: Seq<char>)
    requires
        keys_distinct(c.servers),
        has_key(c.servers, name),
    ensures
        keys_distinct(remove_spec(c, name).servers),
        !has_key(remove_spec(c, name).servers, name),
        forall|other: Seq<char>|
            other != name ==> has_key(remove_spec(c, name).servers, other) == has_key(
                c.servers,
                other,
            ),
{
    let t = c.servers;
    let k = key_index(t, name);
    let u = remove_spec(c, name).servers;
    assert forall|i: int| 0 <= i < u.len() implies #[trigger] u[i] == t[if i < k {
        i
    } else {
        i + 1
    }] by {}
    assert forall|i: int, j: int| 0 <= i < j < u.len() implies (#[trigger] u[i]).0 != (
    #[trigger] u[j]).0 by {
        let a = if i < k {
            i
        } else {
            i + 1
        };
        let b = if j < k {
            j
        } else {
            j + 1
        };
        assert(t[a].0 != t[b].0);
    }
    assert(!has_key(u, name)) by {
        assert forall|i: int| 0 <= i < u.len() implies (#[trigger] u[i]).0 != name by {
            let a = if i < k {
                i
            } else {
                i + 1
            };
            if a < k {
                assert(t[a].0 != t[k].0);
            } else {
                assert(t[k].0 != t[a].0);
            }
        }
    }
    assert forall|other: Seq<char>| other != name implies has_key(u, other) == has_key(
        t,
        other,
    ) by {
        if has_key(t, other) {
            let a = key_index(t, other);
            let i = if a < k {
                a
            } else {
                a - 1
            };
            assert(u[i].0 == other);
        }
        if has_key(u, other) {
            let i = key_index(u, other);
            let a = if i < k {
                i
            } else {
                i + 1
            };
            assert(t[a].0 == other);
        }
    }
}

/// A fresh configuration is valid.
pub proof fn lemma_default_valid(name: Seq<char>)
    ensures
        config_issue(default_config(name)) is None,
{
    lemma_entries_clean(default_config(name).servers, 0);
}

/// Adding a definition that has a host, a user and a port in range, under
/// a name that is free, keeps a valid configuration valid.
pub proof fn lemma_add_keeps_valid(c: ConfigView, server: ServerDefinitionView)
    requires
        config_issue(c) is None,
        definition_ok(server),
        !has_key(c.servers, server.name),
    ensures
        config_issue(add_spec(c, server)) is None,
{
    let d = add_spec(c, server);
    lemma_entries_clean(c.servers, 0);
    lemma_entries_clean(d.servers, 0);
    assert forall|i: int| 0 <= i < d.servers.len() implies entry_issue(
        (#[trigger] d.servers[i]).0,
        d.servers[i].1,
    ) is None by {
        if i < c.servers.len() {
            assert(d.servers[i] == c.servers[i]);
            assert(entry_issue(c.servers[i].0, c.servers[i].1) is None);
        }
    }
    if c.client.default_server is Some {
        let k = key_index(c.servers, c.client.default_server->0);
        assert(d.servers[k] == c.servers[k]);
    }
}

/// Removing a registered server keeps a valid configuration valid.
pub proof fn lemma_remove_keeps_valid(c: ConfigView, name: Seq<char>)
    requires
        config_issue(c) is None,
        keys_distinct(c.servers),
        has_key(c.servers, name),
    ensures
        config_issue(remove_spec(c, name)) is None,
{
    let d = remove_spec(c, name);
    let k = key_index(c.servers, name);
    lemma_entries_clean(c.servers, 0);
    lemma_entries_clean(d.servers, 0);
    assert forall|i: int| 0 <= i < d.servers.len() implies entry_issue(
        (#[trigger] d.servers[i]).0,
        d.servers[i].1,
    ) is None by {
        let a = if i < k {
            i
        } else {
            i + 1
        };
        assert(d.servers[i] == c.servers[a]);
        assert(entry_issue(c.servers[a].0, c.servers[a].1) is None);
    }
    lemma_remove_entry(c, name);
}

/// A configuration with an entry that breaks a rule (a key that differs
/// from the name, an empty host or user, a port outside `1..=65535`) is
/// invalid.
pub proof fn lemma_bad_entry_rejected(c: ConfigView, i: int)
    requires
        0 <= i < c.servers.len(),
        entry_issue(c.servers[i].0, c.servers[i].1) is Some,
    ensures
        config_issue(c) is Some,
{
    lemma_entries_clean(c.servers, 0);
}

/// A configuration whose default target names no registered server is
/// invalid.
pub proof fn lemma_dangling_default_rejected(c: ConfigView)
    requires
        c.client.default_server is Some,
        !has_key(c.servers, c.client.default_server->0),
    ensures
        config_issue(c) is Some,
{
}

/// The settings file of the monitoring scripts.
pub open spec fn monitoring_text(server: ServerConfigView) -> Seq<char> {
    "# Plan 10 Monitoring Configuration\nTEMP_THRESHOLD="@ + degrees_text(
        server.temp_threshold as int,
    ) + "\nBATTERY_WARNING="@ + decimal(server.battery_warning_level as nat)
        + "\nMONITORING_INTERVAL="@ + decimal(server.monitoring_interval as nat) + "\nLOG_LEVEL="@
        + server.log_level + "\n"@
}

impl ServerConfig {
    /// The settings file of the monitoring scripts for these settings.
    pub fn monitoring_file_text(&self) -> (r: String)
        ensures
            r@ == monitoring_text(self@),
    {
        let mut r = String::from_str("# Plan 10 Monitoring Configuration\nTEMP_THRESHOLD=");
        append_degrees(&mut r, self.temp_threshold);
        r.append("\nBATTERY_WARNING=");
        append_decimal(&mut r, self.battery_warning_level as u64);
        r.append("\nMONITORING_INTERVAL=");
        append_decimal(&mut r, self.monitoring_interval);
        r.append("\nLOG_LEVEL=");
        r.append(self.log_level.as_str());
        r.append("\n");
        assert(r@ =~= monitoring_text(self@));
        r
    }
}

} // verus!
