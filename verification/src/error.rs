//! Failure conditions of the registry, of a remote session and of a transfer,
//! each with the context needed to report it.

use crate::text::{append_decimal, append_signed_decimal, decimal, signed_decimal};
use vstd::prelude::*;

verus! {

/// What makes a configuration invalid.
#[derive(Debug, PartialEq, Eq)]
pub enum ConfigIssue {
    /// A definition is stored under a key that differs from its own name.
    NameMismatch { key: String, name: String },
    /// The definition stored under `name` has no host.
    EmptyHost { name: String },
    /// The definition stored under `name` has no user.
    EmptyUser { name: String },
    /// The definition stored under `name` has a port outside `1..=65535`.
    InvalidPort { name: String, port: u32 },
    /// The default target names a server that the registry does not hold.
    MissingDefault { name: String },
    /// The temperature threshold, in tenths of a degree Celsius, is outside
    /// `0..=1500`.
    TemperatureThreshold { tenths: i32 },
    /// The battery warning level is above 100 percent.
    BatteryWarningLevel { level: u8 },
}

/// Mathematical model of a [`ConfigIssue`].
pub enum ConfigIssueView {
    NameMismatch { key: Seq<char>, name: Seq<char> },
    EmptyHost { name: Seq<char> },
    EmptyUser { name: Seq<char> },
    InvalidPort { name: Seq<char>, port: u32 },
    MissingDefault { name: Seq<char> },
    TemperatureThreshold { tenths: i32 },
    BatteryWarningLevel { level: u8 },
}

impl View for ConfigIssue {
    type V = ConfigIssueView;

    open spec fn view(&self) -> ConfigIssueView {
        match self {
            ConfigIssue::NameMismatch { key, name } => ConfigIssueView::NameMismatch {
                key: key@,
                name: name@,
            },
            ConfigIssue::EmptyHost { name } => ConfigIssueView::EmptyHost { name: name@ },
            ConfigIssue::EmptyUser { name } => ConfigIssueView::EmptyUser { name: name@ },
            ConfigIssue::InvalidPort { name, port } => ConfigIssueView::InvalidPort {
                name: name@,
                port: *port,
            },
            ConfigIssue::MissingDefault { name } => ConfigIssueView::MissingDefault { name: name@ },
            ConfigIssue::TemperatureThreshold { tenths } => ConfigIssueView::TemperatureThreshold {
                tenths: *tenths,
            },
            ConfigIssue::BatteryWarningLevel { level } => ConfigIssueView::BatteryWarningLevel {
                level: *level,
            },
        }
    }
}

/// A failed registry operation.
#[derive(Debug, PartialEq, Eq)]
pub enum ConfigError {
    /// A server of this name is already registered.
    DuplicateName(String),
    /// No server of this name is registered.
    NotFound(String),
    /// The configuration breaks one of its rules.
    InvalidConfig(ConfigIssue),
    /// No server matches this host, and no user was given to reach it as
    /// a temporary target.
    UserNotSpecified(String),
}

/// Mathematical model of a [`ConfigError`].
pub enum ConfigErrorView {
    DuplicateName(Seq<char>),
    NotFound(Seq<char>),
    InvalidConfig(ConfigIssueView),
    UserNotSpecified(Seq<char>),
}

impl View for ConfigError {
    type V = ConfigErrorView;

    open spec fn view(&self) -> ConfigErrorView {
        match self {
            ConfigError::DuplicateName(name) => ConfigErrorView::DuplicateName(name@),
            ConfigError::NotFound(name) => ConfigErrorView::NotFound(name@),
            ConfigError::InvalidConfig(issue) => ConfigErrorView::InvalidConfig(issue@),
            ConfigError::UserNotSpecified(host) => ConfigErrorView::UserNotSpecified(host@),
        }
    }
}

/// A temperature given in tenths of a degree, written without a
/// fraction where it has none and with one decimal otherwise.
pub open spec fn degrees_text(tenths: int) -> Seq<char> {
    if tenths % 10 == 0 {
        signed_decimal(tenths / 10)
    } else if tenths < 0 {
        "-"@ + decimal(((-tenths) / 10) as nat) + "."@ + decimal(((-tenths) % 10) as nat)
    } else {
        decimal((tenths / 10) as nat) + "."@ + decimal((tenths % 10) as nat)
    }
}

/// The report text of a configuration issue.
pub open spec fn issue_text(issue: ConfigIssueView) -> Seq<char> {
    match issue {
        ConfigIssueView::NameMismatch { key, name } => "Server name mismatch: key '"@ + key
            + "' vs name '"@ + name + "'"@,
        ConfigIssueView::EmptyHost { name } => "Server '"@ + name + "' has empty host"@,
        ConfigIssueView::EmptyUser { name } => "Server '"@ + name + "' has empty user"@,
        ConfigIssueView::InvalidPort { name, port } => "Server '"@ + name
            + "' has invalid port: "@ + decimal(port as nat),
        ConfigIssueView::MissingDefault { name } => "Default server '"@ + name
            + "' not found in servers list"@,
        ConfigIssueView::TemperatureThreshold { tenths } => "Invalid temperature threshold: "@
            + degrees_text(tenths as int),
        ConfigIssueView::BatteryWarningLevel { level } => "Invalid battery warning level: "@
            + decimal(level as nat),
    }
}

/// The report text of a registry error.
pub open spec fn config_error_text(error: ConfigErrorView) -> Seq<char> {
    match error {
        ConfigErrorView::DuplicateName(name) => "Server '"@ + name + "' already exists"@,
        ConfigErrorView::NotFound(name) => "Server '"@ + name + "' not found"@,
        ConfigErrorView::InvalidConfig(issue) => issue_text(issue),
        ConfigErrorView::UserNotSpecified(host) => "User not specified and server '"@ + host
            + "' not found in config"@,
    }
}

/// Appends a temperature given in tenths of a degree to `out`.
pub fn append_degrees(out: &mut String, tenths: i32)
    ensures
        final(out)@ == old(out)@ + degrees_text(tenths as int),
{
    let value: i64 = tenths as i64;
    if value % 10 == 0 {
        append_signed_decimal(out, value / 10);
    } else if value < 0 {
        out.append("-");
        append_decimal(out, ((-value) / 10) as u64);
        out.append(".");
        append_decimal(out, ((-value) % 10) as u64);
    } else {
        append_decimal(out, (value / 10) as u64);
        out.append(".");
        append_decimal(out, (value % 10) as u64);
    }
    assert(final(out)@ =~= old(out)@ + degrees_text(tenths as int));
}

impl ConfigIssue {
    /// The report text of this issue.
    pub fn message(&self) -> (r: String)
        ensures
            r@ == issue_text(self@),
    {
        match self {
            ConfigIssue::NameMismatch { key, name } => {
                let mut r = String::from_str("Server name mismatch: key '");
                r.append(key.as_str());
                r.append("' vs name '");
                r.append(name.as_str());
                r.append("'");
                r
            },
            ConfigIssue::EmptyHost { name } => {
                let mut r = String::from_str("Server '");
                r.append(name.as_str());
                r.append("' has empty host");
                r
            },
            ConfigIssue::EmptyUser { name } => {
                let mut r = String::from_str("Server '");
                r.append(name.as_str());
                r.append("' has empty user");
                r
            },
            ConfigIssue::InvalidPort { name, port } => {
                let mut r = String::from_str("Server '");
                r.append(name.as_str());
                r.append("' has invalid port: ");
                append_decimal(&mut r, *port as u64);
                r
            },
            ConfigIssue::MissingDefault { name } => {
                let mut r = String::from_str("Default server '");
                r.append(name.as_str());
                r.append("' not found in servers list");
                r
            },
            ConfigIssue::TemperatureThreshold { tenths } => {
                let mut r = String::from_str("Invalid temperature threshold: ");
                append_degrees(&mut r, *tenths);
                r
            },
            ConfigIssue::BatteryWarningLevel { level } => {
                let mut r = String::from_str("Invalid battery warning level: ");
                append_decimal(&mut r, *level as u64);
                r
            },
        }
    }
}

impl ConfigError {
    /// The report text of this error.
    pub fn message(&self) -> (r: String)
        ensures
            r@ == config_error_text(self@),
    {
        match self {
            ConfigError::DuplicateName(name) => {
                let mut r = String::from_str("Server '");
                r.append(name.as_str());
                r.append("' already exists");
                r
            },
            ConfigError::NotFound(name) => {
                let mut r = String::from_str("Server '");
                r.append(name.as_str());
                r.append("' not found");
                r
            },
            ConfigError::InvalidConfig(issue) => issue.message(),
            ConfigError::UserNotSpecified(host) => {
                let mut r = String::from_str("User not specified and server '");
                r.append(host.as_str());
                r.append("' not found in config");
                r
            },
        }
    }
}

/// A remote command that ended with a non-zero exit status.
#[derive(Debug, PartialEq, Eq)]
pub struct CommandError {
    pub exit_code: i32,
    /// What the command wrote to its error stream, without surrounding
    /// whitespace.
    pub stderr: String,
}

/// The report text of a failed command.
pub open spec fn command_error_text(exit_code: i32, stderr: Seq<char>) -> Seq<char> {
    "Command failed with exit code "@ + signed_decimal(exit_code as int) + ": "@ + stderr
}

impl CommandError {
    /// The report text of this error.
    pub fn message(&self) -> (r: String)
        ensures
            r@ == command_error_text(self.exit_code, self.stderr@),
    {
        let mut r = String::from_str("Command failed with exit code ");
        append_signed_decimal(&mut r, self.exit_code as i64);
        r.append(": ");
        r.append(self.stderr.as_str());
        r
    }
}

/// `text`, followed by a colon and `detail` where there is a detail.
pub open spec fn with_detail(text: Seq<char>, detail: Seq<char>) -> Seq<char> {
    if detail.len() == 0 {
        text
    } else {
        text + ": "@ + detail
    }
}

/// Appends a colon and `detail` to `out` where there is a detail.
pub fn append_detail(out: &mut String, detail: &str)
    ensures
        final(out)@ == with_detail(old(out)@, detail@),
{
    if detail.unicode_len() > 0 {
        out.append(": ");
        out.append(detail);
    }
}

/// Why no session could be established. Where the system or the peer
/// said why a step failed, the error carries that text.
#[derive(Debug, PartialEq, Eq)]
pub enum ConnectError {
    /// The transport was not established within the connect timeout.
    ConnectTimeout,
    /// The target refused the connection or could not be reached.
    ConnectionRefused { detail: String },
    /// The protocol handshake failed.
    HandshakeFailed { detail: String },
    /// Neither the private key nor the agent authenticated the user.
    AuthenticationFailed { user: String, host: String, detail: String },
}

/// Mathematical model of a [`ConnectError`].
pub enum ConnectErrorView {
    ConnectTimeout,
    ConnectionRefused { detail: Seq<char> },
    HandshakeFailed { detail: Seq<char> },
    AuthenticationFailed { user: Seq<char>, host: Seq<char>, detail: Seq<char> },
}

impl View for ConnectError {
    type V = ConnectErrorView;

    open spec fn view(&self) -> ConnectErrorView {
        match self {
            ConnectError::ConnectTimeout => ConnectErrorView::ConnectTimeout,
            ConnectError::ConnectionRefused { detail } => ConnectErrorView::ConnectionRefused {
                detail: detail@,
            },
            ConnectError::HandshakeFailed { detail } => ConnectErrorView::HandshakeFailed {
                detail: detail@,
            },
            ConnectError::AuthenticationFailed { user, host, detail } => {
                ConnectErrorView::AuthenticationFailed { user: user@, host: host@, detail: detail@ }
            },
        }
    }
}

/// The report text of a connection error.
pub open spec fn connect_error_text(error: ConnectErrorView) -> Seq<char> {
    match error {
        ConnectErrorView::ConnectTimeout => "Connection timeout"@,
        ConnectErrorView::ConnectionRefused { detail } => with_detail(
            "Failed to connect to server"@,
            detail,
        ),
        ConnectErrorView::HandshakeFailed { detail } => with_detail("SSH handshake failed"@, detail),
        ConnectErrorView::AuthenticationFailed { user, host, detail } => with_detail(
            "Authentication failed for user "@ + user + " on "@ + host,
            detail,
        ),
    }
}

impl ConnectError {
    /// The report text of this error.
    pub fn message(&self) -> (r: String)
        ensures
            r@ == connect_error_text(self@),
    {
        match self {
            ConnectError::ConnectTimeout => String::from_str("Connection timeout"),
            ConnectError::ConnectionRefused { detail } => {
                let mut r = String::from_str("Failed to connect to server");
                append_detail(&mut r, detail.as_str());
                r
            },
            ConnectError::HandshakeFailed { detail } => {
                let mut r = String::from_str("SSH handshake failed");
                append_detail(&mut r, detail.as_str());
                r
            },
            ConnectError::AuthenticationFailed { user, host, detail } => {
                let mut r = String::from_str("Authentication failed for user ");
                r.append(user.as_str());
                r.append(" on ");
                r.append(host.as_str());
                append_detail(&mut r, detail.as_str());
                r
            },
        }
    }
}

/// Why a file did not reach the target. Where the system or the peer said
/// why, the error carries that text.
#[derive(Debug, PartialEq, Eq)]
pub enum TransferError {
    /// The local file at `path` does not exist or cannot be read.
    LocalFileNotFound { path: String, detail: String },
    /// The protocol failed while the file was sent to the remote `path`.
    TransferFailed { path: String, detail: String },
}

/// Mathematical model of a [`TransferError`].
pub enum TransferErrorView {
    LocalFileNotFound { path: Seq<char>, detail: Seq<char> },
    TransferFailed { path: Seq<char>, detail: Seq<char> },
}

impl View for TransferError {
    type V = TransferErrorView;

    open spec fn view(&self) -> TransferErrorView {
        match self {
            TransferError::LocalFileNotFound { path, detail } => {
                TransferErrorView::LocalFileNotFound { path: path@, detail: detail@ }
            },
            TransferError::TransferFailed { path, detail } => TransferErrorView::TransferFailed {
                path: path@,
                detail: detail@,
            },
        }
    }
}

/// The report text of a transfer error.
pub open spec fn transfer_error_text(error: TransferErrorView) -> Seq<char> {
    match error {
        TransferErrorView::LocalFileNotFound { path, detail } => with_detail(
            "Failed to read local file: "@ + path,
            detail,
        ),
        TransferErrorView::TransferFailed { path, detail } => with_detail(
            "Transfer failed: "@ + path,
            detail,
        ),
    }
}

impl TransferError {
    /// The report text of this error.
    pub fn message(&self) -> (r: String)
        ensures
            r@ == transfer_error_text(self@),
    {
        match self {
            TransferError::LocalFileNotFound { path, detail } => {
                let mut r = String::from_str("Failed to read local file: ");
                r.append(path.as_str());
                append_detail(&mut r, detail.as_str());
                r
            },
            TransferError::TransferFailed { path, detail } => {
                let mut r = String::from_str("Transfer failed: ");
                r.append(path.as_str());
                append_detail(&mut r, detail.as_str());
                r
            },
        }
    }
}

} // verus!
