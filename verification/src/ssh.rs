//! What a remote session says and understands: the commands it issues, the
//! record of a command's outcome, and the readings taken from such records.
//!
//! The session itself (the authenticated channel) belongs to the caller.
//! This module decides which command line stands for an operation and what
//! a command's outcome means.

use crate::error::CommandError;
use crate::text::{same_text, texts, trim, trimmed};
use vstd::prelude::*;

verus! {

/// Record of one remote command execution.
#[derive(Debug, PartialEq, Eq)]
pub struct CommandResult {
    pub stdout: String,
    pub stderr: String,
    pub exit_code: i32,
    /// Whether the exit status was zero.
    pub success: bool,
}

impl Clone for CommandResult {
    fn clone(&self) -> (r: Self)
        ensures
            r.stdout@ == self.stdout@,
            r.stderr@ == self.stderr@,
            r.exit_code == self.exit_code,
            r.success == self.success,
    {
        CommandResult {
            stdout: self.stdout.clone(),
            stderr: self.stderr.clone(),
            exit_code: self.exit_code,
            success: self.success,
        }
    }
}

impl CommandResult {
    /// The record of a command that wrote `stdout` and `stderr` and ended
    /// with `exit_code`.
    pub fn new(stdout: String, stderr: String, exit_code: i32) -> (r: CommandResult)
        ensures
            r.stdout == stdout,
            r.stderr == stderr,
            r.exit_code == exit_code,
            r.success == (exit_code == 0),
    {
        CommandResult { stdout, stderr, exit_code, success: exit_code == 0 }
    }

    /// Turns a command that did not succeed into an error that holds its
    /// exit status and its trimmed error output.
    pub fn ensure_success(self) -> (r: Result<CommandResult, CommandError>)
        ensures
            match r {
                Ok(same) => self.success && same == self,
                Err(e) => !self.success && e.exit_code == self.exit_code && e.stderr@ == trimmed(
                    self.stderr@,
                ),
            },
    {
        if self.success {
            Ok(self)
        } else {
            Err(CommandError { exit_code: self.exit_code, stderr: trim(self.stderr.as_str()) })
        }
    }
}

/// What a target reports about itself.
#[derive(Debug, PartialEq, Eq)]
pub struct SystemInfo {
    pub hostname: String,
    pub uname: String,
    pub uptime: String,
    pub disk_usage: String,
    pub current_user: String,
}

/// Mathematical model of a [`SystemInfo`].
pub struct SystemInfoView {
    pub hostname: Seq<char>,
    pub uname: Seq<char>,
    pub uptime: Seq<char>,
    pub disk_usage: Seq<char>,
    pub current_user: Seq<char>,
}

impl View for SystemInfo {
    type V = SystemInfoView;

    open spec fn view(&self) -> SystemInfoView {
        SystemInfoView {
            hostname: self.hostname@,
            uname: self.uname@,
            uptime: self.uptime@,
            disk_usage: self.disk_usage@,
            current_user: self.current_user@,
        }
    }
}

impl Clone for SystemInfo {
    fn clone(&self) -> (r: Self)
        ensures
            r@ == self@,
    {
        SystemInfo {
            hostname: self.hostname.clone(),
            uname: self.uname.clone(),
            uptime: self.uptime.clone(),
            disk_usage: self.disk_usage.clone(),
            current_user: self.current_user.clone(),
        }
    }
}

/// The four command lines of a system query, in the order in which they
/// are issued: kernel, uptime, disk usage, current user.
pub open spec fn system_info_command_lines() -> Seq<Seq<char>> {
    seq!["uname -a"@, "uptime"@, "df -h /"@, "whoami"@]
}

/// The record that four trimmed outputs make for the target `host`.
pub open spec fn system_info_of(host: Seq<char>, outputs: Seq<Seq<char>>) -> SystemInfoView {
    SystemInfoView {
        hostname: host,
        uname: outputs[0],
        uptime: outputs[1],
        disk_usage: outputs[2],
        current_user: outputs[3],
    }
}

/// A system query under way: the four commands are issued one after the
/// other, and the trimmed output of each is kept.
///
/// The exit status of a command is not looked at. A failure of the
/// transport is no outcome of a command: the caller gives the query up,
/// and a query that was given up yields no record.
#[derive(Debug, PartialEq, Eq)]
pub struct SystemQuery {
    /// The target that is asked.
    pub host: String,
    /// The trimmed outputs of the commands answered so far.
    pub outputs: Vec<String>,
}

impl SystemQuery {
    /// A query of the target `host` with no command answered yet.
    pub fn start(host: &str) -> (r: SystemQuery)
        ensures
            r.host@ == host@,
            r.outputs@.len() == 0,
    {
        SystemQuery { host: String::from_str(host), outputs: Vec::new() }
    }

    /// The command to issue next; none once all four are answered.
    pub fn pending(&self) -> (r: Option<&'static str>)
        ensures
            match r {
                Some(command) => self.outputs@.len() < 4 && command@
                    == system_info_command_lines()[self.outputs@.len() as int],
                None => self.outputs@.len() >= 4,
            },
    {
        let answered = self.outputs.len();
        if answered == 0 {
            Some("uname -a")
        } else if answered == 1 {
            Some("uptime")
        } else if answered == 2 {
            Some("df -h /")
        } else if answered == 3 {
            Some("whoami")
        } else {
            None
        }
    }

    /// Takes the outcome of the pending command. Once all four commands
    /// are answered, further outcomes are ignored.
    pub fn record(&mut self, result: &CommandResult)
        ensures
            final(self).host == old(self).host,
            texts(final(self).outputs@) == (if old(self).outputs@.len() < 4 {
                texts(old(self).outputs@).push(trimmed(result.stdout@))
            } else {
                texts(old(self).outputs@)
            }),
    {
        if self.outputs.len() < 4 {
            let ghost before = texts(self.outputs@);
            self.outputs.push(trim(result.stdout.as_str()));
            assert(texts(self.outputs@) =~= before.push(trimmed(result.stdout@)));
        }
    }

    /// The record of the target, once all four commands are answered.
    pub fn finish(&self) -> (r: Option<SystemInfo>)
        ensures
            match r {
                Some(info) => self.outputs@.len() == 4 && info@ == system_info_of(
                    self.host@,
                    texts(self.outputs@),
                ),
                None => self.outputs@.len() != 4,
            },
    {
        if self.outputs.len() == 4 {
            assert(texts(self.outputs@)[0] == self.outputs@[0]@);
            assert(texts(self.outputs@)[1] == self.outputs@[1]@);
            assert(texts(self.outputs@)[2] == self.outputs@[2]@);
            assert(texts(self.outputs@)[3] == self.outputs@[3]@);
            Some(
                SystemInfo {
                    hostname: self.host.clone(),
                    uname: self.outputs[0].clone(),
                    uptime: self.outputs[1].clone(),
                    disk_usage: self.outputs[2].clone(),
                    current_user: self.outputs[3].clone(),
                },
            )
        } else {
            None
        }
    }
}

/// The command that creates the remote directory `remote_path` with its
/// parents.
pub fn mkdir_command(remote_path: &str) -> (r: String)
    ensures
        r@ == "mkdir -p "@ + remote_path@,
{
    let mut r = String::from_str("mkdir -p ");
    r.append(remote_path);
    r
}

/// The command that succeeds where `remote_path` is a regular file.
pub fn file_exists_command(remote_path: &str) -> (r: String)
    ensures
        r@ == "test -f "@ + remote_path@,
{
    let mut r = String::from_str("test -f ");
    r.append(remote_path);
    r
}

/// The command that succeeds where `remote_path` is a directory.
pub fn directory_exists_command(remote_path: &str) -> (r: String)
    ensures
        r@ == "test -d "@ + remote_path@,
{
    let mut r = String::from_str("test -d ");
    r.append(remote_path);
    r
}

/// The command that makes `remote_path` executable.
pub fn chmod_command(remote_path: &str) -> (r: String)
    ensures
        r@ == "chmod +x "@ + remote_path@,
{
    let mut r = String::from_str("chmod +x ");
    r.append(remote_path);
    r
}

/// The command of the connection test.
pub fn connection_test_command() -> (r: String)
    ensures
        r@ == "echo 'connection test'"@,
{
    String::from_str("echo 'connection test'")
}

/// Whether the outcome of the connection test shows a working session:
/// the command succeeded and echoed its text.
pub fn connection_test_passed(result: &CommandResult) -> (r: bool)
    ensures
        r == (result.success && trimmed(result.stdout@) == "connection test"@),
{
    if result.success {
        let echoed = trim(result.stdout.as_str());
        same_text(echoed.as_str(), "connection test")
    } else {
        false
    }
}

/// Reads the outcome of an existence test: the remote path exists where
/// the test command succeeded. A failure of the transport is no answer
/// to the test and is handed on as it is.
pub fn exists_from<E>(outcome: Result<CommandResult, E>) -> (r: Result<bool, E>)
    ensures
        match outcome {
            Ok(result) => r == Ok::<bool, E>(result.success),
            Err(error) => r == Err::<bool, E>(error),
        },
{
    match outcome {
        Ok(result) => Ok(result.success),
        Err(error) => Err(error),
    }
}

} // verus!
