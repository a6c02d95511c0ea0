//! What the command line decides and writes when the daemon is installed,
//! removed or asked for its status: the service description, the error
//! messages, and the reading of what the system tools answered.

use crate::text::{contains, text_contains};
use vstd::prelude::*;
use vstd::string::StringExecFns;

verus! {

/// Where the binary is installed.
pub const INSTALL_PATH: &'static str = "/usr/local/bin/geforcenow-awdl0";

/// Where the service description is installed.
pub const PLIST_PATH: &'static str = "/Library/LaunchDaemons/com.geforcenow.awdl0.plist";

/// Where the daemon's logs go.
pub const LOG_DIR: &'static str = "/var/log/geforcenow-awdl0";

/// The label under which the service is registered.
pub const SERVICE_LABEL: &'static str = "com.awdl0.manager";

/// The service description up to the path of the binary.
pub const PLIST_HEAD: &'static str =
    "<?xml version=\"1.0\" encoding=\"UTF-8\"?>\n<!DOCTYPE plist PUBLIC \"-//Apple//DTD PLIST 1.0//EN\" \"http://www.apple.com/DTDs/PropertyList-1.0.dtd\">\n<plist version=\"1.0\">\n<dict>\n    <key>Label</key>\n    <string>com.awdl0.manager</string>\n    \n    <key>ProgramArguments</key>\n    <array>\n        <string>";

/// The service description between the path of the binary and the first
/// mention of the log directory.
pub const PLIST_ARGUMENTS_END: &'static str =
    "</string>\n        <string>run</string>\n    </array>\n    \n    <key>RunAtLoad</key>\n    <true/>\n    \n    <key>KeepAlive</key>\n    <true/>\n    \n    <key>ProcessType</key>\n    <string>Background</string>\n    \n    <key>StandardOutPath</key>\n    <string>";

/// The service description between the two mentions of the log directory.
pub const PLIST_STDOUT_END: &'static str =
    "/stdout.log</string>\n    \n    <key>StandardErrorPath</key>\n    <string>";

/// The end of the service description.
pub const PLIST_TAIL: &'static str =
    "/stderr.log</string>\n    \n    <key>ThrottleInterval</key>\n    <integer>5</integer>\n</dict>\n</plist>\n";

/// The text that the status of the interface is searched for.
pub const ACTIVE_MARK: &'static str = "status: active";

/// Errors of the command line.
#[derive(Debug)]
pub enum CliError {
    /// The command needs root and was run without.
    NotRoot,
    /// The binary could not be copied; with the system's reason.
    CopyBinary(String),
    /// The service description could not be written; with the system's reason.
    WritePlist(String),
    /// The log directory could not be created; with the system's reason.
    CreateLogDir(String),
    /// `launchctl` failed; with what it said.
    Launchctl(String),
    /// A file could not be removed; with the system's reason.
    RemoveFile(String),
    /// The path of the running binary is not known; with the system's reason.
    CurrentExe(String),
}

impl CliError {
    /// The message that belongs to the error.
    pub open spec fn message(self) -> Seq<char> {
        match self {
            CliError::NotRoot => "not running as root (try sudo)"@,
            CliError::CopyBinary(reason) => "failed to copy binary: "@ + reason@,
            CliError::WritePlist(reason) => "failed to write plist: "@ + reason@,
            CliError::CreateLogDir(reason) => "failed to create log directory: "@ + reason@,
            CliError::Launchctl(reason) => "launchctl command failed: "@ + reason@,
            CliError::RemoveFile(reason) => "failed to remove file: "@ + reason@,
            CliError::CurrentExe(reason) => "failed to get current executable path: "@ + reason@,
        }
    }

    /// The message of the error.
    pub fn to_string(&self) -> (text: String)
        ensures
            text@ == self.message(),
    {
        match self {
            CliError::NotRoot => "not running as root (try sudo)".to_owned(),
            CliError::CopyBinary(reason) => "failed to copy binary: ".to_owned().concat(
                reason.as_str(),
            ),
            CliError::WritePlist(reason) => "failed to write plist: ".to_owned().concat(
                reason.as_str(),
            ),
            CliError::CreateLogDir(reason) => "failed to create log directory: ".to_owned().concat(
                reason.as_str(),
            ),
            CliError::Launchctl(reason) => "launchctl command failed: ".to_owned().concat(
                reason.as_str(),
            ),
            CliError::RemoveFile(reason) => "failed to remove file: ".to_owned().concat(
                reason.as_str(),
            ),
            CliError::CurrentExe(reason) => "failed to get current executable path: ".to_owned()
                .concat(reason.as_str()),
        }
    }
}

/// Whether the user with identifier `uid` may install and remove the daemon:
/// only root may.
pub fn check_root(uid: u32) -> (allowed: Result<(), CliError>)
    ensures
        uid == 0 ==> allowed is Ok,
        uid != 0 ==> allowed is Err && allowed->Err_0 is NotRoot,
{
    if uid != 0 {
        return Err(CliError::NotRoot);
    }
    Ok(())
}

/// The text of the service description.
pub open spec fn plist_text() -> Seq<char> {
    PLIST_HEAD@ + INSTALL_PATH@ + PLIST_ARGUMENTS_END@ + LOG_DIR@ + PLIST_STDOUT_END@ + LOG_DIR@
        + PLIST_TAIL@
}

/// The service description: it registers the installed binary under the
/// service label, to be run with the argument `run` when the system loads
/// it, kept alive, and with its output in the log directory.
pub fn generate_plist() -> (plist: String)
    ensures
        plist@ == plist_text(),
{
    let plist = PLIST_HEAD.to_owned();
    let plist = plist.concat(INSTALL_PATH);
    let plist = plist.concat(PLIST_ARGUMENTS_END);
    let plist = plist.concat(LOG_DIR);
    let plist = plist.concat(PLIST_STDOUT_END);
    let plist = plist.concat(LOG_DIR);
    plist.concat(PLIST_TAIL)
}

/// How `launchctl load` went: `success` says whether it exited well,
/// `stderr` holds what it wrote to its error stream. A failure is an error
/// that carries that text.
pub fn load_outcome(success: bool, stderr: &str) -> (outcome: Result<(), CliError>)
    ensures
        success ==> outcome is Ok,
        !success ==> (outcome matches Err(CliError::Launchctl(said)) && said@ == stderr@),
{
    if !success {
        return Err(CliError::Launchctl(stderr.to_owned()));
    }
    Ok(())
}

/// What is installed of the daemon.
#[derive(Clone, Copy, Debug, PartialEq, Eq, Structural)]
pub enum Installation {
    /// Binary and service description are in place.
    Installed,
    /// Only one of the two is in place.
    Partial { binary: bool, plist: bool },
    /// Neither is in place.
    NotInstalled,
}

/// What is installed, given whether the binary and the service description
/// are in place.
pub open spec fn installation_of(binary: bool, plist: bool) -> Installation {
    if binary && plist {
        Installation::Installed
    } else if binary || plist {
        Installation::Partial { binary, plist }
    } else {
        Installation::NotInstalled
    }
}

/// Executable form of [`installation_of`].
pub fn installation(binary: bool, plist: bool) -> (installed: Installation)
    ensures
        installed == installation_of(binary, plist),
{
    if binary && plist {
        Installation::Installed
    } else if binary || plist {
        Installation::Partial { binary, plist }
    } else {
        Installation::NotInstalled
    }
}

/// The state of the interface as `ifconfig` told it: `success` says whether
/// the tool exited well, `stdout` holds what it printed. Unknown where the
/// tool failed; else up exactly if the output holds the mark of an active
/// interface.
pub fn awdl0_status(success: bool, stdout: &str) -> (up: Option<bool>)
    ensures
        up == if success {
            Some(text_contains(stdout@, ACTIVE_MARK@))
        } else {
            None
        },
{
    if !success {
        return None;
    }
    Some(contains(stdout, ACTIVE_MARK))
}

} // verus!
