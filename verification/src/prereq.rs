//! Classification of prerequisite checks: what the surrounding tool needs
//! installed (build tools, a toolchain, the build helper, the assistant
//! CLI) and how each probe's outcome reads.
//!
//! Running the probing commands and looking at the filesystem happen
//! outside the library; the library receives each probe's plain outcome
//! and decides the status, the displayed version and the guidance message.

use vstd::prelude::*;
use vstd::string::*;

use crate::text::contains_sub;
use crate::text::trimmed;

verus! {

/// Events emitted while an installation streams.
#[derive(Clone, Debug)]
pub enum InstallEvent {
    Start { step: String },
    Output { line: String },
    Done { success: bool },
    Error { message: String },
    ActionRequired { action: String, message: String },
}

/// Status of one prerequisite.
#[derive(Clone, Copy, PartialEq, Eq, Structural, Debug)]
pub enum CheckStatus {
    Installed,
    NotInstalled,
    NeedsConfig,
}

/// Outcome of one prerequisite check.
#[derive(Clone, Debug)]
pub struct CheckResult {
    pub status: CheckStatus,
    pub version: Option<String>,
    pub message: Option<String>,
}

/// All prerequisite outcomes together.
#[derive(Clone, Debug)]
pub struct PrerequisiteStatus {
    pub xcode_cli: CheckResult,
    pub rust: CheckResult,
    pub cmake: CheckResult,
    pub claude_cli: CheckResult,
    pub claude_auth: CheckResult,
}

/// Status of system permissions needed for installation.
#[derive(Clone, Copy, PartialEq, Eq, Structural, Debug)]
pub struct PermissionStatus {
    pub accessibility: bool,
    pub admin_primed: bool,
}

/// What running one probing command yielded: whether it exited
/// successfully, and its standard output.
#[derive(Clone, Debug)]
pub struct CommandProbe {
    pub success: bool,
    pub stdout: String,
}

/// The command that locates binaries on the search path.
pub fn which_cmd(windows: bool) -> (r: &'static str)
    ensures
        windows ==> r@ == "where"@,
        !windows ==> r@ == "which"@,
{
    if windows {
        "where"
    } else {
        "which"
    }
}

/// Whether a probe ran and exited successfully.
pub open spec fn probe_ok(probe: Option<CommandProbe>) -> bool {
    probe matches Some(p) && p.success
}

/// Classify the build-tools probe (the developer-tools path query):
/// installed when the query succeeded, else the installation hint.
pub fn check_xcode(probe: Option<CommandProbe>) -> (r: CheckResult)
    ensures
        probe_ok(probe) ==> r.status == CheckStatus::Installed && (r.version matches Some(v)
            && v@ == "Installed"@) && r.message is None,
        !probe_ok(probe) ==> r.status == CheckStatus::NotInstalled && r.version is None && (
        r.message matches Some(m) && m@ == "Run: xcode-select --install"@),
{
    match probe {
        Some(p) => {
            if p.success {
                return CheckResult {
                    status: CheckStatus::Installed,
                    version: Some("Installed".to_owned()),
                    message: None,
                };
            }
        },
        None => {},
    }
    CheckResult {
        status: CheckStatus::NotInstalled,
        version: None,
        message: Some("Run: xcode-select --install".to_owned()),
    }
}

/// Classify the toolchain probe: installed with the reported version
/// (trimmed), else the installation hint.
pub fn check_rust(probe: Option<CommandProbe>) -> (r: CheckResult)
    ensures
        probe matches Some(p) ==> (p.success ==> r.status == CheckStatus::Installed && (
        r.version matches Some(v) && v@ == trimmed(p.stdout@)) && r.message is None),
        !probe_ok(probe) ==> r.status == CheckStatus::NotInstalled && r.version is None && (
        r.message matches Some(m) && m@ == "Install from https://rustup.rs"@),
{
    match probe {
        Some(p) => {
            if p.success {
                let version = crate::text::trim(p.stdout.as_str()).to_owned();
                return CheckResult {
                    status: CheckStatus::Installed,
                    version: Some(version),
                    message: None,
                };
            }
        },
        None => {},
    }
    CheckResult {
        status: CheckStatus::NotInstalled,
        version: None,
        message: Some("Install from https://rustup.rs".to_owned()),
    }
}

/// The first line of a command's output, or the fallback word when the
/// output is empty of lines.
pub open spec fn first_line_or(s: Seq<char>, fallback: Seq<char>) -> Seq<char> {
    match crate::claude_md::find_first(s, "\n"@) {
        Some(i) => if i == 0 {
            fallback
        } else {
            s.take(i)
        },
        None => if s.len() == 0 {
            fallback
        } else {
            s
        },
    }
}

fn first_line_or_exec(s: &str, fallback: &str) -> (r: String)
    ensures
        r@ == first_line_or(s@, fallback@),
{
    proof {
        reveal_strlit("\n");
        crate::claude_md::lemma_find_first(s@, "\n"@);
    }
    let n = s.unicode_len();
    match crate::text::find_sub(s, "\n") {
        Some(i) => {
            if i == 0 {
                fallback.to_owned()
            } else {
                let head = s.substring_char(0, i);
                proof {
                    assert(head@ =~= s@.take(i as int));
                }
                head.to_owned()
            }
        },
        None => {
            if n == 0 {
                fallback.to_owned()
            } else {
                s.to_owned()
            }
        },
    }
}

/// Classify the cmake probe: installed with the first line of its version
/// report, else a note that only some frameworks need it.
pub fn check_cmake(probe: Option<CommandProbe>) -> (r: CheckResult)
    ensures
        probe matches Some(p) ==> (p.success ==> r.status == CheckStatus::Installed && (
        r.version matches Some(v) && v@ == first_line_or(p.stdout@, "installed"@)) && r.message
            is None),
        !probe_ok(probe) ==> r.status == CheckStatus::NotInstalled && r.version is None && (
        r.message matches Some(m) && m@ == "Required for JUCE/iPlug2 frameworks"@),
{
    match probe {
        Some(p) => {
            if p.success {
                let version = first_line_or_exec(p.stdout.as_str(), "installed");
                return CheckResult {
                    status: CheckStatus::Installed,
                    version: Some(version),
                    message: None,
                };
            }
        },
        None => {},
    }
    CheckResult {
        status: CheckStatus::NotInstalled,
        version: None,
        message: Some("Required for JUCE/iPlug2 frameworks".to_owned()),
    }
}

/// Classify the assistant-CLI probe: installed when the binary is on the
/// path, else the platform's installation hint.
pub fn check_claude_cli(probe: Option<CommandProbe>, windows: bool) -> (r: CheckResult)
    ensures
        probe_ok(probe) ==> r.status == CheckStatus::Installed && (r.version matches Some(v)
            && v@ == "Installed"@) && r.message is None,
        !probe_ok(probe) ==> r.status == CheckStatus::NotInstalled && r.version is None && (
        r.message matches Some(m) && m@ == (if windows {
            "Download the assistant CLI installer from its site"@
        } else {
            "Run the assistant CLI shell installer"@
        })),
{
    match probe {
        Some(p) => {
            if p.success {
                return CheckResult {
                    status: CheckStatus::Installed,
                    version: Some("Installed".to_owned()),
                    message: None,
                };
            }
        },
        None => {},
    }
    let hint: String = if windows {
        "Download the assistant CLI installer from its site".to_owned()
    } else {
        "Run the assistant CLI shell installer".to_owned()
    };
    CheckResult { status: CheckStatus::NotInstalled, version: None, message: Some(hint) }
}

/// What the filesystem shows of the CLI's sign-in state.
#[derive(Clone, Debug)]
pub struct AuthFiles {
    /// A credentials file exists.
    pub credentials_exists: bool,
    /// A per-project log directory exists (the CLI has been used).
    pub projects_exists: bool,
    /// The settings file's content, when one exists.
    pub settings_contents: Option<String>,
    /// The CLI's configuration directory exists at all.
    pub config_dir_exists: bool,
}

/// Whether the settings file's content shows real use rather than a
/// bootstrap stub: substantial length, or any of the marks the CLI itself
/// writes.
pub open spec fn settings_show_auth(contents: Seq<char>) -> bool {
    ||| contents.len() > 50
    ||| contains_sub(contents, "autoUpdaterStatus"@)
    ||| contains_sub(contents, "apiKey"@)
    ||| contains_sub(contents, "theme"@)
}

/// The file-based sign-in evidence.
pub open spec fn auth_files_show_auth(files: AuthFiles) -> bool {
    ||| files.credentials_exists
    ||| files.projects_exists
    ||| (files.settings_contents matches Some(c) && settings_show_auth(c@))
}

/// Fallback file-based authentication check.
pub fn check_auth_files(files: &AuthFiles) -> (r: bool)
    ensures
        r == auth_files_show_auth(*files),
{
    if files.credentials_exists {
        return true;
    }
    if files.projects_exists {
        return true;
    }
    match &files.settings_contents {
        Some(contents) => {
            let c = contents.as_str();
            if c.unicode_len() > 50 {
                return true;
            }
            if crate::text::contains(c, "autoUpdaterStatus") {
                return true;
            }
            if crate::text::contains(c, "apiKey") {
                return true;
            }
            crate::text::contains(c, "theme")
        },
        None => false,
    }
}

/// Whether the CLI is signed in: the platform credential store says so, or
/// the files do.
pub fn is_claude_authenticated(keychain_ok: bool, files: &AuthFiles) -> (r: bool)
    ensures
        r == (keychain_ok || auth_files_show_auth(*files)),
{
    keychain_ok || check_auth_files(files)
}

/// Classify the sign-in state: not installed without the CLI; installed
/// when the credential store or the files show a sign-in; else
/// configuration is needed, with the wording depending on whether the
/// configuration directory exists yet.
pub fn check_claude_auth(
    cli_probe: Option<CommandProbe>,
    keychain_ok: bool,
    files: &AuthFiles,
) -> (r: CheckResult)
    ensures
        !probe_ok(cli_probe) ==> r.status == CheckStatus::NotInstalled && (r.message matches Some(
            m,
        ) && m@ == "Install the assistant CLI first"@),
        probe_ok(cli_probe) && (keychain_ok || auth_files_show_auth(*files)) ==> r.status
            == CheckStatus::Installed && (r.message matches Some(m) && m@ == "Authenticated"@),
        probe_ok(cli_probe) && !(keychain_ok || auth_files_show_auth(*files)) ==> r.status
            == CheckStatus::NeedsConfig && (r.message matches Some(m) && m@ == (
        if files.config_dir_exists {
            "Sign in to continue"@
        } else {
            "Sign in required"@
        })),
{
    let cli_ok = match &cli_probe {
        Some(p) => p.success,
        None => false,
    };
    if !cli_ok {
        return CheckResult {
            status: CheckStatus::NotInstalled,
            version: None,
            message: Some("Install the assistant CLI first".to_owned()),
        };
    }
    if is_claude_authenticated(keychain_ok, files) {
        return CheckResult {
            status: CheckStatus::Installed,
            version: None,
            message: Some("Authenticated".to_owned()),
        };
    }
    if files.config_dir_exists {
        CheckResult {
            status: CheckStatus::NeedsConfig,
            version: None,
            message: Some("Sign in to continue".to_owned()),
        }
    } else {
        CheckResult {
            status: CheckStatus::NeedsConfig,
            version: None,
            message: Some("Sign in required".to_owned()),
        }
    }
}

/// Remember a spawned child process for cleanup at exit.
pub fn register_child_pid(pids: &mut Vec<u32>, pid: u32)
    ensures
        final(pids)@ == old(pids)@.push(pid),
{
    pids.push(pid);
}

/// The registry without any occurrence of one process id.
pub open spec fn without_pid(pids: Seq<u32>, pid: u32) -> Seq<u32> {
    pids.filter(|p: u32| p != pid)
}

/// Forget a child process that completed normally.
pub fn unregister_child_pid(pids: &mut Vec<u32>, pid: u32)
    ensures
        final(pids)@ == without_pid(old(pids)@, pid),
{
    let mut kept: Vec<u32> = Vec::new();
    let mut i: usize = 0;
    proof {
        reveal(Seq::filter);
        assert(old(pids)@.take(0) =~= Seq::<u32>::empty());
        assert(without_pid(old(pids)@.take(0), pid) =~= Seq::<u32>::empty());
    }
    while i < pids.len()
        invariant
            i <= pids@.len(),
            pids@ == old(pids)@,
            kept@ == without_pid(old(pids)@.take(i as int), pid),
        decreases pids@.len() - i,
    {
        proof {
            reveal(Seq::filter);
            assert(old(pids)@.take(i + 1).drop_last() =~= old(pids)@.take(i as int));
            assert(old(pids)@.take(i + 1).last() == old(pids)@[i as int]);
        }
        let p = pids[i];
        if p != pid {
            kept.push(p);
        }
        i = i + 1;
    }
    proof {
        assert(old(pids)@.take(pids@.len() as int) =~= old(pids)@);
    }
    *pids = kept;
}

} // verus!
