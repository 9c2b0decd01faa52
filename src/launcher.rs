//! Installation of the command-line launcher. It runs when the user asks
//! for it, and is safe to repeat: it writes only where the launcher is
//! missing or differs.
use vstd::prelude::*;
use vstd::string::{StrSliceExecFns, StringExecFns};
use crate::text::same_text;

verus! {

/// Where the command-line launcher is installed.
pub const INSTALL_PATH: &'static str = "/usr/local/bin/skriv";

/// The exact content of the installed launcher script.
pub const LAUNCHER_SCRIPT: &'static str = "#!/bin/sh\n/Applications/skriv.app/Contents/MacOS/app \"$@\" &\n";

/// The failure reported where no privileged installation is defined.
pub const UNSUPPORTED_MESSAGE: &'static str = "CLI installation is only supported on macOS";

/// How the launcher can be installed on the running platform.
#[derive(Clone, Copy, Debug, PartialEq, Eq, Structural)]
pub enum Installer {
    /// A well-known system path, written through an elevation prompt.
    UnixPrivileged,
    /// No installation mechanism exists.
    Unsupported,
}

/// A successful installation.
#[derive(Clone, Copy, Debug, PartialEq, Eq, Structural)]
pub enum InstallOutcome {
    AlreadyInstalled,
    Installed,
}

impl InstallOutcome {
    pub open spec fn spec_label(self) -> Seq<char> {
        match self {
            InstallOutcome::AlreadyInstalled => "already_installed"@,
            InstallOutcome::Installed => "installed"@,
        }
    }

    /// The name under which the outcome is reported to the UI layer.
    pub fn label(&self) -> (r: String)
        ensures
            r@ == self.spec_label(),
    {
        match self {
            InstallOutcome::AlreadyInstalled => String::from_str("already_installed"),
            InstallOutcome::Installed => String::from_str("installed"),
        }
    }
}

/// What an installation check decides.
#[derive(Clone, Copy, Debug, PartialEq, Eq, Structural)]
pub enum InstallDecision {
    /// Report that the platform has no installation mechanism.
    Unsupported,
    /// The launcher is in place: write nothing.
    AlreadyInstalled,
    /// Write the launcher and make it executable.
    Write,
}

/// The decision for a platform, given the current content of the install
/// path (`None` where it could not be read).
pub open spec fn install_decision(installer: Installer, current: Option<Seq<char>>) -> InstallDecision {
    match installer {
        Installer::Unsupported => InstallDecision::Unsupported,
        Installer::UnixPrivileged => {
            if current == Some(LAUNCHER_SCRIPT@) {
                InstallDecision::AlreadyInstalled
            } else {
                InstallDecision::Write
            }
        },
    }
}

pub open spec fn opt_view(o: Option<String>) -> Option<Seq<char>> {
    match o {
        Some(s) => Some(s@),
        None => None,
    }
}

/// Decides whether the launcher must be written: only where the platform
/// supports installation and the install path does not already hold the
/// launcher script byte for byte.
pub fn decide_install(installer: Installer, current: &Option<String>) -> (r: InstallDecision)
    ensures
        r == install_decision(installer, opt_view(*current)),
{
    match installer {
        Installer::Unsupported => InstallDecision::Unsupported,
        Installer::UnixPrivileged => {
            match current {
                Some(c) => {
                    if same_text(c.as_str(), LAUNCHER_SCRIPT) {
                        InstallDecision::AlreadyInstalled
                    } else {
                        InstallDecision::Write
                    }
                },
                None => InstallDecision::Write,
            }
        },
    }
}

/// How one character is written inside a double-quoted AppleScript string.
pub open spec fn quoted_char(c: char) -> Seq<char> {
    if c == '\n' {
        seq!['\\', 'n']
    } else if c == '"' {
        seq!['\\', '"']
    } else if c == '\\' {
        seq!['\\', '\\']
    } else {
        seq![c]
    }
}

/// A text written inside a double-quoted AppleScript string.
pub open spec fn quoted(s: Seq<char>) -> Seq<char>
    decreases s.len(),
{
    if s.len() == 0 {
        Seq::empty()
    } else {
        quoted(s.drop_last()) + quoted_char(s.last())
    }
}

/// Escapes newlines, double quotes and backslashes so that `s` can stand
/// inside a double-quoted AppleScript string.
pub fn quote_for_applescript(s: &str) -> (r: String)
    ensures
        r@ == quoted(s@),
{
    let n = s.unicode_len();
    let mut out = String::new();
    let mut i: usize = 0;
    while i < n
        invariant
            n == s@.len(),
            i <= n,
            out@ == quoted(s@.subrange(0, i as int)),
        decreases n - i,
    {
        let c = s.get_char(i);
        proof {
            reveal_strlit("\\n");
            reveal_strlit("\\\"");
            reveal_strlit("\\\\");
        }
        if c == '\n' {
            out.append("\\n");
        } else if c == '"' {
            out.append("\\\"");
        } else if c == '\\' {
            out.append("\\\\");
        } else {
            out.append(s.substring_char(i, i + 1));
        }
        assert(s@.subrange(0, i + 1).drop_last() =~= s@.subrange(0, i as int));
        assert(out@ =~= quoted(s@.subrange(0, i + 1)));
        i = i + 1;
    }
    assert(s@.subrange(0, n as int) =~= s@);
    out
}

/// The AppleScript that writes `content` to `path` and makes it executable,
/// behind one administrator prompt.
pub open spec fn install_script(path: Seq<char>, content: Seq<char>) -> Seq<char> {
    "do shell script \"printf '"@ + quoted(content) + "' > "@ + path + " && chmod +x "@ + path
        + "\" with administrator privileges"@
}

/// Builds the script that an elevation prompt runs to install `content` at
/// `path`.
pub fn privileged_install_script(path: &str, content: &str) -> (r: String)
    ensures
        r@ == install_script(path@, content@),
{
    let mut r = String::from_str("do shell script \"printf '");
    let q = quote_for_applescript(content);
    r.append(q.as_str());
    r.append("' > ");
    r.append(path);
    r.append(" && chmod +x ");
    r.append(path);
    r.append("\" with administrator privileges");
    r
}

/// What the host does next in an installation.
#[derive(Debug, PartialEq, Eq)]
pub enum InstallStep {
    /// Report this result to the caller; nothing is written.
    Report(Result<InstallOutcome, String>),
    /// Run this AppleScript through an elevation prompt, then hand the
    /// tool's result to `finish_install`.
    Elevate(String),
}

/// Plans an installation from the current content of the install path
/// (`None` where it could not be read).
pub fn plan_install(installer: Installer, current: &Option<String>) -> (r: InstallStep)
    ensures
        install_decision(installer, opt_view(*current)) == InstallDecision::Unsupported
            <==> (r matches InstallStep::Report(Err(e)) && e@ == UNSUPPORTED_MESSAGE@),
        install_decision(installer, opt_view(*current)) == InstallDecision::AlreadyInstalled
            <==> r == InstallStep::Report(Ok(InstallOutcome::AlreadyInstalled)),
        install_decision(installer, opt_view(*current)) == InstallDecision::Write
            <==> (r matches InstallStep::Elevate(script) && script@ == install_script(
            INSTALL_PATH@,
            LAUNCHER_SCRIPT@,
        )),
{
    match decide_install(installer, current) {
        InstallDecision::Unsupported => InstallStep::Report(Err(String::from_str(UNSUPPORTED_MESSAGE))),
        InstallDecision::AlreadyInstalled => InstallStep::Report(Ok(InstallOutcome::AlreadyInstalled)),
        InstallDecision::Write => InstallStep::Elevate(privileged_install_script(INSTALL_PATH, LAUNCHER_SCRIPT)),
    }
}

/// What came back from running the elevation tool.
#[derive(Debug)]
pub struct ToolRun {
    /// Whether the tool exited successfully.
    pub success: bool,
    /// What the tool wrote to its error stream.
    pub stderr: String,
}

/// Turns the result of the elevation tool into the installation result:
/// `Installed` where it succeeded, and otherwise its diagnostic text
/// (or the reason it could not be started) unchanged.
pub fn finish_install(run: Result<ToolRun, String>) -> (r: Result<InstallOutcome, String>)
    ensures
        match run {
            Ok(t) => if t.success {
                r == Ok::<InstallOutcome, String>(InstallOutcome::Installed)
            } else {
                r matches Err(e) && e@ == t.stderr@
            },
            Err(e) => r matches Err(d) && d@ == e@,
        },
{
    match run {
        Ok(t) => {
            if t.success {
                Ok(InstallOutcome::Installed)
            } else {
                Err(t.stderr)
            }
        },
        Err(e) => Err(e),
    }
}

/// The content of the install path after one installation, where a
/// successful write leaves the launcher script there.
pub open spec fn content_after(installer: Installer, current: Option<Seq<char>>) -> Option<Seq<char>> {
    if install_decision(installer, current) == InstallDecision::Write {
        Some(LAUNCHER_SCRIPT@)
    } else {
        current
    }
}

/// The number of writes made by `n` installations in a row, each of whose
/// writes succeeds, starting from `current`.
pub open spec fn writes_in(installer: Installer, current: Option<Seq<char>>, n: nat) -> nat
    decreases n,
{
    if n == 0 {
        0
    } else {
        (if install_decision(installer, current) == InstallDecision::Write {
            1nat
        } else {
            0nat
        }) + writes_in(installer, content_after(installer, current), (n - 1) as nat)
    }
}

/// Installation is idempotent: any number of installations in a row write
/// at most once, and only the first of them writes (exactly when the path
/// did not hold the launcher script); every installation after a write
/// reports `AlreadyInstalled`.
pub proof fn lemma_install_idempotent(installer: Installer, current: Option<Seq<char>>, n: nat)
    ensures
        writes_in(installer, current, n) <= 1,
        n >= 1 ==> writes_in(installer, current, n) == (if install_decision(installer, current)
            == InstallDecision::Write {
            1nat
        } else {
            0nat
        }),
        install_decision(installer, content_after(installer, current)) != InstallDecision::Write,
        installer == Installer::UnixPrivileged ==> install_decision(
            installer,
            content_after(installer, current),
        ) == InstallDecision::AlreadyInstalled,
    decreases n,
{
    if n > 0 {
        let next = content_after(installer, current);
        lemma_install_idempotent(installer, next, (n - 1) as nat);
        assert(content_after(installer, next) == next);
        lemma_no_writes_after(installer, next, (n - 1) as nat);
    }
}

/// From a state that needs no write, no installation ever writes.
proof fn lemma_no_writes_after(installer: Installer, current: Option<Seq<char>>, n: nat)
    requires
        install_decision(installer, current) != InstallDecision::Write,
    ensures
        writes_in(installer, current, n) == 0,
    decreases n,
{
    if n > 0 {
        lemma_no_writes_after(installer, current, (n - 1) as nat);
    }
}

} // verus!
