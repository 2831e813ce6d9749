use vstd::prelude::*;
use vstd::string::StringExecFns;

use crate::command::CommandResult;
use crate::locate::{any_present, caddy_candidate_paths, caddy_candidates, is_present};
use crate::text::{contains_text, describe, described, has_infix};

verus! {

/// The meaning of a supervisor step: a final success message, a final
/// error message, or the instruction to go on to the operation's next
/// subprocess.
pub enum Verdict {
    Succeeded(Seq<char>),
    Failed(Seq<char>),
    Proceed,
}

/// What an operation does after one subprocess has answered.
pub enum Next {
    /// The operation is over, with this outcome.
    Done(Result<String, String>),
    /// The operation goes on to its next subprocess.
    Continue,
}

/// The meaning of a final outcome.
pub open spec fn verdict_of(r: Result<String, String>) -> Verdict {
    match r {
        Ok(s) => Verdict::Succeeded(s@),
        Err(e) => Verdict::Failed(e@),
    }
}

impl View for Next {
    type V = Verdict;

    open spec fn view(&self) -> Verdict {
        match self {
            Next::Done(r) => verdict_of(*r),
            Next::Continue => Verdict::Proceed,
        }
    }
}

/// The subprocess ran and exited successfully.
pub open spec fn ran_ok(out: Result<CommandResult, String>) -> bool {
    out is Ok && out->Ok_0.exit_success
}

/// Error output that says no server was listening for the reload.
pub open spec fn says_not_running(stderr: Seq<char>) -> bool {
    has_infix(stderr, "connection refused"@) || has_infix(stderr, "no such process"@)
}

/// Error output that says the package was installed before.
pub open spec fn says_already_installed(stderr: Seq<char>) -> bool {
    has_infix(stderr, "already installed"@)
}

/// The outcome of `caddy reload`: its output on success; on a server that
/// is not listening, a fallback launch of the server; else its error output.
pub open spec fn reload_verdict(out: Result<CommandResult, String>) -> Verdict {
    match out {
        Err(e) => Verdict::Failed(described("Failed to execute caddy reload"@, e@)),
        Ok(o) => if o.exit_success {
            Verdict::Succeeded(o.stdout@)
        } else if says_not_running(o.stderr@) {
            Verdict::Proceed
        } else {
            Verdict::Failed(o.stderr@)
        },
    }
}

/// The outcome of a fallback launch of the server.
pub open spec fn launch_verdict(spawned: Result<(), String>, started: Seq<char>) -> Verdict {
    match spawned {
        Ok(_) => Verdict::Succeeded(started),
        Err(e) => Verdict::Failed(described("Failed to start Caddy"@, e@)),
    }
}

pub open spec fn reload_started_message() -> Seq<char> {
    "Caddy started with configuration"@
}

pub open spec fn start_background_message() -> Seq<char> {
    "Caddy started in background"@
}

/// The outcome of `brew services start caddy`: done when it succeeded, else
/// a fallback launch of the server.
pub open spec fn start_verdict(brew: Result<CommandResult, String>) -> Verdict {
    if ran_ok(brew) {
        Verdict::Succeeded("Caddy service started"@)
    } else {
        Verdict::Proceed
    }
}

/// The outcome of a stop, whatever the direct stop did.
pub open spec fn stop_verdict(brew: Result<CommandResult, String>) -> Verdict {
    if ran_ok(brew) {
        Verdict::Succeeded("Caddy service stopped"@)
    } else {
        Verdict::Succeeded("Caddy stopped"@)
    }
}

/// The outcome of the `which brew` check before an install.
pub open spec fn install_check_verdict(check: Result<CommandResult, String>) -> Verdict {
    match check {
        Err(e) => Verdict::Failed(described("Failed to check homebrew"@, e@)),
        Ok(o) => if o.exit_success {
            Verdict::Proceed
        } else {
            Verdict::Failed("Homebrew is not installed. Please install it from https://brew.sh"@)
        },
    }
}

/// The outcome of `brew install caddy`.
pub open spec fn install_verdict(out: Result<CommandResult, String>) -> Verdict {
    match out {
        Err(e) => Verdict::Failed(described("Failed to install caddy"@, e@)),
        Ok(o) => if o.exit_success {
            Verdict::Succeeded("Caddy installed successfully"@)
        } else if says_already_installed(o.stderr@) {
            Verdict::Succeeded("Caddy is already installed"@)
        } else {
            Verdict::Failed(o.stderr@)
        },
    }
}

/// The outcome of the `which brew` check before an uninstall.
pub open spec fn uninstall_check_verdict(check: Result<CommandResult, String>) -> Verdict {
    match check {
        Err(e) => Verdict::Failed(described("Failed to check homebrew"@, e@)),
        Ok(o) => if o.exit_success {
            Verdict::Proceed
        } else {
            Verdict::Failed("Cannot uninstall: Homebrew not found"@)
        },
    }
}

/// The outcome of `brew uninstall caddy`.
pub open spec fn uninstall_verdict(out: Result<CommandResult, String>) -> Verdict {
    match out {
        Err(e) => Verdict::Failed(described("Failed to uninstall caddy"@, e@)),
        Ok(o) => if o.exit_success {
            Verdict::Succeeded("Caddy uninstalled successfully"@)
        } else {
            Verdict::Failed(o.stderr@)
        },
    }
}

fn succeed(msg: &str) -> (r: Result<String, String>)
    ensures
        verdict_of(r) == Verdict::Succeeded(msg@),
{
    Ok(String::from_str(msg))
}

fn fail(msg: &str) -> (r: Result<String, String>)
    ensures
        verdict_of(r) == Verdict::Failed(msg@),
{
    Err(String::from_str(msg))
}

fn fail_with(context: &str, detail: &String) -> (r: Result<String, String>)
    ensures
        verdict_of(r) == Verdict::Failed(described(context@, detail@)),
{
    Err(describe(context, detail.as_str()))
}

/// Decides what follows `caddy reload --config <config>`.
pub fn reload_caddy(out: &Result<CommandResult, String>) -> (r: Next)
    ensures
        r@ == reload_verdict(*out),
{
    match out {
        Err(e) => Next::Done(fail_with("Failed to execute caddy reload", e)),
        Ok(o) => {
            if o.exit_success {
                Next::Done(Ok(o.stdout.clone()))
            } else if contains_text(o.stderr.as_str(), "connection refused")
                || contains_text(o.stderr.as_str(), "no such process") {
                Next::Continue
            } else {
                Next::Done(Err(o.stderr.clone()))
            }
        },
    }
}

/// The final outcome of a reload that fell back to launching the server.
pub fn finish_reload(spawned: &Result<(), String>) -> (r: Result<String, String>)
    ensures
        verdict_of(r) == launch_verdict(*spawned, reload_started_message()),
{
    match spawned {
        Ok(_) => succeed("Caddy started with configuration"),
        Err(e) => fail_with("Failed to start Caddy", e),
    }
}

/// Decides what follows `brew services start caddy`.
pub fn start_caddy_service(brew: &Result<CommandResult, String>) -> (r: Next)
    ensures
        r@ == start_verdict(*brew),
{
    match brew {
        Ok(o) if o.exit_success => Next::Done(succeed("Caddy service started")),
        _ => Next::Continue,
    }
}

/// The final outcome of a start that fell back to launching the server.
pub fn finish_start(spawned: &Result<(), String>) -> (r: Result<String, String>)
    ensures
        verdict_of(r) == launch_verdict(*spawned, start_background_message()),
{
    match spawned {
        Ok(_) => succeed("Caddy started in background"),
        Err(e) => fail_with("Failed to start Caddy", e),
    }
}

/// The outcome of a stop, from what `brew services stop caddy` and a
/// direct `caddy stop` reported. It never fails.
pub fn stop_caddy_service(brew: &Result<CommandResult, String>, direct: &Result<CommandResult, String>) -> (r: Result<String, String>)
    ensures
        verdict_of(r) == stop_verdict(*brew),
        r is Ok,
{
    match brew {
        Ok(o) if o.exit_success => succeed("Caddy service stopped"),
        _ => succeed("Caddy stopped"),
    }
}

/// Whether the well-known install locations settle that `caddy` is
/// installed, where `present[i]` tells whether the `i`-th holds it:
/// `Some(true)` if one does, else `None`, and a search-path lookup decides.
pub fn check_caddy_installed(present: &Vec<bool>) -> (r: Option<bool>)
    ensures
        r == (if exists|i: int| is_present(caddy_candidate_paths(), present@, i) { Some(true) } else { None }),
{
    let n = caddy_candidates().len();
    if any_present(present, n) {
        proof {
            let i = choose|i: int| 0 <= i < n && i < present@.len() && #[trigger] present@[i];
            assert(is_present(caddy_candidate_paths(), present@, i));
        }
        Some(true)
    } else {
        None
    }
}

/// Whether `caddy` is installed, from what `which caddy` reported.
pub fn finish_installed_check(which: &Result<CommandResult, String>) -> (r: Result<bool, String>)
    ensures
        match *which {
            Ok(o) => r == Ok::<bool, String>(o.exit_success),
            Err(e) => r is Err && r->Err_0@ == described("Failed to check caddy"@, e@),
        },
{
    match which {
        Ok(o) => Ok(o.exit_success),
        Err(e) => Err(describe("Failed to check caddy", e.as_str())),
    }
}

/// Decides what follows `which brew` before an install: the install only
/// runs where the package manager was found.
pub fn install_caddy(check: &Result<CommandResult, String>) -> (r: Next)
    ensures
        r@ == install_check_verdict(*check),
{
    match check {
        Err(e) => Next::Done(fail_with("Failed to check homebrew", e)),
        Ok(o) => if o.exit_success {
            Next::Continue
        } else {
            Next::Done(fail("Homebrew is not installed. Please install it from https://brew.sh"))
        },
    }
}

/// The outcome of `brew install caddy`; an earlier install is no failure.
pub fn finish_install(out: &Result<CommandResult, String>) -> (r: Result<String, String>)
    ensures
        verdict_of(r) == install_verdict(*out),
{
    match out {
        Err(e) => fail_with("Failed to install caddy", e),
        Ok(o) => if o.exit_success {
            succeed("Caddy installed successfully")
        } else if contains_text(o.stderr.as_str(), "already installed") {
            succeed("Caddy is already installed")
        } else {
            Err(o.stderr.clone())
        },
    }
}

/// Decides what follows `which brew` before an uninstall (which a
/// best-effort `caddy stop` precedes).
pub fn uninstall_caddy(check: &Result<CommandResult, String>) -> (r: Next)
    ensures
        r@ == uninstall_check_verdict(*check),
{
    match check {
        Err(e) => Next::Done(fail_with("Failed to check homebrew", e)),
        Ok(o) => if o.exit_success {
            Next::Continue
        } else {
            Next::Done(fail("Cannot uninstall: Homebrew not found"))
        },
    }
}

/// The outcome of `brew uninstall caddy`.
pub fn finish_uninstall(out: &Result<CommandResult, String>) -> (r: Result<String, String>)
    ensures
        verdict_of(r) == uninstall_verdict(*out),
{
    match out {
        Err(e) => fail_with("Failed to uninstall caddy", e),
        Ok(o) => if o.exit_success {
            succeed("Caddy uninstalled successfully")
        } else {
            Err(o.stderr.clone())
        },
    }
}

} // verus!

verus! {

/// A reload that finds no server listening goes on to exactly one launch of
/// the server, whose own outcome is final; a reload that fails otherwise
/// launches nothing.
pub proof fn lemma_reload_falls_back_once(out: Result<CommandResult, String>, spawned: Result<(), String>)
    ensures
        (out is Ok && !out->Ok_0.exit_success && says_not_running(out->Ok_0.stderr@))
            <==> reload_verdict(out) == Verdict::Proceed,
        launch_verdict(spawned, reload_started_message()) != Verdict::Proceed,
{
}

/// An install whose tool exits with failure but reports an earlier install
/// is a success.
pub proof fn lemma_already_installed_is_success(out: Result<CommandResult, String>)
    requires
        out is Ok,
        !out->Ok_0.exit_success,
        says_already_installed(out->Ok_0.stderr@),
    ensures
        install_verdict(out) == Verdict::Succeeded("Caddy is already installed"@),
{
}

/// A stop succeeds whatever both of its subprocesses reported.
pub proof fn lemma_stop_never_fails(brew: Result<CommandResult, String>)
    ensures
        stop_verdict(brew) is Succeeded,
{
}

/// Without the package manager an install ends at once with an error that
/// names it, and no install command follows.
pub proof fn lemma_install_needs_package_manager(check: Result<CommandResult, String>)
    requires
        !ran_ok(check),
    ensures
        install_check_verdict(check) is Failed,
        check is Ok ==> has_infix(install_check_verdict(check)->Failed_0, "Homebrew"@),
{
    if check is Ok {
        let msg = "Homebrew is not installed. Please install it from https://brew.sh"@;
        reveal_strlit("Homebrew is not installed. Please install it from https://brew.sh");
        reveal_strlit("Homebrew");
        assert(msg.subrange(0, 8) =~= "Homebrew"@);
        assert(msg.subrange(0, 0 + "Homebrew"@.len() as int) == "Homebrew"@);
    }
}

} // verus!
