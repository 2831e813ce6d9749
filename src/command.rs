use vstd::prelude::*;
use vstd::string::StringExecFns;

use crate::locate::paths_view;

verus! {

/// What a finished subprocess reported.
pub struct CommandResult {
    pub exit_success: bool,
    pub stdout: String,
    pub stderr: String,
}

/// A subprocess to launch: the program, its arguments, and whether it is
/// left running on its own (`detached`) rather than waited for.
pub struct Invocation {
    pub program: String,
    pub args: Vec<String>,
    pub detached: bool,
}

/// The invocation launches `program` with exactly `args`.
pub open spec fn launches(inv: Invocation, program: Seq<char>, args: Seq<Seq<char>>, detached: bool) -> bool {
    inv.program@ == program && paths_view(inv.args@) == args && inv.detached == detached
}

fn strings(a: &str, b: &str, c: &str) -> (r: Vec<String>)
    ensures
        paths_view(r@) == seq![a@, b@, c@],
{
    let v = vec![String::from_str(a), String::from_str(b), String::from_str(c)];
    proof {
        assert(paths_view(v@) =~= seq![a@, b@, c@]);
    }
    v
}

/// `caddy reload --config <config>`, waited for.
pub fn reload_command(caddy: &str, config: &str) -> (r: Invocation)
    ensures
        launches(r, caddy@, seq!["reload"@, "--config"@, config@], false),
{
    Invocation { program: String::from_str(caddy), args: strings("reload", "--config", config), detached: false }
}

/// `caddy run --config <config> --adapter caddyfile`, left running.
pub fn run_command(caddy: &str, config: &str) -> (r: Invocation)
    ensures
        launches(r, caddy@, seq!["run"@, "--config"@, config@, "--adapter"@, "caddyfile"@], true),
{
    let args = vec![
        String::from_str("run"),
        String::from_str("--config"),
        String::from_str(config),
        String::from_str("--adapter"),
        String::from_str("caddyfile"),
    ];
    proof {
        assert(paths_view(args@) =~= seq!["run"@, "--config"@, config@, "--adapter"@, "caddyfile"@]);
    }
    Invocation { program: String::from_str(caddy), args, detached: true }
}

/// `caddy start --config <config>`, left running.
pub fn start_command(caddy: &str, config: &str) -> (r: Invocation)
    ensures
        launches(r, caddy@, seq!["start"@, "--config"@, config@], true),
{
    Invocation { program: String::from_str(caddy), args: strings("start", "--config", config), detached: true }
}

/// `caddy stop`, waited for.
pub fn stop_command(caddy: &str) -> (r: Invocation)
    ensures
        launches(r, caddy@, seq!["stop"@], false),
{
    let args = vec![String::from_str("stop")];
    proof {
        assert(paths_view(args@) =~= seq!["stop"@]);
    }
    Invocation { program: String::from_str(caddy), args, detached: false }
}

/// `brew services <verb> caddy`, waited for.
pub fn brew_services_command(verb: &str) -> (r: Invocation)
    ensures
        launches(r, "brew"@, seq!["services"@, verb@, "caddy"@], false),
{
    Invocation { program: String::from_str("brew"), args: strings("services", verb, "caddy"), detached: false }
}

/// `brew <verb> caddy`, waited for.
pub fn brew_package_command(verb: &str) -> (r: Invocation)
    ensures
        launches(r, "brew"@, seq![verb@, "caddy"@], false),
{
    let args = vec![String::from_str(verb), String::from_str("caddy")];
    proof {
        assert(paths_view(args@) =~= seq![verb@, "caddy"@]);
    }
    Invocation { program: String::from_str("brew"), args, detached: false }
}

/// `which <name>`, waited for: a search-path lookup.
pub fn which_command(name: &str) -> (r: Invocation)
    ensures
        launches(r, "which"@, seq![name@], false),
{
    let args = vec![String::from_str(name)];
    proof {
        assert(paths_view(args@) =~= seq![name@]);
    }
    Invocation { program: String::from_str("which"), args, detached: false }
}

} // verus!
