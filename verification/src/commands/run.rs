//! `odx run`: the server's command line, where its log goes, and what each log line
//! and the exit status become.
use vstd::prelude::*;
use crate::debug::{address_of, DebugSetup};
use crate::paths::path_join;
use crate::text::{cat, cat3, decimal, decimal_string, owned, signed_decimal, signed_decimal_string, strs};
use crate::tui::LogLevel;
use crate::ui::UiConfig;

verus! {

/// Odoo's developer features (`reload,qweb,xml` and friends); debugging goes over DAP.
pub const DEV_FLAG: &'static str = "--dev=all";

/// The log of a run started at `timestamp`: `.testing/sessions/run-<timestamp>/run.log`.
pub open spec fn session_log_of(project_root: Seq<char>, timestamp: u64) -> Seq<char> {
    path_join(
        path_join(path_join(path_join(project_root, ".testing"@), "sessions"@), "run-"@ + decimal(timestamp as nat)),
        "run.log"@,
    )
}

pub fn session_log_path(project_root: &str, timestamp: u64) -> (r: String)
    ensures
        r@ == session_log_of(project_root@, timestamp),
{
    let a = crate::paths::join(project_root, ".testing");
    let b = crate::paths::join(a.as_str(), "sessions");
    let dir = cat("run-", decimal_string(timestamp).as_str());
    let c = crate::paths::join(b.as_str(), dir.as_str());
    crate::paths::join(c.as_str(), "run.log")
}

/// The arguments of `odoo-bin` for a server run.
pub open spec fn server_args_spec(odoo_bin: Seq<char>, config: Seq<char>, addons_path: Seq<char>) -> Seq<Seq<char>> {
    seq![odoo_bin, "-c"@, config, "--addons-path"@, addons_path, DEV_FLAG@]
}

pub fn server_args(odoo_bin: &str, config: &str, addons_path: &str) -> (r: Vec<String>)
    ensures
        strs(r@) == server_args_spec(odoo_bin@, config@, addons_path@),
{
    let r = vec![owned(odoo_bin), owned("-c"), owned(config), owned("--addons-path"), owned(addons_path), owned(DEV_FLAG)];
    assert(strs(r@) =~= server_args_spec(odoo_bin@, config@, addons_path@));
    r
}

/// The dashboard is used unless `--plain`, `--no-progress` or `--json` was given, or
/// standard output is not a terminal.
pub fn use_dashboard(plain: bool, cfg: &UiConfig, stdout_tty: bool) -> (r: bool)
    ensures
        r == (!plain && cfg.progress && !cfg.json && stdout_tty),
{
    !plain && cfg.progress && !cfg.json && stdout_tty
}

/// The dashboard's title: the project's directory name (`odx run` when it has none),
/// the Odoo series (`unknown` when it could not be read) and the debugger's address.
pub open spec fn title_text(name: Option<Seq<char>>, version: Option<Seq<char>>, host: Seq<char>, port: u16) -> Seq<char> {
    "odx run — "@ + (match name {
        Some(n) => n,
        None => "odx run"@,
    }) + " (Odoo "@ + (match version {
        Some(v) => v,
        None => "unknown"@,
    }) + ") · dap "@ + address_of(host, port)
}

pub fn title(name: Option<&str>, version: Result<String, String>, debug: &DebugSetup) -> (r: String)
    ensures
        r@ == title_text(
            crate::debug::opt_str_view(name),
            match version {
                Ok(v) => Some(v@),
                Err(_) => None,
            },
            debug.host@,
            debug.port,
        ),
{
    let n = match name {
        Some(n) => owned(n),
        None => owned("odx run"),
    };
    let v = match version {
        Ok(v) => v,
        Err(_) => owned("unknown"),
    };
    let mut r = cat("odx run — ", n.as_str());
    r.append(" (Odoo ");
    r.append(v.as_str());
    r.append(") · dap ");
    r.append(debug.address().as_str());
    r
}

/// The name of a level in `--json` output.
pub open spec fn level_label(level: LogLevel) -> Seq<char> {
    match level {
        LogLevel::Debug => "debug"@,
        LogLevel::Info => "info"@,
        LogLevel::Warning => "warning"@,
        LogLevel::Error => "error"@,
        LogLevel::Critical => "critical"@,
        LogLevel::Unknown => "unknown"@,
        LogLevel::Notice => "notice"@,
    }
}

pub fn level_name(level: LogLevel) -> (r: &'static str)
    ensures
        r@ == level_label(level),
{
    match level {
        LogLevel::Debug => "debug",
        LogLevel::Info => "info",
        LogLevel::Warning => "warning",
        LogLevel::Error => "error",
        LogLevel::Critical => "critical",
        LogLevel::Unknown => "unknown",
        LogLevel::Notice => "notice",
    }
}

/// What the plain (non-dashboard) run does with one line of the server's output.
#[derive(Debug, Clone, Copy, PartialEq, Eq, Structural)]
pub enum LineRoute {
    /// Written as a JSON object (`--json`).
    Json,
    /// Dropped (`--quiet` keeps only errors).
    Drop,
    /// Passed through, colored by level.
    Print,
}

pub open spec fn route_of(json: bool, quiet: bool, level: LogLevel) -> LineRoute {
    if json {
        LineRoute::Json
    } else if quiet && !(level == LogLevel::Error || level == LogLevel::Critical) {
        LineRoute::Drop
    } else {
        LineRoute::Print
    }
}

pub fn route_line(json: bool, quiet: bool, level: LogLevel) -> (r: LineRoute)
    ensures
        r == route_of(json, quiet, level),
{
    if json {
        LineRoute::Json
    } else if quiet && !(level == LogLevel::Error || level == LogLevel::Critical) {
        LineRoute::Drop
    } else {
        LineRoute::Print
    }
}

/// With `--quiet`, errors and critical lines still get through.
pub proof fn law_quiet_keeps_problems(level: LogLevel)
    requires
        level == LogLevel::Error || level == LogLevel::Critical,
    ensures
        route_of(false, true, level) == LineRoute::Print,
{
}

/// How a plain run ends: success when the server exited with 0 or was stopped by a
/// signal (Ctrl+C is the normal way to stop it), an error naming any other code.
pub open spec fn exit_outcome(code: Option<i32>) -> Result<(), Seq<char>> {
    match code {
        None => Ok(()),
        Some(c) => if c == 0 {
            Ok(())
        } else {
            Err("odoo-bin exited with code "@ + signed_decimal(c as int))
        },
    }
}

pub fn run_exit_result(code: Option<i32>) -> (r: Result<(), String>)
    ensures
        (match (r, exit_outcome(code)) {
            (Ok(()), Ok(())) => true,
            (Err(e), Err(m)) => e@ == m,
            _ => false,
        }),
{
    match code {
        None => Ok(()),
        Some(0) => Ok(()),
        Some(c) => Err(cat("odoo-bin exited with code ", signed_decimal_string(c).as_str())),
    }
}

/// The warning when debugpy is missing from the project's environment.
pub fn debugger_missing_warning(debug: &DebugSetup) -> (r: String)
    ensures
        r@ == "debugpy is not installed in .venv; starting without a debugger (run 'odx install'). Expected listener: "@
            + address_of(debug.host@, debug.port),
{
    cat("debugpy is not installed in .venv; starting without a debugger (run 'odx install'). Expected listener: ", debug.address().as_str())
}

} // verus!
