//! DAP (Debug Adapter Protocol) support, always on.
//!
//! Every Odoo process odx starts gets a debugpy listener on loopback, so any DAP client
//! can attach without odx handing over the terminal. The listener is installed through
//! the environment: a `sitecustomize` module on `PYTHONPATH`, which survives Odoo
//! re-executing itself with `os.execve` (a launcher prefix on the command line would
//! not).
//!
//! Writing the module, probing ports and starting processes happen in the caller; the
//! settings, the environment and the attach configuration are made here.
use vstd::prelude::*;
use crate::paths::path_join;
use crate::text::{cat, cat3, decimal, decimal_string, owned, parse_u32, parse_u32_str};

verus! {

/// Loopback only: a DAP port is remote code execution for anyone who can reach it.
pub const HOST: &'static str = "127.0.0.1";

pub const DEFAULT_PORT: u16 = 5678;

/// How many ports to try, from the requested one on, before giving up.
pub const PORT_SCAN: u16 = 10;

/// Where the shim is written, relative to the project root.
pub const SHIM_DIR: &'static str = ".testing/debug";

pub const SHIM_FILE: &'static str = "sitecustomize.py";

/// Environment variable that names a port when `--debug-port` is not given.
pub const PORT_ENV: &'static str = "ODX_DEBUG_PORT";

#[derive(Debug, Clone)]
pub struct DebugSetup {
    pub host: String,
    pub port: u16,
    pub wait: bool,
}

/// `host:port`.
pub open spec fn address_of(host: Seq<char>, port: u16) -> Seq<char> {
    host + ":"@ + decimal(port as nat)
}

/// The separator of `PYTHONPATH` entries.
pub open spec fn path_list_sep(windows: bool) -> Seq<char> {
    if windows {
        ";"@
    } else {
        ":"@
    }
}

/// `PYTHONPATH` for an Odoo process: the shim directory first, then what was already
/// set, if anything.
pub open spec fn python_path_with(shim_dir: Seq<char>, existing: Option<Seq<char>>, windows: bool) -> Seq<char> {
    match existing {
        Some(e) => if e.len() > 0 {
            shim_dir + path_list_sep(windows) + e
        } else {
            shim_dir
        },
        None => shim_dir,
    }
}

/// The environment an Odoo process gets, in order.
pub open spec fn debug_env(
    setup: DebugSetup,
    shim_dir: Seq<char>,
    odoo_bin: Seq<char>,
    existing: Option<Seq<char>>,
    windows: bool,
) -> Seq<(Seq<char>, Seq<char>)> {
    seq![
        ("PYTHONPATH"@, python_path_with(shim_dir, existing, windows)),
        ("ODX_DEBUG_TARGET"@, odoo_bin),
        ("ODX_DEBUG_HOST"@, setup.host@),
        ("ODX_DEBUG_PORT"@, decimal(setup.port as nat)),
        ("ODX_DEBUG_WAIT"@, if setup.wait { "1"@ } else { "0"@ }),
        ("PYTHONBREAKPOINT"@, "debugpy.breakpoint"@),
        ("PYDEVD_DISABLE_FILE_VALIDATION"@, "1"@),
    ]
}

pub open spec fn env_views(v: Seq<(String, String)>) -> Seq<(Seq<char>, Seq<char>)> {
    v.map_values(|p: (String, String)| (p.0@, p.1@))
}

pub open spec fn opt_str_view(o: Option<&str>) -> Option<Seq<char>> {
    match o {
        Some(s) => Some(s@),
        None => None,
    }
}

impl DebugSetup {
    /// `host:port`, for logs and IDE attach configuration.
    pub fn address(&self) -> (r: String)
        ensures
            r@ == address_of(self.host@, self.port),
    {
        let mut r = cat(self.host.as_str(), ":");
        r.append(decimal_string(self.port as u64).as_str());
        r
    }

    /// The environment of an Odoo process: the shim on `PYTHONPATH` (before what
    /// `existing_python_path` held), which process to debug, where to listen, and
    /// `breakpoint()` routed to the attached client. `windows` selects the separator
    /// of `PYTHONPATH`.
    pub fn env(&self, shim_dir: &str, odoo_bin: &str, existing_python_path: Option<&str>, windows: bool) -> (r: Vec<(String, String)>)
        ensures
            env_views(r@) == debug_env(*self, shim_dir@, odoo_bin@, opt_str_view(existing_python_path), windows),
    {
        let python_path = match existing_python_path {
            Some(e) => if e.unicode_len() > 0 {
                cat3(shim_dir, if windows { ";" } else { ":" }, e)
            } else {
                owned(shim_dir)
            },
            None => owned(shim_dir),
        };
        let r = vec![
            (owned("PYTHONPATH"), python_path),
            (owned("ODX_DEBUG_TARGET"), owned(odoo_bin)),
            (owned("ODX_DEBUG_HOST"), self.host.clone()),
            (owned("ODX_DEBUG_PORT"), decimal_string(self.port as u64)),
            (owned("ODX_DEBUG_WAIT"), owned(if self.wait { "1" } else { "0" })),
            (owned("PYTHONBREAKPOINT"), owned("debugpy.breakpoint")),
            (owned("PYDEVD_DISABLE_FILE_VALIDATION"), owned("1")),
        ];
        assert(env_views(r@) =~= debug_env(*self, shim_dir@, odoo_bin@, opt_str_view(existing_python_path), windows));
        r
    }
}

/// `str::parse::<u16>`.
pub open spec fn parse_u16(s: Seq<char>) -> Option<u16> {
    match parse_u32(s) {
        Some(n) => if n <= u16::MAX {
            Some(n as u16)
        } else {
            None
        },
        None => None,
    }
}

/// The port to start looking from: `--debug-port`, else `ODX_DEBUG_PORT` when it is a
/// port number, else [`DEFAULT_PORT`].
pub open spec fn preferred_port_of(requested: Option<u16>, env_port: Option<Seq<char>>) -> u16 {
    match requested {
        Some(p) => p,
        None => match env_port {
            Some(s) => match parse_u16(s) {
                Some(p) => p,
                None => DEFAULT_PORT,
            },
            None => DEFAULT_PORT,
        },
    }
}

pub fn preferred_port(requested: Option<u16>, env_port: Option<&str>) -> (r: u16)
    ensures
        r == preferred_port_of(requested, opt_str_view(env_port)),
{
    match requested {
        Some(p) => p,
        None => match env_port {
            Some(s) => match parse_u32_str(s) {
                Some(n) => if n <= 65535 {
                    n as u16
                } else {
                    DEFAULT_PORT
                },
                None => DEFAULT_PORT,
            },
            None => DEFAULT_PORT,
        },
    }
}

/// The ports tried, in order: from `preferred` up to [`PORT_SCAN`] of them, stopping
/// below 65535.
pub open spec fn scan_end(preferred: u16) -> int {
    if preferred as int + PORT_SCAN as int > u16::MAX as int {
        u16::MAX as int
    } else {
        preferred as int + PORT_SCAN as int
    }
}

pub fn port_candidates(preferred: u16) -> (r: Vec<u16>)
    ensures
        r@.len() == scan_end(preferred) - preferred,
        forall|i: int| 0 <= i < r@.len() ==> #[trigger] r@[i] == preferred + i,
{
    let end: u16 = if preferred > 65535 - PORT_SCAN { 65535 } else { preferred + PORT_SCAN };
    let mut r: Vec<u16> = Vec::new();
    let mut p: u16 = preferred;
    while p < end
        invariant
            preferred <= p <= end,
            end == scan_end(preferred),
            r@.len() == p - preferred,
            forall|i: int| 0 <= i < r@.len() ==> #[trigger] r@[i] == preferred + i,
        decreases end - p,
    {
        r.push(p);
        p = p + 1;
    }
    r
}

/// The first candidate found free, from the `k`-th probe on, given the probes made so
/// far in order (`free[i]` for the `i`-th candidate); `preferred` when none was.
pub open spec fn first_free_from(preferred: u16, free: Seq<bool>, k: int) -> u16
    decreases free.len() - k,
{
    if k < 0 || k >= free.len() || preferred as int + k >= scan_end(preferred) {
        preferred
    } else if free[k] {
        (preferred as int + k) as u16
    } else {
        first_free_from(preferred, free, k + 1)
    }
}

/// The port to use: the first candidate that was found free, or `preferred` when the
/// whole range is busy (the shim then reports the failure and Odoo still starts).
pub fn pick_port(preferred: u16, free: &Vec<bool>) -> (r: u16)
    ensures
        r == first_free_from(preferred, free@, 0),
{
    let end: u16 = if preferred > 65535 - PORT_SCAN { 65535 } else { preferred + PORT_SCAN };
    let mut k: usize = 0;
    while k < free.len()
        invariant
            k <= free@.len(),
            end == scan_end(preferred),
            first_free_from(preferred, free@, 0) == first_free_from(preferred, free@, k as int),
        decreases free.len() - k,
    {
        if k >= (end - preferred) as usize {
            return preferred;
        }
        if free[k] {
            return (preferred as usize + k) as u16;
        }
        k = k + 1;
    }
    preferred
}

/// The port chosen is a candidate that was found free, or the preferred port when none
/// was.
pub proof fn law_picked_port_is_free_or_preferred(preferred: u16, free: Seq<bool>, k: int)
    requires
        0 <= k,
    ensures
        first_free_from(preferred, free, k) == preferred || ({
            let i = first_free_from(preferred, free, k) as int - preferred as int;
            &&& k <= i < free.len()
            &&& preferred as int + i < scan_end(preferred)
            &&& free[i]
        }),
    decreases free.len() - k,
{
    if k < free.len() && preferred as int + k < scan_end(preferred) && !free[k] {
        law_picked_port_is_free_or_preferred(preferred, free, k + 1);
    }
}

/// The directory the shim is written to.
pub open spec fn shim_dir_of(project_root: Seq<char>) -> Seq<char> {
    path_join(project_root, SHIM_DIR@)
}

pub fn shim_dir(project_root: &str) -> (r: String)
    ensures
        r@ == shim_dir_of(project_root@),
{
    crate::paths::join(project_root, SHIM_DIR)
}

/// The shim file itself.
pub fn shim_path(project_root: &str) -> (r: String)
    ensures
        r@ == path_join(shim_dir_of(project_root@), SHIM_FILE@),
{
    let d = shim_dir(project_root);
    crate::paths::join(d.as_str(), SHIM_FILE)
}

/// The attach configuration for VS Code / Cursor (`.vscode/launch.json`).
pub open spec fn launch_json_text(host: Seq<char>, port: u16) -> Seq<char> {
    LAUNCH_HEAD@ + host + LAUNCH_MID@ + decimal(port as nat) + LAUNCH_TAIL@
}

pub const LAUNCH_HEAD: &'static str = "{\n  \"version\": \"0.2.0\",\n  \"configurations\": [\n    {\n      \"name\": \"odx: attach to Odoo\",\n      \"type\": \"debugpy\",\n      \"request\": \"attach\",\n      \"connect\": { \"host\": \"";

pub const LAUNCH_MID: &'static str = "\", \"port\": ";

pub const LAUNCH_TAIL: &'static str = " },\n      \"pathMappings\": [{ \"localRoot\": \"${workspaceFolder}\", \"remoteRoot\": \"${workspaceFolder}\" }],\n      \"justMyCode\": false\n    }\n  ]\n}\n";

/// The attach configuration for this project's debugger.
pub fn launch_json(setup: &DebugSetup) -> (r: String)
    ensures
        r@ == launch_json_text(setup.host@, setup.port),
{
    let mut r = cat(LAUNCH_HEAD, setup.host.as_str());
    r.append(LAUNCH_MID);
    r.append(decimal_string(setup.port as u64).as_str());
    r.append(LAUNCH_TAIL);
    r
}

/// The setup for a run: loopback, the chosen port, and whether to wait for a client.
pub fn setup_for(port: u16, wait: bool) -> (r: DebugSetup)
    ensures
        r.host@ == HOST@,
        r.port == port,
        r.wait == wait,
{
    DebugSetup { host: owned(HOST), port, wait }
}

/// Imported by CPython at startup by every process odx launches with the shim
/// directory on `PYTHONPATH`. Best effort throughout: a debugger that cannot start
/// never stops the server from starting. `debugpy.configure(subProcess=False)` keeps
/// pydevd from patching `os.exec*` (Odoo restarts itself in place), and the bind is
/// retried because the previous adapter may still hold the port after a restart.
pub const SHIM_SOURCE: &'static str = r#"# Generated by odx -- do not edit; rewritten on every run.
#
# Starts a debugpy (DAP) listener in every Odoo process odx launches. It travels in
# PYTHONPATH rather than on the command line so that it survives Odoo restarting
# itself with os.execve(), which keeps the environment but drops any launcher prefix.

import os
import sys

_started = False


def _log(message):
    sys.stderr.write("odx: %s\n" % message)
    sys.stderr.flush()


def _is_target():
    """Only the Odoo process debugs itself.

    Everything else that inherits PYTHONPATH -- debugpy's own adapter process, pip,
    any helper -- must not try to bind the port.
    """
    target = os.environ.get("ODX_DEBUG_TARGET")
    if not target:
        return False
    argv0 = sys.argv[0] if sys.argv else ""
    if not argv0:
        return False
    return os.path.abspath(argv0) == os.path.abspath(target) or os.path.basename(
        argv0
    ) == os.path.basename(target)


def _listen(debugpy, host, port, attempts=15, delay=0.2):
    import time

    last = None
    for _ in range(attempts):
        try:
            debugpy.listen((host, port))
            return None
        except Exception as exc:
            last = exc
            time.sleep(delay)
    return last


def _start_debugger():
    global _started
    if _started or not _is_target():
        return
    _started = True

    port = os.environ.get("ODX_DEBUG_PORT")
    if not port:
        return
    host = os.environ.get("ODX_DEBUG_HOST", "127.0.0.1")

    try:
        import debugpy
    except ImportError:
        _log("debugpy not installed, debugger disabled (run 'odx install')")
        return

    try:
        # Keep pydevd away from os.exec*/fork: Odoo restarts itself in place.
        debugpy.configure(subProcess=False)
    except Exception as exc:
        _log("could not configure debugpy: %s" % exc)

    failure = _listen(debugpy, host, int(port))
    if failure is not None:
        _log("debugger disabled: %s" % failure)
        return

    _log("debugger listening on %s:%s (DAP, pid %s)" % (host, port, os.getpid()))

    if os.environ.get("ODX_DEBUG_WAIT") == "1":
        _log("waiting for a debug client to attach...")
        try:
            debugpy.wait_for_client()
        except Exception as exc:
            _log("wait for client failed: %s" % exc)
            return
        _log("debug client attached")


def _load_shadowed_sitecustomize():
    """Run any sitecustomize this module shadows (ours comes first on sys.path)."""
    import importlib.machinery
    import importlib.util

    here = os.path.dirname(os.path.abspath(__file__))
    others = [p for p in sys.path if p and os.path.abspath(p) != here]
    try:
        spec = importlib.machinery.PathFinder.find_spec("sitecustomize", others)
        if spec is None or spec.loader is None:
            return
        module = importlib.util.module_from_spec(spec)
        sys.modules["sitecustomize"] = module
        spec.loader.exec_module(module)
    except Exception as exc:
        _log("could not chain to the existing sitecustomize: %s" % exc)


try:
    _start_debugger()
except Exception as exc:  # never break the server because of the debugger
    _log("debugger disabled: %s" % exc)

_load_shadowed_sitecustomize()
"#;

} // verus!
