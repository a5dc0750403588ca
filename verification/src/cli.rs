//! The command line of `odx`: its global options, its subcommands, and the output
//! settings the options select. Parsing the arguments is the caller's.
use vstd::prelude::*;
use crate::commands::db::DbCommands;
use crate::commands::store::StoreCommands;
use crate::text::cat;
use crate::ui::{ColorMode, UiConfig};

verus! {

/// How `--color` was given.
#[derive(Debug, Clone, Copy, PartialEq, Eq, Structural)]
pub enum CliColor {
    Auto,
    Always,
    Never,
}

/// The color mode a `--color` value selects.
pub open spec fn color_mode_of(v: CliColor) -> ColorMode {
    match v {
        CliColor::Auto => ColorMode::Auto,
        CliColor::Always => ColorMode::Always,
        CliColor::Never => ColorMode::Never,
    }
}

impl From<CliColor> for ColorMode {
    fn from(v: CliColor) -> (r: Self) {
        match v {
            CliColor::Auto => ColorMode::Auto,
            CliColor::Always => ColorMode::Always,
            CliColor::Never => ColorMode::Never,
        }
    }
}

impl vstd::std_specs::convert::FromSpecImpl<CliColor> for ColorMode {
    open spec fn obeys_from_spec() -> bool {
        true
    }

    open spec fn from_spec(v: CliColor) -> ColorMode {
        color_mode_of(v)
    }
}

/// The subcommands.
#[derive(Debug)]
pub enum Commands {
    /// Run Odoo server; `debug_port` asks for a debugger port (the next free one is
    /// used when it is taken), `debug_wait` holds Odoo until a client attaches.
    Run { plain: bool, debug_port: Option<u16>, debug_wait: bool },
    /// Update all Odoo modules
    Update { database: String },
    /// Update specific module
    UpdateModule { module: String, database: String },
    /// Open Odoo shell, with the debugger on `debug_port` when given
    Shell { database: String, debug_port: Option<u16> },
    /// Database operations
    Db(DbCommands),
    /// Shared Odoo store
    Store(StoreCommands),
    /// Export translations per addon (.pot template or .po for a locale)
    I18n { database: String, module: Option<String>, lang: Option<String> },
    /// Run tests in a temporary database
    Test {
        tags: Vec<String>,
        heartbeat_seconds: u64,
        log_file: Option<String>,
        no_log_file: bool,
        odoo_log_level: String,
        debug_port: Option<u16>,
        debug_wait: bool,
    },
    /// Install/update Python dependencies
    Install,
    /// Sync Odoo source
    Sync,
    /// Clean temporary files
    Clean,
    /// Create a new Odoo project
    New { project_name: String, version: String, cd: bool },
    /// Check system requirements and dependencies
    Doctor,
}

/// The parsed command line.
#[derive(Debug)]
pub struct Cli {
    /// Python version to use for a new project's environment (default 3.11).
    pub python: String,
    /// Output for scripts and CI: no colors, spinners or prompts.
    pub json: bool,
    /// Less output (errors are kept).
    pub quiet: bool,
    pub color: CliColor,
    /// No spinners or progress bars.
    pub no_progress: bool,
    pub command: Commands,
}

impl Cli {
    /// The output settings the global options select.
    pub fn ui_config(&self) -> (r: UiConfig)
        ensures
            r.color == color_mode_of(self.color),
            r.quiet == self.quiet,
            r.json == self.json,
            r.progress == !self.no_progress,
    {
        UiConfig { color: ColorMode::from(self.color), quiet: self.quiet, json: self.json, progress: !self.no_progress }
    }

    /// What is reported when a command fails.
    pub fn error_line(e: &str) -> (r: String)
        ensures
            r@ == "Error: "@ + e@,
    {
        cat("Error: ", e)
    }
}

} // verus!
