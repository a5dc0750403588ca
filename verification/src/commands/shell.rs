//! `odx shell`: an interactive Odoo shell, debuggable like the server.
use vstd::prelude::*;
use crate::commands::db::{db_name_error, validate_db_name};
use crate::text::{owned, strs};
use crate::utils::{call_of, Invocation};

verus! {

/// The arguments of `odoo-bin shell`.
pub open spec fn shell_args(odoo_bin: Seq<char>, config: Seq<char>, addons_path: Seq<char>, database: Seq<char>) -> Seq<Seq<char>> {
    seq![odoo_bin, "shell"@, "-c"@, config, "--addons-path"@, addons_path, "-d"@, database]
}

/// What `odx shell -d <database>` runs with the project's Python (in the debugger's
/// environment), once [`validate_db_name`] accepts the database name.
pub fn execute(
    database: &str,
    python: &str,
    odoo_bin: &str,
    config: &str,
    addons_path: &str,
) -> (r: Result<Invocation, String>)
    ensures
        (match db_name_error(database@) {
            Some(m) => r is Err && r->Err_0@ == m,
            None => r is Ok && call_of(r->Ok_0) == (python@, shell_args(odoo_bin@, config@, addons_path@, database@)),
        }),
{
    match validate_db_name(database) {
        Err(e) => Err(e),
        Ok(()) => {
            let args = vec![
                owned(odoo_bin),
                owned("shell"),
                owned("-c"),
                owned(config),
                owned("--addons-path"),
                owned(addons_path),
                owned("-d"),
                owned(database),
            ];
            assert(strs(args@) =~= shell_args(odoo_bin@, config@, addons_path@, database@));
            Ok(Invocation { program: owned(python), args })
        },
    }
}

/// The warning when the shell starts without a debugger.
pub const NO_DEBUGGER_WARNING: &'static str = "debugpy is not installed in .venv; starting without a debugger (run 'odx install')";

} // verus!
