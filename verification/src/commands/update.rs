//! `odx update`: update every module of a database.
use vstd::prelude::*;
use crate::commands::db::{db_name_error, validate_db_name};
use crate::text::{owned, strs};
use crate::utils::{call_of, Invocation};

verus! {

/// The arguments of `odoo-bin` that update all modules and stop.
pub open spec fn update_args(odoo_bin: Seq<char>, config: Seq<char>, addons_path: Seq<char>, database: Seq<char>) -> Seq<Seq<char>> {
    seq![
        odoo_bin, "-c"@, config, "--addons-path"@, addons_path, "-d"@, database, "-u"@, "all"@, "--no-http"@,
        "--stop-after-init"@, "--log-level=warn"@,
    ]
}

/// What `odx update -d <database>` runs with the project's Python, once the database
/// name is accepted by [`validate_db_name`].
pub fn execute(
    database: &str,
    python: &str,
    odoo_bin: &str,
    config: &str,
    addons_path: &str,
) -> (r: Result<Invocation, String>)
    ensures
        (match db_name_error(database@) {
            Some(m) => r is Err && r->Err_0@ == m,
            None => r is Ok && call_of(r->Ok_0) == (python@, update_args(odoo_bin@, config@, addons_path@, database@)),
        }),
{
    match validate_db_name(database) {
        Err(e) => Err(e),
        Ok(()) => {
            let args = vec![
                owned(odoo_bin),
                owned("-c"),
                owned(config),
                owned("--addons-path"),
                owned(addons_path),
                owned("-d"),
                owned(database),
                owned("-u"),
                owned("all"),
                owned("--no-http"),
                owned("--stop-after-init"),
                owned("--log-level=warn"),
            ];
            assert(strs(args@) =~= update_args(odoo_bin@, config@, addons_path@, database@));
            Ok(Invocation { program: owned(python), args })
        },
    }
}

} // verus!
