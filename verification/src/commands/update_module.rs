//! `odx update-module`: update one module of a database.
use vstd::prelude::*;
use crate::commands::db::{db_name_error, validate_db_name};
use crate::text::{owned, strs};
use crate::utils::{call_of, Invocation};

verus! {

/// The arguments of `odoo-bin` that update one module and stop.
pub open spec fn update_module_args(
    odoo_bin: Seq<char>,
    config: Seq<char>,
    addons_path: Seq<char>,
    database: Seq<char>,
    module: Seq<char>,
) -> Seq<Seq<char>> {
    seq![
        odoo_bin, "-c"@, config, "--addons-path"@, addons_path, "-d"@, database, "-u"@, module, "--no-http"@,
        "--stop-after-init"@,
    ]
}

/// What `odx update-module <module> -d <database>` runs with the project's Python, once
/// the database name is accepted by [`validate_db_name`].
pub fn execute(
    module: &str,
    database: &str,
    python: &str,
    odoo_bin: &str,
    config: &str,
    addons_path: &str,
) -> (r: Result<Invocation, String>)
    ensures
        (match db_name_error(database@) {
            Some(m) => r is Err && r->Err_0@ == m,
            None => r is Ok && call_of(r->Ok_0) == (
                python@,
                update_module_args(odoo_bin@, config@, addons_path@, database@, module@),
            ),
        }),
{
    match validate_db_name(database) {
        Err(e) => Err(e),
        Ok(()) => {
            let args = vec![
                owned(odoo_bin),
                owned("-c"),
                owned(config),
                owned("--addons-path"),
                owned(addons_path),
                owned("-d"),
                owned(database),
                owned("-u"),
                owned(module),
                owned("--no-http"),
                owned("--stop-after-init"),
            ];
            assert(strs(args@) =~= update_module_args(odoo_bin@, config@, addons_path@, database@, module@));
            Ok(Invocation { program: owned(python), args })
        },
    }
}

} // verus!
