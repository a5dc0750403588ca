//! `odx db`: the project's PostgreSQL, run with Docker Compose.
use vstd::prelude::*;
use crate::text::{owned, strs};
use crate::utils::{call_of, compose_call, compose_invocation, Invocation};

verus! {

/// A database name odx passes on: not empty, ASCII letters, digits and `_` only.
pub open spec fn db_name_ok(db: Seq<char>) -> bool {
    forall|i: int| 0 <= i < db.len() ==> {
        let c = #[trigger] db[i];
        ('a' <= c && c <= 'z') || ('A' <= c && c <= 'Z') || ('0' <= c && c <= '9') || c == '_'
    }
}

/// Why a database name is refused, if it is.
pub open spec fn db_name_error(db: Seq<char>) -> Option<Seq<char>> {
    if db.len() == 0 {
        Some("Database name cannot be empty"@)
    } else if !db_name_ok(db) {
        Some("Invalid database name '"@ + db + "'. Allowed characters: letters, numbers, underscore (_)"@)
    } else {
        None
    }
}

/// Refuses a database name that could carry anything but a plain identifier into a
/// command line.
pub fn validate_db_name(db: &str) -> (r: Result<(), String>)
    ensures
        (match db_name_error(db@) {
            None => r is Ok,
            Some(m) => r is Err && r->Err_0@ == m,
        }),
{
    let cs = crate::text::chars_of(db);
    if cs.len() == 0 {
        return Err(owned("Database name cannot be empty"));
    }
    let mut i: usize = 0;
    while i < cs.len()
        invariant
            i <= cs@.len(),
            cs@ == db@,
            forall|k: int| 0 <= k < i ==> {
                let c = #[trigger] cs@[k];
                ('a' <= c && c <= 'z') || ('A' <= c && c <= 'Z') || ('0' <= c && c <= '9') || c == '_'
            },
        decreases cs.len() - i,
    {
        let c = cs[i];
        let ok = ('a' <= c && c <= 'z') || ('A' <= c && c <= 'Z') || ('0' <= c && c <= '9') || c == '_';
        if !ok {
            let mut m = crate::text::cat3("Invalid database name '", db, "'. Allowed characters: letters, numbers, underscore (_)");
            return Err(m);
        }
        i = i + 1;
    }
    Ok(())
}

/// A name that passes holds only letters, digits and underscores, so it can never
/// start an option or hold a separator or a quote.
pub proof fn law_valid_db_names_are_plain(db: Seq<char>)
    requires
        db_name_error(db) is None,
    ensures
        db.len() > 0,
        db[0] != '-',
        forall|i: int| 0 <= i < db.len() ==> #[trigger] db[i] != ' ' && db[i] != '/' && db[i] != '\'' && db[i] != ';',
{
    assert(db_name_ok(db));
    let c = db[0];
    assert(('a' <= c && c <= 'z') || ('A' <= c && c <= 'Z') || ('0' <= c && c <= '9') || c == '_');
}

#[derive(Debug)]
pub enum DbCommands {
    /// Start PostgreSQL with Docker Compose
    Start,
    /// Stop PostgreSQL
    Stop,
    /// View PostgreSQL logs
    Logs,
    /// List Odoo databases
    Ls,
    /// Connect to PostgreSQL database
    Psql,
    /// Drop a PostgreSQL database
    Drop { database: String, force: bool, if_exists: bool },
}

/// The query `odx db ls` runs: the databases but PostgreSQL's own.
pub const LIST_QUERY: &'static str = "SELECT datname FROM pg_database WHERE datname NOT IN ('template0','template1','postgres') ORDER BY datname;";

/// The Compose arguments of `dropdb` for a database.
pub open spec fn drop_args(database: Seq<char>, force: bool, if_exists: bool) -> Seq<Seq<char>> {
    seq!["exec"@, "-T"@, "postgres"@, "dropdb"@] + (if force {
        seq!["--force"@]
    } else {
        Seq::empty()
    }) + (if if_exists {
        seq!["--if-exists"@]
    } else {
        Seq::empty()
    }) + seq!["-U"@, "odoo"@, database]
}

/// The Compose arguments of each subcommand.
pub open spec fn db_args(cmd: DbCommands) -> Seq<Seq<char>> {
    match cmd {
        DbCommands::Start => seq!["up"@, "-d"@, "postgres"@],
        DbCommands::Stop => seq!["down"@],
        DbCommands::Logs => seq!["logs"@, "-f"@, "postgres"@],
        DbCommands::Ls => seq![
            "exec"@, "-T"@, "postgres"@, "psql"@, "-U"@, "odoo"@, "-d"@, "postgres"@, "-c"@, LIST_QUERY@,
        ],
        DbCommands::Psql => seq!["exec"@, "postgres"@, "psql"@, "-U"@, "odoo"@, "-d"@, "postgres"@],
        DbCommands::Drop { database, force, if_exists } => drop_args(database@, force, if_exists),
    }
}

/// The name of a database being dropped.
pub open spec fn dropped_name(cmd: DbCommands) -> Option<Seq<char>> {
    match cmd {
        DbCommands::Drop { database, .. } => Some(database@),
        _ => None,
    }
}

/// The `dropdb` call for a database, once its name has passed [`validate_db_name`];
/// asking for confirmation, when `--force` is not given, is the caller's.
pub fn drop_db(docker_compose: &str, database: &str, force: bool, if_exists: bool) -> (r: Result<Invocation, String>)
    ensures
        (match db_name_error(database@) {
            Some(m) => r is Err && r->Err_0@ == m,
            None => r is Ok && call_of(r->Ok_0) == compose_call(docker_compose@, drop_args(database@, force, if_exists)),
        }),
{
    match validate_db_name(database) {
        Err(e) => Err(e),
        Ok(()) => {
            let mut args: Vec<String> = Vec::new();
            args.push(owned("exec"));
            args.push(owned("-T"));
            args.push(owned("postgres"));
            args.push(owned("dropdb"));
            let ghost a0 = strs(args@);
            if force {
                args.push(owned("--force"));
            }
            let ghost a1 = strs(args@);
            if if_exists {
                args.push(owned("--if-exists"));
            }
            let ghost a2 = strs(args@);
            args.push(owned("-U"));
            args.push(owned("odoo"));
            args.push(owned(database));
            assert(strs(args@) =~= drop_args(database@, force, if_exists));
            Ok(compose_invocation(docker_compose, args))
        },
    }
}

/// What `odx db <cmd>` runs through Docker Compose (`docker_compose` as
/// `find_docker_compose_command` gave it).
pub fn execute(docker_compose: &str, cmd: &DbCommands) -> (r: Result<Invocation, String>)
    ensures
        (match dropped_name(*cmd) {
            Some(db) => (match db_name_error(db) {
                Some(m) => r is Err && r->Err_0@ == m,
                None => r is Ok && call_of(r->Ok_0) == compose_call(docker_compose@, db_args(*cmd)),
            }),
            None => r is Ok && call_of(r->Ok_0) == compose_call(docker_compose@, db_args(*cmd)),
        }),
{
    let args: Vec<String> = match cmd {
        DbCommands::Start => vec![owned("up"), owned("-d"), owned("postgres")],
        DbCommands::Stop => vec![owned("down")],
        DbCommands::Logs => vec![owned("logs"), owned("-f"), owned("postgres")],
        DbCommands::Ls => vec![
            owned("exec"),
            owned("-T"),
            owned("postgres"),
            owned("psql"),
            owned("-U"),
            owned("odoo"),
            owned("-d"),
            owned("postgres"),
            owned("-c"),
            owned(LIST_QUERY),
        ],
        DbCommands::Psql => vec![
            owned("exec"),
            owned("postgres"),
            owned("psql"),
            owned("-U"),
            owned("odoo"),
            owned("-d"),
            owned("postgres"),
        ],
        DbCommands::Drop { database, force, if_exists } => {
            return drop_db(docker_compose, database.as_str(), *force, *if_exists);
        },
    };
    assert(strs(args@) =~= db_args(*cmd));
    Ok(compose_invocation(docker_compose, args))
}

} // verus!
