//! The project's database settings, read from `odoo.conf.local` (or `odoo.conf`)
//! with `configparser`.
use vstd::prelude::*;
use crate::odoo_source::opt_str;
use crate::paths::path_join;
use crate::text::{cat, cat3, owned};

verus! {

/// The error `configparser::ini::Ini::read` reports for a text, when it cannot parse it.
pub uninterp spec fn ini_parse_error(content: Seq<char>) -> Option<Seq<char>>;

/// The value `Ini::get(section, key)` gives after `Ini::read` of a text (keys and
/// sections compared case-insensitively, as `Ini::new` sets up).
pub uninterp spec fn ini_get(content: Seq<char>, section: Seq<char>, key: Seq<char>) -> Option<Seq<char>>;

/// `Ini::new` then `Ini::read`; the error text when reading fails. Claims only that it
/// is the named function of the text.
#[verifier::external_body]
fn ini_read_error(content: &str) -> (r: Option<String>)
    ensures
        opt_str(r) == ini_parse_error(content@),
{
    let mut ini = configparser::ini::Ini::new();
    ini.read(content.to_string()).err()
}

/// `Ini::new`, `Ini::read`, then `Ini::get`. Claims only that the value is the named
/// function of the text, the section and the key.
#[verifier::external_body]
fn ini_value(content: &str, section: &str, key: &str) -> (r: Option<String>)
    ensures
        opt_str(r) == ini_get(content@, section@, key@),
{
    let mut ini = configparser::ini::Ini::new();
    let _ = ini.read(content.to_string());
    ini.get(section, key)
}

pub struct Config {
    pub db_host: String,
    pub db_port: String,
    pub db_user: String,
    pub db_password: String,
    pub db_name: Option<String>,
}

/// A value of the `[options]` section, or its default.
pub open spec fn option_or(content: Seq<char>, key: Seq<char>, default: Seq<char>) -> Seq<char> {
    match ini_get(content, "options"@, key) {
        Some(v) => v,
        None => default,
    }
}

/// The configuration file read: `odoo.conf.local` when it exists, else `odoo.conf`.
pub open spec fn config_file_of(project_root: Seq<char>, local_exists: bool) -> Seq<char> {
    if local_exists {
        path_join(project_root, "odoo.conf.local"@)
    } else {
        path_join(project_root, "odoo.conf"@)
    }
}

impl Config {
    /// The file to read, which must exist.
    pub fn config_file(project_root: &str, local_exists: bool, base_exists: bool) -> (r: Result<String, String>)
        ensures
            r is Ok <==> (local_exists || base_exists),
            r matches Ok(p) ==> p@ == config_file_of(project_root@, local_exists),
            r matches Err(e) ==> e@ == "Config file not found: "@ + config_file_of(project_root@, local_exists),
    {
        let path = if local_exists {
            crate::paths::join(project_root, "odoo.conf.local")
        } else {
            crate::paths::join(project_root, "odoo.conf")
        };
        if !local_exists && !base_exists {
            return Err(cat("Config file not found: ", path.as_str()));
        }
        Ok(path)
    }

    /// The settings in a configuration text read from `path`: the database host, port,
    /// user and password of `[options]` (defaulting to `localhost`, `5432`, `odoo`,
    /// `odoo`) and its database name, if any.
    pub fn from_content(path: &str, content: &str) -> (r: Result<Config, String>)
        ensures
            (match ini_parse_error(content@) {
                Some(why) => r is Err && r->Err_0@ == "Failed to load config: couldn't read "@ + path@ + ": "@ + why,
                None => r is Ok && {
                    let c = r->Ok_0;
                    &&& c.db_host@ == option_or(content@, "db_host"@, "localhost"@)
                    &&& c.db_port@ == option_or(content@, "db_port"@, "5432"@)
                    &&& c.db_user@ == option_or(content@, "db_user"@, "odoo"@)
                    &&& c.db_password@ == option_or(content@, "db_password"@, "odoo"@)
                    &&& opt_str(c.db_name) == ini_get(content@, "options"@, "db_name"@)
                },
            }),
    {
        if let Some(why) = ini_read_error(content) {
            let mut m = cat3("Failed to load config: couldn't read ", path, ": ");
            m.append(why.as_str());
            return Err(m);
        }
        let db_host = match ini_value(content, "options", "db_host") {
            Some(v) => v,
            None => owned("localhost"),
        };
        let db_port = match ini_value(content, "options", "db_port") {
            Some(v) => v,
            None => owned("5432"),
        };
        let db_user = match ini_value(content, "options", "db_user") {
            Some(v) => v,
            None => owned("odoo"),
        };
        let db_password = match ini_value(content, "options", "db_password") {
            Some(v) => v,
            None => owned("odoo"),
        };
        let db_name = ini_value(content, "options", "db_name");
        Ok(Config { db_host, db_port, db_user, db_password, db_name })
    }
}

} // verus!
