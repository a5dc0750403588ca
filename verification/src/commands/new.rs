//! `odx new`: checking the project name, and the files a new project starts with.
use vstd::prelude::*;
use crate::debug::{launch_json, launch_json_text, setup_for, DEFAULT_PORT, HOST};
use crate::pattern::{regex_is_match, regex_match};
use crate::text::{cat, cat3, chars_of, ends_with, lowercase, owned, str_eq, strs, to_lower};
use crate::utils::{keys_distinct, pair_views, replace_all, replace_str};

verus! {

/// Letters, digits, underscores and hyphens, at least one.
pub const PROJECT_NAME_PATTERN: &'static str = "^[a-zA-Z0-9_-]+$";

/// Names a project cannot take, compared in lower case: they are directories of the
/// project layout.
pub open spec fn is_reserved(lower: Seq<char>) -> bool {
    lower == "src"@ || lower == "custom_addons"@ || lower == "external_addons"@ || lower == "docs"@
        || lower == "scripts"@
}

/// Why a project name is refused, if it is.
pub open spec fn project_name_error(name: Seq<char>) -> Option<Seq<char>> {
    if name.len() == 0 {
        Some("Project name cannot be empty"@)
    } else if regex_match(PROJECT_NAME_PATTERN@, name) != Some(true) {
        Some("Project name can only contain letters, numbers, underscores, and hyphens"@)
    } else if is_reserved(lowercase(name)) {
        Some("'"@ + name + "' is a reserved name. Please choose a different name."@)
    } else {
        None
    }
}

pub fn validate_project_name(name: &str) -> (r: Result<(), String>)
    ensures
        (match project_name_error(name@) {
            None => r is Ok,
            Some(m) => r is Err && r->Err_0@ == m,
        }),
{
    if name.unicode_len() == 0 {
        return Err(owned("Project name cannot be empty"));
    }
    match regex_is_match(PROJECT_NAME_PATTERN, name) {
        Some(true) => {},
        _ => {
            return Err(owned("Project name can only contain letters, numbers, underscores, and hyphens"));
        },
    }
    let lower = to_lower(name);
    let l = lower.as_str();
    if str_eq(l, "src") || str_eq(l, "custom_addons") || str_eq(l, "external_addons") || str_eq(l, "docs")
        || str_eq(l, "scripts") {
        return Err(cat3("'", name, "' is a reserved name. Please choose a different name."));
    }
    Ok(())
}

/// What `odx new` needs before it creates anything: the requested Python and Git
/// (each given as the lookup's outcome); a failure says which one is missing.
pub fn check_prerequisites(python: Result<String, String>, git: Result<String, String>) -> (r: Result<(), String>)
    ensures
        (match (python, git) {
            (Err(e), _) => r is Err && r->Err_0@ == "Python requirement: "@ + e@,
            (Ok(_), Err(e)) => r is Err && r->Err_0@ == "Git requirement: "@ + e@,
            (Ok(_), Ok(_)) => r is Ok,
        }),
{
    match python {
        Err(e) => Err(cat("Python requirement: ", e.as_str())),
        Ok(_) => match git {
            Err(e) => Err(cat("Git requirement: ", e.as_str())),
            Ok(_) => Ok(()),
        },
    }
}

/// The variables of the project templates.
pub open spec fn project_vars(project_name: Seq<char>, version: Seq<char>) -> Seq<(Seq<char>, Seq<char>)> {
    seq![("project_name"@, project_name), ("version"@, version)]
}

pub fn template_vars(project_name: &str, version: &str) -> (r: Vec<(String, String)>)
    ensures
        pair_views(r@) == project_vars(project_name@, version@),
        keys_distinct(pair_views(r@)),
{
    let r = vec![(owned("project_name"), owned(project_name)), (owned("version"), owned(version))];
    assert(pair_views(r@) =~= project_vars(project_name@, version@));
    proof {
        reveal_strlit("project_name");
        reveal_strlit("version");
        assert("project_name"@[0] != "version"@[0]);
    }
    r
}

/// The file a project template produces: the template's name without `.template`;
/// `gitignore.template` produces `.gitignore`, which is kept when it already exists
/// (the flag). None for a file that is not a template.
pub open spec fn template_output_of(file_name: Seq<char>) -> Option<(Seq<char>, bool)> {
    if ends_with(file_name, ".template"@) && file_name.len() > ".template"@.len() {
        let stem = file_name.take(file_name.len() - ".template"@.len());
        if stem == "gitignore"@ {
            Some((".gitignore"@, true))
        } else {
            Some((stem, false))
        }
    } else {
        None
    }
}

pub fn template_output(file_name: &str) -> (r: Option<(String, bool)>)
    ensures
        (match (r, template_output_of(file_name@)) {
            (Some(p), Some(q)) => p.0@ == q.0 && p.1 == q.1,
            (None, None) => true,
            _ => false,
        }),
{
    let cs = chars_of(file_name);
    let suffix = chars_of(".template");
    proof {
        reveal_strlit(".template");
    }
    let n = cs.len();
    let k = suffix.len();
    if n > k && crate::text::ends_with_chars(&cs, &suffix) {
        let stem = crate::text::slice_chars(&cs, 0, n - k);
        assert(stem@ =~= file_name@.take(file_name@.len() - ".template"@.len()));
        let s = crate::text::string_of(&stem);
        if str_eq(s.as_str(), "gitignore") {
            Some((owned(".gitignore"), true))
        } else {
            Some((s, false))
        }
    } else {
        None
    }
}

/// The agent settings granting agents read access to the Odoo source, which lives
/// outside the project; backslashes in the path are escaped for JSON.
pub open spec fn agent_settings_text(odoo_path: Seq<char>) -> Seq<char> {
    "{\n  \"permissions\": {\n    \"additionalDirectories\": [\n      \""@ + replace_all(odoo_path, "\\"@, "\\\\"@)
        + "\"\n    ]\n  }\n}\n"@
}

pub fn agent_settings_json(odoo_path: &str) -> (r: String)
    ensures
        r@ == agent_settings_text(odoo_path@),
{
    proof {
        reveal_strlit("\\");
    }
    let escaped = replace_str(odoo_path, "\\", "\\\\");
    cat3("{\n  \"permissions\": {\n    \"additionalDirectories\": [\n      \"", escaped.as_str(), "\"\n    ]\n  }\n}\n")
}

/// The attach configuration a new project gets: loopback on the default port.
pub fn generate_debug_config() -> (r: String)
    ensures
        r@ == launch_json_text(HOST@, DEFAULT_PORT),
{
    launch_json(&setup_for(DEFAULT_PORT, false))
}

/// What `odx new` prints once the project exists: the next steps, differently when
/// the shell is about to change into the project (`cd_into`).
pub open spec fn next_steps_text(project_name: Seq<char>, cd_into: bool) -> Seq<Seq<char>> {
    let head = seq![
        "\n=================================================="@,
        "✓ Project '"@ + project_name + "' created successfully!"@,
    ];
    if cd_into {
        head + seq![
            "\nNext steps (you are in the project dir):"@,
            "  1. git init       # Initialize Git repository (optional)"@,
            "  2. odx install    # Install Python dependencies"@,
            "  3. odx db start   # Start PostgreSQL"@,
            "  4. odx run        # Run Odoo server"@,
        ]
    } else {
        head + seq![
            "\nNext steps:"@,
            "  1. cd "@ + project_name,
            "  2. git init       # Initialize Git repository (optional)"@,
            "  3. odx install    # Install Python dependencies"@,
            "  4. odx db start   # Start PostgreSQL"@,
            "  5. odx run        # Run Odoo server"@,
            "\nFor more information, see README.md"@,
        ]
    }
}

pub fn next_steps(project_name: &str, cd_into: bool) -> (r: Vec<String>)
    ensures
        strs(r@) == next_steps_text(project_name@, cd_into),
{
    let mut r: Vec<String> = Vec::new();
    r.push(owned("\n=================================================="));
    r.push(cat3("✓ Project '", project_name, "' created successfully!"));
    if cd_into {
        r.push(owned("\nNext steps (you are in the project dir):"));
        r.push(owned("  1. git init       # Initialize Git repository (optional)"));
        r.push(owned("  2. odx install    # Install Python dependencies"));
        r.push(owned("  3. odx db start   # Start PostgreSQL"));
        r.push(owned("  4. odx run        # Run Odoo server"));
    } else {
        r.push(owned("\nNext steps:"));
        r.push(cat("  1. cd ", project_name));
        r.push(owned("  2. git init       # Initialize Git repository (optional)"));
        r.push(owned("  3. odx install    # Install Python dependencies"));
        r.push(owned("  4. odx db start   # Start PostgreSQL"));
        r.push(owned("  5. odx run        # Run Odoo server"));
        r.push(owned("\nFor more information, see README.md"));
    }
    assert(strs(r@) =~= next_steps_text(project_name@, cd_into));
    r
}

} // verus!
