//! Project helpers: locating the project, choosing Python, templates, and the
//! `addons_path` that odx writes into `odoo.conf.local`.
//!
//! Whatever needs the file system or another process is looked up by the caller and
//! handed in as plain values; the decisions and the text are made here.
use vstd::prelude::*;
use crate::odoo_source::{opt_str, series_of};
use crate::paths::path_join;
use crate::pattern::{get_group, group, regex_captures, regex_groups};
use crate::text::{
    cat, cat3, chars_of, contains, contains_str, decimal, decimal_string, ends_with, join,
    join_strings, lines, lines_of, owned, parse_u32, parse_u32_str, split_char, split_chars,
    starts_with, starts_with_chars, str_eq, string_of, strs, trim, trim_str,
};

verus! {

// ---------------------------------------------------------------------------
// Locating the project and its virtual environment
// ---------------------------------------------------------------------------

/// One directory on the way from the current one up to the file-system root, with
/// which compose files it holds.
pub struct RootCandidate {
    pub path: String,
    pub compose_yml: bool,
    pub compose_yaml: bool,
}

/// A project directory holds its Compose file (`compose.yml` or `compose.yaml`). The
/// Odoo source is not required there: projects point at the shared store.
pub open spec fn is_project_dir(c: RootCandidate) -> bool {
    c.compose_yml || c.compose_yaml
}

/// The first candidate (the current directory, then each parent) that is a project
/// directory.
pub open spec fn project_root_of(candidates: Seq<RootCandidate>) -> Option<Seq<char>>
    decreases candidates.len(),
{
    if candidates.len() == 0 {
        None
    } else if is_project_dir(candidates[0]) {
        Some(candidates[0].path@)
    } else {
        project_root_of(candidates.drop_first())
    }
}

/// The project root among `candidates`: each directory from the current one up to the
/// file-system root, in that order.
pub fn find_project_root(candidates: &Vec<RootCandidate>) -> (r: Result<String, String>)
    ensures
        (match project_root_of(candidates@) {
            Some(p) => r is Ok && r->Ok_0@ == p,
            None => r is Err && r->Err_0@ == "Could not find project root (compose.yml not found)"@,
        }),
{
    let ghost cv = candidates@;
    let mut i: usize = 0;
    assert(cv.skip(0) =~= cv);
    while i < candidates.len()
        invariant
            i <= candidates@.len(),
            cv == candidates@,
            project_root_of(cv) == project_root_of(cv.skip(i as int)),
        decreases candidates.len() - i,
    {
        assert(cv.skip(i as int).drop_first() =~= cv.skip(i + 1));
        assert(cv.skip(i as int)[0] == cv[i as int]);
        if candidates[i].compose_yml || candidates[i].compose_yaml {
            return Ok(candidates[i].path.clone());
        }
        i = i + 1;
    }
    assert(cv.skip(i as int) =~= Seq::<RootCandidate>::empty());
    Err(owned("Could not find project root (compose.yml not found)"))
}

/// The directory of the project's virtual environment that holds its programs.
pub open spec fn venv_bin_dir_spec(project_root: Seq<char>, windows: bool) -> Seq<char> {
    path_join(project_root, if windows { ".venv/Scripts"@ } else { ".venv/bin"@ })
}

pub fn venv_bin_dir(project_root: &str, windows: bool) -> (r: String)
    ensures
        r@ == venv_bin_dir_spec(project_root@, windows),
{
    crate::paths::join(project_root, if windows { ".venv/Scripts" } else { ".venv/bin" })
}

/// The project's own Python interpreter.
pub open spec fn venv_python_spec(project_root: Seq<char>, windows: bool) -> Seq<char> {
    path_join(project_root, if windows { ".venv/Scripts/python.exe"@ } else { ".venv/bin/python3"@ })
}

pub fn venv_python(project_root: &str, windows: bool) -> (r: String)
    ensures
        r@ == venv_python_spec(project_root@, windows),
{
    crate::paths::join(project_root, if windows { ".venv/Scripts/python.exe" } else { ".venv/bin/python3" })
}

/// Succeeds when the virtual environment's program directory exists.
pub fn ensure_venv(venv_dir_exists: bool) -> (r: Result<(), String>)
    ensures
        r is Ok <==> venv_dir_exists,
        r matches Err(e) ==> e@ == "Virtual environment not found. Run 'odoo setup' first."@,
{
    if !venv_dir_exists {
        return Err(owned("Virtual environment not found. Run 'odoo setup' first."));
    }
    Ok(())
}

/// The Python to run: the project's own when it exists, else `python3`, else `python`
/// from `PATH`.
pub fn find_python_command(
    venv_python: Option<String>,
    path_python3: Option<String>,
    path_python: Option<String>,
) -> (r: Result<String, String>)
    ensures
        (match (venv_python, path_python3, path_python) {
            (Some(v), _, _) => r == Ok::<String, String>(v),
            (None, Some(p), _) => r == Ok::<String, String>(p),
            (None, None, Some(p)) => r == Ok::<String, String>(p),
            (None, None, None) => r is Err && r->Err_0@
                == "Python not found. Please install Python or run 'odoo setup'"@,
        }),
{
    match venv_python {
        Some(v) => Ok(v),
        None => match path_python3 {
            Some(p) => Ok(p),
            None => match path_python {
                Some(p) => Ok(p),
                None => Err(owned("Python not found. Please install Python or run 'odoo setup'")),
            },
        },
    }
}

/// The name of the operating system odx was built for, as odx reports it.
pub open spec fn os_name(target_os: Seq<char>) -> Seq<char> {
    if target_os == "linux"@ {
        "linux"@
    } else if target_os == "windows"@ {
        "windows"@
    } else if target_os == "macos"@ {
        "macos"@
    } else {
        "unknown"@
    }
}

/// `linux`, `windows`, `macos` or `unknown`, from the target's OS name
/// (`std::env::consts::OS`).
pub fn detect_os(target_os: &str) -> (r: &'static str)
    ensures
        r@ == os_name(target_os@),
{
    if str_eq(target_os, "linux") {
        "linux"
    } else if str_eq(target_os, "windows") {
        "windows"
    } else if str_eq(target_os, "macos") {
        "macos"
    } else {
        "unknown"
    }
}

/// Where the downloaded archive of an Odoo version is kept.
pub open spec fn odoo_zip_path(version: Seq<char>) -> Seq<char> {
    ".testing/odoo-zips/odoo-"@ + version + ".zip"@
}

pub fn get_odoo_zip_path(version: &str) -> (r: String)
    ensures
        r@ == odoo_zip_path(version@),
{
    let mut name = cat3("odoo-", version, ".zip");
    let ghost n = name@;
    proof {
        reveal_strlit("odoo-");
        reveal_strlit(".testing/odoo-zips");
    }
    let r = crate::paths::join(".testing/odoo-zips", name.as_str());
    assert(r@ =~= odoo_zip_path(version@)) by {
        reveal_strlit(".testing/odoo-zips/odoo-");
        reveal_strlit(".zip");
    }
    r
}


// ---------------------------------------------------------------------------
// Choosing a Python interpreter
// ---------------------------------------------------------------------------

/// `str::trim_start_matches`: every leading copy of a non-empty `p` removed.
pub open spec fn strip_all_prefix(s: Seq<char>, p: Seq<char>) -> Seq<char>
    decreases s.len(),
{
    if p.len() > 0 && starts_with(s, p) {
        strip_all_prefix(s.skip(p.len() as int), p)
    } else {
        s
    }
}

fn strip_all_prefix_exec(s: &[char], p: &[char]) -> (r: Vec<char>)
    ensures
        r@ == strip_all_prefix(s@, p@),
{
    let mut i: usize = 0;
    assert(s@.skip(0) =~= s@);
    if p.len() > 0 {
        while crate::text::occurs_at_exec(s, p, i)
            invariant
                p@.len() > 0,
                i <= s@.len(),
                strip_all_prefix(s@, p@) == strip_all_prefix(s@.skip(i as int), p@),
            decreases s.len() - i,
        {
            assert(s@.skip(i as int).take(p@.len() as int) =~= s@.subrange(i as int, i + p@.len()));
            assert(s@.skip(i as int).skip(p@.len() as int) =~= s@.skip(i + p@.len()));
            i = i + p.len();
        }
        assert(!starts_with(s@.skip(i as int), p@)) by {
            if starts_with(s@.skip(i as int), p@) {
                assert(s@.skip(i as int).take(p@.len() as int) =~= s@.subrange(i as int, i + p@.len()));
            }
        }
    }
    crate::text::slice_chars(s, i, s.len())
}

/// The major and minor number of a version such as `3.11` or `python3.12`.
pub open spec fn major_minor(version: Seq<char>) -> Result<(u32, u32), Seq<char>> {
    let parts = split_char(strip_all_prefix(version, "python"@), '.');
    if parts.len() < 2 {
        Err("Invalid Python version '"@ + version + "'. Use e.g. 3.11 or 3.12"@)
    } else {
        match (parse_u32(parts[0]), parse_u32(parts[1])) {
            (None, _) => Err("Invalid major version: "@ + parts[0]),
            (Some(_), None) => Err("Invalid minor version: "@ + parts[1]),
            (Some(a), Some(b)) => Ok((a, b)),
        }
    }
}

pub open spec fn res_pair(r: Result<(u32, u32), String>) -> Result<(u32, u32), Seq<char>> {
    match r {
        Ok(p) => Ok(p),
        Err(e) => Err(e@),
    }
}

pub fn parse_major_minor(version: &str) -> (r: Result<(u32, u32), String>)
    ensures
        res_pair(r) == major_minor(version@),
{
    let cs = chars_of(version);
    let py = chars_of("python");
    let v = strip_all_prefix_exec(&cs, &py);
    let parts = split_chars(&v, '.');
    if parts.len() < 2 {
        let mut m = cat3("Invalid Python version '", version, "'. Use e.g. 3.11 or 3.12");
        return Err(m);
    }
    let major = crate::text::parse_u32_chars(&parts[0]);
    let minor = crate::text::parse_u32_chars(&parts[1]);
    match major {
        None => Err(cat("Invalid major version: ", string_of(&parts[0]).as_str())),
        Some(a) => match minor {
            None => Err(cat("Invalid minor version: ", string_of(&parts[1]).as_str())),
            Some(b) => Ok((a, b)),
        },
    }
}

/// The executable to look for on `PATH` for a requested version: the request itself
/// when it already starts with `python`, else `python` followed by it.
pub open spec fn python_name_for(version: Seq<char>) -> Seq<char> {
    if starts_with(version, "python"@) {
        version
    } else {
        "python"@ + version
    }
}

pub fn python_candidate_name(version: &str) -> (r: String)
    ensures
        r@ == python_name_for(version@),
{
    if crate::text::starts_with_str(version, "python") {
        owned(version)
    } else {
        cat("python", version)
    }
}

/// What `pyenv which` printed names a usable interpreter: the trimmed text, when it
/// is not empty and contains `python`.
pub open spec fn pyenv_choice(stdout: Seq<char>) -> Option<Seq<char>> {
    if trim(stdout).len() > 0 && contains(trim(stdout), "python"@) {
        Some(trim(stdout))
    } else {
        None
    }
}

pub fn pyenv_candidate(stdout: &str) -> (r: Option<String>)
    ensures
        opt_str(r) == pyenv_choice(stdout@),
{
    let t = trim_str(stdout);
    if t.unicode_len() > 0 && contains_str(t.as_str(), "python") {
        Some(t)
    } else {
        None
    }
}

/// The first `N.N` in a version report.
pub const MAJOR_MINOR_PATTERN: &'static str = "(\\d+)\\.(\\d+)";

/// The first `N.N.N` in a version report.
pub const FULL_VERSION_PATTERN: &'static str = "(\\d+)\\.(\\d+)\\.(\\d+)";

/// What `python --version` printed (standard output, a space, standard error) names
/// the wanted major and minor version.
pub open spec fn version_report_matches(stdout: Seq<char>, stderr: Seq<char>, want_major: u32, want_minor: u32) -> bool {
    let g = regex_groups(MAJOR_MINOR_PATTERN@, stdout + " "@ + stderr);
    match (group(g, 1), group(g, 2)) {
        (Some(a), Some(b)) => match (parse_u32(a), parse_u32(b)) {
            (Some(x), Some(y)) => x == want_major && y == want_minor,
            _ => false,
        },
        _ => false,
    }
}

pub fn check_python_version_matches(stdout: &str, stderr: &str, want_major: u32, want_minor: u32) -> (r: bool)
    ensures
        r == version_report_matches(stdout@, stderr@, want_major, want_minor),
{
    let combined = cat3(stdout, " ", stderr);
    let caps = regex_captures(MAJOR_MINOR_PATTERN, combined.as_str());
    match (get_group(&caps, 1), get_group(&caps, 2)) {
        (Some(a), Some(b)) => match (parse_u32_str(a.as_str()), parse_u32_str(b.as_str())) {
            (Some(x), Some(y)) => x == want_major && y == want_minor,
            _ => false,
        },
        _ => false,
    }
}

/// The message when no interpreter of the requested version was found.
pub open spec fn python_missing_message(version: Seq<char>) -> Seq<char> {
    "Python "@ + version
        + " not found. Install it or use pyenv (e.g. pyenv install 3.11 && pyenv local 3.11)."@
}

pub fn python_not_found(version: &str) -> (r: String)
    ensures
        r@ == python_missing_message(version@),
{
    cat3("Python ", version, " not found. Install it or use pyenv (e.g. pyenv install 3.11 && pyenv local 3.11).")
}

/// A number of a version, `0` when it does not parse.
pub open spec fn number_or_zero(s: Seq<char>) -> u32 {
    match parse_u32(s) {
        Some(n) => n,
        None => 0,
    }
}

/// What `check_python_version` decides once `python --version` has run: the version
/// found and the interpreter's path when it is at least `min_version` (compared by
/// major, then minor number).
pub open spec fn python_version_verdict(
    min_version: Seq<char>,
    python_path: Seq<char>,
    status_ok: bool,
    stdout: Seq<char>,
) -> Result<(Seq<char>, Seq<char>), Seq<char>> {
    if !status_ok {
        Err("Failed to get Python version"@)
    } else {
        let g = regex_groups(FULL_VERSION_PATTERN@, stdout);
        match (group(g, 1), group(g, 2), group(g, 3)) {
            (Some(a), Some(b), Some(c)) => {
                let found = a + "."@ + b + "."@ + c;
                let min_parts = split_char(min_version, '.');
                let found_parts = split_char(found, '.');
                if min_parts.len() < 2 || found_parts.len() < 2 {
                    Err("Invalid version format"@)
                } else {
                    let min_major = number_or_zero(min_parts[0]);
                    let min_minor = number_or_zero(min_parts[1]);
                    let major = number_or_zero(found_parts[0]);
                    let minor = number_or_zero(found_parts[1]);
                    if major > min_major || (major == min_major && minor >= min_minor) {
                        Ok((found, python_path))
                    } else {
                        Err("Python version "@ + min_version + " is required, but found "@ + found
                            + ". Please install Python "@ + min_version + " or higher"@)
                    }
                }
            },
            _ => Err("Could not parse Python version: "@ + stdout),
        }
    }
}

pub open spec fn res_pair_str(r: Result<(String, String), String>) -> Result<(Seq<char>, Seq<char>), Seq<char>> {
    match r {
        Ok(p) => Ok((p.0@, p.1@)),
        Err(e) => Err(e@),
    }
}

fn number_or_zero_exec(s: &[char]) -> (r: u32)
    ensures
        r == number_or_zero(s@),
{
    match crate::text::parse_u32_chars(s) {
        Some(n) => n,
        None => 0,
    }
}

/// Checks the version `python --version` reported against `min_version`; `python_path`
/// is the interpreter that was run, `status_ok` whether it exited successfully.
pub fn check_python_version(
    min_version: &str,
    python_path: &str,
    status_ok: bool,
    stdout: &str,
) -> (r: Result<(String, String), String>)
    ensures
        res_pair_str(r) == python_version_verdict(min_version@, python_path@, status_ok, stdout@),
{
    if !status_ok {
        return Err(owned("Failed to get Python version"));
    }
    let caps = regex_captures(FULL_VERSION_PATTERN, stdout);
    match (get_group(&caps, 1), get_group(&caps, 2), get_group(&caps, 3)) {
        (Some(a), Some(b), Some(c)) => {
            let mut found = cat3(a.as_str(), ".", b.as_str());
            found.append(".");
            found.append(c.as_str());
            let mc = chars_of(min_version);
            let fc = chars_of(found.as_str());
            let min_parts = split_chars(&mc, '.');
            let found_parts = split_chars(&fc, '.');
            if min_parts.len() < 2 || found_parts.len() < 2 {
                return Err(owned("Invalid version format"));
            }
            let min_major = number_or_zero_exec(&min_parts[0]);
            let min_minor = number_or_zero_exec(&min_parts[1]);
            let major = number_or_zero_exec(&found_parts[0]);
            let minor = number_or_zero_exec(&found_parts[1]);
            if major > min_major || (major == min_major && minor >= min_minor) {
                Ok((found, owned(python_path)))
            } else {
                let mut m = cat3("Python version ", min_version, " is required, but found ");
                m.append(found.as_str());
                m.append(". Please install Python ");
                m.append(min_version);
                m.append(" or higher");
                Err(m)
            }
        },
        _ => Err(cat("Could not parse Python version: ", stdout)),
    }
}


// ---------------------------------------------------------------------------
// Templates
// ---------------------------------------------------------------------------

/// `str::replace` for a non-empty pattern: the occurrences of `p`, found left to right
/// without overlapping, each replaced by `t`.
pub open spec fn replace_all(s: Seq<char>, p: Seq<char>, t: Seq<char>) -> Seq<char>
    decreases s.len(),
{
    if p.len() == 0 || s.len() < p.len() {
        s
    } else if s.take(p.len() as int) == p {
        t + replace_all(s.skip(p.len() as int), p, t)
    } else {
        seq![s[0]] + replace_all(s.drop_first(), p, t)
    }
}

/// Every occurrence of the non-empty `p` in `s` replaced by `t`.
pub fn replace_str(s: &str, p: &str, t: &str) -> (r: String)
    requires
        p@.len() > 0,
    ensures
        r@ == replace_all(s@, p@, t@),
{
    let sc = chars_of(s);
    let pc = chars_of(p);
    let tc = chars_of(t);
    let mut out: Vec<char> = Vec::new();
    let mut i: usize = 0;
    assert(sc@.skip(0) =~= sc@);
    while i < sc.len()
        invariant
            i <= sc@.len(),
            pc@.len() > 0,
            sc@ == s@,
            pc@ == p@,
            tc@ == t@,
            out@ + replace_all(sc@.skip(i as int), pc@, tc@) == replace_all(s@, p@, t@),
        decreases sc.len() - i,
    {
        let ghost x = sc@.skip(i as int);
        if crate::text::occurs_at_exec(&sc, &pc, i) {
            assert(x.take(pc@.len() as int) =~= sc@.subrange(i as int, i + pc@.len()));
            assert(x.skip(pc@.len() as int) =~= sc@.skip(i + pc@.len()));
            let ghost o0 = out@;
            let mut k: usize = 0;
            while k < tc.len()
                invariant
                    k <= tc@.len(),
                    out@ == o0 + tc@.take(k as int),
                decreases tc.len() - k,
            {
                out.push(tc[k]);
                assert(tc@.take(k + 1) =~= tc@.take(k as int).push(tc@[k as int]));
                k = k + 1;
            }
            assert(tc@.take(tc@.len() as int) =~= tc@);
            assert(out@ + replace_all(sc@.skip(i + pc@.len()), pc@, tc@) =~= o0 + (tc@ + replace_all(x.skip(pc@.len() as int), pc@, tc@)));
            i = i + pc.len();
        } else {
            assert(x.drop_first() =~= sc@.skip(i + 1));
            assert(x[0] == sc@[i as int]);
            proof {
                if x.len() >= pc@.len() {
                    assert(x.take(pc@.len() as int) != pc@) by {
                        assert(x.take(pc@.len() as int) =~= sc@.subrange(i as int, i + pc@.len()));
                    }
                } else {
                    assert(x =~= seq![x[0]] + x.drop_first());
                }
            }
            let ghost o0 = out@;
            out.push(sc[i]);
            assert(out@ + replace_all(sc@.skip(i + 1), pc@, tc@) =~= o0 + (seq![x[0]] + replace_all(x.drop_first(), pc@, tc@)));
            i = i + 1;
        }
    }
    assert(sc@.skip(i as int) =~= Seq::<char>::empty());
    assert(out@ + Seq::<char>::empty() =~= out@);
    string_of(&out)
}

/// The placeholder of a template variable: `{{key}}`.
pub open spec fn placeholder(key: Seq<char>) -> Seq<char> {
    "{{"@ + key + "}}"@
}

/// A template with each variable's placeholder replaced by its value, variable by
/// variable in the order given.
pub open spec fn filled(template: Seq<char>, vars: Seq<(Seq<char>, Seq<char>)>) -> Seq<char>
    decreases vars.len(),
{
    if vars.len() == 0 {
        template
    } else {
        replace_all(filled(template, vars.drop_last()), placeholder(vars.last().0), vars.last().1)
    }
}

pub open spec fn pair_views(v: Seq<(String, String)>) -> Seq<(Seq<char>, Seq<char>)> {
    v.map_values(|p: (String, String)| (p.0@, p.1@))
}

/// No two variables share a key, as in a map from keys to values.
pub open spec fn keys_distinct(vars: Seq<(Seq<char>, Seq<char>)>) -> bool {
    forall|i: int, j: int| 0 <= i < j < vars.len() ==> #[trigger] vars[i].0 != #[trigger] vars[j].0
}

/// Fills a template: each `{{key}}` becomes the key's value. The variables form a map:
/// no key appears twice.
pub fn generate_from_template(template: &str, vars: &Vec<(String, String)>) -> (r: String)
    requires
        keys_distinct(pair_views(vars@)),
    ensures
        r@ == filled(template@, pair_views(vars@)),
{
    let ghost vv = pair_views(vars@);
    let mut result = owned(template);
    let mut i: usize = 0;
    while i < vars.len()
        invariant
            i <= vars@.len(),
            vv == pair_views(vars@),
            result@ == filled(template@, vv.take(i as int)),
        decreases vars.len() - i,
    {
        assert(vv.take(i + 1).drop_last() =~= vv.take(i as int));
        assert(vv.take(i + 1).last() == vv[i as int]);
        let key = &vars[i].0;
        let value = &vars[i].1;
        let p = cat3("{{", key.as_str(), "}}");
        proof {
            reveal_strlit("{{");
        }
        result = replace_str(result.as_str(), p.as_str(), value.as_str());
        i = i + 1;
    }
    assert(vv.take(vv.len() as int) =~= vv);
    result
}


// ---------------------------------------------------------------------------
// Addon directories and `addons_path`
// ---------------------------------------------------------------------------

/// What a scan of the file system found at one path: whether it is a directory,
/// whether it holds a `__manifest__.py`, and its entries (empty when it could not be
/// read).
pub struct DirNode {
    pub path: String,
    pub is_dir: bool,
    pub has_manifest: bool,
    pub children: Vec<DirNode>,
}

/// Some entry is a directory with a `__manifest__.py`: an addon.
pub open spec fn has_direct_addon(cs: Seq<DirNode>) -> bool {
    exists|i: int| 0 <= i < cs.len() && (#[trigger] cs[i]).is_dir && cs[i].has_manifest
}

/// Every directory at or below `n` with at least one addon directly inside it: `n`
/// itself first, then what each entry gives, in the order of the entries.
pub open spec fn addon_roots(n: DirNode) -> Seq<Seq<char>>
    decreases n,
{
    if !n.is_dir {
        Seq::empty()
    } else {
        (if has_direct_addon(n.children@) {
            seq![n.path@]
        } else {
            Seq::empty()
        }) + addon_roots_in(n.children@)
    }
}

/// What the entries give, in order.
pub open spec fn addon_roots_in(cs: Seq<DirNode>) -> Seq<Seq<char>>
    decreases cs,
{
    if cs.len() == 0 {
        Seq::empty()
    } else {
        addon_roots_in(cs.drop_last()) + addon_roots(cs.last())
    }
}

fn any_direct_addon(cs: &Vec<DirNode>) -> (r: bool)
    ensures
        r == has_direct_addon(cs@),
{
    let mut i: usize = 0;
    while i < cs.len()
        invariant
            i <= cs@.len(),
            forall|k: int| 0 <= k < i ==> !((#[trigger] cs@[k]).is_dir && cs@[k].has_manifest),
        decreases cs.len() - i,
    {
        if cs[i].is_dir && cs[i].has_manifest {
            return true;
        }
        i = i + 1;
    }
    false
}

/// The directories at or below `root` that have an addon directly inside them.
pub fn addon_root_dirs_under(root: &DirNode) -> (r: Vec<String>)
    ensures
        strs(r@) == addon_roots(*root),
    decreases root,
{
    let mut result: Vec<String> = Vec::new();
    if !root.is_dir {
        assert(strs(result@) =~= Seq::<Seq<char>>::empty());
        return result;
    }
    if any_direct_addon(&root.children) {
        result.push(root.path.clone());
    }
    let ghost head = strs(result@);
    assert(head =~= (if has_direct_addon(root.children@) {
        seq![root.path@]
    } else {
        Seq::<Seq<char>>::empty()
    }));
    let ghost cs = root.children@;
    let mut i: usize = 0;
    assert(cs.take(0) =~= Seq::<DirNode>::empty());
    while i < root.children.len()
        invariant
            i <= cs.len(),
            cs == root.children@,
            strs(result@) == head + addon_roots_in(cs.take(i as int)),
        decreases root.children.len() - i,
    {
        assert(cs.take(i + 1).drop_last() =~= cs.take(i as int));
        assert(cs.take(i + 1).last() == cs[i as int]);
        let sub = addon_root_dirs_under(&root.children[i]);
        let ghost r0 = strs(result@);
        crate::text::extend_strings(&mut result, sub);
        assert(strs(result@) =~= head + addon_roots_in(cs.take(i + 1)));
        i = i + 1;
    }
    assert(cs.take(cs.len() as int) =~= cs);
    result
}

/// The addon directories at or below a scanned tree (absent when it does not exist),
/// sorted as paths: nested layouts such as `custom_addons/company/team/module_x` are
/// found this way.
pub fn sorted_addon_roots(tree: Option<&DirNode>) -> (r: Vec<String>)
    ensures
        (match tree {
            None => r@.len() == 0,
            Some(t) => crate::paths::paths_sorted(strs(r@)) && strs(r@).to_multiset()
                == addon_roots(*t).to_multiset(),
        }),
{
    match tree {
        None => Vec::new(),
        Some(t) => {
            let dirs = addon_root_dirs_under(t);
            crate::paths::sort_paths(dirs)
        },
    }
}

/// The entries of a directory that are directories with an addon directly inside
/// them, in the order of the entries.
pub open spec fn parent_dirs(cs: Seq<DirNode>) -> Seq<Seq<char>>
    decreases cs.len(),
{
    if cs.len() == 0 {
        Seq::empty()
    } else {
        parent_dirs(cs.drop_last()) + if cs.last().is_dir && has_direct_addon(cs.last().children@) {
            seq![cs.last().path@]
        } else {
            Seq::empty()
        }
    }
}

/// The direct children of `external_addons` (scanned as `tree`, absent when it does
/// not exist) that hold at least one addon, sorted as paths: parent folders only, Odoo
/// finds the addons inside each.
pub fn external_addons_dirs_with_manifest(tree: Option<&DirNode>) -> (r: Vec<String>)
    ensures
        (match tree {
            None => r@.len() == 0,
            Some(t) => crate::paths::paths_sorted(strs(r@)) && strs(r@).to_multiset() == (if t.is_dir {
                parent_dirs(t.children@)
            } else {
                Seq::empty()
            }).to_multiset(),
        }),
{
    match tree {
        None => Vec::new(),
        Some(t) => {
            let mut found: Vec<String> = Vec::new();
            if t.is_dir {
                let ghost cs = t.children@;
                let mut i: usize = 0;
                while i < t.children.len()
                    invariant
                        i <= cs.len(),
                        cs == t.children@,
                        strs(found@) == parent_dirs(cs.take(i as int)),
                    decreases t.children.len() - i,
                {
                    assert(cs.take(i + 1).drop_last() =~= cs.take(i as int));
                    assert(cs.take(i + 1).last() == cs[i as int]);
                    let c = &t.children[i];
                    let ghost f0 = strs(found@);
                    if c.is_dir && any_direct_addon(&c.children) {
                        found.push(c.path.clone());
                        assert(strs(found@) =~= f0 + seq![c.path@]);
                    } else {
                        assert(strs(found@) =~= f0 + Seq::<Seq<char>>::empty());
                    }
                    i = i + 1;
                }
                assert(cs.take(cs.len() as int) =~= cs);
            } else {
                assert(strs(found@) =~= Seq::<Seq<char>>::empty());
            }
            crate::paths::sort_paths(found)
        },
    }
}

/// `addons_path`: the custom addon directories, the external ones, then Odoo's own
/// `addons` when it exists, joined with commas; an error when there is none.
pub open spec fn addons_path_of(
    custom: Seq<Seq<char>>,
    external: Seq<Seq<char>>,
    odoo_addons: Option<Seq<char>>,
) -> Result<Seq<char>, Seq<char>> {
    let parts = custom + external + match odoo_addons {
        Some(p) => seq![p],
        None => Seq::empty(),
    };
    if parts.len() == 0 {
        Err("No valid addons directories found (custom_addons, external_addons subdirs, or src/odoo/addons)"@)
    } else {
        Ok(join(parts, ","@))
    }
}

pub open spec fn res_str(r: Result<String, String>) -> Result<Seq<char>, Seq<char>> {
    match r {
        Ok(s) => Ok(s@),
        Err(e) => Err(e@),
    }
}

/// `addons_path` is refused only when no directory at all was found. When Odoo's own
/// `addons` exists, the path is never refused and ends with it (after a comma when other
/// directories come first); the custom directories come first, then the external ones,
/// and every custom and external directory given stands in it.
pub proof fn law_addons_path_keeps_every_dir(
    custom: Seq<Seq<char>>,
    external: Seq<Seq<char>>,
    odoo_addons: Option<Seq<char>>,
)
    ensures
        (addons_path_of(custom, external, odoo_addons) is Err) <==> (custom.len() == 0 && external.len() == 0
            && odoo_addons is None),
        odoo_addons matches Some(p) ==> (addons_path_of(custom, external, odoo_addons) matches Ok(s) && ends_with(s, p)
            && (custom.len() + external.len() > 0 ==> ends_with(s, ","@ + p))),
        custom.len() > 0 ==> (addons_path_of(custom, external, odoo_addons) matches Ok(s) && starts_with(s, custom[0])),
        custom.len() == 0 && external.len() > 0 ==> (addons_path_of(custom, external, odoo_addons) matches Ok(s)
            && starts_with(s, external[0])),
        forall|k: int|
            0 <= k < custom.len() ==> (addons_path_of(custom, external, odoo_addons) matches Ok(s) && crate::text::contains(
                s,
                #[trigger] custom[k],
            )),
        forall|k: int|
            0 <= k < external.len() ==> (addons_path_of(custom, external, odoo_addons) matches Ok(s)
                && crate::text::contains(s, #[trigger] external[k])),
{
    let tail = match odoo_addons {
        Some(p) => seq![p],
        None => Seq::<Seq<char>>::empty(),
    };
    let parts = custom + external + tail;
    let j = join(parts, ","@);
    if parts.len() > 0 {
        crate::text::lemma_join_starts_with_first(parts, ","@);
        if custom.len() > 0 {
            assert(parts[0] == custom[0]);
        } else if external.len() > 0 {
            assert(parts[0] == external[0]);
        }
    }
    if let Some(p) = odoo_addons {
        crate::text::lemma_join_ends_with_last(parts, ","@);
        assert(parts.last() == p);
    }
    assert forall|k: int| 0 <= k < custom.len() implies (addons_path_of(custom, external, odoo_addons) matches Ok(s)
        && crate::text::contains(s, #[trigger] custom[k])) by {
        assert(parts[k] == custom[k]);
        let off = crate::text::lemma_join_contains_part(parts, ","@, k);
    }
    assert forall|k: int| 0 <= k < external.len() implies (addons_path_of(custom, external, odoo_addons) matches Ok(s)
        && crate::text::contains(s, #[trigger] external[k])) by {
        assert(parts[custom.len() + k] == external[k]);
        let off = crate::text::lemma_join_contains_part(parts, ","@, custom.len() + k);
    }
}

/// Builds `addons_path` from the directories found (each already made absolute, in
/// the order they are to appear).
pub fn build_addons_path(custom: &Vec<String>, external: &Vec<String>, odoo_addons: Option<String>) -> (r: Result<String, String>)
    ensures
        res_str(r) == addons_path_of(strs(custom@), strs(external@), opt_str(odoo_addons)),
        r is Err <==> custom@.len() == 0 && external@.len() == 0 && odoo_addons is None,
        odoo_addons matches Some(p) ==> (r matches Ok(s) && ends_with(s@, p@)),
{
    proof {
        law_addons_path_keeps_every_dir(strs(custom@), strs(external@), opt_str(odoo_addons));
    }
    let mut parts = crate::text::copy_strings(custom);
    crate::text::extend_strings(&mut parts, crate::text::copy_strings(external));
    let ghost p0 = strs(parts@);
    match odoo_addons {
        Some(p) => {
            parts.push(p);
            assert(strs(parts@) =~= p0 + seq![p@]);
        },
        None => {
            assert(strs(parts@) =~= p0 + Seq::<Seq<char>>::empty());
        },
    }
    if parts.len() == 0 {
        return Err(owned("No valid addons directories found (custom_addons, external_addons subdirs, or src/odoo/addons)"));
    }
    Ok(join_strings(&parts, ","))
}


// ---------------------------------------------------------------------------
// `odoo.conf.local`
// ---------------------------------------------------------------------------

/// A configuration line that sets `addons_path`; group 1 is everything up to the value.
pub const ADDONS_PATH_PATTERN: &'static str = "^(\\s*addons_path\\s*=\\s*).*";

/// What odx does before rewriting `odoo.conf.local`: it needs `odoo.conf`, and copies it
/// to `odoo.conf.local` when that does not exist yet (the answer says whether to copy).
pub fn conf_local_needs_copy(base_exists: bool, local_exists: bool) -> (r: Result<bool, String>)
    ensures
        r is Ok <==> base_exists,
        r matches Ok(copy) ==> copy == !local_exists,
        r matches Err(e) ==> e@ == "odoo.conf not found. Run from project root."@,
{
    if !base_exists {
        return Err(owned("odoo.conf not found. Run from project root."));
    }
    Ok(!local_exists)
}

/// A line with its `addons_path` value replaced, when it sets `addons_path`.
pub open spec fn rewritten_line(line: Seq<char>, addons_path: Seq<char>) -> Option<Seq<char>> {
    match group(regex_groups(ADDONS_PATH_PATTERN@, line), 1) {
        Some(head) => Some(head + addons_path),
        None => None,
    }
}

pub open spec fn line_after(line: Seq<char>, addons_path: Seq<char>) -> Seq<char> {
    match rewritten_line(line, addons_path) {
        Some(l) => l,
        None => line,
    }
}

/// Each line, with its `addons_path` value replaced when it sets `addons_path`.
pub open spec fn lines_after(ls: Seq<Seq<char>>, addons_path: Seq<char>) -> Seq<Seq<char>> {
    ls.map_values(|l: Seq<char>| line_after(l, addons_path))
}

/// The configuration text with every `addons_path` line set to `addons_path`, ending
/// with a newline; an error when no line sets it.
pub open spec fn conf_with_addons_path(content: Seq<char>, addons_path: Seq<char>) -> Result<Seq<char>, Seq<char>> {
    let ls = lines(content);
    if !(exists|i: int| 0 <= i < ls.len() && (#[trigger] rewritten_line(ls[i], addons_path)) is Some) {
        Err("addons_path line not found in odoo.conf.local"@)
    } else {
        let j = join(lines_after(ls, addons_path), "\n"@);
        Ok(if ends_with(j, "\n"@) { j } else { j + "\n"@ })
    }
}

pub fn rewrite_addons_path(content: &str, addons_path: &str) -> (r: Result<String, String>)
    ensures
        res_str(r) == conf_with_addons_path(content@, addons_path@),
{
    let cs = chars_of(content);
    let ls = lines_of(&cs);
    let ghost lv = lines(content@);
    let ghost want = lines_after(lv, addons_path@);
    let mut out: Vec<String> = Vec::new();
    let mut updated = false;
    let mut i: usize = 0;
    while i < ls.len()
        invariant
            i <= ls@.len(),
            ls@.len() == lv.len(),
            lv == lines(content@),
            want == lines_after(lv, addons_path@),
            forall|k: int| 0 <= k < ls@.len() ==> #[trigger] ls@[k]@ == lv[k],
            strs(out@) == want.take(i as int),
            updated <==> exists|k: int| 0 <= k < i && (#[trigger] rewritten_line(lv[k], addons_path@)) is Some,
        decreases ls.len() - i,
    {
        let line = string_of(&ls[i]);
        let caps = regex_captures(ADDONS_PATH_PATTERN, line.as_str());
        let ghost o0 = strs(out@);
        match get_group(&caps, 1) {
            Some(head) => {
                updated = true;
                out.push(cat(head.as_str(), addons_path));
            },
            None => {
                out.push(line);
            },
        }
        assert(strs(out@) =~= o0.push(want[i as int]));
        assert(want.take(i + 1) =~= want.take(i as int).push(want[i as int]));
        i = i + 1;
    }
    assert(want.take(lv.len() as int) =~= want);
    if !updated {
        assert(conf_with_addons_path(content@, addons_path@) is Err);
        return Err(owned("addons_path line not found in odoo.conf.local"));
    }
    let joined = join_strings(&out, "\n");
    assert(joined@ == join(lines_after(lines(content@), addons_path@), "\n"@));
    let jc = chars_of(joined.as_str());
    let n = jc.len();
    if n > 0 && jc[n - 1] == '\n' {
        proof {
            reveal_strlit("\n");
            assert(joined@.skip(joined@.len() - 1) =~= seq!['\n']);
            assert("\n"@ =~= seq!['\n']);
            assert(ends_with(joined@, "\n"@));
            assert(conf_with_addons_path(content@, addons_path@) == Ok::<Seq<char>, Seq<char>>(joined@));
        }
        Ok(joined)
    } else {
        proof {
            reveal_strlit("\n");
            if ends_with(joined@, "\n"@) {
                assert(joined@.skip(joined@.len() - 1)[0] == joined@[joined@.len() - 1]);
            }
        }
        Ok(cat(joined.as_str(), "\n"))
    }
}

// ---------------------------------------------------------------------------
// The project's Odoo version
// ---------------------------------------------------------------------------

/// `version_info = (M, m)` in `odoo/__init__.py`.
pub const INIT_VERSION_INFO_PATTERN: &'static str = "version_info\\s*=\\s*\\((\\d+),\\s*(\\d+)\\)";

/// `__version__ = 'M.m` in `odoo/__init__.py`.
pub const INIT_VERSION_PATTERN: &'static str = "__version__\\s*=\\s*['\"](\\d+)\\.(\\d+)";

/// The series named by the first of two patterns that matches `content`.
pub open spec fn series_by(first: Seq<char>, second: Seq<char>, content: Seq<char>) -> Option<Seq<char>> {
    match series_of(regex_groups(first, content)) {
        Some(v) => Some(v),
        None => series_of(regex_groups(second, content)),
    }
}

/// The project's Odoo series from `src/odoo/odoo/release.py`, then from
/// `src/odoo/odoo/__init__.py` (each given when the file exists).
pub open spec fn odoo_version_of(release_py: Option<Seq<char>>, init_py: Option<Seq<char>>) -> Result<Seq<char>, Seq<char>> {
    let from_release = match release_py {
        Some(c) => series_by(crate::odoo_source::VERSION_INFO_PATTERN@, crate::odoo_source::VERSION_STRING_PATTERN@, c),
        None => None,
    };
    let from_init = match init_py {
        Some(c) => series_by(INIT_VERSION_INFO_PATTERN@, INIT_VERSION_PATTERN@, c),
        None => None,
    };
    match (from_release, from_init) {
        (Some(v), _) => Ok(v),
        (None, Some(v)) => Ok(v),
        (None, None) => Err("Could not detect Odoo version from release.py or __init__.py"@),
    }
}

fn series_by_exec(first: &str, second: &str, content: &str) -> (r: Option<String>)
    ensures
        opt_str(r) == series_by(first@, second@, content@),
{
    let caps = regex_captures(first, content);
    match (get_group(&caps, 1), get_group(&caps, 2)) {
        (Some(a), Some(b)) => Some(cat3(a.as_str(), ".", b.as_str())),
        _ => {
            let caps2 = regex_captures(second, content);
            match (get_group(&caps2, 1), get_group(&caps2, 2)) {
                (Some(a), Some(b)) => Some(cat3(a.as_str(), ".", b.as_str())),
                _ => None,
            }
        },
    }
}

pub fn detect_odoo_version(release_py: Option<&str>, init_py: Option<&str>) -> (r: Result<String, String>)
    ensures
        res_str(r) == odoo_version_of(crate::commands::test::opt_view(release_py), crate::commands::test::opt_view(init_py)),
{
    if let Some(c) = release_py {
        if let Some(v) = series_by_exec(crate::odoo_source::VERSION_INFO_PATTERN, crate::odoo_source::VERSION_STRING_PATTERN, c) {
            return Ok(v);
        }
    }
    if let Some(c) = init_py {
        if let Some(v) = series_by_exec(INIT_VERSION_INFO_PATTERN, INIT_VERSION_PATTERN, c) {
            return Ok(v);
        }
    }
    Err(owned("Could not detect Odoo version from release.py or __init__.py"))
}


// ---------------------------------------------------------------------------
// Running programs
// ---------------------------------------------------------------------------

/// A program to run and its arguments.
pub struct Invocation {
    pub program: String,
    pub args: Vec<String>,
}

/// How Docker Compose is called: the `docker compose` plugin when `docker` and
/// `compose` are both on `PATH`, else the standalone `docker-compose`; Docker itself
/// must be there.
pub open spec fn compose_command_of(docker: bool, compose: bool, docker_compose: bool) -> Result<Seq<char>, Seq<char>> {
    if !docker {
        Err("Docker not found. Please install Docker"@)
    } else if compose {
        Ok("docker compose"@)
    } else if docker_compose {
        Ok("docker-compose"@)
    } else {
        Err("Docker Compose not found. Please install Docker Compose"@)
    }
}

/// `docker`, `compose` and `docker-compose` tell whether each is on `PATH`.
pub fn find_docker_compose_command(docker: bool, compose: bool, docker_compose: bool) -> (r: Result<String, String>)
    ensures
        res_str(r) == compose_command_of(docker, compose, docker_compose),
{
    if !docker {
        return Err(owned("Docker not found. Please install Docker"));
    }
    if compose {
        Ok(owned("docker compose"))
    } else if docker_compose {
        Ok(owned("docker-compose"))
    } else {
        Err(owned("Docker Compose not found. Please install Docker Compose"))
    }
}

/// A Docker Compose call: through `docker compose ...` for the plugin, else through the
/// standalone program.
pub open spec fn compose_call(docker_compose: Seq<char>, args: Seq<Seq<char>>) -> (Seq<char>, Seq<Seq<char>>) {
    if docker_compose == "docker compose"@ {
        ("docker"@, seq!["compose"@] + args)
    } else {
        (docker_compose, args)
    }
}

pub open spec fn call_of(i: Invocation) -> (Seq<char>, Seq<Seq<char>>) {
    (i.program@, strs(i.args@))
}

/// The invocation of Docker Compose with `args`.
pub fn compose_invocation(docker_compose: &str, args: Vec<String>) -> (r: Invocation)
    ensures
        call_of(r) == compose_call(docker_compose@, strs(args@)),
{
    if str_eq(docker_compose, "docker compose") {
        let mut all: Vec<String> = Vec::new();
        all.push(owned("compose"));
        let ghost a0 = strs(all@);
        crate::text::extend_strings(&mut all, args);
        assert(a0 =~= seq!["compose"@]);
        Invocation { program: owned("docker"), args: all }
    } else {
        Invocation { program: owned(docker_compose), args }
    }
}


// ---------------------------------------------------------------------------
// Odoo archives
// ---------------------------------------------------------------------------

/// A downloaded archive is taken for a real one when it is at least a megabyte (an
/// error page is smaller) and starts with a ZIP signature (`PK\x03\x04`, or
/// `PK\x05\x06` for an empty archive). `head` is what could be read of its first four
/// bytes.
pub open spec fn zip_plausible(size: u64, head: Seq<u8>) -> bool {
    size >= 1_000_000 && head.len() == 4 && head[0] == 0x50u8 && head[1] == 0x4bu8 && (
    (head[2] == 3u8 && head[3] == 4u8) || (head[2] == 5u8 && head[3] == 6u8))
}

pub fn validate_zip_header(size: u64, head: &[u8]) -> (r: bool)
    ensures
        r == zip_plausible(size, head@),
{
    if size < 1_000_000 || head.len() != 4 {
        return false;
    }
    head[0] == 0x50 && head[1] == 0x4b && ((head[2] == 3 && head[3] == 4) || (head[2] == 5 && head[3] == 6))
}

/// The directory an Odoo archive unpacks to: `odoo-` and the archive's stem without
/// any `odoo-` in it (`unknown` when the stem is not known).
pub open spec fn extracted_dir_of(stem: Option<Seq<char>>) -> Seq<char> {
    "odoo-"@ + replace_all(
        match stem {
            Some(s) => s,
            None => "unknown"@,
        },
        "odoo-"@,
        ""@,
    )
}

pub fn extracted_dir_name(stem: Option<&str>) -> (r: String)
    ensures
        r@ == extracted_dir_of(crate::debug::opt_str_view(stem)),
{
    proof {
        reveal_strlit("odoo-");
    }
    let s = match stem {
        Some(s) => s,
        None => "unknown",
    };
    let rest = replace_str(s, "odoo-", "");
    cat("odoo-", rest.as_str())
}

} // verus!
