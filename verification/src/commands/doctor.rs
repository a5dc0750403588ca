//! `odx doctor`: what the checks report. Probing the system (which programs exist,
//! what they print, which packages are installed) is the caller's; reading the answers
//! and wording the findings happen here.
use vstd::prelude::*;
use crate::install_guide::{linux_packages_for, packages_for, Requirement};
use crate::os_context::{LinuxFamily, PackageManager};
use crate::text::{cat, cat3, chars_of, contains, contains_str, lines, lines_of, owned, str_eq, string_of, strs, trim, trim_str, words};

verus! {

/// How `odx doctor` names an operating system.
pub open spec fn os_display_name(os: Seq<char>) -> Seq<char> {
    if os == "linux"@ {
        "Linux"@
    } else if os == "windows"@ {
        "Windows"@
    } else if os == "macos"@ {
        "macOS"@
    } else {
        "Unknown"@
    }
}

pub fn format_os_name(os: &str) -> (r: &'static str)
    ensures
        r@ == os_display_name(os@),
{
    if str_eq(os, "linux") {
        "Linux"
    } else if str_eq(os, "windows") {
        "Windows"
    } else if str_eq(os, "macos") {
        "macOS"
    } else {
        "Unknown"
    }
}

/// The requirements whose packages `odx doctor` checks: a small stable set (the
/// install guide lists them all).
pub open spec fn check_set() -> Seq<Requirement> {
    seq![
        Requirement::BuildTools,
        Requirement::PythonDev,
        Requirement::PythonPip,
        Requirement::LibPQDev,
        Requirement::LibXML2Dev,
        Requirement::LibXSLTDev,
        Requirement::LibJPEGDev,
        Requirement::ZlibDev,
        Requirement::OpenSSLDev,
        Requirement::LibFFIDev,
    ]
}

/// The system packages to check, in order, for a package manager and a Linux family.
pub fn check_odoo_full_packages(pm: PackageManager, family: LinuxFamily) -> (r: Vec<String>)
    ensures
        r@.map_values(|s: String| s@) == packages_for(pm, family, check_set()),
{
    let set = [
        Requirement::BuildTools,
        Requirement::PythonDev,
        Requirement::PythonPip,
        Requirement::LibPQDev,
        Requirement::LibXML2Dev,
        Requirement::LibXSLTDev,
        Requirement::LibJPEGDev,
        Requirement::ZlibDev,
        Requirement::OpenSSLDev,
        Requirement::LibFFIDev,
    ];
    assert(set@ =~= check_set());
    linux_packages_for(pm, family, &set)
}

/// The part of a requirement before any version operator (`=`, `>`, `<`).
pub open spec fn before_operator(s: Seq<char>) -> Seq<char>
    decreases s.len(),
{
    if s.len() == 0 {
        s
    } else {
        let head = before_operator(s.drop_last());
        if head.len() < s.len() - 1 {
            head
        } else if s.last() == '=' || s.last() == '>' || s.last() == '<' {
            s.drop_last()
        } else {
            s
        }
    }
}

/// The package a line of `requirements.txt` names, if it names one: comments and blank
/// lines name none; otherwise the first word, cut before any version operator.
pub open spec fn requirement_package(line: Seq<char>) -> Option<Seq<char>> {
    let t = trim(line);
    if t.len() == 0 || t[0] == '#' {
        None
    } else {
        let w = if words(t).len() > 0 { words(t)[0] } else { Seq::empty() };
        let name = before_operator(w);
        if name.len() > 0 {
            Some(name)
        } else {
            None
        }
    }
}

/// The packages of a `requirements.txt`, in order.
pub open spec fn requirement_packages(ls: Seq<Seq<char>>) -> Seq<Seq<char>>
    decreases ls.len(),
{
    if ls.len() == 0 {
        Seq::empty()
    } else {
        requirement_packages(ls.drop_last()) + match requirement_package(ls.last()) {
            Some(p) => seq![p],
            None => Seq::empty(),
        }
    }
}

fn before_operator_exec(s: &[char]) -> (r: Vec<char>)
    ensures
        r@ == before_operator(s@),
{
    let mut k: usize = 0;
    while k < s.len() && s[k] != '=' && s[k] != '>' && s[k] != '<'
        invariant
            k <= s@.len(),
            forall|j: int| 0 <= j < k ==> s@[j] != '=' && s@[j] != '>' && s@[j] != '<',
        decreases s.len() - k,
    {
        k = k + 1;
    }
    proof {
        lemma_before_operator(s@, k as int);
    }
    crate::text::slice_chars(s, 0, k)
}

proof fn lemma_before_operator(s: Seq<char>, k: int)
    requires
        0 <= k <= s.len(),
        forall|j: int| 0 <= j < k ==> s[j] != '=' && s[j] != '>' && s[j] != '<',
        k < s.len() ==> (s[k] == '=' || s[k] == '>' || s[k] == '<'),
    ensures
        before_operator(s) == s.take(k),
    decreases s.len(),
{
    if s.len() == 0 {
        assert(s.take(k) =~= s);
    } else if k == s.len() {
        let p = s.drop_last();
        lemma_before_operator_none(p);
        assert(s.take(k) =~= s);
    } else {
        if k < s.len() - 1 {
            lemma_before_operator(s.drop_last(), k);
            assert(s.drop_last().take(k) =~= s.take(k));
        } else {
            lemma_before_operator_none(s.drop_last());
            assert(s.drop_last() =~= s.take(k));
        }
    }
}

proof fn lemma_before_operator_none(s: Seq<char>)
    requires
        forall|j: int| 0 <= j < s.len() ==> s[j] != '=' && s[j] != '>' && s[j] != '<',
    ensures
        before_operator(s) == s,
    decreases s.len(),
{
    if s.len() > 0 {
        lemma_before_operator_none(s.drop_last());
    }
}

/// The package a line of `requirements.txt` names, if any.
pub fn requirement_name(line: &str) -> (r: Option<String>)
    ensures
        crate::odoo_source::opt_str(r) == requirement_package(line@),
{
    let t = trim_str(line);
    let tc = chars_of(t.as_str());
    if tc.len() == 0 || tc[0] == '#' {
        return None;
    }
    let ws = crate::text::split_whitespace(t.as_str());
    let w: Vec<char> = if ws.len() > 0 {
        chars_of(ws[0].as_str())
    } else {
        Vec::new()
    };
    let name = before_operator_exec(&w);
    if name.len() > 0 {
        Some(string_of(&name))
    } else {
        None
    }
}

/// The Python packages a `requirements.txt` lists, in order.
pub fn requirement_package_names(content: &str) -> (r: Vec<String>)
    ensures
        strs(r@) == requirement_packages(lines(content@)),
{
    let cs = chars_of(content);
    let ls = lines_of(&cs);
    let ghost lv = lines(content@);
    let mut out: Vec<String> = Vec::new();
    let mut i: usize = 0;
    while i < ls.len()
        invariant
            i <= ls@.len(),
            ls@.len() == lv.len(),
            lv == lines(content@),
            forall|k: int| 0 <= k < ls@.len() ==> #[trigger] ls@[k]@ == lv[k],
            strs(out@) == requirement_packages(lv.take(i as int)),
        decreases ls.len() - i,
    {
        assert(lv.take(i + 1).drop_last() =~= lv.take(i as int));
        assert(lv.take(i + 1).last() == lv[i as int]);
        let line = string_of(&ls[i]);
        let ghost o0 = strs(out@);
        match requirement_name(line.as_str()) {
            Some(p) => {
                out.push(p);
                assert(strs(out@) =~= o0 + seq![requirement_package(lv[i as int])->0]);
            },
            None => {
                assert(strs(out@) =~= o0 + Seq::<Seq<char>>::empty());
            },
        }
        i = i + 1;
    }
    assert(lv.take(lv.len() as int) =~= lv);
    out
}

/// `docker compose config --services` lists a service named `postgres`.
pub open spec fn lists_postgres(services: Seq<char>) -> bool {
    exists|i: int| 0 <= i < lines(services).len() && trim(#[trigger] lines(services)[i]) == "postgres"@
}

pub fn has_postgres_service(services: &str) -> (r: bool)
    ensures
        r == lists_postgres(services@),
{
    let cs = chars_of(services);
    let ls = lines_of(&cs);
    let mut i: usize = 0;
    while i < ls.len()
        invariant
            i <= ls@.len(),
            ls@.len() == lines(services@).len(),
            forall|k: int| 0 <= k < ls@.len() ==> #[trigger] ls@[k]@ == lines(services@)[k],
            forall|k: int| 0 <= k < i ==> trim(#[trigger] lines(services@)[k]) != "postgres"@,
        decreases ls.len() - i,
    {
        let line = string_of(&ls[i]);
        let t = trim_str(line.as_str());
        if str_eq(t.as_str(), "postgres") {
            return true;
        }
        i = i + 1;
    }
    false
}

/// Which compose file the project has: `compose.yml` first, then `compose.yaml`.
pub open spec fn compose_file_of(project_root: Seq<char>, yml: bool, yaml: bool) -> Option<Seq<char>> {
    if yml {
        Some(crate::paths::path_join(project_root, "compose.yml"@))
    } else if yaml {
        Some(crate::paths::path_join(project_root, "compose.yaml"@))
    } else {
        None
    }
}

pub fn compose_file(project_root: &str, yml_exists: bool, yaml_exists: bool) -> (r: Option<String>)
    ensures
        crate::odoo_source::opt_str(r) == compose_file_of(project_root@, yml_exists, yaml_exists),
{
    if yml_exists {
        Some(crate::paths::join(project_root, "compose.yml"))
    } else if yaml_exists {
        Some(crate::paths::join(project_root, "compose.yaml"))
    } else {
        None
    }
}

/// The first line of a text, if it has one.
pub open spec fn first_line(text: Seq<char>) -> Option<Seq<char>> {
    if lines(text).len() > 0 {
        Some(lines(text)[0])
    } else {
        None
    }
}

fn first_line_exec(text: &str) -> (r: Option<String>)
    ensures
        crate::odoo_source::opt_str(r) == first_line(text@),
{
    let cs = chars_of(text);
    let ls = lines_of(&cs);
    if ls.len() > 0 {
        Some(string_of(&ls[0]))
    } else {
        None
    }
}

/// What the check of a tool says: the first line of its `--version` output (`unknown`
/// when there is none) and where it is, or just where it is when the version could not
/// be read.
pub open spec fn tool_detail_of(version: Option<Seq<char>>, path: Seq<char>) -> Seq<char> {
    match version {
        Some(v) => (match first_line(v) {
            Some(l) => l,
            None => "unknown"@,
        }) + " ("@ + path + ")"@,
        None => "installed ("@ + path + ")"@,
    }
}

pub fn tool_detail(version: Option<&str>, path: &str) -> (r: String)
    ensures
        r@ == tool_detail_of(crate::debug::opt_str_view(version), path@),
{
    match version {
        Some(v) => {
            let head = match first_line_exec(v) {
                Some(l) => l,
                None => owned("unknown"),
            };
            let mut r = cat3(head.as_str(), " (", path);
            r.append(")");
            r
        },
        None => {
            let mut r = cat("installed (", path);
            r.append(")");
            r
        },
    }
}

/// What the Docker Compose check says: the first line of its version output and how
/// it is called, or that it is installed when no version line was read.
pub open spec fn compose_detail_of(version: Option<Seq<char>>, compose_cmd: Seq<char>) -> Seq<char> {
    match version {
        Some(v) => match first_line(v) {
            Some(l) => l + " ("@ + compose_cmd + ")"@,
            None => "installed ("@ + compose_cmd + ")"@,
        },
        None => "installed ("@ + compose_cmd + ")"@,
    }
}

pub fn compose_detail(version: Option<&str>, compose_cmd: &str) -> (r: String)
    ensures
        r@ == compose_detail_of(crate::debug::opt_str_view(version), compose_cmd@),
{
    let line = match version {
        Some(v) => first_line_exec(v),
        None => None,
    };
    match line {
        Some(l) => {
            let mut r = cat3(l.as_str(), " (", compose_cmd);
            r.append(")");
            r
        },
        None => {
            let mut r = cat("installed (", compose_cmd);
            r.append(")");
            r
        },
    }
}

/// What the debugger check says once debugpy imports: its version and where a client
/// attaches, or just that it is installed when no version was printed.
pub open spec fn debugger_detail_of(version: Seq<char>) -> Seq<char> {
    if version.len() == 0 {
        "installed"@
    } else {
        version + " (attach on "@ + crate::debug::HOST@ + ":"@ + crate::text::decimal(
            crate::debug::DEFAULT_PORT as nat,
        ) + ")"@
    }
}

pub fn debugger_detail(version: &str) -> (r: String)
    ensures
        r@ == debugger_detail_of(version@),
{
    if version.unicode_len() == 0 {
        owned("installed")
    } else {
        let mut r = cat3(version, " (attach on ", crate::debug::HOST);
        r.append(":");
        r.append(crate::text::decimal_string(crate::debug::DEFAULT_PORT as u64).as_str());
        r.append(")");
        r
    }
}

/// Agents may read the Odoo source of the store when the project's agent settings
/// (given as text, when they exist) name its directory.
pub fn agent_access_declared(settings: Option<&str>, source_path: &str) -> (r: bool)
    ensures
        r == (match settings {
            Some(s) => contains(s@, source_path@),
            None => false,
        }),
{
    match settings {
        Some(s) => contains_str(s, source_path),
        None => false,
    }
}

} // verus!
