//! Where Odoo's source lives, and the shared store that holds it.
//!
//! odx keeps one checkout per Odoo version under a shared store and points `odoo-bin`,
//! `--addons-path` and friends at it. Resolution is layered so older projects keep
//! working:
//! 1. `ODX_ODOO_PATH`: an explicit override;
//! 2. `path` in the project's `.odx.toml`;
//! 3. `src/odoo` inside the project (projects created before the store);
//! 4. the store entry for the project's version.
//!
//! What the file system says about a directory comes in as [`CheckoutProbe`] facts,
//! gathered by the caller; the decisions are made here.
use vstd::prelude::*;
use crate::paths::{join, path_join};
use crate::pattern::{get_group, group, regex_captures, regex_groups};
use crate::text::{cat, cat3, owned, str_eq, trim, trim_str};

verus! {

/// Project metadata file, committed with the project.
pub const PROJECT_CONFIG: &'static str = ".odx.toml";

/// Environment variable that relocates the store.
pub const STORE_ENV: &'static str = "ODX_ODOO_STORE";

/// Environment variable that points at one specific checkout.
pub const PATH_ENV: &'static str = "ODX_ODOO_PATH";

/// Where versions are fetched from.
pub const ODOO_REPO: &'static str = "https://github.com/odoo/odoo.git";

/// First pattern tried for the series: `version_info = (18, 0, ...`.
pub const VERSION_INFO_PATTERN: &'static str = "version_info\\s*=\\s*\\((\\d+),\\s*(\\d+)";

/// Second pattern tried for the series: `version = '18.0'`.
pub const VERSION_STRING_PATTERN: &'static str = "version\\s*=\\s*['\"](\\d+)\\.(\\d+)";

#[derive(Debug, Clone, Copy, PartialEq, Eq, Structural)]
pub enum Origin {
    /// `ODX_ODOO_PATH`, or `path` pinned in `.odx.toml`.
    Override,
    /// A pre-store project that still has its own `src/odoo` checkout.
    InProject,
    /// The shared store.
    Store,
}

/// How an origin is named in messages.
pub open spec fn origin_label(o: Origin) -> Seq<char> {
    match o {
        Origin::Override => "override"@,
        Origin::InProject => "in-project (legacy)"@,
        Origin::Store => "shared store"@,
    }
}

impl Origin {
    pub fn label(self) -> (r: &'static str)
        ensures
            r@ == origin_label(self),
    {
        match self {
            Origin::Override => "override",
            Origin::InProject => "in-project (legacy)",
            Origin::Store => "shared store",
        }
    }
}

/// A resolved Odoo checkout.
#[derive(Debug)]
pub struct OdooSource {
    pub path: String,
    pub version: String,
    pub origin: Origin,
}

impl OdooSource {
    pub fn odoo_bin(&self) -> (r: String)
        ensures
            r@ == path_join(self.path@, "odoo-bin"@),
    {
        join(self.path.as_str(), "odoo-bin")
    }

    pub fn addons_dir(&self) -> (r: String)
        ensures
            r@ == path_join(self.path@, "addons"@),
    {
        join(self.path.as_str(), "addons")
    }

    pub fn requirements(&self) -> (r: String)
        ensures
            r@ == path_join(self.path@, "requirements.txt"@),
    {
        join(self.path.as_str(), "requirements.txt")
    }
}

/// The `[odoo]` table of `.odx.toml`.
#[derive(Debug)]
pub struct OdooConfig {
    /// Odoo series this project targets, e.g. "18.0".
    pub version: String,
    /// Absolute path to a specific checkout, instead of the shared store.
    pub path: Option<String>,
}

/// Contents of `.odx.toml`.
#[derive(Debug)]
pub struct ProjectConfig {
    pub odoo: OdooConfig,
}

impl ProjectConfig {
    /// The configuration `odx new` writes: a version and no pinned path.
    pub fn for_version(version: &str) -> (r: Self)
        ensures
            r.odoo.version@ == version@,
            r.odoo.path is None,
    {
        ProjectConfig { odoo: OdooConfig { version: owned(version), path: None } }
    }
}

/// What the file system says about one directory: whether it holds `odoo-bin`, and
/// the series read from its release files, if any.
#[derive(Debug)]
pub struct CheckoutProbe {
    pub path: String,
    pub is_checkout: bool,
    pub version: Option<String>,
}

/// The facts known about `path`: the first probe made for it, or "not a checkout" when
/// none was made.
pub open spec fn probe_at(facts: Seq<CheckoutProbe>, path: Seq<char>) -> (bool, Option<Seq<char>>)
    decreases facts.len(),
{
    if facts.len() == 0 {
        (false, None)
    } else if facts[0].path@ == path {
        (facts[0].is_checkout, opt_str(facts[0].version))
    } else {
        probe_at(facts.drop_first(), path)
    }
}

pub open spec fn opt_str(o: Option<String>) -> Option<Seq<char>> {
    match o {
        Some(s) => Some(s@),
        None => None,
    }
}

fn lookup(facts: &Vec<CheckoutProbe>, path: &str) -> (r: (bool, Option<String>))
    ensures
        r.0 == probe_at(facts@, path@).0,
        opt_str(r.1) == probe_at(facts@, path@).1,
{
    let mut i: usize = 0;
    assert(facts@.skip(0) =~= facts@);
    while i < facts.len()
        invariant
            i <= facts@.len(),
            probe_at(facts@, path@) == probe_at(facts@.skip(i as int), path@),
        decreases facts.len() - i,
    {
        assert(facts@.skip(i as int).drop_first() =~= facts@.skip(i + 1));
        assert(facts@.skip(i as int)[0] == facts@[i as int]);
        if str_eq(facts[i].path.as_str(), path) {
            let v = match &facts[i].version {
                Some(s) => Some(s.clone()),
                None => None,
            };
            return (facts[i].is_checkout, v);
        }
        i = i + 1;
    }
    (false, None)
}

/// Root of the shared store: `ODX_ODOO_STORE` when set to something other than white
/// space, otherwise `odx/odoo` under the user's cache directory (or under `.`).
pub open spec fn store_root_spec(env_store: Option<Seq<char>>, cache_dir: Option<Seq<char>>) -> Seq<char> {
    match env_store {
        Some(p) if trim(p).len() > 0 => p,
        _ => path_join(
            path_join(
                match cache_dir {
                    Some(c) => c,
                    None => "."@,
                },
                "odx"@,
            ),
            "odoo"@,
        ),
    }
}

pub fn store_root(env_store: Option<String>, cache_dir: Option<String>) -> (r: String)
    ensures
        r@ == store_root_spec(opt_str(env_store), opt_str(cache_dir)),
{
    if let Some(p) = &env_store {
        let t = trim_str(p.as_str());
        if t.unicode_len() > 0 {
            return p.clone();
        }
    }
    let base = match cache_dir {
        Some(c) => c,
        None => String::from_str("."),
    };
    let odx = join(base.as_str(), "odx");
    join(odx.as_str(), "odoo")
}

/// The store directory of one version.
pub fn store_path_for(store_root: &str, version: &str) -> (r: String)
    ensures
        r@ == path_join(store_root@, version@),
{
    join(store_root, version)
}

/// One directory per version, directly under the store root: for any root, the
/// version's directory ends with the version and its components are the root's
/// followed by the version (its parent is the root).
pub proof fn law_store_layout(store_root: Seq<char>, version: Seq<char>)
    requires
        version.len() > 0,
        version != "."@,
        forall|i: int| 0 <= i < version.len() ==> version[i] != '/',
    ensures
        crate::text::ends_with(path_join(store_root, version), version),
        crate::paths::path_components(path_join(store_root, version))
            == crate::paths::path_components(store_root).push(version),
{
    crate::paths::law_join_one_component(store_root, version);
}

/// `major.minor` from the two groups of a version match.
pub open spec fn series_of(g: Option<Option<Seq<Option<Seq<char>>>>>) -> Option<Seq<char>> {
    match (group(g, 1), group(g, 2)) {
        (Some(a), Some(b)) => Some(a + "."@ + b),
        _ => None,
    }
}

/// The series named in a release file: `version_info = (M, m` first, then
/// `version = 'M.m`.
pub open spec fn parse_version_spec(content: Seq<char>) -> Option<Seq<char>> {
    match regex_groups(VERSION_INFO_PATTERN@, content) {
        None => None,
        Some(Some(g)) => series_of(Some(Some(g))),
        Some(None) => match regex_groups(VERSION_STRING_PATTERN@, content) {
            Some(Some(g)) => series_of(Some(Some(g))),
            _ => None,
        },
    }
}

fn series_from(caps: &Option<Option<Vec<Option<String>>>>) -> (r: Option<String>)
    ensures
        opt_str(r) == series_of(caps.deep_view()),
{
    match (get_group(caps, 1), get_group(caps, 2)) {
        (Some(a), Some(b)) => Some(cat3(a.as_str(), ".", b.as_str())),
        _ => None,
    }
}

pub fn parse_version(content: &str) -> (r: Option<String>)
    ensures
        opt_str(r) == parse_version_spec(content@),
{
    let caps = regex_captures(VERSION_INFO_PATTERN, content);
    match caps {
        None => None,
        Some(Some(_)) => series_from(&caps),
        Some(None) => {
            let caps2 = regex_captures(VERSION_STRING_PATTERN, content);
            match caps2 {
                Some(Some(_)) => series_from(&caps2),
                _ => None,
            }
        },
    }
}

/// The series of a checkout from its `odoo/release.py`, then its `odoo/__init__.py`
/// (each given when it could be read).
pub open spec fn version_from_checkout_spec(release_py: Option<Seq<char>>, init_py: Option<Seq<char>>) -> Option<Seq<char>> {
    match release_py {
        Some(c) if parse_version_spec(c) is Some => parse_version_spec(c),
        _ => match init_py {
            Some(c) => parse_version_spec(c),
            None => None,
        },
    }
}

pub fn version_from_checkout(release_py: Option<String>, init_py: Option<String>) -> (r: Option<String>)
    ensures
        opt_str(r) == version_from_checkout_spec(opt_str(release_py), opt_str(init_py)),
{
    if let Some(c) = &release_py {
        let v = parse_version(c.as_str());
        if v.is_some() {
            return v;
        }
    }
    match &init_py {
        Some(c) => parse_version(c.as_str()),
        None => None,
    }
}

pub open spec fn version_unknown_message() -> Seq<char> {
    "Odoo version unknown for this project: set it in "@ + PROJECT_CONFIG@
        + " (e.g. [odoo] version = \"18.0\"), then run 'odx install' to fetch it into the store."@
}

/// The legacy in-project checkout of a project.
pub open spec fn legacy_path(project_root: Seq<char>) -> Seq<char> {
    path_join(project_root, "src/odoo"@)
}

/// Which series the project targets, without needing the source: the non-blank
/// version of `.odx.toml`, else the version of a legacy `src/odoo` checkout.
pub open spec fn project_version_spec(
    cfg_version: Option<Seq<char>>,
    legacy: (bool, Option<Seq<char>>),
) -> Result<Seq<char>, Seq<char>> {
    match cfg_version {
        Some(v) if trim(v).len() > 0 => Ok(v),
        _ => if legacy.0 && legacy.1 is Some {
            Ok(legacy.1->0)
        } else {
            Err(version_unknown_message())
        },
    }
}

pub open spec fn cfg_version(cfg: Option<&ProjectConfig>) -> Option<Seq<char>> {
    match cfg {
        Some(c) => Some(c.odoo.version@),
        None => None,
    }
}

pub open spec fn res_str(r: Result<String, String>) -> Result<Seq<char>, Seq<char>> {
    match r {
        Ok(s) => Ok(s@),
        Err(e) => Err(e@),
    }
}

pub fn project_version(project_root: &str, cfg: Option<&ProjectConfig>, facts: &Vec<CheckoutProbe>) -> (r: Result<String, String>)
    ensures
        res_str(r) == project_version_spec(cfg_version(cfg), probe_at(facts@, legacy_path(project_root@))),
{
    if let Some(c) = cfg {
        let t = trim_str(c.odoo.version.as_str());
        if t.unicode_len() > 0 {
            return Ok(c.odoo.version.clone());
        }
    }
    // Pre-store project: the version can still be read from its own checkout.
    let legacy = join(project_root, "src/odoo");
    let (is_checkout, version) = lookup(facts, legacy.as_str());
    if is_checkout {
        if let Some(v) = version {
            return Ok(v);
        }
    }
    let mut m = owned("Odoo version unknown for this project: set it in ");
    m.append(PROJECT_CONFIG);
    m.append(" (e.g. [odoo] version = \"18.0\"), then run 'odx install' to fetch it into the store.");
    Err(m)
}

/// A resolved source, as plain text.
pub struct SourceView {
    pub path: Seq<char>,
    pub version: Seq<char>,
    pub origin: Origin,
}

pub open spec fn source_view(s: OdooSource) -> SourceView {
    SourceView { path: s.path@, version: s.version@, origin: s.origin }
}

pub open spec fn or_unknown(v: Option<Seq<char>>) -> Seq<char> {
    match v {
        Some(x) => x,
        None => "unknown"@,
    }
}

pub open spec fn or_else(a: Option<Seq<char>>, b: Option<Seq<char>>) -> Option<Seq<char>> {
    match a {
        Some(x) => Some(x),
        None => b,
    }
}

/// The layered resolution: an explicit override, a pinned path, a legacy checkout,
/// then the store entry of the project's version.
pub open spec fn resolve_spec(
    project_root: Seq<char>,
    env_path: Option<Seq<char>>,
    cfg: Result<Option<(Seq<char>, Option<Seq<char>>)>, Seq<char>>,
    facts: Seq<CheckoutProbe>,
    store_root: Seq<char>,
) -> Result<SourceView, Seq<char>> {
    match env_path {
        Some(p) if trim(p).len() > 0 => if !probe_at(facts, p).0 {
            Err(PATH_ENV@ + " points at "@ + p + ", which is not an Odoo checkout (no odoo-bin)"@)
        } else {
            Ok(SourceView { path: p, version: or_unknown(probe_at(facts, p).1), origin: Origin::Override })
        },
        _ => match cfg {
            Err(e) => Err(e),
            Ok(cfg) => {
                let cfg_ver = match cfg {
                    Some(c) => Some(c.0),
                    None => None,
                };
                match cfg {
                    Some((v, Some(pinned))) => if !probe_at(facts, pinned).0 {
                        Err(PROJECT_CONFIG@ + " pins odoo.path = "@ + pinned
                            + ", which is not an Odoo checkout (no odoo-bin)"@)
                    } else {
                        Ok(SourceView {
                            path: pinned,
                            version: or_unknown(or_else(probe_at(facts, pinned).1, Some(v))),
                            origin: Origin::Override,
                        })
                    },
                    _ => {
                        let legacy = legacy_path(project_root);
                        if probe_at(facts, legacy).0 {
                            Ok(SourceView {
                                path: legacy,
                                version: or_unknown(or_else(probe_at(facts, legacy).1, cfg_ver)),
                                origin: Origin::InProject,
                            })
                        } else {
                            match project_version_spec(cfg_ver, probe_at(facts, legacy)) {
                                Err(e) => Err(e),
                                Ok(version) => {
                                    let path = path_join(store_root, version);
                                    if !probe_at(facts, path).0 {
                                        Err("Odoo "@ + version + " is not in the store yet ("@ + path
                                            + "). Run 'odx install' to fetch it."@)
                                    } else {
                                        Ok(SourceView { path, version, origin: Origin::Store })
                                    }
                                },
                            }
                        }
                    },
                }
            },
        },
    }
}

pub open spec fn cfg_view(cfg: Result<Option<ProjectConfig>, String>) -> Result<Option<(Seq<char>, Option<Seq<char>>)>, Seq<char>> {
    match cfg {
        Err(e) => Err(e@),
        Ok(None) => Ok(None),
        Ok(Some(c)) => Ok(Some((c.odoo.version@, opt_str(c.odoo.path)))),
    }
}

pub open spec fn resolved_view(r: Result<OdooSource, String>) -> Result<SourceView, Seq<char>> {
    match r {
        Ok(s) => Ok(source_view(s)),
        Err(e) => Err(e@),
    }
}

fn unknown_or(v: Option<String>) -> (r: String)
    ensures
        r@ == or_unknown(opt_str(v)),
{
    match v {
        Some(x) => x,
        None => String::from_str("unknown"),
    }
}

/// Resolves the Odoo source of a project from what is known about the candidate
/// directories (`facts`), the override variable, the parsed `.odx.toml` (or the error
/// reading it), and the store root.
pub fn resolve(
    project_root: &str,
    env_path: Option<String>,
    cfg: Result<Option<ProjectConfig>, String>,
    facts: &Vec<CheckoutProbe>,
    store_root: &str,
) -> (r: Result<OdooSource, String>)
    ensures
        resolved_view(r) == resolve_spec(project_root@, opt_str(env_path), cfg_view(cfg), facts@, store_root@),
{
    if let Some(p) = env_path {
        let t = trim_str(p.as_str());
        if t.unicode_len() > 0 {
            let (is_checkout, version) = lookup(facts, p.as_str());
            if !is_checkout {
                let mut m = owned(PATH_ENV);
                m.append(" points at ");
                m.append(p.as_str());
                m.append(", which is not an Odoo checkout (no odoo-bin)");
                return Err(m);
            }
            return Ok(OdooSource { path: p, version: unknown_or(version), origin: Origin::Override });
        }
    }
    let cfg = match cfg {
        Err(e) => return Err(e),
        Ok(c) => c,
    };
    let cfg_ver: Option<String> = match &cfg {
        Some(c) => Some(c.odoo.version.clone()),
        None => None,
    };
    if let Some(c) = &cfg {
        if let Some(pinned) = &c.odoo.path {
            let (is_checkout, version) = lookup(facts, pinned.as_str());
            if !is_checkout {
                let mut m = owned(PROJECT_CONFIG);
                m.append(" pins odoo.path = ");
                m.append(pinned.as_str());
                m.append(", which is not an Odoo checkout (no odoo-bin)");
                return Err(m);
            }
            let v = match version {
                Some(v) => v,
                None => c.odoo.version.clone(),
            };
            return Ok(OdooSource { path: pinned.clone(), version: v, origin: Origin::Override });
        }
    }
    let legacy = join(project_root, "src/odoo");
    let (legacy_checkout, legacy_version) = lookup(facts, legacy.as_str());
    if legacy_checkout {
        let v = match legacy_version {
            Some(v) => Some(v),
            None => cfg_ver,
        };
        return Ok(OdooSource { path: legacy, version: unknown_or(v), origin: Origin::InProject });
    }
    let version = match project_version(project_root, cfg.as_ref(), facts) {
        Err(e) => return Err(e),
        Ok(v) => v,
    };
    let path = store_path_for(store_root, version.as_str());
    let (store_checkout, _) = lookup(facts, path.as_str());
    if !store_checkout {
        let mut m = owned("Odoo ");
        m.append(version.as_str());
        m.append(" is not in the store yet (");
        m.append(path.as_str());
        m.append("). Run 'odx install' to fetch it.");
        return Err(m);
    }
    Ok(OdooSource { path, version, origin: Origin::Store })
}

/// An explicit override wins over everything the project says.
pub proof fn law_override_wins(
    project_root: Seq<char>,
    p: Seq<char>,
    cfg: Result<Option<(Seq<char>, Option<Seq<char>>)>, Seq<char>>,
    facts: Seq<CheckoutProbe>,
    store_root: Seq<char>,
)
    requires
        trim(p).len() > 0,
        probe_at(facts, p).0,
    ensures
        resolve_spec(project_root, Some(p), cfg, facts, store_root) matches Ok(s) && s.path == p
            && s.origin == Origin::Override,
{
}

/// A pinned checkout wins over the legacy checkout and the store, and its own release
/// files say which version it is.
pub proof fn law_pinned_path_wins(
    project_root: Seq<char>,
    version: Seq<char>,
    pinned: Seq<char>,
    facts: Seq<CheckoutProbe>,
    store_root: Seq<char>,
    checkout_version: Seq<char>,
)
    requires
        probe_at(facts, pinned) == (true, Some(checkout_version)),
    ensures
        resolve_spec(project_root, None, Ok(Some((version, Some(pinned)))), facts, store_root)
            == Ok::<SourceView, Seq<char>>(SourceView { path: pinned, version: checkout_version, origin: Origin::Override }),
{
}

/// A project that still has its own `src/odoo` keeps using it.
pub proof fn law_legacy_checkout_still_works(
    project_root: Seq<char>,
    cfg: Option<(Seq<char>, Option<Seq<char>>)>,
    facts: Seq<CheckoutProbe>,
    store_root: Seq<char>,
    checkout_version: Seq<char>,
)
    requires
        cfg matches Some((_, p)) ==> p is None,
        probe_at(facts, legacy_path(project_root)) == (true, Some(checkout_version)),
    ensures
        resolve_spec(project_root, None, Ok(cfg), facts, store_root) == Ok::<SourceView, Seq<char>>(
            SourceView { path: legacy_path(project_root), version: checkout_version, origin: Origin::InProject },
        ),
{
}

/// A version missing from the store is an error that names the version and says to
/// run `odx install`.
pub proof fn law_missing_store_entry_says_how_to_fix(
    project_root: Seq<char>,
    version: Seq<char>,
    facts: Seq<CheckoutProbe>,
    store_root: Seq<char>,
)
    requires
        trim(version).len() > 0,
        !probe_at(facts, legacy_path(project_root)).0,
        !probe_at(facts, path_join(store_root, version)).0,
    ensures
        resolve_spec(project_root, None, Ok(Some((version, None))), facts, store_root) matches Err(e)
            && e == "Odoo "@ + version + " is not in the store yet ("@ + path_join(store_root, version)
            + "). Run 'odx install' to fetch it."@,
{
}

/// A project with a version in the store and no checkout of its own uses the store's
/// checkout of that version.
pub proof fn law_store_checkout_is_used(
    project_root: Seq<char>,
    version: Seq<char>,
    facts: Seq<CheckoutProbe>,
    store_root: Seq<char>,
)
    requires
        trim(version).len() > 0,
        !probe_at(facts, legacy_path(project_root)).0,
        probe_at(facts, path_join(store_root, version)).0,
    ensures
        resolve_spec(project_root, None, Ok(Some((version, None))), facts, store_root) == Ok::<SourceView, Seq<char>>(
            SourceView { path: path_join(store_root, version), version, origin: Origin::Store },
        ),
{
}

/// The version `.odx.toml` names is the project's version, whatever else is found.
pub proof fn law_configured_version_is_used(version: Seq<char>, legacy: (bool, Option<Seq<char>>))
    requires
        trim(version).len() > 0,
    ensures
        project_version_spec(Some(version), legacy) == Ok::<Seq<char>, Seq<char>>(version),
{
}

/// Staging directory a fetch clones into before it is renamed into place.
pub fn staging_dir(store_root: &str, version: &str, pid: u32) -> (r: String)
    ensures
        r@ == path_join(store_root@, ".incoming-"@ + version@ + "-"@ + crate::text::decimal(pid as nat)),
{
    let mut name = owned(".incoming-");
    name.append(version);
    name.append("-");
    let d = crate::text::decimal_string(pid as u64);
    name.append(d.as_str());
    join(store_root, name.as_str())
}

/// Arguments of the shallow `git clone` that fetches one version.
pub fn clone_args(version: &str, staging: &str) -> (r: Vec<String>)
    ensures
        r@.len() == 7,
        r@[0]@ == "clone"@,
        r@[1]@ == "--branch"@,
        r@[2]@ == version@,
        r@[3]@ == "--depth"@,
        r@[4]@ == "1"@,
        r@[5]@ == ODOO_REPO@,
        r@[6]@ == staging@,
{
    let mut v: Vec<String> = Vec::new();
    v.push(String::from_str("clone"));
    v.push(String::from_str("--branch"));
    v.push(owned(version));
    v.push(String::from_str("--depth"));
    v.push(String::from_str("1"));
    v.push(String::from_str(ODOO_REPO));
    v.push(owned(staging));
    v
}

/// The text written to `.odx.toml` around the serialized configuration.
pub open spec fn config_file_header() -> Seq<char> {
    "# odx project metadata. The Odoo source itself is not stored in this project:\n# odx keeps one checkout per version in a shared store (see 'odx store path').\n# Set odoo.path to use a specific checkout instead.\n\n"@
}

pub fn project_config_file(body: &str) -> (r: String)
    ensures
        r@ == config_file_header() + body@,
{
    let mut s = owned(
        "# odx project metadata. The Odoo source itself is not stored in this project:\n# odx keeps one checkout per version in a shared store (see 'odx store path').\n# Set odoo.path to use a specific checkout instead.\n\n",
    );
    s.append(body);
    s
}


// ---------------------------------------------------------------------------
// Fetching into the store, listing it, removing from it
// ---------------------------------------------------------------------------

/// What fetching a version into the store needs: the store directory the checkout goes
/// to, the scratch directory it is cloned into first (so an interrupted clone never
/// leaves a half-populated version behind), and the `git clone` arguments. Nothing is
/// needed when the version is already a checkout.
pub struct FetchPlan {
    pub target: String,
    pub staging: String,
    pub clone_args: Vec<String>,
}

/// The plan of `ensure_in_store` for `version`: none when the store already holds a
/// checkout of it.
pub fn ensure_in_store(store_root: &str, version: &str, pid: u32, target_is_checkout: bool) -> (r: Option<FetchPlan>)
    ensures
        target_is_checkout <==> r is None,
        r matches Some(p) ==> {
            &&& p.target@ == path_join(store_root@, version@)
            &&& p.staging@ == path_join(store_root@, ".incoming-"@ + version@ + "-"@ + crate::text::decimal(pid as nat))
            &&& p.clone_args@.len() == 7
            &&& p.clone_args@[0]@ == "clone"@
            &&& p.clone_args@[1]@ == "--branch"@
            &&& p.clone_args@[2]@ == version@
            &&& p.clone_args@[3]@ == "--depth"@
            &&& p.clone_args@[4]@ == "1"@
            &&& p.clone_args@[5]@ == ODOO_REPO@
            &&& p.clone_args@[6]@ == p.staging@
        },
{
    if target_is_checkout {
        return None;
    }
    let target = store_path_for(store_root, version);
    let staging = staging_dir(store_root, version, pid);
    let args = clone_args(version, staging.as_str());
    Some(FetchPlan { target, staging, clone_args: args })
}

/// The error when the store directory cannot be created.
pub fn store_create_error(store_root: &str, err: &str) -> (r: String)
    ensures
        r@ == "Failed to create store "@ + store_root@ + ": "@ + err@,
{
    let mut m = cat3("Failed to create store ", store_root, ": ");
    m.append(err);
    m
}

/// How a fetch ends once the clone has run: its failure is reported with the version.
/// The flag says whether to remove the scratch directory: after a failed clone it
/// goes, so no half-populated clone is left behind.
pub fn clone_outcome(version: &str, clone: Result<(), String>) -> (r: (bool, Result<(), String>))
    ensures
        r.0 <==> clone is Err,
        (match clone {
            Ok(()) => r.1 is Ok,
            Err(e) => r.1 is Err && r.1->Err_0@ == "Failed to fetch Odoo "@ + version@ + ": "@ + e@,
        }),
{
    match clone {
        Ok(()) => (false, Ok(())),
        Err(e) => {
            let mut m = cat3("Failed to fetch Odoo ", version, ": ");
            m.append(e.as_str());
            (true, Err(m))
        },
    }
}

/// How a fetch ends once the clone has been moved into place: a failed move is fine
/// when another odx populated the version meanwhile (`target_is_checkout`), an error
/// otherwise. The flag says whether to remove the scratch directory: whenever the move
/// failed, since the clone was not moved out of it.
pub fn rename_outcome(target: &str, rename: Result<(), String>, target_is_checkout: bool) -> (r: (
    bool,
    Result<(), String>,
))
    ensures
        r.0 <==> rename is Err,
        (match rename {
            Ok(()) => r.1 is Ok,
            Err(e) => if target_is_checkout {
                r.1 is Ok
            } else {
                r.1 is Err && r.1->Err_0@ == "Failed to move the fetched Odoo into "@ + target@ + ": "@ + e@
            },
        }),
{
    match rename {
        Ok(()) => (false, Ok(())),
        Err(e) => {
            if target_is_checkout {
                (true, Ok(()))
            } else {
                let mut m = cat3("Failed to move the fetched Odoo into ", target, ": ");
                m.append(e.as_str());
                (true, Err(m))
            }
        },
    }
}

/// One entry of the store directory: its name, whether it is a directory, and whether
/// it holds `odoo-bin`.
pub struct StoreEntry {
    pub name: String,
    pub is_dir: bool,
    pub is_checkout: bool,
}

/// The versions the store holds: checkouts whose name does not start with `.`
/// (scratch directories do), in the order of the entries.
pub open spec fn store_versions(es: Seq<StoreEntry>) -> Seq<Seq<char>>
    decreases es.len(),
{
    if es.len() == 0 {
        Seq::empty()
    } else {
        let e = es.last();
        store_versions(es.drop_last()) + if e.is_dir && e.is_checkout && !(e.name@.len() > 0 && e.name@[0] == '.') {
            seq![e.name@]
        } else {
            Seq::empty()
        }
    }
}

/// The versions in the store, sorted, each with its directory.
pub fn list_store(store_root: &str, entries: &Vec<StoreEntry>) -> (r: Vec<(String, String)>)
    ensures
        crate::order::sorted(r@.map_values(|p: (String, String)| p.0@)),
        r@.map_values(|p: (String, String)| p.0@).to_multiset() == store_versions(entries@).to_multiset(),
        forall|i: int| 0 <= i < r@.len() ==> (#[trigger] r@[i]).1@ == path_join(store_root@, r@[i].0@),
{
    let ghost es = entries@;
    let mut names: Vec<String> = Vec::new();
    let mut i: usize = 0;
    while i < entries.len()
        invariant
            i <= es.len(),
            es == entries@,
            crate::text::strs(names@) == store_versions(es.take(i as int)),
        decreases entries.len() - i,
    {
        assert(es.take(i + 1).drop_last() =~= es.take(i as int));
        assert(es.take(i + 1).last() == es[i as int]);
        let e = &entries[i];
        let ghost n0 = crate::text::strs(names@);
        let nc = crate::text::chars_of(e.name.as_str());
        let hidden = nc.len() > 0 && nc[0] == '.';
        if e.is_dir && e.is_checkout && !hidden {
            names.push(e.name.clone());
            assert(crate::text::strs(names@) =~= n0 + seq![e.name@]);
        } else {
            assert(crate::text::strs(names@) =~= n0 + Seq::<Seq<char>>::empty());
        }
        i = i + 1;
    }
    assert(es.take(es.len() as int) =~= es);
    let sorted_names = crate::order::sort_strings(names);
    let mut out: Vec<(String, String)> = Vec::new();
    let mut k: usize = 0;
    while k < sorted_names.len()
        invariant
            k <= sorted_names@.len(),
            out@.len() == k,
            forall|j: int| 0 <= j < k ==> (#[trigger] out@[j]).0@ == sorted_names@[j]@,
            forall|j: int| 0 <= j < k ==> (#[trigger] out@[j]).1@ == path_join(store_root@, out@[j].0@),
        decreases sorted_names.len() - k,
    {
        let name = sorted_names[k].clone();
        let path = store_path_for(store_root, name.as_str());
        out.push((name, path));
        k = k + 1;
    }
    assert(out@.map_values(|p: (String, String)| p.0@) =~= crate::order::views(sorted_names@));
    out
}

/// The directory to delete for `odx store rm <version>`: an error when it does not
/// exist.
pub fn remove_from_store(store_root: &str, version: &str, exists: bool) -> (r: Result<String, String>)
    ensures
        exists <==> r is Ok,
        r matches Ok(p) ==> p@ == path_join(store_root@, version@),
        r matches Err(e) ==> e@ == "Odoo "@ + version@ + " is not in the store"@,
{
    if !exists {
        return Err(cat3("Odoo ", version, " is not in the store"));
    }
    Ok(store_path_for(store_root, version))
}

/// The error when deleting a version's directory fails.
pub fn remove_error(path: &str, err: &str) -> (r: String)
    ensures
        r@ == "Failed to remove "@ + path@ + ": "@ + err@,
{
    let mut m = cat3("Failed to remove ", path, ": ");
    m.append(err);
    m
}

} // verus!
