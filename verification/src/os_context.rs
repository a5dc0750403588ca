//! What kind of system odx runs on: platform, Linux family and package manager.
//!
//! The facts (os-release fields, which package tools are on `PATH`) are gathered by
//! the caller; classifying them happens here.
use vstd::prelude::*;
use crate::text::{lowercase, str_eq, to_lower};

verus! {

#[derive(Debug, Clone, Copy, PartialEq, Eq, Structural)]
pub enum Platform {
    Linux,
    Windows,
    Unknown,
}

#[derive(Debug, Clone, Copy, PartialEq, Eq, Structural)]
pub enum LinuxFamily {
    DebianLike,
    FedoraLike,
    ArchLike,
    Unknown,
}

#[derive(Debug, Clone, Copy, PartialEq, Eq, Structural)]
pub enum PackageManager {
    AptGet,
    Dnf,
    Pacman,
    Winget,
    Unknown,
}

#[derive(Debug)]
pub struct OsContext {
    pub platform: Platform,
    pub pretty_name: Option<String>,
    pub linux_family: Option<LinuxFamily>,
    pub package_manager: PackageManager,
    pub os_release_id: Option<String>,
    pub os_release_id_like: Vec<String>,
}

/// The `ID`, `ID_LIKE` and `PRETTY_NAME` fields of os-release, when present.
#[derive(Debug)]
pub struct OsRelease {
    pub id: Option<String>,
    pub id_like: Vec<String>,
    pub pretty_name: Option<String>,
}

/// Which package tools were found on `PATH`.
#[derive(Debug, Clone, Copy)]
pub struct Tools {
    pub apt_get: bool,
    pub dnf: bool,
    pub pacman: bool,
    pub winget: bool,
}

/// The family for a lower-cased os-release `ID` and lower-cased `ID_LIKE` entries.
pub open spec fn family_of(id: Seq<char>, likes: Seq<Seq<char>>) -> LinuxFamily {
    if id == "ubuntu"@ || id == "debian"@ || likes.contains("debian"@) {
        LinuxFamily::DebianLike
    } else if id == "fedora"@ || id == "rhel"@ || id == "centos"@ || likes.contains("fedora"@)
        || likes.contains("rhel"@) {
        LinuxFamily::FedoraLike
    } else if id == "arch"@ || id == "manjaro"@ || likes.contains("arch"@) {
        LinuxFamily::ArchLike
    } else {
        LinuxFamily::Unknown
    }
}

fn any_equal(likes: &Vec<String>, needle: &str) -> (r: bool)
    ensures
        r == likes@.map_values(|s: String| s@).contains(needle@),
{
    let ghost views = likes@.map_values(|s: String| s@);
    let mut i: usize = 0;
    while i < likes.len()
        invariant
            i <= likes@.len(),
            views == likes@.map_values(|s: String| s@),
            forall|j: int| 0 <= j < i ==> views[j] != needle@,
        decreases likes.len() - i,
    {
        if str_eq(likes[i].as_str(), needle) {
            assert(views[i as int] == needle@);
            return true;
        }
        i = i + 1;
    }
    false
}

/// Classifies a Linux distribution from os-release, ignoring case.
pub fn map_linux_family(id: Option<&str>, id_like: &Vec<String>) -> (r: LinuxFamily)
    ensures
        r == family_of(
            lowercase(
                match id {
                    Some(s) => s@,
                    None => ""@,
                },
            ),
            id_like@.map_values(|s: String| lowercase(s@)),
        ),
{
    let id_l = match id {
        Some(s) => to_lower(s),
        None => to_lower(""),
    };
    let mut likes: Vec<String> = Vec::new();
    let mut i: usize = 0;
    while i < id_like.len()
        invariant
            i <= id_like@.len(),
            likes@.map_values(|s: String| s@) =~= id_like@.take(i as int).map_values(
                |s: String| lowercase(s@),
            ),
        decreases id_like.len() - i,
    {
        let l = to_lower(id_like[i].as_str());
        let ghost before = likes@;
        likes.push(l);
        assert(id_like@.take(i + 1) =~= id_like@.take(i as int).push(id_like@[i as int]));
        assert(likes@.map_values(|s: String| s@) =~= before.map_values(|s: String| s@).push(
            lowercase(id_like@[i as int]@),
        ));
        assert(id_like@.take(i + 1).map_values(|s: String| lowercase(s@)) =~= id_like@.take(
            i as int,
        ).map_values(|s: String| lowercase(s@)).push(lowercase(id_like@[i as int]@)));
        i = i + 1;
    }
    assert(id_like@.take(id_like@.len() as int) =~= id_like@);
    let id_s = id_l.as_str();
    if str_eq(id_s, "ubuntu") || str_eq(id_s, "debian") || any_equal(&likes, "debian") {
        return LinuxFamily::DebianLike;
    }
    if str_eq(id_s, "fedora") || str_eq(id_s, "rhel") || str_eq(id_s, "centos") || any_equal(
        &likes,
        "fedora",
    ) || any_equal(&likes, "rhel") {
        return LinuxFamily::FedoraLike;
    }
    if str_eq(id_s, "arch") || str_eq(id_s, "manjaro") || any_equal(&likes, "arch") {
        return LinuxFamily::ArchLike;
    }
    LinuxFamily::Unknown
}

/// The Linux package manager: apt-get, then dnf, then pacman.
pub open spec fn linux_package_manager(t: Tools) -> PackageManager {
    if t.apt_get {
        PackageManager::AptGet
    } else if t.dnf {
        PackageManager::Dnf
    } else if t.pacman {
        PackageManager::Pacman
    } else {
        PackageManager::Unknown
    }
}

/// The family of the distribution an os-release describes.
pub open spec fn release_family(release: OsRelease) -> LinuxFamily {
    family_of(
        lowercase(
            match release.id {
                Some(s) => s@,
                None => ""@,
            },
        ),
        release.id_like@.map_values(|s: String| lowercase(s@)),
    )
}

/// The Windows package manager: winget when it is on `PATH`.
pub open spec fn windows_package_manager(t: Tools) -> PackageManager {
    if t.winget {
        PackageManager::Winget
    } else {
        PackageManager::Unknown
    }
}

/// Context of a Linux system.
pub fn detect_linux(release: OsRelease, tools: Tools) -> (r: OsContext)
    ensures
        r.platform == Platform::Linux,
        r.pretty_name == release.pretty_name,
        r.os_release_id == release.id,
        r.os_release_id_like == release.id_like,
        r.linux_family == Some(release_family(release)),
        r.package_manager == linux_package_manager(tools),
{
    let family = match &release.id {
        Some(s) => map_linux_family(Some(s.as_str()), &release.id_like),
        None => map_linux_family(None, &release.id_like),
    };
    let pm = if tools.apt_get {
        PackageManager::AptGet
    } else if tools.dnf {
        PackageManager::Dnf
    } else if tools.pacman {
        PackageManager::Pacman
    } else {
        PackageManager::Unknown
    };
    OsContext {
        platform: Platform::Linux,
        pretty_name: release.pretty_name,
        linux_family: Some(family),
        package_manager: pm,
        os_release_id: release.id,
        os_release_id_like: release.id_like,
    }
}

/// Context of a Windows system.
pub fn detect_windows(tools: Tools) -> (r: OsContext)
    ensures
        r.platform == Platform::Windows,
        r.pretty_name matches Some(n) && n@ == "Windows"@,
        r.linux_family is None,
        r.package_manager == windows_package_manager(tools),
        r.os_release_id is None,
        r.os_release_id_like@.len() == 0,
{
    let pm = if tools.winget {
        PackageManager::Winget
    } else {
        PackageManager::Unknown
    };
    OsContext {
        platform: Platform::Windows,
        pretty_name: Some(String::from_str("Windows")),
        linux_family: None,
        package_manager: pm,
        os_release_id: None,
        os_release_id_like: Vec::new(),
    }
}

impl OsContext {
    /// The context for the platform odx was built for.
    pub fn detect(platform: Platform, release: OsRelease, tools: Tools) -> (r: OsContext)
        ensures
            r.platform == platform,
            platform == Platform::Linux ==> {
                &&& r.pretty_name == release.pretty_name
                &&& r.os_release_id == release.id
                &&& r.os_release_id_like == release.id_like
                &&& r.linux_family == Some(release_family(release))
                &&& r.package_manager == linux_package_manager(tools)
            },
            platform == Platform::Windows ==> {
                &&& r.pretty_name matches Some(n) && n@ == "Windows"@
                &&& r.linux_family is None
                &&& r.package_manager == windows_package_manager(tools)
                &&& r.os_release_id is None
                &&& r.os_release_id_like@.len() == 0
            },
            platform == Platform::Unknown ==> r.pretty_name is None && r.linux_family is None
                && r.package_manager == PackageManager::Unknown && r.os_release_id is None
                && r.os_release_id_like@.len() == 0,
    {
        match platform {
            Platform::Linux => detect_linux(release, tools),
            Platform::Windows => detect_windows(tools),
            Platform::Unknown => OsContext {
                platform: Platform::Unknown,
                pretty_name: None,
                linux_family: None,
                package_manager: PackageManager::Unknown,
                os_release_id: None,
                os_release_id_like: Vec::new(),
            },
        }
    }
}


// ---------------------------------------------------------------------------
// os-release
// ---------------------------------------------------------------------------

/// `etc_os_release::OsRelease::id` of an os-release text: its `ID`, `linux` when unset.
pub uninterp spec fn os_release_id(content: Seq<char>) -> Seq<char>;

/// `OsRelease::id_like` of an os-release text: the words of `ID_LIKE`, none when unset.
pub uninterp spec fn os_release_id_like(content: Seq<char>) -> Option<Seq<Seq<char>>>;

/// `OsRelease::pretty_name` of an os-release text: its `PRETTY_NAME`, `Linux` when
/// unset.
pub uninterp spec fn os_release_pretty_name(content: Seq<char>) -> Seq<char>;

/// Parses the text (`OsRelease`'s `FromStr`, which cannot fail) and reads `ID`.
#[verifier::external_body]
fn release_id(content: &str) -> (r: String)
    ensures
        r@ == os_release_id(content@),
{
    let rel: etc_os_release::OsRelease = content.parse().unwrap_or_else(|e| match e {});
    rel.id().to_string()
}

/// Parses the text and reads `ID_LIKE` as a list.
#[verifier::external_body]
fn release_id_like(content: &str) -> (r: Option<Vec<String>>)
    ensures
        (match r {
            Some(v) => os_release_id_like(content@) == Some(crate::text::strs(v@)),
            None => os_release_id_like(content@) is None,
        }),
{
    let rel: etc_os_release::OsRelease = content.parse().unwrap_or_else(|e| match e {});
    rel.id_like().map(|it| it.map(|v| v.to_string()).collect())
}

/// Parses the text and reads `PRETTY_NAME`.
#[verifier::external_body]
fn release_pretty_name(content: &str) -> (r: String)
    ensures
        r@ == os_release_pretty_name(content@),
{
    let rel: etc_os_release::OsRelease = content.parse().unwrap_or_else(|e| match e {});
    rel.pretty_name().to_string()
}

/// A field, or none when it is empty.
pub open spec fn non_empty(s: Seq<char>) -> Option<Seq<char>> {
    if s.len() == 0 {
        None
    } else {
        Some(s)
    }
}

/// The fields odx uses of the os-release text (given when the file could be read):
/// `ID` and `PRETTY_NAME` (none when empty) and the words of `ID_LIKE`.
pub fn read_os_release_fields(content: Option<&str>) -> (r: OsRelease)
    ensures
        (match content {
            None => r.id is None && r.id_like@.len() == 0 && r.pretty_name is None,
            Some(c) => {
                &&& crate::odoo_source::opt_str(r.id) == non_empty(os_release_id(c@))
                &&& crate::text::strs(r.id_like@) == (match os_release_id_like(c@) {
                    Some(v) => v,
                    None => Seq::empty(),
                })
                &&& crate::odoo_source::opt_str(r.pretty_name) == non_empty(os_release_pretty_name(c@))
            },
        }),
{
    match content {
        None => OsRelease { id: None, id_like: Vec::new(), pretty_name: None },
        Some(c) => {
            let id = release_id(c);
            let id = if id.unicode_len() == 0 { None } else { Some(id) };
            let id_like = match release_id_like(c) {
                Some(v) => v,
                None => {
                    let v: Vec<String> = Vec::new();
                    assert(crate::text::strs(v@) =~= Seq::<Seq<char>>::empty());
                    v
                },
            };
            let pretty = release_pretty_name(c);
            let pretty = if pretty.unicode_len() == 0 { None } else { Some(pretty) };
            OsRelease { id, id_like, pretty_name: pretty }
        },
    }
}

} // verus!
