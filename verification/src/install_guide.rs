//! System packages Odoo needs, per distribution family, and the install advice shown
//! by `odx doctor`.
use vstd::prelude::*;
use crate::os_context::{LinuxFamily, OsContext, PackageManager, Platform};
use crate::text::{join, no_ws, owned, split_whitespace, without_ws, words};

verus! {

#[derive(Debug, Clone, Copy, PartialEq, Eq, Structural)]
pub enum Requirement {
    BuildTools,
    PythonDev,
    PythonPip,
    LibPQDev,
    LibXML2Dev,
    LibXSLTDev,
    LibJPEGDev,
    ZlibDev,
    OpenSSLDev,
    LibFFIDev,
    LDAPDev,
    SASLDev,
}

pub open spec fn full_requirements() -> Seq<Requirement> {
    seq![
        Requirement::BuildTools,
        Requirement::PythonDev,
        Requirement::PythonPip,
        Requirement::LibPQDev,
        Requirement::LibXML2Dev,
        Requirement::LibXSLTDev,
        Requirement::LibJPEGDev,
        Requirement::ZlibDev,
        Requirement::OpenSSLDev,
        Requirement::LibFFIDev,
        Requirement::LDAPDev,
        Requirement::SASLDev,
    ]
}

/// Everything a full Odoo install needs, in install-command order.
pub fn odoo_full_requirements() -> (r: Vec<Requirement>)
    ensures
        r@ == full_requirements(),
{
    let mut v = Vec::new();
    v.push(Requirement::BuildTools);
    v.push(Requirement::PythonDev);
    v.push(Requirement::PythonPip);
    v.push(Requirement::LibPQDev);
    v.push(Requirement::LibXML2Dev);
    v.push(Requirement::LibXSLTDev);
    v.push(Requirement::LibJPEGDev);
    v.push(Requirement::ZlibDev);
    v.push(Requirement::OpenSSLDev);
    v.push(Requirement::LibFFIDev);
    v.push(Requirement::LDAPDev);
    v.push(Requirement::SASLDev);
    assert(v@ =~= full_requirements());
    v
}

/// The package (or space-separated packages) providing a requirement on a family;
/// `None` when the family is unknown.
pub open spec fn package_entry(family: LinuxFamily, r: Requirement) -> Option<Seq<char>> {
    match family {
        LinuxFamily::DebianLike => Some(
            match r {
                Requirement::BuildTools => "build-essential"@,
                Requirement::PythonDev => "python3-dev"@,
                Requirement::PythonPip => "python3-pip"@,
                Requirement::LibPQDev => "libpq-dev"@,
                Requirement::LibXML2Dev => "libxml2-dev"@,
                Requirement::LibXSLTDev => "libxslt1-dev"@,
                Requirement::LibJPEGDev => "libjpeg-dev"@,
                Requirement::ZlibDev => "zlib1g-dev"@,
                Requirement::OpenSSLDev => "libssl-dev"@,
                Requirement::LibFFIDev => "libffi-dev"@,
                Requirement::LDAPDev => "libldap2-dev"@,
                Requirement::SASLDev => "libsasl2-dev"@,
            },
        ),
        LinuxFamily::FedoraLike => Some(
            match r {
                Requirement::BuildTools => "gcc gcc-c++ make"@,
                Requirement::PythonDev => "python3-devel"@,
                Requirement::PythonPip => "python3-pip"@,
                Requirement::LibPQDev => "postgresql-devel"@,
                Requirement::LibXML2Dev => "libxml2-devel"@,
                Requirement::LibXSLTDev => "libxslt-devel"@,
                Requirement::LibJPEGDev => "libjpeg-turbo-devel"@,
                Requirement::ZlibDev => "zlib-devel"@,
                Requirement::OpenSSLDev => "openssl-devel"@,
                Requirement::LibFFIDev => "libffi-devel"@,
                Requirement::LDAPDev => "openldap-devel"@,
                Requirement::SASLDev => "cyrus-sasl-devel"@,
            },
        ),
        LinuxFamily::ArchLike => Some(
            match r {
                Requirement::BuildTools => "base-devel"@,
                Requirement::PythonDev => "python"@,
                Requirement::PythonPip => "python-pip"@,
                Requirement::LibPQDev => "postgresql"@,
                Requirement::LibXML2Dev => "libxml2"@,
                Requirement::LibXSLTDev => "libxslt"@,
                Requirement::LibJPEGDev => "libjpeg-turbo"@,
                Requirement::ZlibDev => "zlib"@,
                Requirement::OpenSSLDev => "openssl"@,
                Requirement::LibFFIDev => "libffi"@,
                Requirement::LDAPDev => "libldap"@,
                Requirement::SASLDev => "cyrus-sasl"@,
            },
        ),
        LinuxFamily::Unknown => None,
    }
}

fn package_entry_exec(family: LinuxFamily, r: Requirement) -> (s: Option<&'static str>)
    ensures
        match s {
            Some(x) => package_entry(family, r) == Some(x@),
            None => package_entry(family, r) is None,
        },
{
    match family {
        LinuxFamily::DebianLike => Some(
            match r {
                Requirement::BuildTools => "build-essential",
                Requirement::PythonDev => "python3-dev",
                Requirement::PythonPip => "python3-pip",
                Requirement::LibPQDev => "libpq-dev",
                Requirement::LibXML2Dev => "libxml2-dev",
                Requirement::LibXSLTDev => "libxslt1-dev",
                Requirement::LibJPEGDev => "libjpeg-dev",
                Requirement::ZlibDev => "zlib1g-dev",
                Requirement::OpenSSLDev => "libssl-dev",
                Requirement::LibFFIDev => "libffi-dev",
                Requirement::LDAPDev => "libldap2-dev",
                Requirement::SASLDev => "libsasl2-dev",
            },
        ),
        LinuxFamily::FedoraLike => Some(
            match r {
                // Explicit packages rather than a group install, for predictability.
                Requirement::BuildTools => "gcc gcc-c++ make",
                Requirement::PythonDev => "python3-devel",
                Requirement::PythonPip => "python3-pip",
                Requirement::LibPQDev => "postgresql-devel",
                Requirement::LibXML2Dev => "libxml2-devel",
                Requirement::LibXSLTDev => "libxslt-devel",
                Requirement::LibJPEGDev => "libjpeg-turbo-devel",
                Requirement::ZlibDev => "zlib-devel",
                Requirement::OpenSSLDev => "openssl-devel",
                Requirement::LibFFIDev => "libffi-devel",
                Requirement::LDAPDev => "openldap-devel",
                Requirement::SASLDev => "cyrus-sasl-devel",
            },
        ),
        LinuxFamily::ArchLike => Some(
            match r {
                Requirement::BuildTools => "base-devel",
                Requirement::PythonDev => "python",
                Requirement::PythonPip => "python-pip",
                Requirement::LibPQDev => "postgresql",
                Requirement::LibXML2Dev => "libxml2",
                Requirement::LibXSLTDev => "libxslt",
                Requirement::LibJPEGDev => "libjpeg-turbo",
                Requirement::ZlibDev => "zlib",
                Requirement::OpenSSLDev => "openssl",
                Requirement::LibFFIDev => "libffi",
                Requirement::LDAPDev => "libldap",
                Requirement::SASLDev => "cyrus-sasl",
            },
        ),
        LinuxFamily::Unknown => None,
    }
}

/// Package names for one requirement: dnf gets the entry split into words, the other
/// managers get it whole; an unknown family gets nothing.
pub open spec fn pkg_names(pm: PackageManager, family: LinuxFamily, r: Requirement) -> Seq<Seq<char>> {
    match package_entry(family, r) {
        None => Seq::empty(),
        Some(s) => if pm == PackageManager::Dnf {
            words(s)
        } else {
            seq![s]
        },
    }
}

/// With dnf each package is checked on its own: every name is a single word, never empty
/// and free of white space, and the names, in order, spell the requirement's entry without
/// its white space. The other managers get the entry whole; an unknown family gets nothing.
pub proof fn law_dnf_names_are_single_packages(pm: PackageManager, family: LinuxFamily, r: Requirement)
    ensures
        pm == PackageManager::Dnf ==> forall|i: int|
            0 <= i < pkg_names(pm, family, r).len() ==> (#[trigger] pkg_names(pm, family, r)[i]).len() > 0
                && no_ws(pkg_names(pm, family, r)[i]),
        pm == PackageManager::Dnf ==> (package_entry(family, r) matches Some(e) ==> pkg_names(
            pm,
            family,
            r,
        ).flatten() == without_ws(e)),
        pm != PackageManager::Dnf ==> (package_entry(family, r) matches Some(e) ==> pkg_names(pm, family, r)
            == seq![e]),
        package_entry(family, r) is None ==> pkg_names(pm, family, r).len() == 0,
{
    if let Some(e) = package_entry(family, r) {
        crate::text::law_words_are_plain(e);
    }
}

pub fn linux_pkg_names(pm: PackageManager, family: LinuxFamily, r: Requirement) -> (v: Vec<String>)
    ensures
        v@.map_values(|s: String| s@) == pkg_names(pm, family, r),
        pm == PackageManager::Dnf ==> forall|i: int| 0 <= i < v@.len() ==> (#[trigger] v@[i])@.len() > 0 && no_ws(v@[i]@),
{
    proof {
        law_dnf_names_are_single_packages(pm, family, r);
    }
    match package_entry_exec(family, r) {
        None => {
            let v: Vec<String> = Vec::new();
            assert(v@.map_values(|s: String| s@) =~= Seq::<Seq<char>>::empty());
            v
        },
        Some(s) => {
            if pm == PackageManager::Dnf {
                let v = split_whitespace(s);
                assert forall|i: int| 0 <= i < v@.len() implies (#[trigger] v@[i])@.len() > 0 && no_ws(v@[i]@) by {
                    assert(v@.map_values(|s: String| s@)[i] == v@[i]@);
                }
                v
            } else {
                let mut v: Vec<String> = Vec::new();
                v.push(owned(s));
                assert(v@.map_values(|s: String| s@) =~= seq![s@]);
                v
            }
        },
    }
}

/// Package names for a list of requirements, in order.
pub open spec fn packages_for(pm: PackageManager, family: LinuxFamily, reqs: Seq<Requirement>) -> Seq<Seq<char>>
    decreases reqs.len(),
{
    if reqs.len() == 0 {
        Seq::empty()
    } else {
        packages_for(pm, family, reqs.drop_last()) + pkg_names(pm, family, reqs.last())
    }
}

pub fn linux_packages_for(pm: PackageManager, family: LinuxFamily, reqs: &[Requirement]) -> (v: Vec<String>)
    ensures
        v@.map_values(|s: String| s@) == packages_for(pm, family, reqs@),
{
    let mut out: Vec<String> = Vec::new();
    let mut i: usize = 0;
    while i < reqs.len()
        invariant
            i <= reqs@.len(),
            out@.map_values(|s: String| s@) == packages_for(pm, family, reqs@.take(i as int)),
        decreases reqs.len() - i,
    {
        let mut names = linux_pkg_names(pm, family, reqs[i]);
        let ghost before = out@;
        let ghost add = names@;
        out.append(&mut names);
        assert(reqs@.take(i + 1).drop_last() =~= reqs@.take(i as int));
        assert(out@ =~= before + add);
        assert(out@.map_values(|s: String| s@) =~= before.map_values(|s: String| s@) + add.map_values(
            |s: String| s@,
        ));
        i = i + 1;
    }
    assert(reqs@.take(reqs@.len() as int) =~= reqs@);
    out
}

/// Install advice for one system.
pub struct InstallGuide {
    pub detected: String,
    pub command: Option<String>,
    pub notes: Vec<String>,
}

pub open spec fn notes_of(g: &InstallGuide) -> Seq<Seq<char>> {
    g.notes@.map_values(|s: String| s@)
}

pub open spec fn opt_view(o: Option<String>) -> Option<Seq<char>> {
    match o {
        Some(s) => Some(s@),
        None => None,
    }
}

/// The install command for a package manager, over the package list.
pub open spec fn linux_command(pm: PackageManager, pkgs: Seq<Seq<char>>) -> Option<Seq<char>> {
    match pm {
        PackageManager::AptGet => Some(
            "sudo apt-get update && sudo apt-get install -y "@ + join(pkgs, " "@),
        ),
        PackageManager::Dnf => Some("sudo dnf install -y "@ + join(pkgs, " "@)),
        PackageManager::Pacman => Some("sudo pacman -S --needed "@ + join(pkgs, " "@)),
        _ => None,
    }
}

pub open spec fn unknown_platform_note() -> Seq<char> {
    "Could not detect OS family. Install build tools, Python dev headers and common libraries (libxml2, libxslt, libjpeg, zlib, openssl, libffi, libpq) using your system package manager."@
}

pub open spec fn linux_notes(family: LinuxFamily, has_command: bool) -> Seq<Seq<char>> {
    let base = seq![
        "Package names may vary slightly by distro/version."@,
        "After system deps: run `odx install` to install Python requirements into the project venv."@,
    ];
    let with_family = if family == LinuxFamily::Unknown {
        base.push("Could not determine Linux family from os-release; command may be incomplete."@)
    } else {
        base
    };
    if !has_command {
        with_family.push("Could not detect a supported package manager (apt-get/dnf/pacman)."@)
    } else {
        with_family
    }
}

pub open spec fn windows_notes(has_winget: bool) -> Seq<Seq<char>> {
    seq![
        "Recommended for Odoo development: install WSL2 (Ubuntu/Debian/Fedora) and run odx inside WSL."@,
        "Native Windows support is best-effort; many Python wheels build more reliably on Linux."@,
        if has_winget {
            "If you need to compile Python packages: install Visual Studio Build Tools (C++ workload)."@
        } else {
            "winget not found. Install Git and Python manually, or use WSL2."@
        },
    ]
}

pub open spec fn family_or_unknown(f: Option<LinuxFamily>) -> LinuxFamily {
    match f {
        Some(x) => x,
        None => LinuxFamily::Unknown,
    }
}

fn push_str(v: &mut Vec<String>, s: &str)
    ensures
        final(v)@.map_values(|x: String| x@) == old(v)@.map_values(|x: String| x@).push(s@),
{
    let ghost before = v@;
    v.push(owned(s));
    assert(v@.map_values(|x: String| x@) =~= before.map_values(|x: String| x@).push(s@));
}

fn linux_guide(ctx: &OsContext) -> (g: InstallGuide)
    requires
        ctx.platform == Platform::Linux,
    ensures
        g.detected@ == (match ctx.pretty_name {
            Some(p) => p@,
            None => match ctx.os_release_id {
                Some(i) => i@,
                None => "Linux"@,
            },
        }),
        opt_view(g.command) == linux_command(
            ctx.package_manager,
            packages_for(ctx.package_manager, family_or_unknown(ctx.linux_family), full_requirements()),
        ),
        notes_of(&g) == linux_notes(family_or_unknown(ctx.linux_family), g.command is Some),
{
    let detected = match &ctx.pretty_name {
        Some(p) => p.clone(),
        None => match &ctx.os_release_id {
            Some(i) => i.clone(),
            None => String::from_str("Linux"),
        },
    };
    let family = match ctx.linux_family {
        Some(f) => f,
        None => LinuxFamily::Unknown,
    };
    let reqs = odoo_full_requirements();
    let pkgs = linux_packages_for(ctx.package_manager, family, reqs.as_slice());
    let joined = crate::text::join_strings(&pkgs, " ");
    let command = match ctx.package_manager {
        PackageManager::AptGet => {
            let mut c = owned("sudo apt-get update && sudo apt-get install -y ");
            c.append(joined.as_str());
            Some(c)
        },
        PackageManager::Dnf => {
            let mut c = owned("sudo dnf install -y ");
            c.append(joined.as_str());
            Some(c)
        },
        PackageManager::Pacman => {
            let mut c = owned("sudo pacman -S --needed ");
            c.append(joined.as_str());
            Some(c)
        },
        _ => None,
    };
    let mut notes: Vec<String> = Vec::new();
    push_str(&mut notes, "Package names may vary slightly by distro/version.");
    push_str(
        &mut notes,
        "After system deps: run `odx install` to install Python requirements into the project venv.",
    );
    if family == LinuxFamily::Unknown {
        push_str(
            &mut notes,
            "Could not determine Linux family from os-release; command may be incomplete.",
        );
    }
    if command.is_none() {
        push_str(&mut notes, "Could not detect a supported package manager (apt-get/dnf/pacman).");
    }
    InstallGuide { detected, command, notes }
}

fn windows_guide(ctx: &OsContext) -> (g: InstallGuide)
    ensures
        g.detected@ == (match ctx.pretty_name {
            Some(p) => p@,
            None => "Windows"@,
        }),
        ctx.package_manager == PackageManager::Winget ==> opt_view(g.command) == Some(
            "winget install -e --id Git.Git && winget install -e --id Python.Python.3.11"@,
        ),
        ctx.package_manager != PackageManager::Winget ==> g.command is None,
        notes_of(&g) == windows_notes(ctx.package_manager == PackageManager::Winget),
{
    let detected = match &ctx.pretty_name {
        Some(p) => p.clone(),
        None => String::from_str("Windows"),
    };
    let mut notes: Vec<String> = Vec::new();
    push_str(
        &mut notes,
        "Recommended for Odoo development: install WSL2 (Ubuntu/Debian/Fedora) and run odx inside WSL.",
    );
    push_str(
        &mut notes,
        "Native Windows support is best-effort; many Python wheels build more reliably on Linux.",
    );
    let command = match ctx.package_manager {
        PackageManager::Winget => {
            push_str(
                &mut notes,
                "If you need to compile Python packages: install Visual Studio Build Tools (C++ workload).",
            );
            Some(
                String::from_str(
                    "winget install -e --id Git.Git && winget install -e --id Python.Python.3.11",
                ),
            )
        },
        _ => {
            push_str(&mut notes, "winget not found. Install Git and Python manually, or use WSL2.");
            None
        },
    };
    InstallGuide { detected, command, notes }
}

/// Install advice for the detected system.
pub fn build_install_guide(ctx: &OsContext) -> (g: InstallGuide)
    ensures
        ctx.platform == Platform::Linux ==> opt_view(g.command) == linux_command(
            ctx.package_manager,
            packages_for(ctx.package_manager, family_or_unknown(ctx.linux_family), full_requirements()),
        ) && notes_of(&g) == linux_notes(family_or_unknown(ctx.linux_family), g.command is Some)
            && g.detected@ == (match ctx.pretty_name {
            Some(p) => p@,
            None => match ctx.os_release_id {
                Some(i) => i@,
                None => "Linux"@,
            },
        }),
        ctx.platform == Platform::Windows ==> notes_of(&g) == windows_notes(
            ctx.package_manager == PackageManager::Winget,
        ) && g.detected@ == (match ctx.pretty_name {
            Some(p) => p@,
            None => "Windows"@,
        }) && (ctx.package_manager == PackageManager::Winget ==> opt_view(g.command) == Some(
            "winget install -e --id Git.Git && winget install -e --id Python.Python.3.11"@,
        )) && (ctx.package_manager != PackageManager::Winget ==> g.command is None),
        ctx.platform == Platform::Unknown ==> g.detected@ == "Unknown"@ && g.command is None
            && notes_of(&g) == seq![unknown_platform_note()],
{
    match ctx.platform {
        Platform::Linux => linux_guide(ctx),
        Platform::Windows => windows_guide(ctx),
        Platform::Unknown => {
            let mut notes: Vec<String> = Vec::new();
            push_str(
                &mut notes,
                "Could not detect OS family. Install build tools, Python dev headers and common libraries (libxml2, libxslt, libjpeg, zlib, openssl, libffi, libpq) using your system package manager.",
            );
            assert(notes@.map_values(|x: String| x@) =~= seq![unknown_platform_note()]);
            InstallGuide { detected: String::from_str("Unknown"), command: None, notes }
        },
    }
}

/// An unknown Linux family gets no packages, whatever the package manager.
pub proof fn law_unknown_family_has_no_packages(pm: PackageManager, reqs: Seq<Requirement>)
    ensures
        packages_for(pm, LinuxFamily::Unknown, reqs) == Seq::<Seq<char>>::empty(),
    decreases reqs.len(),
{
    if reqs.len() > 0 {
        law_unknown_family_has_no_packages(pm, reqs.drop_last());
    }
}

/// Without a supported package manager the guide has no command, and says so in its
/// last note.
pub proof fn law_no_command_is_explained(family: LinuxFamily, pkgs: Seq<Seq<char>>, pm: PackageManager)
    requires
        pm == PackageManager::Winget || pm == PackageManager::Unknown,
    ensures
        linux_command(pm, pkgs) is None,
        linux_notes(family, false).last()
            == "Could not detect a supported package manager (apt-get/dnf/pacman)."@,
{
}

} // verus!
