//! `odx install`: fetch the project's Odoo into the store and install its Python
//! dependencies (and debugpy) into the project's environment.
use vstd::prelude::*;
use crate::odoo_source::{Origin, OdooSource};
use crate::text::{cat, cat3, owned, strs};
use crate::utils::{call_of, Invocation};

verus! {

/// The pip call that installs Odoo's requirements.
pub open spec fn pip_requirements_args(requirements: Seq<char>) -> Seq<Seq<char>> {
    seq!["-m"@, "pip"@, "install"@, "--upgrade"@, "-r"@, requirements]
}

/// The pip call that installs the debugger.
pub open spec fn pip_debugpy_args() -> Seq<Seq<char>> {
    seq!["-m"@, "pip"@, "install"@, "--upgrade"@, "debugpy"@]
}

/// What `odx install` runs to install the requirements file, when it exists.
pub fn execute(python: &str, requirements: &str, requirements_exist: bool) -> (r: Result<Invocation, String>)
    ensures
        requirements_exist <==> r is Ok,
        r matches Ok(i) ==> call_of(i) == (python@, pip_requirements_args(requirements@)),
        r matches Err(e) ==> e@ == "Requirements file not found: "@ + requirements@,
{
    if !requirements_exist {
        return Err(cat("Requirements file not found: ", requirements));
    }
    let args = vec![owned("-m"), owned("pip"), owned("install"), owned("--upgrade"), owned("-r"), owned(requirements)];
    assert(strs(args@) =~= pip_requirements_args(requirements@));
    Ok(Invocation { program: owned(python), args })
}

/// What `odx install` runs to install debugpy.
pub fn debugpy_install(python: &str) -> (r: Invocation)
    ensures
        call_of(r) == (python@, pip_debugpy_args()),
{
    let args = vec![owned("-m"), owned("pip"), owned("install"), owned("--upgrade"), owned("debugpy")];
    assert(strs(args@) =~= pip_debugpy_args());
    Invocation { program: owned(python), args }
}

/// Which Odoo the project uses, as `odx install` reports it.
pub fn source_summary(source: &OdooSource) -> (r: String)
    ensures
        r@ == "Odoo "@ + source.version@ + " from "@ + source.path@ + " ("@ + crate::odoo_source::origin_label(source.origin) + ")"@,
{
    let mut r = cat3("Odoo ", source.version.as_str(), " from ");
    r.append(source.path.as_str());
    r.append(" (");
    r.append(source.origin.label());
    r.append(")");
    r
}

/// The warning when debugpy could not be installed: the project works, only without a
/// debugger until it is.
pub fn debugpy_failed_warning(err: &str, python: &str) -> (r: String)
    ensures
        r@ == "Could not install debugpy ("@ + err@ + "). Odoo will start without a debugger; retry with: "@
            + python@ + " -m pip install debugpy"@,
{
    let mut r = cat3("Could not install debugpy (", err, "). Odoo will start without a debugger; retry with: ");
    r.append(python);
    r.append(" -m pip install debugpy");
    r
}

} // verus!
