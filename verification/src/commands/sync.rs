//! `odx sync`: pull the latest upstream commit of the project's Odoo.
use vstd::prelude::*;
use crate::odoo_source::{OdooSource, Origin};
use crate::text::{cat, cat3, owned};

verus! {

/// Pulling needs a git repository.
pub fn execute(source_path: &str, is_git_repo: bool) -> (r: Result<(), String>)
    ensures
        is_git_repo <==> r is Ok,
        r matches Err(e) ==> e@ == source_path@ + " is not a git repository, so there is nothing to pull."@,
{
    if !is_git_repo {
        return Err(cat(source_path, " is not a git repository, so there is nothing to pull."));
    }
    Ok(())
}

/// The warning before pulling a checkout of the shared store: every project on that
/// version sees the update. None for other sources.
pub fn store_update_warning(source: &OdooSource) -> (r: Option<String>)
    ensures
        (source.origin == Origin::Store) <==> r is Some,
        r matches Some(w) ==> w@ == "Updating the shared Odoo "@ + source.version@ + " in "@ + source.path@
            + " — every project on this version sees it."@,
{
    match source.origin {
        Origin::Store => {
            let mut w = cat3("Updating the shared Odoo ", source.version.as_str(), " in ");
            w.append(source.path.as_str());
            w.append(" — every project on this version sees it.");
            Some(w)
        },
        _ => None,
    }
}

} // verus!
