//! `odx i18n`: export translations per addon, as a `.pot` template or a `.po` file of
//! one locale.
use vstd::prelude::*;
use crate::text::{cat, debug_quoted, debug_str, owned, str_eq, strs};
use crate::utils::{call_of, Invocation};

verus! {

/// The source language of a template export.
pub const TEMPLATE_LANG: &'static str = "en_US";

/// The addons an export covers: all of the project's (there must be some), or the one
/// named, which must be one of them.
pub open spec fn targets_of(pairs: Seq<(Seq<char>, Seq<char>)>, module: Option<Seq<char>>) -> Result<Seq<(Seq<char>, Seq<char>)>, Seq<char>> {
    match module {
        None => if pairs.len() == 0 {
            Err("No addons found under custom_addons or external_addons."@)
        } else {
            Ok(pairs)
        },
        Some(name) => match first_named(pairs, name) {
            Some(i) => Ok(seq![pairs[i]]),
            None => Err("Unknown module "@ + debug_quoted(name)
                + ". It must exist under custom_addons or external_addons with __manifest__.py"@),
        },
    }
}

/// The index of the first addon with the given name.
pub open spec fn first_named(pairs: Seq<(Seq<char>, Seq<char>)>, name: Seq<char>) -> Option<int>
    decreases pairs.len(),
{
    if pairs.len() == 0 {
        None
    } else if pairs[0].0 == name {
        Some(0)
    } else {
        match first_named(pairs.drop_first(), name) {
            Some(i) => Some(i + 1),
            None => None,
        }
    }
}

pub open spec fn pair_views(v: Seq<(String, String)>) -> Seq<(Seq<char>, Seq<char>)> {
    v.map_values(|p: (String, String)| (p.0@, p.1@))
}

pub open spec fn targets_view(r: Result<Vec<(String, String)>, String>) -> Result<Seq<(Seq<char>, Seq<char>)>, Seq<char>> {
    match r {
        Ok(v) => Ok(pair_views(v@)),
        Err(e) => Err(e@),
    }
}

/// The addons to export from the project's addons (name and directory, in order).
pub fn resolve_targets(pairs: &Vec<(String, String)>, module: Option<&str>) -> (r: Result<Vec<(String, String)>, String>)
    ensures
        targets_view(r) == targets_of(pair_views(pairs@), crate::debug::opt_str_view(module)),
{
    let ghost pv = pair_views(pairs@);
    match module {
        None => {
            if pairs.len() == 0 {
                return Err(owned("No addons found under custom_addons or external_addons."));
            }
            let mut out: Vec<(String, String)> = Vec::new();
            let mut i: usize = 0;
            while i < pairs.len()
                invariant
                    i <= pairs@.len(),
                    pv == pair_views(pairs@),
                    pair_views(out@) == pv.take(i as int),
                decreases pairs.len() - i,
            {
                let ghost o0 = pair_views(out@);
                out.push((pairs[i].0.clone(), pairs[i].1.clone()));
                assert(pair_views(out@) =~= o0.push(pv[i as int]));
                assert(pv.take(i + 1) =~= pv.take(i as int).push(pv[i as int]));
                i = i + 1;
            }
            assert(pv.take(pv.len() as int) =~= pv);
            Ok(out)
        },
        Some(name) => {
            let mut i: usize = 0;
            assert(pv.skip(0) =~= pv);
            while i < pairs.len()
                invariant
                    i <= pairs@.len(),
                    pv == pair_views(pairs@),
                    crate::debug::opt_str_view(module) == Some(name@),
                    first_named(pv, name@) == match first_named(pv.skip(i as int), name@) {
                        Some(k) => Some(k + i),
                        None => None,
                    },
                decreases pairs.len() - i,
            {
                assert(pv.skip(i as int).drop_first() =~= pv.skip(i + 1));
                assert(pv.skip(i as int)[0] == pv[i as int]);
                if str_eq(pairs[i].0.as_str(), name) {
                    assert(first_named(pv.skip(i as int), name@) == Some(0int));
                    let v = vec![(pairs[i].0.clone(), pairs[i].1.clone())];
                    assert(pair_views(v@) =~= seq![pv[i as int]]);
                    return Ok(v);
                }
                i = i + 1;
            }
            let mut m = cat("Unknown module ", debug_str(name).as_str());
            m.append(". It must exist under custom_addons or external_addons with __manifest__.py");
            Err(m)
        },
    }
}

/// The file an addon's translations are exported to, and the language Odoo exports:
/// `<lang>.po` in that language, or `<module>.pot` from the template language.
pub open spec fn export_target(module: Seq<char>, lang: Option<Seq<char>>) -> (Seq<char>, Seq<char>) {
    match lang {
        Some(code) => (code + ".po"@, code),
        None => (module + ".pot"@, TEMPLATE_LANG@),
    }
}

pub fn export_file(module: &str, lang: Option<&str>) -> (r: (String, String))
    ensures
        (r.0@, r.1@) == export_target(module@, crate::debug::opt_str_view(lang)),
{
    match lang {
        Some(code) => (cat(code, ".po"), owned(code)),
        None => (cat(module, ".pot"), owned(TEMPLATE_LANG)),
    }
}

/// The arguments of `odoo-bin` that export one addon's translations.
pub open spec fn export_args(
    odoo_bin: Seq<char>,
    config: Seq<char>,
    addons_path: Seq<char>,
    database: Seq<char>,
    export_path: Seq<char>,
    module: Seq<char>,
    lang: Seq<char>,
) -> Seq<Seq<char>> {
    seq![
        odoo_bin, "-c"@, config, "--addons-path"@, addons_path, "-d"@, database, "--stop-after-init"@,
        "--i18n-export"@, export_path, "--modules"@, module, "--language"@, lang,
    ]
}

/// What `odx i18n` runs for one addon.
pub fn execute(
    python: &str,
    odoo_bin: &str,
    config: &str,
    addons_path: &str,
    database: &str,
    export_path: &str,
    module: &str,
    lang: &str,
) -> (r: Invocation)
    ensures
        call_of(r) == (python@, export_args(odoo_bin@, config@, addons_path@, database@, export_path@, module@, lang@)),
{
    let args = vec![
        owned(odoo_bin),
        owned("-c"),
        owned(config),
        owned("--addons-path"),
        owned(addons_path),
        owned("-d"),
        owned(database),
        owned("--stop-after-init"),
        owned("--i18n-export"),
        owned(export_path),
        owned("--modules"),
        owned(module),
        owned("--language"),
        owned(lang),
    ];
    assert(strs(args@) =~= export_args(odoo_bin@, config@, addons_path@, database@, export_path@, module@, lang@));
    Invocation { program: owned(python), args }
}

} // verus!
