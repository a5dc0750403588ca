//! `odx store`: the shared Odoo checkouts that projects point at.
use vstd::prelude::*;
use crate::odoo_source::opt_str;
use crate::paths::path_join;
use crate::text::{cat, cat3, owned, push_char};

verus! {

#[derive(Debug)]
pub enum StoreCommands {
    /// List the Odoo versions in the shared store
    Ls,
    /// Print the store path (or the path of one version)
    Path { version: Option<String> },
    /// Fetch a version into the store (no-op when it is already there)
    Add { version: String },
    /// Delete a version from the store
    Rm { version: String },
}

/// `s` followed by spaces up to `width` characters (`{:<width}`).
pub open spec fn padded_right(s: Seq<char>, width: nat) -> Seq<char> {
    if s.len() >= width {
        s
    } else {
        s + Seq::new((width - s.len()) as nat, |i: int| ' ')
    }
}

/// Spaces up to `width` characters, then `s` (`{:>width}`).
pub open spec fn padded_left(s: Seq<char>, width: nat) -> Seq<char> {
    if s.len() >= width {
        s
    } else {
        Seq::new((width - s.len()) as nat, |i: int| ' ') + s
    }
}

fn spaces(n: usize) -> (r: String)
    ensures
        r@ == Seq::new(n as nat, |i: int| ' '),
{
    let mut r = String::new();
    let mut k: usize = 0;
    while k < n
        invariant
            k <= n,
            r@ == Seq::new(k as nat, |i: int| ' '),
        decreases n - k,
    {
        push_char(&mut r, ' ');
        assert(r@ =~= Seq::new((k + 1) as nat, |i: int| ' '));
        k = k + 1;
    }
    r
}

pub fn pad_right(s: &str, width: usize) -> (r: String)
    ensures
        r@ == padded_right(s@, width as nat),
{
    let n = s.unicode_len();
    if n >= width {
        owned(s)
    } else {
        cat(s, spaces(width - n).as_str())
    }
}

pub fn pad_left(s: &str, width: usize) -> (r: String)
    ensures
        r@ == padded_left(s@, width as nat),
{
    let n = s.unicode_len();
    if n >= width {
        owned(s)
    } else {
        cat(spaces(width - n).as_str(), s)
    }
}

/// One line of `odx store ls`: the version, its size and its directory.
pub open spec fn store_line_text(version: Seq<char>, size: Seq<char>, path: Seq<char>) -> Seq<char> {
    "  "@ + padded_right(version, 8) + " "@ + padded_left(size, 8) + "  "@ + path
}

pub fn store_line(version: &str, size: &str, path: &str) -> (r: String)
    ensures
        r@ == store_line_text(version@, size@, path@),
{
    let mut r = cat("  ", pad_right(version, 8).as_str());
    r.append(" ");
    r.append(pad_left(size, 8).as_str());
    r.append("  ");
    r.append(path);
    r
}

/// What `odx store ls` says when the store is empty.
pub fn empty_store_message(store_root: &str) -> (r: String)
    ensures
        r@ == "No Odoo versions in the store yet ("@ + store_root@ + ")"@,
{
    cat3("No Odoo versions in the store yet (", store_root, ")")
}

/// The heading of `odx store ls`.
pub fn store_heading(store_root: &str) -> (r: String)
    ensures
        r@ == "Odoo store: "@ + store_root@,
{
    cat("Odoo store: ", store_root)
}

/// What `odx store path` prints: the directory of the version given; without one, the
/// Odoo source of the current project when there is one, else the store itself.
pub open spec fn printed_path(version: Option<Seq<char>>, project_source: Option<Seq<char>>, store_root: Seq<char>) -> Seq<char> {
    match version {
        Some(v) => path_join(store_root, v),
        None => match project_source {
            Some(p) => p,
            None => store_root,
        },
    }
}

pub fn path(version: Option<String>, project_source: Option<String>, store_root: &str) -> (r: String)
    ensures
        r@ == printed_path(opt_str(version), opt_str(project_source), store_root@),
{
    match version {
        Some(v) => crate::odoo_source::store_path_for(store_root, v.as_str()),
        None => match project_source {
            Some(p) => p,
            None => owned(store_root),
        },
    }
}

/// What `odx store rm` reports.
pub fn removed_message(path: &str) -> (r: String)
    ensures
        r@ == "Removed "@ + path@,
{
    cat("Removed ", path)
}

} // verus!
