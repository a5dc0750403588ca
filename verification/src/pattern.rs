//! Regular expressions, through the `regex` crate.
//!
//! The crate's matching semantics are not restated: each call's result is named as a
//! function of the pattern and the text, and the functions of this crate that use a
//! pattern are specified over those names.
use vstd::prelude::*;

verus! {

/// What `regex::Regex::new(pattern)` followed by `is_match(text)` gives: `None` when
/// the pattern does not compile, otherwise whether it matches somewhere in `text`.
pub uninterp spec fn regex_match(pattern: Seq<char>, text: Seq<char>) -> Option<bool>;

/// What `regex::Regex::new(pattern)` followed by `captures(text)` gives: `None` when
/// the pattern does not compile; `Some(None)` when there is no match; otherwise the
/// capture groups of the leftmost-first match, group 0 first, `None` for a group that
/// did not take part.
pub uninterp spec fn regex_groups(pattern: Seq<char>, text: Seq<char>) -> Option<
    Option<Seq<Option<Seq<char>>>>,
>;

/// What `regex::Regex::new(pattern)` followed by `replace_all(text, replacement)`
/// gives: `None` when the pattern does not compile, otherwise the rewritten text.
pub uninterp spec fn regex_replaced(
    pattern: Seq<char>,
    text: Seq<char>,
    replacement: Seq<char>,
) -> Option<Seq<char>>;

/// `Regex::new` then `Regex::is_match`. Claims only that the answer is the named
/// function of the pattern and the text.
#[verifier::external_body]
pub(crate) fn regex_is_match(pattern: &str, text: &str) -> (r: Option<bool>)
    ensures
        r == regex_match(pattern@, text@),
{
    match regex::Regex::new(pattern) {
        Ok(re) => Some(re.is_match(text)),
        Err(_) => None,
    }
}

/// `Regex::new` then `Regex::captures`, each group copied out as an owned string.
/// Claims only that the result is the named function of the pattern and the text.
#[verifier::external_body]
pub(crate) fn regex_captures(pattern: &str, text: &str) -> (r: Option<Option<Vec<Option<String>>>>)
    ensures
        r.deep_view() == regex_groups(pattern@, text@),
{
    match regex::Regex::new(pattern) {
        Ok(re) => Some(
            re.captures(text).map(
                |caps| caps.iter().map(|m| m.map(|m| m.as_str().to_string())).collect(),
            ),
        ),
        Err(_) => None,
    }
}

/// `Regex::new` then `Regex::replace_all` with a literal replacement (`NoExpand`).
/// Claims that the result is the named function of its three arguments, and that it is
/// made of pieces of the text and copies of the replacement, so each of its characters
/// comes from one or the other.
#[verifier::external_body]
pub(crate) fn regex_replace_all(pattern: &str, text: &str, replacement: &str) -> (r: Option<String>)
    ensures
        r.deep_view() == regex_replaced(pattern@, text@, replacement@),
        r matches Some(o) ==> forall|i: int|
            0 <= i < o@.len() ==> text@.contains(#[trigger] o@[i]) || replacement@.contains(o@[i]),
{
    match regex::Regex::new(pattern) {
        Ok(re) => Some(re.replace_all(text, regex::NoExpand(replacement)).into_owned()),
        Err(_) => None,
    }
}

/// Group `i` of a capture result, when the pattern compiled, matched, and the group
/// took part in the match.
pub open spec fn group(g: Option<Option<Seq<Option<Seq<char>>>>>, i: int) -> Option<Seq<char>> {
    match g {
        Some(Some(v)) => if 0 <= i < v.len() {
            v[i]
        } else {
            None
        },
        _ => None,
    }
}

/// Executable counterpart of [`group`].
pub fn get_group(g: &Option<Option<Vec<Option<String>>>>, i: usize) -> (r: Option<String>)
    ensures
        r.deep_view() == group(g.deep_view(), i as int),
{
    match g {
        Some(Some(v)) => {
            if i < v.len() {
                match &v[i] {
                    Some(s) => Some(s.clone()),
                    None => None,
                }
            } else {
                None
            }
        },
        _ => None,
    }
}


#[verifier::external_type_specification]
#[verifier::external_body]
pub struct ExRegex(regex::Regex);

/// A regular expression compiled once, kept with the pattern it was compiled from, for
/// matching many texts.
pub struct CompiledPattern {
    pattern: String,
    re: regex::Regex,
}

/// The pattern slot of a matcher: a compiled pattern made from `pattern`, or nothing
/// when `pattern` does not compile.
pub open spec fn compiled_from(slot: Option<CompiledPattern>, pattern: Seq<char>) -> bool {
    match slot {
        Some(c) => c.source() == pattern,
        None => forall|t: Seq<char>|
            #![trigger regex_match(pattern, t)]
            #![trigger regex_groups(pattern, t)]
            regex_match(pattern, t) is None && regex_groups(pattern, t) is None,
    }
}

impl CompiledPattern {
    /// The pattern this was compiled from.
    pub closed spec fn source(&self) -> Seq<char> {
        self.pattern@
    }

    /// `regex::Regex::new`. Claims that the result keeps the pattern it was made from,
    /// and that a pattern that does not compile matches nothing under the names above.
    #[verifier::external_body]
    pub(crate) fn new(pattern: &str) -> (r: Option<CompiledPattern>)
        ensures
            compiled_from(r, pattern@),
    {
        match regex::Regex::new(pattern) {
            Ok(re) => Some(CompiledPattern { pattern: pattern.to_string(), re }),
            Err(_) => None,
        }
    }

    /// `Regex::is_match`, named as for [`regex_is_match`].
    #[verifier::external_body]
    pub(crate) fn is_match(&self, text: &str) -> (r: bool)
        ensures
            regex_match(self.source(), text@) == Some(r),
    {
        self.re.is_match(text)
    }

    /// `Regex::captures`, each group copied out, named as for [`regex_captures`].
    #[verifier::external_body]
    pub(crate) fn captures(&self, text: &str) -> (r: Option<Vec<Option<String>>>)
        ensures
            regex_groups(self.source(), text@) == Some(r.deep_view()),
    {
        self.re.captures(text).map(
            |caps| caps.iter().map(|m| m.map(|m| m.as_str().to_string())).collect(),
        )
    }
}

/// Whether the pattern in a slot matches `text` (no when it did not compile).
pub(crate) fn slot_matches(slot: &Option<CompiledPattern>, text: &str, Ghost(pattern): Ghost<Seq<char>>) -> (r: bool)
    requires
        compiled_from(*slot, pattern),
    ensures
        r == (regex_match(pattern, text@) == Some(true)),
{
    match slot {
        Some(c) => c.is_match(text),
        None => {
            assert(regex_match(pattern, text@) is None);
            false
        },
    }
}

/// The capture groups of the pattern in a slot, as [`regex_captures`] gives them.
pub(crate) fn slot_captures(slot: &Option<CompiledPattern>, text: &str, Ghost(pattern): Ghost<Seq<char>>) -> (r: Option<Option<Vec<Option<String>>>>)
    requires
        compiled_from(*slot, pattern),
    ensures
        r.deep_view() == regex_groups(pattern, text@),
{
    match slot {
        Some(c) => Some(c.captures(text)),
        None => {
            assert(regex_groups(pattern, text@) is None);
            None
        },
    }
}

} // verus!
