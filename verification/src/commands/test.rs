//! `odx test`: test selectors, per-run log names, and reading unittest output.
use vstd::prelude::*;
use crate::pattern::{
    compiled_from, get_group, group, regex_captures, regex_groups, regex_is_match, regex_match,
    regex_replace_all, regex_replaced, slot_captures, slot_matches, CompiledPattern,
};
use crate::order::{insert_sorted, lemma_lex_irrefl, strictly_sorted};
use crate::paths::{absolute, is_absolute, path_join};
use crate::text::{
    lowercase, to_lower, cat, cat3, copy_strings, decimal, decimal_string, extend_strings, lines, lines_of,
    chars_of, contains, contains_str, ends_with, find_char, first_index, join, join_strings, owned,
    pad3, pad3_string, parse_u32, parse_u32_chars, parse_u32_str, seq_eq, slice_chars, split_char,
    parse_u64, parse_u64_str, split_chars, starts_with, starts_with_str, str_eq, string_of, strs, trim, trim_chars, trim_str,
};

verus! {

/// Selector used when none is given.
pub const DEFAULT_SPEC: &'static str = "+standard";

// ---------------------------------------------------------------------------
// Selectors
// ---------------------------------------------------------------------------

/// The given specs, trimmed, without blank ones.
pub open spec fn nonblank_specs(raw: Seq<Seq<char>>) -> Seq<Seq<char>>
    decreases raw.len(),
{
    if raw.len() == 0 {
        Seq::empty()
    } else {
        let rest = nonblank_specs(raw.drop_last());
        if trim(raw.last()).len() > 0 {
            rest.push(trim(raw.last()))
        } else {
            rest
        }
    }
}

/// The `--test-tags` specs to run: the non-blank given ones, trimmed, or `+standard`.
pub open spec fn normalized_specs(raw: Seq<Seq<char>>) -> Seq<Seq<char>> {
    if nonblank_specs(raw).len() == 0 {
        seq![DEFAULT_SPEC@]
    } else {
        nonblank_specs(raw)
    }
}

pub fn normalize_specs(raw: &[String]) -> (r: Vec<String>)
    ensures
        strs(r@) == normalized_specs(strs(raw@)),
{
    let ghost rv = strs(raw@);
    let mut out: Vec<String> = Vec::new();
    let mut i: usize = 0;
    while i < raw.len()
        invariant
            i <= raw@.len(),
            rv == strs(raw@),
            strs(out@) == nonblank_specs(rv.take(i as int)),
        decreases raw.len() - i,
    {
        assert(rv.take(i + 1).drop_last() =~= rv.take(i as int));
        assert(rv.take(i + 1).last() == raw@[i as int]@);
        let s = trim_str(raw[i].as_str());
        if s.unicode_len() > 0 {
            let ghost before = out@;
            out.push(s);
            assert(strs(out@) =~= strs(before).push(trim(raw@[i as int]@)));
        }
        i = i + 1;
    }
    assert(rv.take(raw@.len() as int) =~= rv);
    if out.len() == 0 {
        out.push(String::from_str(DEFAULT_SPEC));
        assert(strs(out@) =~= seq![DEFAULT_SPEC@]);
    }
    out
}

/// Whatever specs are given, at least one is run, and none of them is blank.
pub proof fn law_specs_never_empty(raw: Seq<Seq<char>>)
    ensures
        normalized_specs(raw).len() >= 1,
        forall|i: int| 0 <= i < nonblank_specs(raw).len() ==> trim(#[trigger] nonblank_specs(raw)[i]).len() > 0 || nonblank_specs(raw)[i].len() > 0,
    decreases raw.len(),
{
    if raw.len() > 0 {
        law_specs_never_empty(raw.drop_last());
        let rest = nonblank_specs(raw.drop_last());
        if trim(raw.last()).len() > 0 {
            assert forall|i: int| 0 <= i < nonblank_specs(raw).len() implies trim(#[trigger] nonblank_specs(raw)[i]).len() > 0 || nonblank_specs(raw)[i].len() > 0 by {
                if i < rest.len() {
                    assert(nonblank_specs(raw)[i] == rest[i]);
                }
            }
        }
    }
}

// ---------------------------------------------------------------------------
// Per-run log file names
// ---------------------------------------------------------------------------

pub open spec fn is_ascii_alnum(c: char) -> bool {
    ('a' <= c && c <= 'z') || ('A' <= c && c <= 'Z') || ('0' <= c && c <= '9')
}

/// Every character that is not an ASCII letter or digit becomes `'_'`.
pub open spec fn underscored(s: Seq<char>) -> Seq<char> {
    s.map_values(|c: char| if is_ascii_alnum(c) { c } else { '_' })
}

/// Runs of underscores collapse to one.
pub const UNDERSCORE_RUN_PATTERN: &'static str = "_+";

/// `trim_matches('_')`.
pub open spec fn trim_underscores(s: Seq<char>) -> Seq<char>
    decreases s.len(),
{
    if s.len() > 0 && s[0] == '_' {
        trim_underscores(s.drop_first())
    } else if s.len() > 0 && s.last() == '_' {
        trim_underscores(s.drop_last())
    } else {
        s
    }
}

/// The name body: sanitized, collapsed, trimmed, at most 80 characters, or
/// `selector` when nothing is left.
pub open spec fn selector_body(selector: Seq<char>) -> Seq<char> {
    let u = underscored(selector);
    let collapsed = match regex_replaced(UNDERSCORE_RUN_PATTERN@, u, "_"@) {
        Some(c) => c,
        None => u,
    };
    let t = trim_underscores(collapsed);
    if t.len() == 0 {
        "selector"@
    } else if t.len() > 80 {
        t.take(80)
    } else {
        t
    }
}

/// `{index:03}__{body}.log`.
pub open spec fn selector_filename(index: nat, selector: Seq<char>) -> Seq<char> {
    pad3(index) + "__"@ + selector_body(selector) + ".log"@
}

fn underscored_exec(s: &[char]) -> (r: Vec<char>)
    ensures
        r@ == underscored(s@),
{
    let mut r: Vec<char> = Vec::new();
    let mut i: usize = 0;
    while i < s.len()
        invariant
            i <= s@.len(),
            r@ == underscored(s@.take(i as int)),
        decreases s.len() - i,
    {
        let c = s[i];
        let ok = ('a' <= c && c <= 'z') || ('A' <= c && c <= 'Z') || ('0' <= c && c <= '9');
        r.push(if ok { c } else { '_' });
        assert(underscored(s@.take(i + 1)) =~= underscored(s@.take(i as int)).push(
            if is_ascii_alnum(c) { c } else { '_' },
        ));
        i = i + 1;
    }
    assert(s@.take(s@.len() as int) =~= s@);
    r
}

proof fn lemma_trim_underscores_range(s: Seq<char>, a: int, b: int)
    requires
        0 <= a <= b <= s.len(),
        forall|j: int| 0 <= j < a ==> s[j] == '_',
        forall|j: int| b <= j < s.len() ==> s[j] == '_',
        a == b || (s[a] != '_' && s[b - 1] != '_'),
    ensures
        trim_underscores(s) == s.subrange(a, b),
    decreases s.len(),
{
    if s.len() > 0 && s[0] == '_' {
        if a > 0 {
            lemma_trim_underscores_range(s.drop_first(), a - 1, b - 1);
            assert(s.drop_first().subrange(a - 1, b - 1) =~= s.subrange(a, b));
        } else {
            // a == 0 == b: all underscores
            assert(b == 0);
            lemma_trim_underscores_range(s.drop_first(), 0, 0);
            assert(s.drop_first().subrange(0, 0) =~= s.subrange(0, 0));
        }
    } else if s.len() > 0 && s.last() == '_' {
        if b < s.len() {
            lemma_trim_underscores_range(s.drop_last(), a, b);
            assert(s.drop_last().subrange(a, b) =~= s.subrange(a, b));
        } else {
            assert(a == b);
            assert(s[0] != '_' || s.len() == 0);
            if a == b && b == s.len() {
                // a == s.len() means all of s is underscores, contradicting s[0] != '_'
                assert(s[0] == '_');
            }
        }
    } else {
        if a > 0 {
            assert(s[0] == '_');
        }
        if b < s.len() {
            assert(s[s.len() - 1] == '_');
        }
        assert(s.subrange(a, b) =~= s);
    }
}

fn trim_underscores_exec(s: &[char]) -> (r: Vec<char>)
    ensures
        r@ == trim_underscores(s@),
{
    let mut a: usize = 0;
    while a < s.len() && s[a] == '_'
        invariant
            a <= s@.len(),
            forall|j: int| 0 <= j < a ==> s@[j] == '_',
        decreases s.len() - a,
    {
        a = a + 1;
    }
    let mut b: usize = s.len();
    while b > a && s[b - 1] == '_'
        invariant
            a <= b <= s@.len(),
            forall|j: int| b <= j < s@.len() ==> s@[j] == '_',
        decreases b,
    {
        b = b - 1;
    }
    proof {
        lemma_trim_underscores_range(s@, a as int, b as int);
    }
    slice_chars(s, a, b)
}

/// The log file name of the `index`-th run of `selector`; its body keeps only ASCII
/// letters, digits and underscores, so no path separator or other special character
/// survives.
pub fn sanitize_selector_filename(index: usize, selector: &str) -> (r: String)
    ensures
        r@ == selector_filename(index as nat, selector@),
        forall|i: int|
            0 <= i < selector_body(selector@).len() ==> name_char(#[trigger] selector_body(selector@)[i]),
{
    let chars = chars_of(selector);
    let u = underscored_exec(&chars);
    let us = string_of(&u);
    proof {
        reveal_strlit("_");
    }
    let collapsed = match regex_replace_all(UNDERSCORE_RUN_PATTERN, us.as_str(), "_") {
        Some(c) => {
            let v = chars_of(c.as_str());
            assert forall|i: int| 0 <= i < v@.len() implies name_char(#[trigger] v@[i]) by {
                if us@.contains(v@[i]) {
                    let k = choose|k: int| 0 <= k < us@.len() && us@[k] == v@[i];
                    assert(us@[k] == u@[k]);
                }
            }
            v
        },
        None => {
            assert forall|i: int| 0 <= i < u@.len() implies name_char(#[trigger] u@[i]) by {}
            u
        },
    };
    proof {
        lemma_body_is_safe(selector@, collapsed@);
    }
    let t = trim_underscores_exec(&collapsed);
    let body: Vec<char> = if t.len() == 0 {
        chars_of("selector")
    } else if t.len() > 80 {
        slice_chars(&t, 0, 80)
    } else {
        t
    };
    let mut name = pad3_string(index as u64);
    name.append("__");
    let b = string_of(&body);
    name.append(b.as_str());
    name.append(".log");
    name
}

pub open spec fn name_char(c: char) -> bool {
    is_ascii_alnum(c) || c == '_'
}

proof fn lemma_trim_underscores_sub(s: Seq<char>)
    ensures
        forall|i: int| 0 <= i < trim_underscores(s).len() ==> s.contains(#[trigger] trim_underscores(s)[i]),
    decreases s.len(),
{
    if s.len() > 0 && s[0] == '_' {
        lemma_trim_underscores_sub(s.drop_first());
        assert forall|i: int| 0 <= i < trim_underscores(s).len() implies s.contains(#[trigger] trim_underscores(s)[i]) by {
            let x = trim_underscores(s)[i];
            assert(trim_underscores(s) == trim_underscores(s.drop_first()));
            assert(trim_underscores(s.drop_first())[i] == x);
            assert(s.drop_first().contains(x));
            let k = choose|k: int| 0 <= k < s.drop_first().len() && s.drop_first()[k] == x;
            assert(s[k + 1] == x);
        }
    } else if s.len() > 0 && s.last() == '_' {
        lemma_trim_underscores_sub(s.drop_last());
        assert forall|i: int| 0 <= i < trim_underscores(s).len() implies s.contains(#[trigger] trim_underscores(s)[i]) by {
            let x = trim_underscores(s)[i];
            assert(trim_underscores(s) == trim_underscores(s.drop_last()));
            assert(trim_underscores(s.drop_last())[i] == x);
            assert(s.drop_last().contains(x));
            let k = choose|k: int| 0 <= k < s.drop_last().len() && s.drop_last()[k] == x;
            assert(s[k] == x);
        }
    } else {
        assert forall|i: int| 0 <= i < trim_underscores(s).len() implies s.contains(#[trigger] trim_underscores(s)[i]) by {
            assert(s[i] == trim_underscores(s)[i]);
        }
    }
}

/// A run's log name is `NNN__<body>.log`: the zero-padded index, two underscores, the
/// body, and the `.log` extension.
pub proof fn law_selector_filename_shape(index: nat, selector: Seq<char>)
    ensures
        starts_with(selector_filename(index, selector), pad3(index) + "__"@),
        ends_with(selector_filename(index, selector), ".log"@),
{
    let name = selector_filename(index, selector);
    let head = pad3(index) + "__"@;
    let body = selector_body(selector);
    assert(name =~= head + (body + ".log"@));
    assert(name.take(head.len() as int) =~= head);
    assert(name.skip(name.len() - ".log"@.len()) =~= ".log"@);
}

proof fn lemma_body_is_safe(selector: Seq<char>, collapsed: Seq<char>)
    requires
        collapsed == (match regex_replaced(UNDERSCORE_RUN_PATTERN@, underscored(selector), "_"@) {
            Some(c) => c,
            None => underscored(selector),
        }),
        forall|i: int| 0 <= i < collapsed.len() ==> name_char(#[trigger] collapsed[i]),
    ensures
        forall|i: int| 0 <= i < selector_body(selector).len() ==> name_char(#[trigger] selector_body(selector)[i]),
{
    let body = selector_body(selector);
    lemma_trim_underscores_sub(collapsed);
    let t = trim_underscores(collapsed);
    reveal_strlit("selector");
    assert forall|i: int| 0 <= i < body.len() implies name_char(#[trigger] body[i]) by {
        if t.len() == 0 {
        } else {
            assert(body[i] == t[i]);
            assert(collapsed.contains(t[i]));
            let k = choose|k: int| 0 <= k < collapsed.len() && collapsed[k] == t[i];
            assert(name_char(collapsed[k]));
        }
    }
}


// ---------------------------------------------------------------------------
// Reading the output of a test run
// ---------------------------------------------------------------------------

/// A Python warning category named as a whole word.
pub const WARNING_PATTERN: &'static str = "\\b(DeprecationWarning|PendingDeprecationWarning|FutureWarning|UserWarning|RuntimeWarning|ResourceWarning|SyntaxWarning|ImportWarning)\\b";

/// unittest's `Ran N tests in ...` line; group 1 is the count.
pub const RAN_PATTERN: &'static str = "^Ran\\s+(\\d+)\\s+tests?\\s+in\\s+";

/// unittest's `FAILED (failures=1, errors=2)` line; group 1 is what the brackets hold.
pub const FAILED_PATTERN: &'static str = "^FAILED\\s*\\((.+)\\)\\s*$";

/// The first line of a failure report.
pub const FAIL_BLOCK_PATTERN: &'static str = "^(FAIL|ERROR):";

/// unittest's separator line, ten dashes or more.
pub const SEPARATOR_PATTERN: &'static str = "^-{10,}$";

/// At most this many failure reports are kept per run.
pub const MAX_FAILURE_BLOCKS: usize = 20;

/// At most this many lines are kept of one failure report.
pub const MAX_BLOCK_LINES: usize = 100;

/// `pattern` compiles and matches somewhere in `text`.
pub open spec fn found(pattern: Seq<char>, text: Seq<char>) -> bool {
    regex_match(pattern, text) == Some(true)
}

/// What the parser has read so far, as plain values.
pub struct ParserModel {
    pub warnings: Seq<Seq<char>>,
    pub failure_blocks: Seq<Seq<char>>,
    pub ran_tests: Option<u32>,
    pub failed: bool,
    pub skipped: Option<u32>,
    pub failures: Option<u32>,
    pub errors: Option<u32>,
    pub in_failure_block: bool,
    pub current_block: Option<Seq<Seq<char>>>,
}

/// Reads unittest output line by line: warnings, failure reports, and the counts of
/// the final summary.
pub struct OutputParser {
    pub warnings: Vec<String>,
    pub failure_blocks: Vec<String>,
    pub ran_tests: Option<u32>,
    pub failed: bool,
    pub skipped: Option<u32>,
    pub failures: Option<u32>,
    pub errors: Option<u32>,
    pub in_failure_block: bool,
    pub current_block: Option<Vec<String>>,
    /// The patterns, compiled once.
    pub patterns: ParserPatterns,
}

/// The patterns a parser matches lines against, compiled once.
pub struct ParserPatterns {
    warning_re: Option<CompiledPattern>,
    ran_re: Option<CompiledPattern>,
    failed_re: Option<CompiledPattern>,
    fail_block_re: Option<CompiledPattern>,
    separator_re: Option<CompiledPattern>,
}

impl ParserPatterns {
    /// Each slot holds the pattern it is named after.
    pub closed spec fn ok(&self) -> bool {
        &&& compiled_from(self.warning_re, WARNING_PATTERN@)
        &&& compiled_from(self.ran_re, RAN_PATTERN@)
        &&& compiled_from(self.failed_re, FAILED_PATTERN@)
        &&& compiled_from(self.fail_block_re, FAIL_BLOCK_PATTERN@)
        &&& compiled_from(self.separator_re, SEPARATOR_PATTERN@)
    }

    pub fn new() -> (r: ParserPatterns)
        ensures
            r.ok(),
    {
        ParserPatterns {
            warning_re: CompiledPattern::new(WARNING_PATTERN),
            ran_re: CompiledPattern::new(RAN_PATTERN),
            failed_re: CompiledPattern::new(FAILED_PATTERN),
            fail_block_re: CompiledPattern::new(FAIL_BLOCK_PATTERN),
            separator_re: CompiledPattern::new(SEPARATOR_PATTERN),
        }
    }

    fn warning(&self, text: &str) -> (r: bool)
        requires
            self.ok(),
        ensures
            r == found(WARNING_PATTERN@, text@),
    {
        slot_matches(&self.warning_re, text, Ghost(WARNING_PATTERN@))
    }

    fn ran(&self, text: &str) -> (r: bool)
        requires
            self.ok(),
        ensures
            r == found(RAN_PATTERN@, text@),
    {
        slot_matches(&self.ran_re, text, Ghost(RAN_PATTERN@))
    }

    fn fail_block(&self, text: &str) -> (r: bool)
        requires
            self.ok(),
        ensures
            r == found(FAIL_BLOCK_PATTERN@, text@),
    {
        slot_matches(&self.fail_block_re, text, Ghost(FAIL_BLOCK_PATTERN@))
    }

    fn separator(&self, text: &str) -> (r: bool)
        requires
            self.ok(),
        ensures
            r == found(SEPARATOR_PATTERN@, text@),
    {
        slot_matches(&self.separator_re, text, Ghost(SEPARATOR_PATTERN@))
    }

    fn ran_groups(&self, text: &str) -> (r: Option<Option<Vec<Option<String>>>>)
        requires
            self.ok(),
        ensures
            r.deep_view() == regex_groups(RAN_PATTERN@, text@),
    {
        slot_captures(&self.ran_re, text, Ghost(RAN_PATTERN@))
    }

    fn failed_groups(&self, text: &str) -> (r: Option<Option<Vec<Option<String>>>>)
        requires
            self.ok(),
        ensures
            r.deep_view() == regex_groups(FAILED_PATTERN@, text@),
    {
        slot_captures(&self.failed_re, text, Ghost(FAILED_PATTERN@))
    }
}

impl View for OutputParser {
    type V = ParserModel;

    open spec fn view(&self) -> ParserModel {
        ParserModel {
            warnings: strs(self.warnings@),
            failure_blocks: strs(self.failure_blocks@),
            ran_tests: self.ran_tests,
            failed: self.failed,
            skipped: self.skipped,
            failures: self.failures,
            errors: self.errors,
            in_failure_block: self.in_failure_block,
            current_block: match self.current_block {
                Some(b) => Some(strs(b@)),
                None => None,
            },
        }
    }
}

/// Nothing read yet.
pub open spec fn fresh_model() -> ParserModel {
    ParserModel {
        warnings: Seq::empty(),
        failure_blocks: Seq::empty(),
        ran_tests: None,
        failed: false,
        skipped: None,
        failures: None,
        errors: None,
        in_failure_block: false,
        current_block: None,
    }
}

/// The report being read ends: kept, joined with newlines, when it has lines and fewer
/// than [`MAX_FAILURE_BLOCKS`] are kept.
pub open spec fn flushed(m: ParserModel) -> ParserModel {
    ParserModel {
        failure_blocks: match m.current_block {
            Some(b) => if b.len() > 0 && m.failure_blocks.len() < MAX_FAILURE_BLOCKS {
                m.failure_blocks.push(join(b, "\n"@))
            } else {
                m.failure_blocks
            },
            None => m.failure_blocks,
        },
        in_failure_block: false,
        current_block: None,
        ..m
    }
}

/// A line naming a warning category, or holding ` WARNING ` or starting with `WARNING`,
/// is kept as a warning; a line that does both is kept twice.
pub open spec fn after_warning(m: ParserModel, line: Seq<char>) -> ParserModel {
    let w1 = if found(WARNING_PATTERN@, line) {
        m.warnings.push(line)
    } else {
        m.warnings
    };
    let w2 = if contains(line, " WARNING "@) || starts_with(line, "WARNING"@) {
        w1.push(line)
    } else {
        w1
    };
    ParserModel { warnings: w2, ..m }
}

/// A `FAIL:` or `ERROR:` line starts a new report (ending the one before); inside a
/// report a separator or a `Ran` line ends it, and any other line is added while the
/// report has fewer than [`MAX_BLOCK_LINES`] lines.
pub open spec fn after_block_line(m: ParserModel, line: Seq<char>) -> ParserModel {
    let t = trim(line);
    if found(FAIL_BLOCK_PATTERN@, t) {
        ParserModel { in_failure_block: true, current_block: Some(seq![line]), ..flushed(m) }
    } else if m.in_failure_block {
        if found(SEPARATOR_PATTERN@, t) || found(RAN_PATTERN@, line) {
            flushed(m)
        } else {
            match m.current_block {
                Some(b) => if b.len() < MAX_BLOCK_LINES {
                    ParserModel { current_block: Some(b.push(line)), ..m }
                } else {
                    m
                },
                None => m,
            }
        }
    } else {
        m
    }
}

/// One `key=value` item of a `FAILED (...)` line: the trimmed key and the value, when
/// there is an `=` and the trimmed value is a `u32`.
pub open spec fn count_entry(part: Seq<char>) -> Option<(Seq<char>, u32)> {
    let p = trim(part);
    match first_index(p, '=') {
        Some(i) => match parse_u32(trim(p.skip(i + 1))) {
            Some(n) => Some((trim(p.take(i)), n)),
            None => None,
        },
        None => None,
    }
}

/// The value of the last item with the given key.
pub open spec fn lookup_count(parts: Seq<Seq<char>>, key: Seq<char>) -> Option<u32>
    decreases parts.len(),
{
    if parts.len() == 0 {
        None
    } else {
        match count_entry(parts.last()) {
            Some(e) => if e.0 == key {
                Some(e.1)
            } else {
                lookup_count(parts.drop_last(), key)
            },
            None => lookup_count(parts.drop_last(), key),
        }
    }
}

/// The count of tests run, from a `Ran N tests in` line.
pub open spec fn ran_count(line: Seq<char>) -> Option<u32> {
    match group(regex_groups(RAN_PATTERN@, line), 1) {
        Some(g) => parse_u32(g),
        None => None,
    }
}

/// The summary lines: `Ran N tests` sets the count; a bare `OK` clears the failed flag;
/// `FAILED (...)` sets it and replaces the three counts with those the line gives.
pub open spec fn after_summary_line(m: ParserModel, line: Seq<char>) -> ParserModel {
    let ran = match ran_count(line) {
        Some(n) => Some(n),
        None => m.ran_tests,
    };
    let failed = if trim(line) == "OK"@ {
        false
    } else {
        m.failed
    };
    match group(regex_groups(FAILED_PATTERN@, trim(line)), 1) {
        Some(inside) => {
            let parts = split_char(inside, ',');
            ParserModel {
                ran_tests: ran,
                failed: true,
                failures: lookup_count(parts, "failures"@),
                errors: lookup_count(parts, "errors"@),
                skipped: lookup_count(parts, "skipped"@),
                ..m
            }
        },
        None => ParserModel { ran_tests: ran, failed: failed, ..m },
    }
}

/// One line of output read.
pub open spec fn ingested(m: ParserModel, line: Seq<char>) -> ParserModel {
    after_summary_line(after_block_line(after_warning(m, line), line), line)
}

/// The parser's invariant: a report is open exactly when it is being read, it holds
/// between one and [`MAX_BLOCK_LINES`] lines, and at most [`MAX_FAILURE_BLOCKS`]
/// reports are kept.
pub open spec fn parser_wf(m: ParserModel) -> bool {
    &&& m.in_failure_block <==> m.current_block is Some
    &&& m.current_block matches Some(b) ==> 1 <= b.len() <= MAX_BLOCK_LINES
    &&& m.failure_blocks.len() <= MAX_FAILURE_BLOCKS
}

fn lookup_counts(inside: &str) -> (r: (Option<u32>, Option<u32>, Option<u32>))
    ensures
        r.0 == lookup_count(split_char(inside@, ','), "failures"@),
        r.1 == lookup_count(split_char(inside@, ','), "errors"@),
        r.2 == lookup_count(split_char(inside@, ','), "skipped"@),
{
    let chars = chars_of(inside);
    let parts = split_chars(&chars, ',');
    let ghost ps = split_char(inside@, ',');
    let kf = chars_of("failures");
    let ke = chars_of("errors");
    let ks = chars_of("skipped");
    let mut failures: Option<u32> = None;
    let mut errors: Option<u32> = None;
    let mut skipped: Option<u32> = None;
    let mut i: usize = 0;
    while i < parts.len()
        invariant
            i <= parts@.len(),
            parts@.len() == ps.len(),
            forall|k: int| 0 <= k < ps.len() ==> #[trigger] parts@[k]@ == ps[k],
            kf@ == "failures"@,
            ke@ == "errors"@,
            ks@ == "skipped"@,
            failures == lookup_count(ps.take(i as int), "failures"@),
            errors == lookup_count(ps.take(i as int), "errors"@),
            skipped == lookup_count(ps.take(i as int), "skipped"@),
        decreases parts.len() - i,
    {
        assert(ps.take(i + 1).drop_last() =~= ps.take(i as int));
        assert(ps.take(i + 1).last() == ps[i as int]);
        let p = trim_chars(&parts[i]);
        match find_char(&p, '=') {
            Some(eq) => {
                let n = p.len();
                let v = slice_chars(&p, eq + 1, n);
                assert(v@ =~= p@.skip(eq + 1));
                let vt = trim_chars(&v);
                match parse_u32_chars(&vt) {
                    Some(n) => {
                        let k = slice_chars(&p, 0, eq);
                        assert(k@ =~= p@.take(eq as int));
                        let kt = trim_chars(&k);
                        if seq_eq(&kt, &kf) {
                            failures = Some(n);
                        }
                        if seq_eq(&kt, &ke) {
                            errors = Some(n);
                        }
                        if seq_eq(&kt, &ks) {
                            skipped = Some(n);
                        }
                    },
                    None => {},
                }
            },
            None => {},
        }
        i = i + 1;
    }
    assert(ps.take(ps.len() as int) =~= ps);
    (failures, errors, skipped)
}

impl OutputParser {
    /// The parser's patterns are the ones it is meant to match with.
    pub open spec fn patterns_ok(&self) -> bool {
        self.patterns.ok()
    }

    pub fn new() -> (p: OutputParser)
        ensures
            p@ == fresh_model(),
            p.patterns_ok(),
    {
        let p = OutputParser {
            warnings: Vec::new(),
            failure_blocks: Vec::new(),
            ran_tests: None,
            failed: false,
            skipped: None,
            failures: None,
            errors: None,
            in_failure_block: false,
            current_block: None,
            patterns: ParserPatterns::new(),
        };
        assert(p@.warnings =~= Seq::<Seq<char>>::empty());
        assert(p@.failure_blocks =~= Seq::<Seq<char>>::empty());
        p
    }

    /// Reads one line of output.
    pub fn ingest(&mut self, line: &str)
        requires
            old(self).patterns_ok(),
        ensures
            final(self)@ == ingested(old(self)@, line@),
            final(self).patterns_ok(),
    {
        self.collect_warning(line);
        self.parse_failure_block(line);
        self.parse_unittest_summary(line);
    }

    /// Ends the failure report being read, keeping it if there is room.
    pub fn flush_failure_block(&mut self)
        ensures
            final(self)@ == flushed(old(self)@),
            final(self).patterns_ok() == old(self).patterns_ok(),
    {
        let ghost before = self@;
        let taken = self.current_block.take();
        match taken {
            Some(block) => {
                if block.len() > 0 && self.failure_blocks.len() < MAX_FAILURE_BLOCKS {
                    let joined = join_strings(&block, "\n");
                    let ghost fb = self.failure_blocks@;
                    self.failure_blocks.push(joined);
                    assert(strs(self.failure_blocks@) =~= strs(fb).push(joined@));
                }
            },
            None => {},
        }
        self.in_failure_block = false;
        assert(self@.failure_blocks =~= flushed(before).failure_blocks);
    }

    fn parse_failure_block(&mut self, line: &str)
        requires
            old(self).patterns_ok(),
        ensures
            final(self)@ == after_block_line(old(self)@, line@),
            final(self).patterns_ok(),
    {
        let t = trim_str(line);
        if self.patterns.fail_block(t.as_str()) {
            self.flush_failure_block();
            self.in_failure_block = true;
            let mut block: Vec<String> = Vec::new();
            block.push(owned(line));
            assert(strs(block@) =~= seq![line@]);
            self.current_block = Some(block);
            return;
        }
        if self.in_failure_block {
            if self.patterns.separator(t.as_str()) || self.patterns.ran(line) {
                self.flush_failure_block();
                return;
            }
            let ghost before = self@;
            let taken = self.current_block.take();
            match taken {
                Some(mut block) => {
                    if block.len() < MAX_BLOCK_LINES {
                        let ghost b0 = block@;
                        block.push(owned(line));
                        assert(strs(block@) =~= strs(b0).push(line@));
                    }
                    self.current_block = Some(block);
                },
                None => {},
            }
            assert(self@ == after_block_line(before, line@));
        }
    }

    fn collect_warning(&mut self, line: &str)
        requires
            old(self).patterns_ok(),
        ensures
            final(self)@ == after_warning(old(self)@, line@),
            final(self).patterns_ok(),
    {
        let ghost w0 = self.warnings@;
        if self.patterns.warning(line) {
            self.warnings.push(owned(line));
            assert(strs(self.warnings@) =~= strs(w0).push(line@));
        }
        let ghost w1 = self.warnings@;
        if contains_str(line, " WARNING ") || starts_with_str(line, "WARNING") {
            self.warnings.push(owned(line));
            assert(strs(self.warnings@) =~= strs(w1).push(line@));
        }
    }

    fn parse_unittest_summary(&mut self, line: &str)
        requires
            old(self).patterns_ok(),
        ensures
            final(self)@ == after_summary_line(old(self)@, line@),
            final(self).patterns_ok(),
    {
        let caps = self.patterns.ran_groups(line);
        match get_group(&caps, 1) {
            Some(g) => {
                match parse_u32_str(g.as_str()) {
                    Some(n) => {
                        self.ran_tests = Some(n);
                    },
                    None => {},
                }
            },
            None => {},
        }
        let t = trim_str(line);
        if str_eq(t.as_str(), "OK") {
            self.failed = false;
        }
        let fcaps = self.patterns.failed_groups(t.as_str());
        match get_group(&fcaps, 1) {
            Some(inside) => {
                self.failed = true;
                let (f, e, s) = lookup_counts(inside.as_str());
                self.failures = f;
                self.errors = e;
                self.skipped = s;
            },
            None => {},
        }
    }
}

/// Every state the parser reaches from a fresh one keeps its invariant: reading a line
/// or ending a report never opens a report without lines, lets one grow past
/// [`MAX_BLOCK_LINES`] lines, or keeps more than [`MAX_FAILURE_BLOCKS`] reports.
pub proof fn law_parser_stays_bounded(m: ParserModel, line: Seq<char>)
    requires
        parser_wf(m),
    ensures
        parser_wf(fresh_model()),
        parser_wf(ingested(m, line)),
        parser_wf(flushed(m)),
{
}

/// Reading lines only adds: the warnings and the kept reports read before stay, in
/// order, at the front.
pub proof fn law_parser_only_appends(m: ParserModel, line: Seq<char>)
    ensures
        ingested(m, line).warnings.take(m.warnings.len() as int) == m.warnings,
        ingested(m, line).failure_blocks.take(m.failure_blocks.len() as int) == m.failure_blocks,
        flushed(m).failure_blocks.take(m.failure_blocks.len() as int) == m.failure_blocks,
{
}

/// Ending a report twice is ending it once.
pub proof fn law_flush_idempotent(m: ParserModel)
    ensures
        flushed(flushed(m)) == flushed(m),
{
}


// ---------------------------------------------------------------------------
// Results of the runs, and the summary printed at the end
// ---------------------------------------------------------------------------

/// The outcome of one `--test-tags` run.
pub struct TagRunResult {
    pub selector: String,
    pub passed: bool,
    pub exit_error: Option<String>,
    pub ran_tests: Option<u32>,
    pub failures: Option<u32>,
    pub errors: Option<u32>,
    pub skipped: Option<u32>,
    pub log_file: String,
    pub failure_blocks: Vec<String>,
    pub warnings: Vec<String>,
}

impl TagRunResult {
    /// The result of a run, with what the parser read of its output.
    pub fn from_parser(
        selector: String,
        passed: bool,
        exit_error: Option<String>,
        log_file: String,
        parser: &OutputParser,
    ) -> (r: TagRunResult)
        ensures
            r.selector == selector,
            r.passed == passed,
            r.exit_error == exit_error,
            r.log_file == log_file,
            r.ran_tests == parser.ran_tests,
            r.failures == parser.failures,
            r.errors == parser.errors,
            r.skipped == parser.skipped,
            strs(r.failure_blocks@) == parser@.failure_blocks,
            strs(r.warnings@) == parser@.warnings,
    {
        TagRunResult {
            selector,
            passed,
            exit_error,
            ran_tests: parser.ran_tests,
            failures: parser.failures,
            errors: parser.errors,
            skipped: parser.skipped,
            log_file,
            failure_blocks: copy_strings(&parser.failure_blocks),
            warnings: copy_strings(&parser.warnings),
        }
    }
}

/// Where a session's artifacts are written.
pub struct TestSession {
    pub dir: String,
    pub run_id: String,
    pub db_name: String,
    pub combined_log: String,
    pub warnings_log: String,
    pub runs_dir: String,
}

/// `<root>/.testing/sessions/<run_id>`.
pub open spec fn session_dir(root: Seq<char>, run_id: Seq<char>) -> Seq<char> {
    path_join(path_join(path_join(root, ".testing"@), "sessions"@), run_id)
}

/// The combined log: the given file (relative to the project root unless absolute), or
/// `combined.log` in the session directory.
pub open spec fn combined_log_path(root: Seq<char>, dir: Seq<char>, log_file: Option<Seq<char>>) -> Seq<char> {
    match log_file {
        Some(p) => if is_absolute(p) {
            p
        } else {
            path_join(root, p)
        },
        None => path_join(dir, "combined.log"@),
    }
}

pub open spec fn opt_view(o: Option<&str>) -> Option<Seq<char>> {
    match o {
        Some(s) => Some(s@),
        None => None,
    }
}

impl TestSession {
    /// The paths of the session `run_id` of the project at `project_root`.
    pub fn layout(project_root: &str, run_id: &str, db_name: &str, log_file: Option<&str>) -> (s: TestSession)
        ensures
            s.dir@ == session_dir(project_root@, run_id@),
            s.run_id@ == run_id@,
            s.db_name@ == db_name@,
            s.runs_dir@ == path_join(s.dir@, "runs"@),
            s.combined_log@ == combined_log_path(project_root@, s.dir@, opt_view(log_file)),
            s.warnings_log@ == path_join(s.dir@, "warnings.log"@),
    {
        let a = crate::paths::join(project_root, ".testing");
        let b = crate::paths::join(a.as_str(), "sessions");
        let dir = crate::paths::join(b.as_str(), run_id);
        let runs_dir = crate::paths::join(dir.as_str(), "runs");
        let combined_log = match log_file {
            Some(p) => if absolute(p) {
                owned(p)
            } else {
                crate::paths::join(project_root, p)
            },
            None => crate::paths::join(dir.as_str(), "combined.log"),
        };
        let warnings_log = crate::paths::join(dir.as_str(), "warnings.log");
        TestSession { dir, run_id: owned(run_id), db_name: owned(db_name), combined_log, warnings_log, runs_dir }
    }
}

/// Runs that passed.
pub open spec fn passed_count(runs: Seq<TagRunResult>) -> nat
    decreases runs.len(),
{
    if runs.len() == 0 {
        0
    } else {
        passed_count(runs.drop_last()) + if runs.last().passed {
            1nat
        } else {
            0nat
        }
    }
}

/// Runs that wrote a log file of their own.
pub open spec fn logged_count(runs: Seq<TagRunResult>) -> nat
    decreases runs.len(),
{
    if runs.len() == 0 {
        0
    } else {
        logged_count(runs.drop_last()) + if runs.last().log_file@.len() > 0 {
            1nat
        } else {
            0nat
        }
    }
}

/// The skipped tests the runs reported, added up.
pub open spec fn skipped_total(runs: Seq<TagRunResult>) -> nat
    decreases runs.len(),
{
    if runs.len() == 0 {
        0
    } else {
        skipped_total(runs.drop_last()) + match runs.last().skipped {
            Some(n) => n as nat,
            None => 0nat,
        }
    }
}

/// Some run reported a count of skipped tests.
pub open spec fn any_skipped(runs: Seq<TagRunResult>) -> bool
    decreases runs.len(),
{
    runs.len() > 0 && (runs.last().skipped is Some || any_skipped(runs.drop_last()))
}

proof fn lemma_counts_bounded(runs: Seq<TagRunResult>, i: int)
    requires
        0 <= i <= runs.len(),
    ensures
        passed_count(runs.take(i)) <= i,
        logged_count(runs.take(i)) <= i,
        skipped_total(runs.take(i)) <= skipped_total(runs),
        passed_count(runs) <= runs.len(),
    decreases runs.len() - i,
{
    if i < runs.len() {
        lemma_counts_bounded(runs, i + 1);
        assert(runs.take(i + 1).drop_last() =~= runs.take(i));
        lemma_passed_bounded(runs.take(i));
        lemma_logged_bounded(runs.take(i));
    } else {
        assert(runs.take(i) =~= runs);
        lemma_passed_bounded(runs);
        lemma_logged_bounded(runs);
    }
}

proof fn lemma_passed_bounded(runs: Seq<TagRunResult>)
    ensures
        passed_count(runs) <= runs.len(),
    decreases runs.len(),
{
    if runs.len() > 0 {
        lemma_passed_bounded(runs.drop_last());
    }
}

proof fn lemma_logged_bounded(runs: Seq<TagRunResult>)
    ensures
        logged_count(runs) <= runs.len(),
    decreases runs.len(),
{
    if runs.len() > 0 {
        lemma_logged_bounded(runs.drop_last());
    }
}

/// `{:?}` of an optional count.
pub open spec fn debug_count(o: Option<u32>) -> Seq<char> {
    match o {
        Some(n) => "Some("@ + decimal(n as nat) + ")"@,
        None => "None"@,
    }
}

/// At most the first `n` lines of `text`.
pub open spec fn first_lines(text: Seq<char>, n: nat) -> Seq<Seq<char>> {
    if lines(text).len() <= n {
        lines(text)
    } else {
        lines(text).take(n as int)
    }
}

/// Every line of `text` behind `prefix`, joined with newlines.
pub open spec fn indented(text: Seq<char>, prefix: Seq<char>) -> Seq<char> {
    join(lines(text).map_values(|l: Seq<char>| prefix + l), "\n"@)
}

/// What the summary says of a run that failed.
pub open spec fn failure_entry(r: TagRunResult) -> Seq<Seq<char>> {
    seq![
        "- "@ + r.selector@ + " (ran="@ + debug_count(r.ran_tests) + ", failures="@
            + debug_count(r.failures) + ", errors="@ + debug_count(r.errors) + ", skipped="@
            + debug_count(r.skipped) + ")"@,
    ] + (if r.log_file@.len() > 0 {
        seq!["  log: "@ + r.log_file@]
    } else {
        Seq::empty()
    }) + (match r.exit_error {
        Some(e) => seq!["  exit: "@ + e@],
        None => Seq::empty(),
    }) + (if r.failure_blocks@.len() > 0 {
        seq![
            "  failure preview:\n"@ + indented(
                join(first_lines(r.failure_blocks@[0]@, 8), "\n"@),
                "    "@,
            ),
        ]
    } else {
        Seq::empty()
    })
}

/// The entries of the failed runs, in order.
pub open spec fn failure_entries(runs: Seq<TagRunResult>) -> Seq<Seq<char>>
    decreases runs.len(),
{
    if runs.len() == 0 {
        Seq::empty()
    } else if runs.last().passed {
        failure_entries(runs.drop_last())
    } else {
        failure_entries(runs.drop_last()) + failure_entry(runs.last())
    }
}

/// At most the first fifty warnings, then how many more there are.
pub open spec fn warnings_part(ws: Seq<Seq<char>>) -> Seq<Seq<char>> {
    if ws.len() == 0 {
        Seq::empty()
    } else {
        seq![""@, "Warnings (unique, console capped): "@ + decimal(ws.len())]
            + (if ws.len() <= 50 { ws } else { ws.take(50) }).map_values(|w: Seq<char>| "- "@ + w)
            + if ws.len() > 50 {
            seq!["... ("@ + decimal((ws.len() - 50) as nat) + " more)"@]
        } else {
            Seq::empty()
        }
    }
}

/// Where the session's artifacts are.
pub open spec fn session_part(session: Option<TestSession>, runs: Seq<TagRunResult>) -> Seq<Seq<char>> {
    match session {
        Some(s) => seq![
            ""@,
            "Session artifacts: "@ + s.dir@,
            "  report.json"@,
            "  combined.log: "@ + s.combined_log@,
            "  warnings.log: "@ + s.warnings_log@,
            "  runs/ ("@ + decimal(logged_count(runs)) + " files)"@,
        ],
        None => Seq::empty(),
    }
}

pub const SUMMARY_BANNER: &'static str = "================= Test Summary =================";

pub const SUMMARY_RULE: &'static str = "================================================";

/// The lines of the summary printed after all runs, in order.
pub open spec fn summary(
    runs: Seq<TagRunResult>,
    warnings: Seq<Seq<char>>,
    session: Option<TestSession>,
) -> Seq<Seq<char>> {
    let total = runs.len();
    let passed = passed_count(runs);
    let failed = (total - passed) as nat;
    seq![
        ""@,
        SUMMARY_BANNER@,
        "Total runs: "@ + decimal(total),
        "Passed: "@ + decimal(passed),
        "Failed: "@ + decimal(failed),
    ] + (if any_skipped(runs) {
        seq!["Skipped (parsed): "@ + decimal(skipped_total(runs))]
    } else {
        Seq::empty()
    }) + (if failed > 0 {
        seq![""@, "Failures:"@] + failure_entries(runs)
    } else {
        Seq::empty()
    }) + warnings_part(warnings) + session_part(session, runs) + seq![SUMMARY_RULE@]
}

/// Whether a run passed, as a predicate over runs.
pub open spec fn run_passed() -> spec_fn(TagRunResult) -> bool {
    |r: TagRunResult| r.passed
}

/// Whether a run failed, as a predicate over runs.
pub open spec fn run_failed() -> spec_fn(TagRunResult) -> bool {
    |r: TagRunResult| !r.passed
}

proof fn lemma_passed_count_filters(runs: Seq<TagRunResult>)
    ensures
        passed_count(runs) == runs.filter(run_passed()).len(),
        runs.len() - passed_count(runs) == runs.filter(run_failed()).len(),
    decreases runs.len(),
{
    reveal(Seq::filter);
    if runs.len() > 0 {
        lemma_passed_count_filters(runs.drop_last());
    }
}

/// The summary opens with a blank line and the banner, then the number of runs, of the
/// runs that passed and of those that failed, and it closes with the rule.
pub proof fn law_summary_counts(runs: Seq<TagRunResult>, warnings: Seq<Seq<char>>, session: Option<TestSession>)
    ensures
        ({
            let sm = summary(runs, warnings, session);
            &&& sm.len() >= 6
            &&& sm[0] == ""@
            &&& sm[1] == SUMMARY_BANNER@
            &&& sm[2] == "Total runs: "@ + decimal(runs.len())
            &&& sm[3] == "Passed: "@ + decimal(runs.filter(run_passed()).len())
            &&& sm[4] == "Failed: "@ + decimal(runs.filter(run_failed()).len())
            &&& sm.last() == SUMMARY_RULE@
        }),
{
    lemma_passed_count_filters(runs);
    lemma_passed_bounded(runs);
}

/// A run that failed keeps the passed count below the number of runs.
proof fn lemma_failed_run_counts(runs: Seq<TagRunResult>, k: int)
    requires
        0 <= k < runs.len(),
        !runs[k].passed,
    ensures
        passed_count(runs) < runs.len(),
    decreases runs.len(),
{
    if k == runs.len() - 1 {
        lemma_passed_bounded(runs.drop_last());
    } else {
        lemma_failed_run_counts(runs.drop_last(), k);
    }
}

/// The entry of a failed run stands whole, at the returned index, among the failure entries.
proof fn lemma_entry_at(runs: Seq<TagRunResult>, k: int) -> (j: int)
    requires
        0 <= k < runs.len(),
        !runs[k].passed,
    ensures
        0 <= j,
        j + failure_entry(runs[k]).len() <= failure_entries(runs).len(),
        failure_entries(runs).subrange(j, j + failure_entry(runs[k]).len()) == failure_entry(runs[k]),
    decreases runs.len(),
{
    let e = failure_entry(runs[k]);
    if k == runs.len() - 1 {
        let j = failure_entries(runs.drop_last()).len() as int;
        assert(failure_entries(runs).subrange(j, j + e.len()) =~= e);
        j
    } else {
        let j = lemma_entry_at(runs.drop_last(), k);
        assert(runs.drop_last()[k] == runs[k]);
        let before = failure_entries(runs.drop_last());
        if !runs.last().passed {
            let after = before + failure_entry(runs.last());
            assert(after.subrange(j, j + e.len()) =~= before.subrange(j, j + e.len()));
        }
        j
    }
}

/// Every failed run has an entry in the summary, opened by a line "- <selector> (ran=...";
/// when the run wrote a log of its own, the next line names it ("  log: <file>"), and when
/// the run ended with an error, the line after those says so ("  exit: <error>").
pub proof fn law_failed_run_entry_lines(
    runs: Seq<TagRunResult>,
    warnings: Seq<Seq<char>>,
    session: Option<TestSession>,
    k: int,
)
    requires
        0 <= k < runs.len(),
        !runs[k].passed,
    ensures
        exists|i: int|
            #![trigger summary(runs, warnings, session)[i]]
            {
                let sm = summary(runs, warnings, session);
                let h = "- "@ + runs[k].selector@ + " (ran="@;
                let logged = runs[k].log_file@.len() > 0;
                let after = if logged {
                    i + 2
                } else {
                    i + 1
                };
                &&& 0 <= i < sm.len()
                &&& sm[i].take(h.len() as int) == h
                &&& logged ==> i + 1 < sm.len() && sm[i + 1] == "  log: "@ + runs[k].log_file@
                &&& runs[k].exit_error matches Some(e) ==> after < sm.len() && sm[after] == "  exit: "@ + e@
            },
{
    let r = runs[k];
    lemma_failed_run_counts(runs, k);
    let j = lemma_entry_at(runs, k);
    let e = failure_entry(r);
    let entries = failure_entries(runs);
    let total = runs.len();
    let passed = passed_count(runs);
    let head = seq![
        ""@,
        SUMMARY_BANNER@,
        "Total runs: "@ + decimal(total),
        "Passed: "@ + decimal(passed),
        "Failed: "@ + decimal((total - passed) as nat),
    ] + (if any_skipped(runs) {
        seq!["Skipped (parsed): "@ + decimal(skipped_total(runs))]
    } else {
        Seq::empty()
    });
    let failures = seq![""@, "Failures:"@] + entries;
    let tail = warnings_part(warnings) + session_part(session, runs) + seq![SUMMARY_RULE@];
    let sm = summary(runs, warnings, session);
    assert(sm =~= head + failures + tail);
    let i = head.len() + 2 + j;
    let h = "- "@ + r.selector@ + " (ran="@;
    let sub = entries.subrange(j, j + e.len());
    assert forall|t: int| 0 <= t < e.len() implies #[trigger] e[t] == sm[i + t] by {
        assert(sub[t] == entries[j + t]);
    }
    assert(e[0] == sm[i]);
    assert(e[0].take(h.len() as int) =~= h);
    let logged = r.log_file@.len() > 0;
    let after = if logged {
        i + 2
    } else {
        i + 1
    };
    if logged {
        assert(e[1] == sm[i + 1]);
    }
    if let Some(x) = r.exit_error {
        assert(e[after - i] == sm[after]);
        assert(e[after - i] == "  exit: "@ + x@);
    }
    assert(sm[i].take(h.len() as int) == h);
}

/// `label` followed by `n` in decimal.
fn count_line(label: &str, n: u64) -> (r: String)
    ensures
        r@ == label@ + decimal(n as nat),
{
    let mut r = owned(label);
    let d = decimal_string(n);
    r.append(d.as_str());
    r
}

/// `{:?}` of an optional count.
pub fn debug_count_string(o: Option<u32>) -> (r: String)
    ensures
        r@ == debug_count(o),
{
    match o {
        Some(n) => {
            let mut r = count_line("Some(", n as u64);
            r.append(")");
            r
        },
        None => owned("None"),
    }
}

/// Every line of `text` behind `prefix`, joined with newlines.
pub fn indent_lines(text: &str, prefix: &str) -> (r: String)
    ensures
        r@ == indented(text@, prefix@),
{
    let cs = chars_of(text);
    let ls = lines_of(&cs);
    let ghost want = lines(text@).map_values(|l: Seq<char>| prefix@ + l);
    let mut parts: Vec<String> = Vec::new();
    let mut i: usize = 0;
    while i < ls.len()
        invariant
            i <= ls@.len(),
            ls@.len() == lines(text@).len(),
            forall|k: int| 0 <= k < ls@.len() ==> #[trigger] ls@[k]@ == lines(text@)[k],
            want == lines(text@).map_values(|l: Seq<char>| prefix@ + l),
            strs(parts@) == want.take(i as int),
        decreases ls.len() - i,
    {
        let line = string_of(&ls[i]);
        let ghost p0 = parts@;
        parts.push(cat(prefix, line.as_str()));
        assert(strs(parts@) =~= strs(p0).push(prefix@ + lines(text@)[i as int]));
        assert(want.take(i + 1) =~= want.take(i as int).push(want[i as int]));
        i = i + 1;
    }
    assert(want.take(ls@.len() as int) =~= want);
    join_strings(&parts, "\n")
}

/// The first `n` lines of `text`, joined with newlines.
fn head_lines(text: &str, n: usize) -> (r: String)
    ensures
        r@ == join(first_lines(text@, n as nat), "\n"@),
{
    let cs = chars_of(text);
    let ls = lines_of(&cs);
    let ghost want = first_lines(text@, n as nat);
    let count = if ls.len() <= n { ls.len() } else { n };
    let mut parts: Vec<String> = Vec::new();
    let mut i: usize = 0;
    while i < count
        invariant
            i <= count,
            count <= ls@.len(),
            count == want.len(),
            ls@.len() == lines(text@).len(),
            forall|k: int| 0 <= k < ls@.len() ==> #[trigger] ls@[k]@ == lines(text@)[k],
            forall|k: int| 0 <= k < want.len() ==> #[trigger] want[k] == lines(text@)[k],
            strs(parts@) == want.take(i as int),
        decreases count - i,
    {
        let ghost p0 = parts@;
        parts.push(string_of(&ls[i]));
        assert(strs(parts@) =~= strs(p0).push(want[i as int]));
        assert(want.take(i + 1) =~= want.take(i as int).push(want[i as int]));
        i = i + 1;
    }
    assert(want.take(count as int) =~= want);
    join_strings(&parts, "\n")
}

fn failure_entry_lines(r: &TagRunResult) -> (out: Vec<String>)
    ensures
        strs(out@) == failure_entry(*r),
{
    let mut head = owned("- ");
    head.append(r.selector.as_str());
    head.append(" (ran=");
    head.append(debug_count_string(r.ran_tests).as_str());
    head.append(", failures=");
    head.append(debug_count_string(r.failures).as_str());
    head.append(", errors=");
    head.append(debug_count_string(r.errors).as_str());
    head.append(", skipped=");
    head.append(debug_count_string(r.skipped).as_str());
    head.append(")");
    let mut out: Vec<String> = Vec::new();
    out.push(head);
    let ghost s1 = strs(out@);
    if r.log_file.unicode_len() > 0 {
        out.push(cat("  log: ", r.log_file.as_str()));
        assert(strs(out@) =~= s1 + seq!["  log: "@ + r.log_file@]);
    } else {
        assert(strs(out@) =~= s1 + Seq::<Seq<char>>::empty());
    }
    let ghost s2 = strs(out@);
    match &r.exit_error {
        Some(e) => {
            out.push(cat("  exit: ", e.as_str()));
            assert(strs(out@) =~= s2 + seq!["  exit: "@ + e@]);
        },
        None => {
            assert(strs(out@) =~= s2 + Seq::<Seq<char>>::empty());
        },
    }
    let ghost s3 = strs(out@);
    if r.failure_blocks.len() > 0 {
        let preview = head_lines(r.failure_blocks[0].as_str(), 8);
        let body = indent_lines(preview.as_str(), "    ");
        out.push(cat("  failure preview:\n", body.as_str()));
        assert(strs(out@) =~= s3 + seq![
            "  failure preview:\n"@ + indented(join(first_lines(r.failure_blocks@[0]@, 8), "\n"@), "    "@),
        ]);
    } else {
        assert(strs(out@) =~= s3 + Seq::<Seq<char>>::empty());
    }
    out
}

fn warnings_lines(ws: &Vec<String>) -> (out: Vec<String>)
    ensures
        strs(out@) == warnings_part(strs(ws@)),
{
    let mut out: Vec<String> = Vec::new();
    if ws.len() == 0 {
        return out;
    }
    out.push(owned(""));
    out.push(count_line("Warnings (unique, console capped): ", ws.len() as u64));
    let ghost w = strs(ws@);
    let ghost shown = if w.len() <= 50 { w } else { w.take(50) };
    let ghost listed = shown.map_values(|x: Seq<char>| "- "@ + x);
    let ghost head = strs(out@);
    let n = if ws.len() <= 50 { ws.len() } else { 50 };
    let mut i: usize = 0;
    while i < n
        invariant
            i <= n,
            n == shown.len(),
            n <= ws@.len(),
            w == strs(ws@),
            shown == (if w.len() <= 50 { w } else { w.take(50) }),
            listed == shown.map_values(|x: Seq<char>| "- "@ + x),
            strs(out@) == head + listed.take(i as int),
        decreases n - i,
    {
        let ghost o0 = strs(out@);
        out.push(cat("- ", ws[i].as_str()));
        assert(strs(out@) =~= o0.push("- "@ + ws@[i as int]@));
        assert(listed.take(i + 1) =~= listed.take(i as int).push(listed[i as int]));
        i = i + 1;
    }
    assert(listed.take(n as int) =~= listed);
    let ghost s2 = strs(out@);
    if ws.len() > 50 {
        let mut more = count_line("... (", (ws.len() - 50) as u64);
        more.append(" more)");
        out.push(more);
        assert(strs(out@) =~= s2 + seq!["... ("@ + decimal((w.len() - 50) as nat) + " more)"@]);
    } else {
        assert(strs(out@) =~= s2 + Seq::<Seq<char>>::empty());
    }
    assert(head =~= seq![""@, "Warnings (unique, console capped): "@ + decimal(w.len())]) by {
        reveal_strlit("");
    }
    out
}

/// The lines of the summary printed after all runs, in order; the skipped counts are
/// added up in a `u32`.
pub fn summary_lines(runs: &Vec<TagRunResult>, warnings: &Vec<String>, session: Option<&TestSession>) -> (out: Vec<String>)
    requires
        skipped_total(runs@) <= u32::MAX,
    ensures
        strs(out@) == summary(runs@, strs(warnings@), match session {
            Some(s) => Some(*s),
            None => None,
        }),
{
    let ghost rs = runs@;
    let mut passed: usize = 0;
    let mut logged: usize = 0;
    let mut skipped: u32 = 0;
    let mut have_skipped = false;
    let mut entries: Vec<String> = Vec::new();
    let mut i: usize = 0;
    while i < runs.len()
        invariant
            i <= rs.len(),
            rs == runs@,
            skipped_total(rs) <= u32::MAX,
            passed == passed_count(rs.take(i as int)),
            logged == logged_count(rs.take(i as int)),
            skipped == skipped_total(rs.take(i as int)),
            have_skipped == any_skipped(rs.take(i as int)),
            strs(entries@) == failure_entries(rs.take(i as int)),
        decreases runs.len() - i,
    {
        proof {
            lemma_counts_bounded(rs, i as int);
            lemma_counts_bounded(rs, i + 1);
            assert(rs.take(i + 1).drop_last() =~= rs.take(i as int));
            assert(rs.take(i + 1).last() == rs[i as int]);
        }
        let r = &runs[i];
        if r.passed {
            passed = passed + 1;
        } else {
            let ghost e0 = strs(entries@);
            let more = failure_entry_lines(r);
            extend_strings(&mut entries, more);
        }
        if r.log_file.unicode_len() > 0 {
            logged = logged + 1;
        }
        match r.skipped {
            Some(n) => {
                skipped = skipped + n;
                have_skipped = true;
            },
            None => {},
        }
        i = i + 1;
    }
    proof {
        assert(rs.take(rs.len() as int) =~= rs);
        lemma_passed_bounded(rs);
    }
    let total = runs.len();
    let failed = total - passed;
    let mut out: Vec<String> = Vec::new();
    out.push(owned(""));
    out.push(owned(SUMMARY_BANNER));
    out.push(count_line("Total runs: ", total as u64));
    out.push(count_line("Passed: ", passed as u64));
    out.push(count_line("Failed: ", failed as u64));
    let ghost s0 = strs(out@);
    if have_skipped {
        out.push(count_line("Skipped (parsed): ", skipped as u64));
        assert(strs(out@) =~= s0 + seq!["Skipped (parsed): "@ + decimal(skipped_total(rs))]);
    } else {
        assert(strs(out@) =~= s0 + Seq::<Seq<char>>::empty());
    }
    let ghost s1 = strs(out@);
    if failed > 0 {
        out.push(owned(""));
        out.push(owned("Failures:"));
        let ghost s1b = strs(out@);
        extend_strings(&mut out, entries);
        assert(strs(out@) =~= s1 + (seq![""@, "Failures:"@] + failure_entries(rs)));
    } else {
        assert(strs(out@) =~= s1 + Seq::<Seq<char>>::empty());
    }
    let ghost s2 = strs(out@);
    extend_strings(&mut out, warnings_lines(warnings));
    let ghost s3 = strs(out@);
    match session {
        Some(s) => {
            out.push(owned(""));
            out.push(cat("Session artifacts: ", s.dir.as_str()));
            out.push(owned("  report.json"));
            out.push(cat("  combined.log: ", s.combined_log.as_str()));
            out.push(cat("  warnings.log: ", s.warnings_log.as_str()));
            let mut files = count_line("  runs/ (", logged as u64);
            files.append(" files)");
            out.push(files);
            assert(strs(out@) =~= s3 + session_part(Some(*s), rs));
        },
        None => {
            assert(strs(out@) =~= s3 + Seq::<Seq<char>>::empty());
        },
    }
    let ghost s4 = strs(out@);
    out.push(owned(SUMMARY_RULE));
    assert(strs(out@) =~= s4 + seq![SUMMARY_RULE@]);
    proof {
        reveal_strlit("");
    }
    out
}

/// The test runs end in an error when any of them failed.
pub open spec fn runs_outcome(runs: Seq<TagRunResult>) -> Result<(), Seq<char>> {
    if passed_count(runs) < runs.len() {
        Err("One or more test runs failed"@)
    } else {
        Ok(())
    }
}

pub fn overall_result(runs: &Vec<TagRunResult>) -> (r: Result<(), String>)
    ensures
        match (r, runs_outcome(runs@)) {
            (Ok(()), Ok(())) => true,
            (Err(e), Err(m)) => e@ == m,
            _ => false,
        },
{
    let ghost rs = runs@;
    let mut passed: usize = 0;
    let mut i: usize = 0;
    while i < runs.len()
        invariant
            i <= rs.len(),
            rs == runs@,
            passed == passed_count(rs.take(i as int)),
        decreases runs.len() - i,
    {
        proof {
            lemma_counts_bounded(rs, i as int);
            assert(rs.take(i + 1).drop_last() =~= rs.take(i as int));
        }
        if runs[i].passed {
            passed = passed + 1;
        }
        i = i + 1;
    }
    assert(rs.take(rs.len() as int) =~= rs);
    if passed < runs.len() {
        Err(owned("One or more test runs failed"))
    } else {
        Ok(())
    }
}


// ---------------------------------------------------------------------------
// One run: its command line, and what is recorded when it ends
// ---------------------------------------------------------------------------

/// Warnings are collected across runs up to this many distinct lines.
pub const MAX_WARNINGS: usize = 200;

/// The temporary database of a test session started at `timestamp` (seconds).
pub open spec fn test_db_name_spec(timestamp: u64) -> Seq<char> {
    "test_odoo_"@ + decimal(timestamp as nat)
}

pub fn test_db_name(timestamp: u64) -> (r: String)
    ensures
        r@ == test_db_name_spec(timestamp),
{
    let mut r = owned("test_odoo_");
    r.append(decimal_string(timestamp).as_str());
    r
}

/// The arguments of `odoo-bin` that create the database with `base` installed.
pub open spec fn base_init_args_spec(odoo_bin: Seq<char>, config: Seq<char>, db: Seq<char>) -> Seq<Seq<char>> {
    seq![odoo_bin, "-c"@, config, "-d"@, db, "--init"@, "base"@, "--no-http"@, "--stop-after-init"@, "--without-demo"@, "all"@]
}

pub fn base_init_args(odoo_bin: &str, config: &str, db: &str) -> (r: Vec<String>)
    ensures
        strs(r@) == base_init_args_spec(odoo_bin@, config@, db@),
{
    let r = vec![
        owned(odoo_bin),
        owned("-c"),
        owned(config),
        owned("-d"),
        owned(db),
        owned("--init"),
        owned("base"),
        owned("--no-http"),
        owned("--stop-after-init"),
        owned("--without-demo"),
        owned("all"),
    ];
    assert(strs(r@) =~= base_init_args_spec(odoo_bin@, config@, db@));
    r
}

/// The arguments of `odoo-bin` that install the modules and run the selected tests.
pub open spec fn test_run_args_spec(
    odoo_bin: Seq<char>,
    config: Seq<char>,
    db: Seq<char>,
    modules: Seq<char>,
    tags: Seq<char>,
    log_level: Seq<char>,
) -> Seq<Seq<char>> {
    seq![
        odoo_bin, "-c"@, config, "-d"@, db, "--init"@, modules, "--test-enable"@, "--test-tags"@, tags,
        "--no-http"@, "--stop-after-init"@, "--without-demo"@, "all"@, "--log-level="@ + log_level,
    ]
}

/// In the arguments of a test run, the value after `--init` is the module list and the
/// value after `--test-tags` is the tag selector, wherever those flags stand; the last
/// argument sets the log level. (A value given by the caller that is itself one of the two
/// flags would stand as a flag of its own, so such values are left out.)
pub proof fn law_test_run_flag_values(
    odoo_bin: Seq<char>,
    config: Seq<char>,
    db: Seq<char>,
    modules: Seq<char>,
    tags: Seq<char>,
    log_level: Seq<char>,
)
    requires
        forall|v: Seq<char>|
            #![auto]
            seq![odoo_bin, config, db, modules, tags].contains(v) ==> v != "--init"@ && v != "--test-tags"@,
    ensures
        ({
            let args = test_run_args_spec(odoo_bin, config, db, modules, tags, log_level);
            &&& exists|i: int| 0 <= i < args.len() - 1 && #[trigger] args[i] == "--init"@
            &&& exists|i: int| 0 <= i < args.len() - 1 && #[trigger] args[i] == "--test-tags"@
            &&& forall|i: int| 0 <= i < args.len() - 1 && #[trigger] args[i] == "--init"@ ==> args[i + 1] == modules
            &&& forall|i: int| 0 <= i < args.len() - 1 && #[trigger] args[i] == "--test-tags"@ ==> args[i + 1] == tags
            &&& args.last() == "--log-level="@ + log_level
        }),
{
    reveal_strlit("-c");
    reveal_strlit("-d");
    reveal_strlit("--init");
    reveal_strlit("--test-enable");
    reveal_strlit("--test-tags");
    reveal_strlit("--no-http");
    reveal_strlit("--stop-after-init");
    reveal_strlit("--without-demo");
    reveal_strlit("all");
    reveal_strlit("--log-level=");
    let vals = seq![odoo_bin, config, db, modules, tags];
    assert(vals.contains(odoo_bin) && vals[0] == odoo_bin);
    assert(vals[1] == config && vals.contains(config));
    assert(vals[2] == db && vals.contains(db));
    assert(vals[3] == modules && vals.contains(modules));
    assert(vals[4] == tags && vals.contains(tags));
    let args = test_run_args_spec(odoo_bin, config, db, modules, tags, log_level);
    let lvl = "--log-level="@ + log_level;
    assert(lvl[2] == 'l');
    assert(lvl != "--init"@ && lvl != "--test-tags"@) by {
        assert("--init"@[2] == 'i');
        assert("--test-tags"@[2] == 't');
    }
    assert(args[5] == "--init"@);
    assert(args[8] == "--test-tags"@);
    assert forall|i: int| 0 <= i < args.len() && i != 5 implies args[i] != "--init"@ by {
        if i != 0 && i != 2 && i != 4 && i != 6 && i != 9 && i != 14 {
            assert(args[i].len() != "--init"@.len());
        }
    }
    assert forall|i: int| 0 <= i < args.len() && i != 8 implies args[i] != "--test-tags"@ by {
        if i != 0 && i != 2 && i != 4 && i != 6 && i != 9 && i != 14 {
            assert(args[i].len() != "--test-tags"@.len());
        }
    }
}

pub fn test_run_args(
    odoo_bin: &str,
    config: &str,
    db: &str,
    modules: &str,
    tags: &str,
    log_level: &str,
) -> (r: Vec<String>)
    ensures
        strs(r@) == test_run_args_spec(odoo_bin@, config@, db@, modules@, tags@, log_level@),
        r@.len() == 15,
        r@[5]@ == "--init"@ && r@[6]@ == modules@,
        r@[8]@ == "--test-tags"@ && r@[9]@ == tags@,
{
    let r = vec![
        owned(odoo_bin),
        owned("-c"),
        owned(config),
        owned("-d"),
        owned(db),
        owned("--init"),
        owned(modules),
        owned("--test-enable"),
        owned("--test-tags"),
        owned(tags),
        owned("--no-http"),
        owned("--stop-after-init"),
        owned("--without-demo"),
        owned("all"),
        cat("--log-level=", log_level),
    ];
    assert(strs(r@) =~= test_run_args_spec(odoo_bin@, config@, db@, modules@, tags@, log_level@));
    r
}

/// What is printed when a run has been silent for a while.
pub open spec fn heartbeat_message_spec(tags: Seq<char>, seconds: u64) -> Seq<char> {
    if seconds == 0 {
        "===== Still running tests (no heartbeat configured) ====="@
    } else {
        "===== Still running tests: "@ + tags + " (no output for "@ + decimal(seconds as nat) + "s) ====="@
    }
}

pub fn heartbeat_message(tags: &str, seconds: u64) -> (r: String)
    ensures
        r@ == heartbeat_message_spec(tags@, seconds),
{
    if seconds == 0 {
        owned("===== Still running tests (no heartbeat configured) =====")
    } else {
        let mut r = cat("===== Still running tests: ", tags);
        r.append(" (no output for ");
        r.append(decimal_string(seconds).as_str());
        r.append("s) =====");
        r
    }
}

/// A run's log file, relative to the session directory.
pub fn run_log_rel(filename: &str) -> (r: String)
    ensures
        r@ == "runs/"@ + filename@,
{
    cat("runs/", filename)
}

/// The warnings `set` holds after the lines `ws` are added one by one, each only while
/// the set has fewer than [`MAX_WARNINGS`] lines.
pub open spec fn merged_warnings(set: Set<Seq<char>>, ws: Seq<Seq<char>>) -> Set<Seq<char>>
    decreases ws.len(),
{
    if ws.len() == 0 {
        set
    } else {
        let before = merged_warnings(set, ws.drop_last());
        if before.len() < MAX_WARNINGS {
            before.insert(ws.last())
        } else {
            before
        }
    }
}

/// Adds warning lines to the sorted set of distinct warnings, while it has room.
pub fn merge_warnings(set: &mut Vec<String>, ws: &Vec<String>)
    requires
        strictly_sorted(strs(old(set)@)),
    ensures
        strictly_sorted(strs(final(set)@)),
        strs(final(set)@).to_set() == merged_warnings(strs(old(set)@).to_set(), strs(ws@)),
{
    let ghost w = strs(ws@);
    let ghost start = strs(set@).to_set();
    let mut i: usize = 0;
    proof {
        lemma_sorted_unique(strs(set@));
    }
    while i < ws.len()
        invariant
            i <= ws@.len(),
            w == strs(ws@),
            strictly_sorted(strs(set@)),
            strs(set@).to_set() == merged_warnings(start, w.take(i as int)),
            strs(set@).to_set().len() == set@.len(),
        decreases ws.len() - i,
    {
        assert(w.take(i + 1).drop_last() =~= w.take(i as int));
        assert(w.take(i + 1).last() == w[i as int]);
        if set.len() < MAX_WARNINGS {
            insert_sorted(set, ws[i].clone());
            proof {
                lemma_sorted_unique(strs(set@));
            }
        }
        i = i + 1;
    }
    assert(w.take(w.len() as int) =~= w);
}

proof fn lemma_sorted_unique(s: Seq<Seq<char>>)
    requires
        strictly_sorted(s),
    ensures
        s.no_duplicates(),
        s.to_set().len() == s.len(),
{
    assert forall|i: int, j: int| 0 <= i < s.len() && 0 <= j < s.len() && i != j implies s[i] != s[j] by {
        if i < j {
            lemma_lex_irrefl(s[i]);
        } else {
            lemma_lex_irrefl(s[j]);
        }
    }
    s.unique_seq_to_set();
}

/// The session's set of warnings never grows past [`MAX_WARNINGS`] lines once it has
/// at most that many.
pub proof fn law_warnings_capped(set: Set<Seq<char>>, ws: Seq<Seq<char>>)
    requires
        set.finite(),
        set.len() <= MAX_WARNINGS,
    ensures
        merged_warnings(set, ws).finite(),
        merged_warnings(set, ws).len() <= MAX_WARNINGS,
        set.subset_of(merged_warnings(set, ws)),
    decreases ws.len(),
{
    if ws.len() > 0 {
        law_warnings_capped(set, ws.drop_last());
        let before = merged_warnings(set, ws.drop_last());
        if before.len() < MAX_WARNINGS {
            assert(before.insert(ws.last()).len() <= before.len() + 1) by {
                if before.contains(ws.last()) {
                    assert(before.insert(ws.last()) =~= before);
                }
            }
        }
    }
}

/// What a run records when it ends: its warnings join the session's set, the report
/// being read is closed, and the result carries the exit error when the run failed.
pub fn record_run(
    parser: &mut OutputParser,
    warnings: &mut Vec<String>,
    selector: &str,
    exit: Result<(), String>,
    log_file: String,
) -> (r: TagRunResult)
    requires
        strictly_sorted(strs(old(warnings)@)),
    ensures
        strictly_sorted(strs(final(warnings)@)),
        strs(final(warnings)@).to_set() == merged_warnings(strs(old(warnings)@).to_set(), old(parser)@.warnings),
        final(parser).patterns_ok() == old(parser).patterns_ok(),
        final(parser)@ == flushed(old(parser)@),
        r.selector@ == selector@,
        r.passed == (exit is Ok),
        (match exit {
            Ok(()) => r.exit_error is None,
            Err(e) => r.exit_error == Some(e),
        }),
        r.log_file == log_file,
        r.ran_tests == final(parser).ran_tests,
        r.failures == final(parser).failures,
        r.errors == final(parser).errors,
        r.skipped == final(parser).skipped,
        strs(r.failure_blocks@) == final(parser)@.failure_blocks,
        strs(r.warnings@) == final(parser)@.warnings,
{
    merge_warnings(warnings, &parser.warnings);
    parser.flush_failure_block();
    match exit {
        Ok(()) => TagRunResult::from_parser(owned(selector), true, None, log_file, parser),
        Err(e) => TagRunResult::from_parser(owned(selector), false, Some(e), log_file, parser),
    }
}

// ---------------------------------------------------------------------------
// Finding the project's modules
// ---------------------------------------------------------------------------

/// What is known of one entry of `custom_addons` (or of one of its subdirectories):
/// its name when it is valid UTF-8, whether it is a directory, whether it holds a
/// `__manifest__.py`, and, for a directory without one, its own entries.
pub struct AddonEntry {
    pub name: Option<String>,
    pub is_dir: bool,
    pub has_manifest: bool,
    pub children: Vec<AddonEntry>,
}

/// The module of one entry, if it is a directory with a manifest and a name.
pub open spec fn entry_module(e: AddonEntry) -> Seq<Seq<char>> {
    if e.is_dir && e.has_manifest {
        match e.name {
            Some(n) => seq![n@],
            None => Seq::empty(),
        }
    } else {
        Seq::empty()
    }
}

/// The modules among the direct entries of a namespace directory.
pub open spec fn child_modules(cs: Seq<AddonEntry>) -> Seq<Seq<char>>
    decreases cs.len(),
{
    if cs.len() == 0 {
        Seq::empty()
    } else {
        child_modules(cs.drop_last()) + entry_module(cs.last())
    }
}

/// The modules an entry of `custom_addons` gives: itself, or the modules one level
/// below it when it is a directory without a manifest.
pub open spec fn top_modules(e: AddonEntry) -> Seq<Seq<char>> {
    if !e.is_dir {
        Seq::empty()
    } else if e.has_manifest {
        entry_module(e)
    } else {
        child_modules(e.children@)
    }
}

pub open spec fn modules_of(es: Seq<AddonEntry>) -> Seq<Seq<char>>
    decreases es.len(),
{
    if es.len() == 0 {
        Seq::empty()
    } else {
        modules_of(es.drop_last()) + top_modules(es.last())
    }
}

fn entry_module_exec(e: &AddonEntry) -> (r: Vec<String>)
    ensures
        strs(r@) == entry_module(*e),
{
    let mut r: Vec<String> = Vec::new();
    if e.is_dir && e.has_manifest {
        match &e.name {
            Some(n) => {
                r.push(n.clone());
                assert(strs(r@) =~= seq![n@]);
            },
            None => {
                assert(strs(r@) =~= Seq::<Seq<char>>::empty());
            },
        }
    } else {
        assert(strs(r@) =~= Seq::<Seq<char>>::empty());
    }
    r
}

/// The modules under `custom_addons`, in the order of its entries: each directory with
/// a `__manifest__.py`, and for a directory without one, each of its subdirectories
/// that has one. None when the directory does not exist.
pub fn find_custom_modules(dir_exists: bool, entries: &Vec<AddonEntry>) -> (r: Vec<String>)
    ensures
        strs(r@) == (if dir_exists {
            modules_of(entries@)
        } else {
            Seq::empty()
        }),
{
    let mut r: Vec<String> = Vec::new();
    if !dir_exists {
        assert(strs(r@) =~= Seq::<Seq<char>>::empty());
        return r;
    }
    let ghost es = entries@;
    let mut i: usize = 0;
    assert(strs(r@) =~= Seq::<Seq<char>>::empty());
    while i < entries.len()
        invariant
            i <= es.len(),
            es == entries@,
            strs(r@) == modules_of(es.take(i as int)),
        decreases entries.len() - i,
    {
        assert(es.take(i + 1).drop_last() =~= es.take(i as int));
        assert(es.take(i + 1).last() == es[i as int]);
        let e = &entries[i];
        if e.is_dir {
            if e.has_manifest {
                extend_strings(&mut r, entry_module_exec(e));
            } else {
                let ghost cs = e.children@;
                let mut k: usize = 0;
                let ghost r0 = strs(r@);
                assert(cs.take(0) =~= Seq::<AddonEntry>::empty());
                while k < e.children.len()
                    invariant
                        k <= cs.len(),
                        cs == e.children@,
                        strs(r@) == r0 + child_modules(cs.take(k as int)),
                    decreases e.children.len() - k,
                {
                    assert(cs.take(k + 1).drop_last() =~= cs.take(k as int));
                    assert(cs.take(k + 1).last() == cs[k as int]);
                    extend_strings(&mut r, entry_module_exec(&e.children[k]));
                    assert(r0 + child_modules(cs.take(k + 1)) =~= r0 + child_modules(cs.take(k as int)) + entry_module(cs[k as int]));
                    k = k + 1;
                }
                assert(cs.take(cs.len() as int) =~= cs);
            }
        } else {
            assert(strs(r@) =~= strs(r@) + Seq::<Seq<char>>::empty());
        }
        i = i + 1;
    }
    assert(es.take(es.len() as int) =~= es);
    r
}


// ---------------------------------------------------------------------------
// The session record
// ---------------------------------------------------------------------------

/// What `session.json` records of a session.
pub struct SessionMeta {
    pub run_id: String,
    pub db_name: String,
    pub tags: Vec<String>,
    pub modules: Vec<String>,
    pub started_at: u64,
    pub finished_at: Option<u64>,
    pub total_runs: usize,
    pub passed: usize,
    pub failed: usize,
}

/// The start time of a session: its run id read as seconds, or 0.
pub open spec fn started_at_of(run_id: Seq<char>) -> u64 {
    match parse_u64(run_id) {
        Some(n) => n,
        None => 0,
    }
}

impl SessionMeta {
    /// The record written when a session starts.
    pub fn started(run_id: &str, db_name: &str, tags: &Vec<String>, modules: &Vec<String>) -> (m: SessionMeta)
        ensures
            m.run_id@ == run_id@,
            m.db_name@ == db_name@,
            strs(m.tags@) == strs(tags@),
            strs(m.modules@) == strs(modules@),
            m.started_at == started_at_of(run_id@),
            m.finished_at is None,
            m.total_runs == 0,
            m.passed == 0,
            m.failed == 0,
    {
        let started_at = match parse_u64_str(run_id) {
            Some(n) => n,
            None => 0,
        };
        SessionMeta {
            run_id: owned(run_id),
            db_name: owned(db_name),
            tags: copy_strings(tags),
            modules: copy_strings(modules),
            started_at,
            finished_at: None,
            total_runs: 0,
            passed: 0,
            failed: 0,
        }
    }

    /// The record written when a session ends at `finished_at`, with the tags and
    /// modules read back from the first record.
    pub fn finished(
        session: &TestSession,
        tags: Vec<String>,
        modules: Vec<String>,
        finished_at: u64,
        runs: &Vec<TagRunResult>,
    ) -> (m: SessionMeta)
        ensures
            m.run_id@ == session.run_id@,
            m.db_name@ == session.db_name@,
            m.tags == tags,
            m.modules == modules,
            m.started_at == started_at_of(session.run_id@),
            m.finished_at == Some(finished_at),
            m.total_runs == runs@.len(),
            m.passed == passed_count(runs@),
            m.failed == runs@.len() - passed_count(runs@),
    {
        let ghost rs = runs@;
        let mut passed: usize = 0;
        let mut i: usize = 0;
        while i < runs.len()
            invariant
                i <= rs.len(),
                rs == runs@,
                passed == passed_count(rs.take(i as int)),
            decreases runs.len() - i,
        {
            proof {
                lemma_counts_bounded(rs, i as int);
                assert(rs.take(i + 1).drop_last() =~= rs.take(i as int));
            }
            if runs[i].passed {
                passed = passed + 1;
            }
            i = i + 1;
        }
        proof {
            assert(rs.take(rs.len() as int) =~= rs);
            lemma_passed_bounded(rs);
        }
        let started_at = match parse_u64_str(session.run_id.as_str()) {
            Some(n) => n,
            None => 0,
        };
        SessionMeta {
            run_id: owned(session.run_id.as_str()),
            db_name: owned(session.db_name.as_str()),
            tags,
            modules,
            started_at,
            finished_at: Some(finished_at),
            total_runs: runs.len(),
            passed,
            failed: runs.len() - passed,
        }
    }
}

#[verifier::external_type_specification]
#[verifier::external_body]
pub struct ExJsonError(serde_json::Error);

/// What `serde_json::from_str::<serde_json::Value>(content)` gives, read at `key` as
/// an array of strings: `None` when `content` is not JSON; `Some(None)` when there is
/// no array at `key`; otherwise each item, `None` for one that is not a string.
pub uninterp spec fn json_string_array(content: Seq<char>, key: Seq<char>) -> Option<Option<Seq<Option<Seq<char>>>>>;

/// `serde_json::from_str` into a `Value`, then `Value::get(key)`, `Value::as_array` and
/// `Value::as_str` of each item. Claims that the outcome is the named function of the
/// text and the key.
#[verifier::external_body]
fn parse_string_array(content: &str, key: &str) -> (r: Result<Option<Vec<Option<String>>>, serde_json::Error>)
    ensures
        (match r {
            Ok(v) => json_string_array(content@, key@) == Some(v.deep_view()),
            Err(_) => json_string_array(content@, key@) is None,
        }),
{
    match serde_json::from_str::<serde_json::Value>(content) {
        Ok(v) => Ok(v.get(key).and_then(|t| t.as_array()).map(
            |arr| arr.iter().map(|x| x.as_str().map(|s| s.to_string())).collect(),
        )),
        Err(e) => Err(e),
    }
}

/// The text of a `serde_json::Error`, as its `Display` writes it; nothing is claimed of
/// the wording.
#[verifier::external_body]
fn json_error_text(e: &serde_json::Error) -> String {
    e.to_string()
}

/// The string items, in order, skipping those that are not strings.
pub open spec fn present_items(items: Seq<Option<Seq<char>>>) -> Seq<Seq<char>>
    decreases items.len(),
{
    if items.len() == 0 {
        Seq::empty()
    } else {
        present_items(items.drop_last()) + match items.last() {
            Some(x) => seq![x],
            None => Seq::empty(),
        }
    }
}

/// The strings of the array at `key` of a `session.json` read from `path`: none when
/// there is no such array, an error naming `path` when the text is not JSON.
pub fn session_strings(path: &str, content: &str, key: &str) -> (r: Result<Vec<String>, String>)
    ensures
        (match json_string_array(content@, key@) {
            None => r is Err && starts_with(r->Err_0@, "Failed to parse "@ + path@ + ": "@),
            Some(None) => r is Ok && r->Ok_0@.len() == 0,
            Some(Some(items)) => r is Ok && strs(r->Ok_0@) == present_items(items),
        }),
{
    match parse_string_array(content, key) {
        Err(e) => {
            let mut m = cat3("Failed to parse ", path, ": ");
            let ghost head = m@;
            m.append(json_error_text(&e).as_str());
            assert(m@.take(head.len() as int) =~= head);
            Err(m)
        },
        Ok(None) => Ok(Vec::new()),
        Ok(Some(items)) => {
            let ghost iv = items.deep_view();
            let mut out: Vec<String> = Vec::new();
            let mut i: usize = 0;
            while i < items.len()
                invariant
                    i <= items@.len(),
                    iv == items.deep_view(),
                    iv.len() == items@.len(),
                    strs(out@) == present_items(iv.take(i as int)),
                decreases items.len() - i,
            {
                assert(iv.take(i + 1).drop_last() =~= iv.take(i as int));
                assert(iv.take(i + 1).last() == iv[i as int]);
                match &items[i] {
                    Some(x) => {
                        let ghost o0 = strs(out@);
                        out.push(x.clone());
                        assert(strs(out@) =~= o0 + seq![x@]);
                    },
                    None => {
                        assert(strs(out@) =~= strs(out@) + Seq::<Seq<char>>::empty());
                    },
                }
                i = i + 1;
            }
            assert(iv.take(iv.len() as int) =~= iv);
            Ok(out)
        },
    }
}

/// The tags a session recorded.
pub fn read_session_tags(path: &str, content: &str) -> (r: Result<Vec<String>, String>)
    ensures
        (match json_string_array(content@, "tags"@) {
            None => r is Err && starts_with(r->Err_0@, "Failed to parse "@ + path@ + ": "@),
            Some(None) => r is Ok && r->Ok_0@.len() == 0,
            Some(Some(items)) => r is Ok && strs(r->Ok_0@) == present_items(items),
        }),
{
    session_strings(path, content, "tags")
}

/// The modules a session recorded.
pub fn read_session_modules(path: &str, content: &str) -> (r: Result<Vec<String>, String>)
    ensures
        (match json_string_array(content@, "modules"@) {
            None => r is Err && starts_with(r->Err_0@, "Failed to parse "@ + path@ + ": "@),
            Some(None) => r is Ok && r->Ok_0@.len() == 0,
            Some(Some(items)) => r is Ok && strs(r->Ok_0@) == present_items(items),
        }),
{
    session_strings(path, content, "modules")
}


// ---------------------------------------------------------------------------
// Preparing a test session
// ---------------------------------------------------------------------------

/// The modules to install, joined for `--init`; there must be some.
pub fn modules_arg(modules: &Vec<String>) -> (r: Result<String, String>)
    ensures
        modules@.len() == 0 <==> r is Err,
        r matches Ok(m) ==> m@ == join(strs(modules@), ","@),
        r matches Err(e) ==> e@ == "No modules found in custom_addons"@,
{
    if modules.len() == 0 {
        return Err(owned("No modules found in custom_addons"));
    }
    Ok(join_strings(modules, ","))
}

/// `--test-tags`: the normalized specs joined with commas.
pub fn tags_arg(tags: &[String]) -> (r: String)
    ensures
        r@ == join(normalized_specs(strs(tags@)), ","@),
{
    let specs = normalize_specs(tags);
    join_strings(&specs, ",")
}

/// What `wkhtmltopdf -V` printed names the supported build: 0.12.6.1 with patched Qt.
pub open spec fn wkhtmltopdf_ok(version_text: Seq<char>) -> bool {
    contains(version_text, "0.12.6.1"@) && contains(lowercase(version_text), "patched qt"@)
}

pub fn wkhtmltopdf_version_ok(version_text: &str) -> (r: bool)
    ensures
        r == wkhtmltopdf_ok(version_text@),
{
    contains_str(version_text, "0.12.6.1") && contains_str(to_lower(version_text).as_str(), "patched qt")
}

/// `PATH` for the test run: wkhtmltopdf's directory first, so Odoo finds it.
pub fn build_path_env(extra_dir: &str, current: &str) -> (r: String)
    ensures
        r@ == extra_dir@ + ":"@ + current@,
{
    cat3(extra_dir, ":", current)
}

/// What is said when the temporary database could not be dropped: the failure, then
/// how to drop it by hand.
pub fn drop_failed_messages(db_name: &str, err: &str) -> (r: (String, String))
    ensures
        r.0@ == "Failed to drop temporary database "@ + db_name@ + ": "@ + err@,
        r.1@ == "You may need to manually drop it: odx db drop --force --if-exists "@ + db_name@,
{
    let mut a = cat3("Failed to drop temporary database ", db_name, ": ");
    a.append(err);
    (a, cat("You may need to manually drop it: odx db drop --force --if-exists ", db_name))
}

} // verus!
