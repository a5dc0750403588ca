//! The log model behind `odx run`: classifying odoo-bin log lines, the level filter,
//! the bounded line buffer, and the dashboard state that keys and the mouse drive.
//!
//! Drawing the dashboard and talking to the terminal happen outside this crate; what
//! they need to decide (which lines are visible, which window of them is on screen,
//! how a key changes the state) is here.
use vstd::prelude::*;
use std::collections::VecDeque;
use crate::pattern::{compiled_from, group, get_group, regex_captures, regex_groups, slot_captures, CompiledPattern};
use crate::text::{
    cat, contains, contains_chars, chars_of, lowercase, pop_char, push_char, signed_decimal,
    signed_decimal_string, str_eq, to_lower, decimal, decimal_string, debug_quoted, debug_str,
};
use crate::ui::Ui;

verus! {

/// Odoo's standard log line: `<date> <time> <pid> LEVEL <db> <module>: message`.
pub const LEVEL_PATTERN: &'static str = "^\\S+\\s+\\S+\\s+\\d+\\s+(DEBUG|INFO|WARNING|ERROR|CRITICAL)\\b";

/// Lines kept by the dashboard.
pub const MAX_LINES: usize = 10000;

/// Lines moved per wheel notch.
pub const SCROLL_STEP: usize = 3;

#[derive(Debug, Clone, Copy, PartialEq, Eq, Structural)]
pub enum LogLevel {
    Debug,
    Info,
    Warning,
    Error,
    Critical,
    Unknown,
    /// Emitted by odx itself (restart markers), never parsed from odoo-bin output.
    Notice,
}

/// The level a captured level name stands for.
pub open spec fn level_named(name: Seq<char>) -> LogLevel {
    if name == "DEBUG"@ {
        LogLevel::Debug
    } else if name == "INFO"@ {
        LogLevel::Info
    } else if name == "WARNING"@ {
        LogLevel::Warning
    } else if name == "ERROR"@ {
        LogLevel::Error
    } else if name == "CRITICAL"@ {
        LogLevel::Critical
    } else {
        LogLevel::Unknown
    }
}

/// The level of a raw line: the name captured by [`LEVEL_PATTERN`], or `Unknown`.
pub open spec fn parsed_level(raw: Seq<char>) -> LogLevel {
    match group(regex_groups(LEVEL_PATTERN@, raw), 1) {
        Some(name) => level_named(name),
        None => LogLevel::Unknown,
    }
}

fn level_from_name(name: &str) -> (r: LogLevel)
    ensures
        r == level_named(name@),
{
    if str_eq(name, "DEBUG") {
        LogLevel::Debug
    } else if str_eq(name, "INFO") {
        LogLevel::Info
    } else if str_eq(name, "WARNING") {
        LogLevel::Warning
    } else if str_eq(name, "ERROR") {
        LogLevel::Error
    } else if str_eq(name, "CRITICAL") {
        LogLevel::Critical
    } else {
        LogLevel::Unknown
    }
}

/// [`LEVEL_PATTERN`], compiled once.
pub struct LevelMatcher {
    slot: Option<CompiledPattern>,
}

impl LevelMatcher {
    pub closed spec fn ok(&self) -> bool {
        compiled_from(self.slot, LEVEL_PATTERN@)
    }

    pub fn new() -> (r: LevelMatcher)
        ensures
            r.ok(),
    {
        LevelMatcher { slot: CompiledPattern::new(LEVEL_PATTERN) }
    }

    fn groups(&self, raw: &str) -> (r: Option<Option<Vec<Option<String>>>>)
        requires
            self.ok(),
        ensures
            r.deep_view() == regex_groups(LEVEL_PATTERN@, raw@),
    {
        slot_captures(&self.slot, raw, Ghost(LEVEL_PATTERN@))
    }
}

/// One line of odoo-bin output (or of odx itself), classified.
#[derive(Debug)]
pub struct OdooLogLine {
    pub raw: String,
    pub level: LogLevel,
    /// Lower-cased copy of `raw`, built once so searching does not redo it per frame.
    pub lower: String,
}

impl OdooLogLine {
    /// The cached lower-case copy is the lower case of `raw`.
    pub open spec fn wf(&self) -> bool {
        self.lower@ == lowercase(self.raw@)
    }

    pub fn parse(raw: &str) -> (r: Self)
        ensures
            r.raw@ == raw@,
            r.level == parsed_level(raw@),
            r.wf(),
    {
        let caps = regex_captures(LEVEL_PATTERN, raw);
        let level = match get_group(&caps, 1) {
            Some(name) => level_from_name(name.as_str()),
            None => LogLevel::Unknown,
        };
        OdooLogLine { raw: raw.to_owned(), level, lower: to_lower(raw) }
    }

    /// [`OdooLogLine::parse`] with the level pattern compiled once by the caller.
    pub fn parse_with(levels: &LevelMatcher, raw: &str) -> (r: Self)
        requires
            levels.ok(),
        ensures
            r.raw@ == raw@,
            r.level == parsed_level(raw@),
            r.wf(),
    {
        let caps = levels.groups(raw);
        let level = match get_group(&caps, 1) {
            Some(name) => level_from_name(name.as_str()),
            None => LogLevel::Unknown,
        };
        OdooLogLine { raw: raw.to_owned(), level, lower: to_lower(raw) }
    }

    /// A line written by odx itself rather than by odoo-bin.
    pub fn notice(msg: String) -> (r: Self)
        ensures
            r.raw@ == msg@,
            r.level == LogLevel::Notice,
            r.wf(),
    {
        let lower = to_lower(msg.as_str());
        OdooLogLine { raw: msg, level: LogLevel::Notice, lower }
    }
}

// ---------------------------------------------------------------------------
// Coloring for the plain (non-dashboard) output
// ---------------------------------------------------------------------------

/// Terminal styles used for log lines.
#[derive(Debug, Clone, Copy, PartialEq, Eq, Structural)]
pub enum Tone {
    Dim,
    Yellow,
    RedBold,
    MagentaBold,
    Cyan,
    Green,
    GreenBold,
    Bold,
}

/// The escape sequence `console` writes before a line in the given style.
pub open spec fn tone_prefix(t: Tone) -> Seq<char> {
    match t {
        Tone::Dim => "\u{1b}[2m"@,
        Tone::Yellow => "\u{1b}[33m"@,
        Tone::RedBold => "\u{1b}[31m\u{1b}[1m"@,
        Tone::MagentaBold => "\u{1b}[35m\u{1b}[1m"@,
        Tone::Cyan => "\u{1b}[36m"@,
        Tone::Green => "\u{1b}[32m"@,
        Tone::GreenBold => "\u{1b}[32m\u{1b}[1m"@,
        Tone::Bold => "\u{1b}[1m"@,
    }
}

/// `console::style(raw)` with the tone's color/attribute, rendered to a string. The
/// crate writes escapes only when it finds colors enabled for stdout (terminal and
/// `CLICOLOR*` environment), so the result is either the plain text or the text
/// wrapped in the tone's escapes and a reset; which one is not claimed.
#[verifier::external_body]
pub(crate) fn paint(raw: &str, tone: Tone) -> (r: String)
    ensures
        r@ == raw@ || r@ == tone_prefix(tone) + raw@ + "\u{1b}[0m"@,
{
    let s = console::style(raw);
    match tone {
        Tone::Dim => s.dim(),
        Tone::Yellow => s.yellow(),
        Tone::RedBold => s.red().bold(),
        Tone::MagentaBold => s.magenta().bold(),
        Tone::Cyan => s.cyan(),
        Tone::Green => s.green(),
        Tone::GreenBold => s.green().bold(),
        Tone::Bold => s.bold(),
    }.to_string()
}

/// The tone a level is shown in; `None` for levels shown as they are.
pub open spec fn level_tone(level: LogLevel) -> Option<Tone> {
    match level {
        LogLevel::Debug => Some(Tone::Dim),
        LogLevel::Warning => Some(Tone::Yellow),
        LogLevel::Error => Some(Tone::RedBold),
        LogLevel::Critical => Some(Tone::MagentaBold),
        LogLevel::Notice => Some(Tone::Cyan),
        LogLevel::Info | LogLevel::Unknown => None,
    }
}

/// What a line may look like after coloring with a given color decision: itself when
/// colors are off or its level is shown as it is; otherwise itself or wrapped in its
/// level's escapes (which of the two, `console` decides from the environment).
pub open spec fn colorized(use_color: bool, line: OdooLogLine, out: Seq<char>) -> bool {
    if !use_color || level_tone(line.level) is None {
        out == line.raw@
    } else {
        out == line.raw@ || out == tone_prefix(level_tone(line.level)->0) + line.raw@ + "\u{1b}[0m"@
    }
}

/// Colors a line by level, with the color decision already made by the caller.
pub fn colorize_with(use_color: bool, line: &OdooLogLine) -> (r: String)
    ensures
        colorized(use_color, *line, r@),
{
    if !use_color {
        return line.raw.clone();
    }
    match line.level {
        LogLevel::Debug => paint(line.raw.as_str(), Tone::Dim),
        LogLevel::Warning => paint(line.raw.as_str(), Tone::Yellow),
        LogLevel::Error => paint(line.raw.as_str(), Tone::RedBold),
        LogLevel::Critical => paint(line.raw.as_str(), Tone::MagentaBold),
        LogLevel::Notice => paint(line.raw.as_str(), Tone::Cyan),
        LogLevel::Info | LogLevel::Unknown => line.raw.clone(),
    }
}

/// Colors a line by level as the UI's color decision says, for whatever state of the
/// terminal it found: never with `--color never` or `--json`, and lines of levels
/// shown as they are stay plain.
pub fn colorize(ui: &Ui, line: &OdooLogLine) -> (r: String)
    ensures
        exists|tty: bool| #[trigger] colorized(crate::ui::color_wanted(ui.cfg(), tty), *line, r@),
        crate::ui::plain_only(ui.cfg()) ==> r@ == line.raw@,
        level_tone(line.level) is None ==> r@ == line.raw@,
{
    let c = ui.use_color();
    let r = colorize_with(c, line);
    proof {
        let tty = choose|tty: bool| c == crate::ui::color_wanted(ui.cfg(), tty);
        assert(colorized(crate::ui::color_wanted(ui.cfg(), tty), *line, r@));
    }
    r
}

// ---------------------------------------------------------------------------
// Level filter
// ---------------------------------------------------------------------------

#[derive(Debug, Clone, Copy, PartialEq, Eq, Structural)]
pub enum LevelFilter {
    All,
    Info,
    Warning,
    Error,
}

/// How strict a filter is: each one hides everything the previous one hides.
pub open spec fn strictness(f: LevelFilter) -> int {
    match f {
        LevelFilter::All => 0,
        LevelFilter::Info => 1,
        LevelFilter::Warning => 2,
        LevelFilter::Error => 3,
    }
}

/// The filter that comes after `f` when cycling with 'l'.
pub open spec fn next_filter(f: LevelFilter) -> LevelFilter {
    match f {
        LevelFilter::All => LevelFilter::Info,
        LevelFilter::Info => LevelFilter::Warning,
        LevelFilter::Warning => LevelFilter::Error,
        LevelFilter::Error => LevelFilter::All,
    }
}

/// Whether a filter lets a level through. odx's own notices always pass.
pub open spec fn filter_matches(f: LevelFilter, level: LogLevel) -> bool {
    if level == LogLevel::Notice {
        true
    } else {
        match f {
            LevelFilter::All => true,
            LevelFilter::Info => level != LogLevel::Debug,
            LevelFilter::Warning => level == LogLevel::Warning || level == LogLevel::Error
                || level == LogLevel::Critical,
            LevelFilter::Error => level == LogLevel::Error || level == LogLevel::Critical,
        }
    }
}

/// How the status line names a filter.
pub open spec fn filter_label(f: LevelFilter) -> Seq<char> {
    match f {
        LevelFilter::All => "ALL"@,
        LevelFilter::Info => "INFO"@,
        LevelFilter::Warning => "WARN"@,
        LevelFilter::Error => "ERROR"@,
    }
}

impl LevelFilter {
    pub fn next(self) -> (r: Self)
        ensures
            r == next_filter(self),
    {
        match self {
            LevelFilter::All => LevelFilter::Info,
            LevelFilter::Info => LevelFilter::Warning,
            LevelFilter::Warning => LevelFilter::Error,
            LevelFilter::Error => LevelFilter::All,
        }
    }

    pub fn label(self) -> (r: &'static str)
        ensures
            r@ == filter_label(self),
    {
        match self {
            LevelFilter::All => "ALL",
            LevelFilter::Info => "INFO",
            LevelFilter::Warning => "WARN",
            LevelFilter::Error => "ERROR",
        }
    }

    pub fn matches(self, level: LogLevel) -> (r: bool)
        ensures
            r == filter_matches(self, level),
    {
        if let LogLevel::Notice = level {
            return true;
        }
        match self {
            LevelFilter::All => true,
            LevelFilter::Info => !matches!(level, LogLevel::Debug),
            LevelFilter::Warning => matches!(
                level,
                LogLevel::Warning | LogLevel::Error | LogLevel::Critical
            ),
            LevelFilter::Error => matches!(level, LogLevel::Error | LogLevel::Critical),
        }
    }
}

/// Cycling with 'l' comes back to the start after four presses, through every filter.
pub proof fn law_filter_cycle(f: LevelFilter)
    ensures
        next_filter(next_filter(next_filter(next_filter(f)))) == f,
        f != next_filter(f),
        f != next_filter(next_filter(f)),
        f != next_filter(next_filter(next_filter(f))),
{
}

/// Filters are inclusive upward: a level shown by a stricter filter is shown by every
/// less strict one.
pub proof fn law_filter_monotone(f: LevelFilter, g: LevelFilter, level: LogLevel)
    requires
        strictness(g) <= strictness(f),
        filter_matches(f, level),
    ensures
        filter_matches(g, level),
{
}

/// odx's notices (restart markers) survive every filter.
pub proof fn law_notice_always_shown(f: LevelFilter)
    ensures
        filter_matches(f, LogLevel::Notice),
{
}

// ---------------------------------------------------------------------------
// Line buffer
// ---------------------------------------------------------------------------

/// Whether a line is shown under a filter and a lower-cased search needle.
pub open spec fn shown(l: OdooLogLine, f: LevelFilter, needle: Seq<char>) -> bool {
    filter_matches(f, l.level) && (needle.len() == 0 || contains(lowercase(l.raw@), needle))
}

/// The needle a search query gives: none for an empty query, else the query in lower
/// case.
pub open spec fn search_needle(query: Seq<char>) -> Seq<char> {
    if query.len() == 0 {
        Seq::empty()
    } else {
        lowercase(query)
    }
}

/// The lines shown, in buffer order.
pub open spec fn shown_lines(s: Seq<OdooLogLine>, f: LevelFilter, needle: Seq<char>) -> Seq<
    OdooLogLine,
>
    decreases s.len(),
{
    if s.len() == 0 {
        Seq::empty()
    } else {
        let rest = shown_lines(s.drop_last(), f, needle);
        if shown(s.last(), f, needle) {
            rest.push(s.last())
        } else {
            rest
        }
    }
}

/// The newest lines odoo-bin printed, at most `cap` of them.
pub struct LogBuffer {
    lines: VecDeque<OdooLogLine>,
    cap: usize,
    total_received: u64,
}

/// Lines kept after appending `line` to `s` with capacity `cap`: the oldest line goes
/// first when the buffer is full.
pub open spec fn after_push(s: Seq<OdooLogLine>, cap: nat, line: OdooLogLine) -> Seq<OdooLogLine> {
    if s.len() >= cap && s.len() > 0 {
        s.drop_first().push(line)
    } else {
        s.push(line)
    }
}

impl LogBuffer {
    pub closed spec fn contents(&self) -> Seq<OdooLogLine> {
        self.lines@
    }

    pub closed spec fn capacity(&self) -> nat {
        self.cap as nat
    }

    pub closed spec fn received(&self) -> nat {
        self.total_received as nat
    }

    /// Every stored line has its lower-case copy.
    pub closed spec fn wf(&self) -> bool {
        forall|i: int| 0 <= i < self.lines@.len() ==> #[trigger] self.lines@[i].wf()
    }

    pub fn new(cap: usize) -> (r: Self)
        ensures
            r.wf(),
            r.contents() == Seq::<OdooLogLine>::empty(),
            r.capacity() == cap,
            r.received() == 0,
    {
        let initial = if cap < 1024 { cap } else { 1024 };
        LogBuffer { lines: VecDeque::with_capacity(initial), cap, total_received: 0 }
    }

    /// Lines ever pushed, including evicted ones.
    pub fn total_received(&self) -> (r: u64)
        ensures
            r == self.received(),
    {
        self.total_received
    }

    /// Number of lines held.
    pub fn len(&self) -> (r: usize)
        ensures
            r == self.contents().len(),
    {
        self.lines.len()
    }

    pub fn push(&mut self, line: OdooLogLine)
        requires
            old(self).wf(),
            line.wf(),
            old(self).received() < u64::MAX,
        ensures
            final(self).wf(),
            final(self).capacity() == old(self).capacity(),
            final(self).received() == old(self).received() + 1,
            final(self).contents() == after_push(old(self).contents(), old(self).capacity(), line),
    {
        self.total_received = self.total_received + 1;
        if self.lines.len() >= self.cap {
            let _ = self.lines.pop_front();
        }
        self.lines.push_back(line);
        assert forall|i: int| 0 <= i < self.lines@.len() implies #[trigger] self.lines@[i].wf() by {
            if i < self.lines@.len() - 1 {
                if old(self).lines@.len() >= old(self).cap && old(self).lines@.len() > 0 {
                    assert(self.lines@[i] == old(self).lines@[i + 1]);
                } else {
                    assert(self.lines@[i] == old(self).lines@[i]);
                }
            }
        }
    }

    /// The lines that pass the filter and contain the query, ignoring case, oldest first.
    pub fn visible(&self, filter: LevelFilter, query: &str) -> (r: Vec<&OdooLogLine>)
        requires
            self.wf(),
        ensures
            r@.len() == shown_lines(self.contents(), filter, search_needle(query@)).len(),
            forall|i: int| 0 <= i < r@.len() ==> *r@[i] == #[trigger] shown_lines(
                self.contents(),
                filter,
                search_needle(query@),
            )[i],
    {
        let needle: Vec<char> = if query.unicode_len() == 0 {
            Vec::new()
        } else {
            let needle_s = to_lower(query);
            chars_of(needle_s.as_str())
        };
        let ghost n = search_needle(query@);
        let mut r: Vec<&OdooLogLine> = Vec::new();
        let len = self.lines.len();
        let mut i: usize = 0;
        while i < len
            invariant
                len == self.lines@.len(),
                i <= len,
                self.wf(),
                needle@ == n,
                r@.len() == shown_lines(self.lines@.take(i as int), filter, n).len(),
                forall|k: int| 0 <= k < r@.len() ==> *r@[k] == #[trigger] shown_lines(
                    self.lines@.take(i as int),
                    filter,
                    n,
                )[k],
            decreases len - i,
        {
            let l = &self.lines[i];
            assert(self.lines@.take(i + 1).drop_last() =~= self.lines@.take(i as int));
            assert(self.lines@.take(i + 1).last() == self.lines@[i as int]);
            assert(self.lines@[i as int].wf());
            let keep = filter.matches(l.level) && (needle.len() == 0 || contains_chars(
                &chars_of(l.lower.as_str()),
                &needle,
            ));
            if keep {
                r.push(l);
            }
            i = i + 1;
        }
        assert(self.lines@.take(len as int) =~= self.lines@);
        r
    }
}

/// With no search query, the lines shown are exactly those the level filter passes.
pub proof fn law_empty_query_keeps_filtered(f: LevelFilter, l: OdooLogLine)
    ensures
        shown(l, f, search_needle(Seq::empty())) == filter_matches(f, l.level),
{
}

/// The buffer never holds more lines than its capacity (or one line, for a capacity
/// of zero), whatever is pushed.
pub proof fn law_buffer_bounded(s: Seq<OdooLogLine>, cap: nat, line: OdooLogLine)
    requires
        s.len() <= cap || (cap == 0 && s.len() <= 1),
    ensures
        after_push(s, cap, line).len() <= cap || (cap == 0 && after_push(s, cap, line).len()
            <= 1),
        after_push(s, cap, line).last() == line,
{
}

/// A full buffer drops exactly its oldest line: the rest keep their order.
pub proof fn law_buffer_evicts_oldest(s: Seq<OdooLogLine>, cap: nat, line: OdooLogLine)
    requires
        s.len() >= cap,
        s.len() > 0,
    ensures
        after_push(s, cap, line) == s.subrange(1, s.len() as int).push(line),
{
    assert(s.drop_first() =~= s.subrange(1, s.len() as int));
}

/// Searching and filtering combine: a line is shown exactly when both agree.
pub proof fn law_shown_lines_are_shown(s: Seq<OdooLogLine>, f: LevelFilter, needle: Seq<char>)
    ensures
        forall|i: int|
            0 <= i < shown_lines(s, f, needle).len() ==> shown(
                #[trigger] shown_lines(s, f, needle)[i],
                f,
                needle,
            ),
        shown_lines(s, f, needle).len() <= s.len(),
    decreases s.len(),
{
    if s.len() > 0 {
        law_shown_lines_are_shown(s.drop_last(), f, needle);
    }
}


// ---------------------------------------------------------------------------
// Dashboard state
// ---------------------------------------------------------------------------

/// A key as the dashboard sees it: what was pressed and whether Ctrl or Alt was held.
#[derive(Debug, Clone, Copy, PartialEq, Eq, Structural)]
pub enum KeyCode {
    Char(char),
    Enter,
    Esc,
    Backspace,
    Up,
    Down,
    PageUp,
    PageDown,
    Other,
}

#[derive(Debug, Clone, Copy, PartialEq, Eq, Structural)]
pub struct Key {
    pub code: KeyCode,
    pub ctrl: bool,
    pub alt: bool,
}

impl Key {
    /// A key pressed without modifiers.
    pub fn plain(code: KeyCode) -> (r: Key)
        ensures
            r == (Key { code, ctrl: false, alt: false }),
    {
        Key { code, ctrl: false, alt: false }
    }
}

/// Mouse events that matter to the dashboard.
#[derive(Debug, Clone, Copy, PartialEq, Eq, Structural)]
pub enum MouseKind {
    ScrollUp,
    ScrollDown,
    Other,
}

/// How the dashboard session ended.
#[derive(Debug, Clone, Copy, PartialEq, Eq, Structural)]
pub enum Outcome {
    /// The user quit while odoo-bin was still running; the caller must stop it.
    UserQuit,
    /// odoo-bin exited on its own. `code` is `None` when it was killed by a signal.
    ChildExited { code: Option<i32> },
}

pub struct App {
    pub buffer: LogBuffer,
    pub filter: LevelFilter,
    pub search_query: String,
    /// The query being typed after '/', if any.
    pub search_input: Option<String>,
    /// Lines scrolled up from the tail of the visible set; 0 follows the tail.
    pub scroll: usize,
    /// Largest useful `scroll` in the last rendered frame.
    pub max_scroll: usize,
    /// Visible log rows in the last rendered frame.
    pub body_height: usize,
    pub should_quit: bool,
    /// Whether wheel events are captured (which costs the terminal's own selection).
    pub mouse_capture: bool,
    /// Set by 'm'; the event loop applies it, since it talks to the terminal.
    pub toggle_mouse: bool,
    /// Set by 'r'; the event loop performs the restart.
    pub restart_requested: bool,
    pub restarts: usize,
    pub running: bool,
}

/// The part of the dashboard state a key can change.
pub struct KeyState {
    pub query: Seq<char>,
    pub input: Option<Seq<char>>,
    pub filter: LevelFilter,
    pub scroll: int,
    pub quit: bool,
    pub restart: bool,
    pub toggle: bool,
}

pub open spec fn is_ctrl_c(key: Key) -> bool {
    key.ctrl && key.code == KeyCode::Char('c')
}

/// Scrolling back towards older lines stops at `max`.
pub open spec fn scrolled_up(scroll: int, lines: int, max: int) -> int {
    if scroll + lines < max {
        scroll + lines
    } else {
        max
    }
}

/// Scrolling towards the tail stops at 0.
pub open spec fn scrolled_down(scroll: int, lines: int) -> int {
    if scroll > lines {
        scroll - lines
    } else {
        0
    }
}

/// One screenful: the last rendered height, at least one line.
pub open spec fn page_of(body_height: int) -> int {
    if body_height > 1 {
        body_height
    } else {
        1
    }
}

/// What a key press does to the key-driven state, given the last rendered frame.
pub open spec fn key_step(s: KeyState, key: Key, max: int, page: int) -> KeyState {
    if is_ctrl_c(key) {
        KeyState { quit: true, ..s }
    } else {
        match s.input {
            Some(buf) => match key.code {
                KeyCode::Enter => KeyState { query: buf, input: None, ..s },
                KeyCode::Esc => KeyState { input: None, ..s },
                KeyCode::Backspace => KeyState {
                    input: Some(
                        if buf.len() > 0 {
                            buf.drop_last()
                        } else {
                            buf
                        },
                    ),
                    ..s
                },
                KeyCode::Char(c) => if !key.ctrl && !key.alt {
                    KeyState { input: Some(buf.push(c)), ..s }
                } else {
                    s
                },
                _ => s,
            },
            None => match key.code {
                KeyCode::Char('q') => KeyState { quit: true, ..s },
                KeyCode::Char('r') => KeyState { restart: true, ..s },
                KeyCode::Char('l') => KeyState { filter: next_filter(s.filter), ..s },
                KeyCode::Char('/') => KeyState { input: Some(Seq::empty()), ..s },
                KeyCode::Esc => KeyState { query: Seq::empty(), ..s },
                KeyCode::Char('m') => KeyState { toggle: true, ..s },
                KeyCode::Char('g') => KeyState { scroll: max, ..s },
                KeyCode::Char('G') => KeyState { scroll: 0, ..s },
                KeyCode::Up | KeyCode::Char('k') => KeyState {
                    scroll: scrolled_up(s.scroll, 1, max),
                    ..s
                },
                KeyCode::Down | KeyCode::Char('j') => KeyState {
                    scroll: scrolled_down(s.scroll, 1),
                    ..s
                },
                KeyCode::PageUp => KeyState { scroll: scrolled_up(s.scroll, page, max), ..s },
                KeyCode::PageDown => KeyState { scroll: scrolled_down(s.scroll, page), ..s },
                _ => s,
            },
        }
    }
}

pub open spec fn opt_view(o: Option<String>) -> Option<Seq<char>> {
    match o {
        Some(s) => Some(s@),
        None => None,
    }
}

/// No key moves the view outside the rendered range: from a scroll within
/// `[0, max]`, the scroll stays within it.
pub proof fn law_scroll_stays_in_range(s: KeyState, key: Key, max: int, page: int)
    requires
        0 <= s.scroll <= max,
        page >= 1,
    ensures
        0 <= key_step(s, key, max, page).scroll <= max,
{
}

/// The wheel cannot move the view outside the rendered range either.
pub proof fn law_wheel_stays_in_range(scroll: int, max: int)
    requires
        0 <= scroll <= max,
    ensures
        0 <= scrolled_up(scroll, SCROLL_STEP as int, max) <= max,
        0 <= scrolled_down(scroll, SCROLL_STEP as int) <= max,
{
}

/// Keys pressed one after another.
pub open spec fn keys_step(s: KeyState, keys: Seq<Key>, max: int, page: int) -> KeyState
    decreases keys.len(),
{
    if keys.len() == 0 {
        s
    } else {
        key_step(keys_step(s, keys.drop_last(), max, page), keys.last(), max, page)
    }
}

/// `keys` types the characters `cs`, one key each, without modifiers.
pub open spec fn types_chars(keys: Seq<Key>, cs: Seq<char>) -> bool {
    &&& keys.len() == cs.len()
    &&& forall|i: int|
        0 <= i < keys.len() ==> #[trigger] keys[i] == (Key { code: KeyCode::Char(cs[i]), ctrl: false, alt: false })
}

/// Confirming a search with Enter applies what was typed and closes the input.
pub proof fn law_enter_applies_search(s: KeyState, key: Key, max: int, page: int, buf: Seq<char>)
    requires
        s.input == Some(buf),
        key.code == KeyCode::Enter,
    ensures
        key_step(s, key, max, page).query == buf,
        key_step(s, key, max, page).input is None,
{
}

/// Esc while typing throws the typed text away: the applied query stays as it was.
pub proof fn law_esc_discards_typing(s: KeyState, key: Key, max: int, page: int)
    requires
        s.input is Some,
        key.code == KeyCode::Esc,
    ensures
        key_step(s, key, max, page).query == s.query,
        key_step(s, key, max, page).input is None,
{
}

/// Ctrl+C quits from any state, even while a query is being typed, and changes nothing else.
pub proof fn law_ctrl_c_always_quits(s: KeyState, max: int, page: int)
    ensures
        key_step(s, Key { code: KeyCode::Char('c'), ctrl: true, alt: false }, max, page) == (KeyState {
            quit: true,
            ..s
        }),
{
}

/// While a query is being typed, keys edit the query only: no key but Ctrl+C quits,
/// restarts, changes the level filter, scrolls or asks for the mouse to be toggled, and
/// the applied query changes only on Enter.
pub proof fn law_typing_captures_keys(s: KeyState, key: Key, max: int, page: int)
    requires
        s.input is Some,
        !is_ctrl_c(key),
    ensures
        ({
            let t = key_step(s, key, max, page);
            &&& t.filter == s.filter
            &&& t.scroll == s.scroll
            &&& t.quit == s.quit
            &&& t.restart == s.restart
            &&& t.toggle == s.toggle
            &&& key.code != KeyCode::Enter ==> t.query == s.query
        }),
{
}

/// Backspace while typing takes back the last typed character.
pub proof fn law_backspace_takes_back(s: KeyState, key: Key, max: int, page: int, buf: Seq<char>, c: char)
    requires
        s.input == Some(buf.push(c)),
        key.code == KeyCode::Backspace,
    ensures
        key_step(s, key, max, page).input == Some(buf),
        key_step(s, key, max, page).query == s.query,
{
    assert(buf.push(c).drop_last() =~= buf);
}

/// '/' opens an empty search input and leaves the applied query in place until Enter.
pub proof fn law_slash_opens_empty_input(s: KeyState, key: Key, max: int, page: int)
    requires
        s.input is None,
        key.code == KeyCode::Char('/'),
    ensures
        key_step(s, key, max, page).input == Some(Seq::<char>::empty()),
        key_step(s, key, max, page).query == s.query,
{
}

/// Outside the search input: 'q' quits, 'r' asks for a restart, 'm' asks for the mouse
/// to be toggled, Esc clears the applied query, 'g' jumps to the oldest line and 'G' back
/// to the tail, and the arrow keys and pages move by one line and one screenful, never
/// past either end. None of them touches the query except Esc.
pub proof fn law_browsing_keys(s: KeyState, key: Key, max: int, page: int)
    requires
        s.input is None,
        !is_ctrl_c(key),
        0 <= s.scroll <= max,
        page >= 1,
    ensures
        ({
            let t = key_step(s, key, max, page);
            &&& key.code == KeyCode::Char('q') ==> t.quit
            &&& key.code == KeyCode::Char('r') ==> t.restart && t.quit == s.quit
            &&& key.code == KeyCode::Char('m') ==> t.toggle && t.quit == s.quit
            &&& key.code == KeyCode::Esc ==> t.query.len() == 0 && t.scroll == s.scroll
            &&& key.code != KeyCode::Esc ==> t.query == s.query
            &&& key.code == KeyCode::Char('g') ==> t.scroll == max
            &&& key.code == KeyCode::Char('G') ==> t.scroll == 0
            &&& (key.code == KeyCode::Up || key.code == KeyCode::Char('k')) ==> (s.scroll < max ==> t.scroll
                == s.scroll + 1) && (s.scroll == max ==> t.scroll == max)
            &&& (key.code == KeyCode::Down || key.code == KeyCode::Char('j')) ==> (s.scroll > 0 ==> t.scroll
                == s.scroll - 1) && (s.scroll == 0 ==> t.scroll == 0)
            &&& key.code == KeyCode::PageUp ==> t.scroll == (if s.scroll + page <= max {
                s.scroll + page
            } else {
                max
            })
            &&& key.code == KeyCode::PageDown ==> t.scroll == (if s.scroll >= page {
                s.scroll - page
            } else {
                0
            })
        }),
{
}

/// Typing plain characters while the input is open appends them to it.
proof fn lemma_typing(s: KeyState, b: Seq<char>, keys: Seq<Key>, cs: Seq<char>, max: int, page: int)
    requires
        s.input == Some(b),
        types_chars(keys, cs),
    ensures
        keys_step(s, keys, max, page) == (KeyState { input: Some(b + cs), ..s }),
    decreases keys.len(),
{
    if keys.len() == 0 {
        assert(b + cs =~= b);
    } else {
        let c0 = cs.drop_last();
        let k0 = keys.drop_last();
        assert(types_chars(k0, c0)) by {
            assert forall|i: int| 0 <= i < k0.len() implies #[trigger] k0[i] == (Key {
                code: KeyCode::Char(c0[i]),
                ctrl: false,
                alt: false,
            }) by {
                assert(keys[i] == k0[i]);
            }
        }
        lemma_typing(s, b, k0, c0, max, page);
        assert(keys[keys.len() - 1] == (Key { code: KeyCode::Char(cs[cs.len() - 1]), ctrl: false, alt: false }));
        assert((b + c0).push(cs.last()) =~= b + cs);
    }
}

/// Pressing '/', typing a query and pressing Enter applies exactly the typed query,
/// whatever was applied before.
pub proof fn law_typed_search_is_applied(s: KeyState, keys: Seq<Key>, cs: Seq<char>, max: int, page: int)
    requires
        s.input is None,
        types_chars(keys, cs),
    ensures
        ({
            let opened = key_step(s, Key { code: KeyCode::Char('/'), ctrl: false, alt: false }, max, page);
            let typed = keys_step(opened, keys, max, page);
            let done = key_step(typed, Key { code: KeyCode::Enter, ctrl: false, alt: false }, max, page);
            done.query == cs && done.input is None
        }),
{
    let opened = key_step(s, Key { code: KeyCode::Char('/'), ctrl: false, alt: false }, max, page);
    assert(opened.input == Some(Seq::<char>::empty()));
    lemma_typing(opened, Seq::empty(), keys, cs, max, page);
    assert(Seq::<char>::empty() + cs =~= cs);
}

impl App {
    pub open spec fn wf(&self) -> bool {
        self.buffer.wf()
    }

    pub open spec fn key_state(&self) -> KeyState {
        KeyState {
            query: self.search_query@,
            input: opt_view(self.search_input),
            filter: self.filter,
            scroll: self.scroll as int,
            quit: self.should_quit,
            restart: self.restart_requested,
            toggle: self.toggle_mouse,
        }
    }

    /// Fields no key or wheel event touches.
    pub open spec fn same_frame(&self, other: &App) -> bool {
        &&& self.buffer == other.buffer
        &&& self.max_scroll == other.max_scroll
        &&& self.body_height == other.body_height
        &&& self.mouse_capture == other.mouse_capture
        &&& self.restarts == other.restarts
        &&& self.running == other.running
    }

    pub fn new() -> (r: Self)
        ensures
            r.wf(),
            r.buffer.contents() == Seq::<OdooLogLine>::empty(),
            r.buffer.capacity() == MAX_LINES,
            r.buffer.received() == 0,
            r.filter == LevelFilter::All,
            r.search_query@ == Seq::<char>::empty(),
            r.search_input is None,
            r.scroll == 0 && r.max_scroll == 0 && r.body_height == 0,
            !r.should_quit && !r.toggle_mouse && !r.restart_requested,
            r.mouse_capture,
            r.restarts == 0,
            r.running,
    {
        App {
            buffer: LogBuffer::new(MAX_LINES),
            filter: LevelFilter::All,
            search_query: String::new(),
            search_input: None,
            scroll: 0,
            max_scroll: 0,
            body_height: 0,
            should_quit: false,
            mouse_capture: true,
            toggle_mouse: false,
            restart_requested: false,
            restarts: 0,
            running: true,
        }
    }

    /// Scroll back towards older lines, never past the top of the buffer.
    pub fn scroll_up(&mut self, lines: usize)
        ensures
            final(self).scroll == scrolled_up(old(self).scroll as int, lines as int, old(self).max_scroll as int),
            final(self).key_state() == (KeyState { scroll: final(self).scroll as int, ..old(self).key_state() }),
            final(self).same_frame(old(self)),
    {
        let s = self.scroll.saturating_add(lines);
        self.scroll = if s < self.max_scroll { s } else { self.max_scroll };
    }

    /// Scroll towards the tail; 0 follows the newest line again.
    pub fn scroll_down(&mut self, lines: usize)
        ensures
            final(self).scroll == scrolled_down(old(self).scroll as int, lines as int),
            final(self).key_state() == (KeyState { scroll: final(self).scroll as int, ..old(self).key_state() }),
            final(self).same_frame(old(self)),
    {
        self.scroll = self.scroll.saturating_sub(lines);
    }

    /// One screenful, as of the last rendered frame.
    pub fn page(&self) -> (r: usize)
        ensures
            r == page_of(self.body_height as int),
    {
        if self.body_height > 1 { self.body_height } else { 1 }
    }

    pub fn handle_key(&mut self, key: Key)
        ensures
            final(self).key_state() == key_step(
                old(self).key_state(),
                key,
                old(self).max_scroll as int,
                page_of(old(self).body_height as int),
            ),
            final(self).same_frame(old(self)),
            key.code == KeyCode::Enter && old(self).search_input is Some ==> final(self).search_input is None
                && final(self).search_query@ == old(self).search_input->0@,
            key.code == KeyCode::Esc && old(self).search_input is Some ==> final(self).search_input is None
                && final(self).search_query@ == old(self).search_query@,
    {
        // Raw mode means the terminal no longer turns Ctrl+C into SIGINT, so it has to be
        // handled here, including while a search query is being typed.
        if key.ctrl && key.code == KeyCode::Char('c') {
            self.should_quit = true;
            return;
        }
        if self.search_input.is_some() {
            match key.code {
                KeyCode::Enter => {
                    let b = self.search_input.take();
                    if let Some(b) = b {
                        self.search_query = b;
                    }
                },
                KeyCode::Esc => {
                    self.search_input = None;
                },
                KeyCode::Backspace => {
                    let b = self.search_input.take();
                    if let Some(mut b) = b {
                        let _ = pop_char(&mut b);
                        self.search_input = Some(b);
                    }
                },
                KeyCode::Char(c) => {
                    // Modified keys (Ctrl+D, Alt+F, ...) are chords, not text input.
                    if !key.ctrl && !key.alt {
                        let b = self.search_input.take();
                        if let Some(mut b) = b {
                            push_char(&mut b, c);
                            self.search_input = Some(b);
                        }
                    }
                },
                _ => {},
            }
            return;
        }
        match key.code {
            KeyCode::Char('q') => self.should_quit = true,
            KeyCode::Char('r') => self.restart_requested = true,
            KeyCode::Char('l') => self.filter = self.filter.next(),
            KeyCode::Char('/') => self.search_input = Some(String::new()),
            KeyCode::Esc => self.search_query = String::new(),
            KeyCode::Char('m') => self.toggle_mouse = true,
            KeyCode::Char('g') => self.scroll = self.max_scroll,
            KeyCode::Char('G') => self.scroll = 0,
            KeyCode::Up | KeyCode::Char('k') => self.scroll_up(1),
            KeyCode::Down | KeyCode::Char('j') => self.scroll_down(1),
            KeyCode::PageUp => {
                let p = self.page();
                self.scroll_up(p)
            },
            KeyCode::PageDown => {
                let p = self.page();
                self.scroll_down(p)
            },
            _ => {},
        }
    }

    pub fn handle_mouse(&mut self, kind: MouseKind)
        ensures
            kind == MouseKind::ScrollUp ==> final(self).scroll == scrolled_up(
                old(self).scroll as int,
                SCROLL_STEP as int,
                old(self).max_scroll as int,
            ),
            kind == MouseKind::ScrollDown ==> final(self).scroll == scrolled_down(
                old(self).scroll as int,
                SCROLL_STEP as int,
            ),
            kind == MouseKind::Other ==> final(self).scroll == old(self).scroll,
            final(self).key_state() == (KeyState { scroll: final(self).scroll as int, ..old(self).key_state() }),
            final(self).same_frame(old(self)),
    {
        match kind {
            MouseKind::ScrollUp => self.scroll_up(SCROLL_STEP),
            MouseKind::ScrollDown => self.scroll_down(SCROLL_STEP),
            MouseKind::Other => {},
        }
    }

    /// Append a line from odx itself to the on-screen buffer.
    pub fn notice(&mut self, msg: String)
        requires
            old(self).wf(),
            old(self).buffer.received() < u64::MAX,
        ensures
            final(self).wf(),
            final(self).buffer.capacity() == old(self).buffer.capacity(),
            final(self).buffer.received() == old(self).buffer.received() + 1,
            final(self).buffer.contents().len() > 0,
            final(self).buffer.contents().last().raw@ == msg@,
            final(self).buffer.contents().last().level == LogLevel::Notice,
            final(self).buffer.contents().drop_last() == (if old(self).buffer.contents().len()
                >= old(self).buffer.capacity() && old(self).buffer.contents().len() > 0 {
                old(self).buffer.contents().drop_first()
            } else {
                old(self).buffer.contents()
            }),
            final(self).key_state() == old(self).key_state(),
            final(self).max_scroll == old(self).max_scroll,
            final(self).body_height == old(self).body_height,
            final(self).mouse_capture == old(self).mouse_capture,
            final(self).restarts == old(self).restarts,
            final(self).running == old(self).running,
    {
        let line = OdooLogLine::notice(msg);
        self.buffer.push(line);
    }

    /// Lays out one frame of `visible_len` lines in `body_rows` rows: records the
    /// frame's height and largest useful scroll, clamps the scroll to it, and returns the
    /// window `[start, end)` of visible lines to draw.
    pub fn frame_window(&mut self, visible_len: usize, body_rows: usize) -> (r: (usize, usize))
        ensures
            final(self).body_height == body_rows,
            final(self).max_scroll == (if visible_len > body_rows { visible_len - body_rows } else { 0 }),
            final(self).scroll == (if old(self).scroll < final(self).max_scroll { old(self).scroll } else { final(self).max_scroll }),
            r.1 == visible_len - final(self).scroll,
            r.0 == (if r.1 > body_rows { r.1 - body_rows } else { 0 }),
            r.0 <= r.1 <= visible_len,
            r.1 - r.0 <= body_rows,
            final(self).buffer == old(self).buffer,
            final(self).filter == old(self).filter,
            final(self).search_query == old(self).search_query,
            final(self).search_input == old(self).search_input,
    {
        let max_scroll = visible_len.saturating_sub(body_rows);
        self.max_scroll = max_scroll;
        self.body_height = body_rows;
        // Clamp the stored value: a filter change or evicted lines can shrink the set
        // under a scrolled-up view.
        if self.scroll > max_scroll {
            self.scroll = max_scroll;
        }
        let end = visible_len - self.scroll;
        let start = end.saturating_sub(body_rows);
        (start, end)
    }

    /// Takes a pending 'm' request: the capture state wanted, if one was made.
    pub fn take_mouse_toggle(&mut self) -> (r: Option<bool>)
        ensures
            old(self).toggle_mouse ==> r == Some(!old(self).mouse_capture),
            !old(self).toggle_mouse ==> r is None,
            !final(self).toggle_mouse,
            final(self).mouse_capture == old(self).mouse_capture,
            final(self).buffer == old(self).buffer,
    {
        if self.toggle_mouse {
            self.toggle_mouse = false;
            Some(!self.mouse_capture)
        } else {
            None
        }
    }

    /// Records what the terminal said to a mouse-capture change.
    pub fn mouse_capture_applied(&mut self, wanted: bool, result: Result<(), String>)
        requires
            old(self).wf(),
            old(self).buffer.received() < u64::MAX,
        ensures
            final(self).wf(),
            result is Ok ==> final(self).mouse_capture == wanted,
            result is Err ==> final(self).mouse_capture == old(self).mouse_capture,
            final(self).buffer.received() == old(self).buffer.received() + 1,
            final(self).buffer.contents().last().level == LogLevel::Notice,
            result is Ok && wanted ==> final(self).buffer.contents().last().raw@
                == "odx: mouse capture on (wheel scrolls the log)"@,
            result is Ok && !wanted ==> final(self).buffer.contents().last().raw@
                == "odx: mouse capture off (terminal selection restored)"@,
            result matches Err(e) ==> final(self).buffer.contents().last().raw@ == "odx: "@ + e@,
    {
        match result {
            Ok(()) => {
                self.mouse_capture = wanted;
                if wanted {
                    self.notice(String::from_str("odx: mouse capture on (wheel scrolls the log)"));
                } else {
                    self.notice(
                        String::from_str("odx: mouse capture off (terminal selection restored)"),
                    );
                }
            },
            Err(e) => {
                // Not fatal: the dashboard is still usable from the keyboard.
                self.notice(cat("odx: ", e.as_str()));
            },
        }
    }

    /// Takes a pending 'r' request, marking it in the log when there is one.
    pub fn take_restart_request(&mut self) -> (r: bool)
        requires
            old(self).wf(),
            old(self).buffer.received() < u64::MAX,
        ensures
            final(self).wf(),
            r == old(self).restart_requested,
            !final(self).restart_requested,
            r ==> final(self).buffer.contents().last().raw@ == "odx: restarting odoo-bin..."@
                && final(self).buffer.received() == old(self).buffer.received() + 1,
            !r ==> final(self).buffer == old(self).buffer,
            final(self).running == old(self).running,
            final(self).should_quit == old(self).should_quit,
    {
        if self.restart_requested {
            self.restart_requested = false;
            self.notice(String::from_str("odx: restarting odoo-bin..."));
            true
        } else {
            false
        }
    }
}

/// `after` is `before` with a notice `msg` from odx pushed: the oldest line goes when
/// the buffer was full.
pub open spec fn noticed(before: Seq<OdooLogLine>, cap: nat, after: Seq<OdooLogLine>, msg: Seq<char>) -> bool {
    &&& after.len() > 0
    &&& after.drop_last() == (if before.len() >= cap && before.len() > 0 {
        before.drop_first()
    } else {
        before
    })
    &&& after.last().raw@ == msg
    &&& after.last().level == LogLevel::Notice
    &&& after.last().wf()
}

/// What the event loop remembers between ticks: how odoo-bin exited (reported only
/// once by the OS, and the dashboard stays open after it), and why a restart failed.
pub struct LoopState {
    pub child_exit: Option<Option<i32>>,
    pub restart_error: Option<String>,
}

impl LoopState {
    pub fn new() -> (r: Self)
        ensures
            r.child_exit is None,
            r.restart_error is None,
    {
        LoopState { child_exit: None, restart_error: None }
    }

    /// Records an exit status seen while odoo-bin was marked running.
    pub fn observe_exit(&mut self, app: &mut App, exited: Option<Option<i32>>)
        ensures
            old(app).running && exited is Some ==> !final(app).running && final(self).child_exit
                == exited,
            !(old(app).running && exited is Some) ==> final(app).running == old(app).running
                && final(self).child_exit == old(self).child_exit,
            final(self).restart_error == old(self).restart_error,
            final(app).buffer == old(app).buffer,
            final(app).key_state() == old(app).key_state(),
    {
        if app.running {
            if let Some(code) = exited {
                app.running = false;
                self.child_exit = Some(code);
            }
        }
    }

    /// Records the outcome of a restart attempt.
    pub fn restart_done(&mut self, app: &mut App, result: Result<(), String>)
        requires
            old(app).wf(),
            old(app).buffer.received() < u64::MAX - 1,
            old(app).restarts < usize::MAX,
        ensures
            final(app).wf(),
            final(self).child_exit is None,
            result is Ok ==> final(app).running && final(app).restarts == old(app).restarts + 1
                && final(self).restart_error is None && final(app).buffer.contents().last().raw@
                == "odx: odoo-bin restarted"@,
            result matches Err(e) ==> !final(app).running && final(app).restarts
                == old(app).restarts && final(self).restart_error == Some(e)
                && final(app).buffer.contents().last().raw@
                == "odx: press 'r' to try again, 'q' to quit"@,
            final(app).buffer.capacity() == old(app).buffer.capacity(),
            result is Ok ==> final(app).buffer.received() == old(app).buffer.received() + 1
                && noticed(
                old(app).buffer.contents(),
                old(app).buffer.capacity(),
                final(app).buffer.contents(),
                "odx: odoo-bin restarted"@,
            ),
            result matches Err(e) ==> final(app).buffer.received() == old(app).buffer.received() + 2
                && exists|mid: Seq<OdooLogLine>|
                #[trigger] noticed(
                    old(app).buffer.contents(),
                    old(app).buffer.capacity(),
                    mid,
                    "odx: restart failed: "@ + e@,
                ) && noticed(
                    mid,
                    old(app).buffer.capacity(),
                    final(app).buffer.contents(),
                    "odx: press 'r' to try again, 'q' to quit"@,
                ),
            final(app).key_state() == old(app).key_state(),
    {
        match result {
            Ok(()) => {
                app.running = true;
                app.restarts = app.restarts + 1;
                self.child_exit = None;
                self.restart_error = None;
                app.notice(String::from_str("odx: odoo-bin restarted"));
            },
            Err(e) => {
                app.running = false;
                self.child_exit = None;
                let ghost before = app.buffer.contents();
                let ghost cap = app.buffer.capacity();
                let failed = cat("odx: restart failed: ", e.as_str());
                app.notice(failed);
                let ghost mid = app.buffer.contents();
                app.notice(String::from_str("odx: press 'r' to try again, 'q' to quit"));
                assert(noticed(before, cap, mid, "odx: restart failed: "@ + e@));
                assert(noticed(mid, cap, app.buffer.contents(), "odx: press 'r' to try again, 'q' to quit"@));
                self.restart_error = Some(e);
            },
        }
    }

    /// How the session ends, once the user has asked to quit.
    pub fn finish(&self, app: &App) -> (r: Option<Result<Outcome, String>>)
        ensures
            !app.should_quit ==> r is None,
            app.should_quit ==> r == Some(
                match self.restart_error {
                    Some(e) => Err(e),
                    None => Ok(
                        match self.child_exit {
                            Some(code) => Outcome::ChildExited { code },
                            None => Outcome::UserQuit,
                        },
                    ),
                },
            ),
    {
        if !app.should_quit {
            return None;
        }
        match &self.restart_error {
            Some(e) => Some(Err(e.clone())),
            None => Some(
                Ok(
                    match self.child_exit {
                        Some(code) => Outcome::ChildExited { code },
                        None => Outcome::UserQuit,
                    },
                ),
            ),
        }
    }
}

/// The error a finished session reports, if any.
pub open spec fn outcome_error(o: Outcome) -> Option<Seq<char>> {
    match o {
        Outcome::UserQuit => None,
        Outcome::ChildExited { code: Some(c) } => if c == 0 {
            None
        } else {
            Some("odoo-bin exited with code "@ + signed_decimal(c as int))
        },
        Outcome::ChildExited { code: None } => Some("odoo-bin was terminated by a signal"@),
    }
}

/// A quit or a clean exit is success; any other exit is an error naming the code.
pub fn outcome_result(o: Outcome) -> (r: Result<(), String>)
    ensures
        outcome_error(o) is None ==> r is Ok,
        outcome_error(o) matches Some(m) ==> r matches Err(e) && e@ == m,
{
    match o {
        Outcome::UserQuit => Ok(()),
        Outcome::ChildExited { code: Some(c) } => {
            if c == 0 {
                Ok(())
            } else {
                let d = signed_decimal_string(c);
                Err(cat("odoo-bin exited with code ", d.as_str()))
            }
        },
        Outcome::ChildExited { code: None } => Err(
            String::from_str("odoo-bin was terminated by a signal"),
        ),
    }
}

// ---------------------------------------------------------------------------
// Title bar hint
// ---------------------------------------------------------------------------

pub const HINT_FULL: &'static str = "[q]uit [r]estart [/]search [l]evel [m]ouse [g/G]top/bottom";

pub const HINT_MEDIUM: &'static str = "[q]uit [r]estart [/]search [l]evel";

pub const HINT_SHORT: &'static str = "[q]uit [r]estart";

/// Columns left for the hint: the width minus the title, its padding and the borders.
pub open spec fn hint_room(width: int, title_len: int) -> int {
    if width >= title_len + 6 {
        width - title_len - 6
    } else {
        0
    }
}

/// Longest keybind hint that still leaves room for the project title.
pub open spec fn hint_for(width: int, title_len: int) -> Seq<char> {
    let room = hint_room(width, title_len);
    if HINT_FULL@.len() <= room {
        HINT_FULL@
    } else if HINT_MEDIUM@.len() <= room {
        HINT_MEDIUM@
    } else if HINT_SHORT@.len() <= room {
        HINT_SHORT@
    } else {
        ""@
    }
}

pub fn keybind_hint(width: u16, title_len: usize) -> (r: &'static str)
    requires
        title_len <= usize::MAX - 6,
    ensures
        r@ == hint_for(width as int, title_len as int),
{
    let room = (width as usize).saturating_sub(title_len + 6);
    if HINT_FULL.unicode_len() <= room {
        HINT_FULL
    } else if HINT_MEDIUM.unicode_len() <= room {
        HINT_MEDIUM
    } else if HINT_SHORT.unicode_len() <= room {
        HINT_SHORT
    } else {
        ""
    }
}

/// The hint never crowds out the title: it fits beside it, or it is empty.
pub proof fn law_hint_fits(width: int, title_len: int)
    requires
        0 <= title_len,
    ensures
        hint_for(width, title_len).len() + title_len + 6 <= width || hint_for(width, title_len).len() == 0,
{
    reveal_strlit("");
}


// ---------------------------------------------------------------------------
// Status line
// ---------------------------------------------------------------------------

/// What the status line under the log shows. While a search is typed it shows the
/// query being typed; otherwise the filter, the uptime, whether odoo-bin runs, how far
/// the view is scrolled back, and the mouse, restart and search state when they are
/// worth saying. (The line rate, a measured float, is placed by the caller after the
/// filter.)
pub enum StatusLine {
    Typing { input: String },
    Normal {
        filter: String,
        uptime: String,
        running: bool,
        paused: String,
        mouse_off: bool,
        restarts: Option<String>,
        search: Option<String>,
    },
}

pub open spec fn paused_text(scroll: usize) -> Seq<char> {
    if scroll == 0 {
        Seq::empty()
    } else {
        "   paused -"@ + decimal(scroll as nat) + " lines ([G] to resume)"@
    }
}

impl App {
    /// The status line of the current frame, `uptime_secs` after the start.
    pub fn status(&self, uptime_secs: u64) -> (r: StatusLine)
        ensures
            (match (self.search_input, r) {
                (Some(buf), StatusLine::Typing { input }) => input@ == buf@,
                (None, StatusLine::Normal { filter, uptime, running, paused, mouse_off, restarts, search }) => {
                    &&& filter@ == "filter: ["@ + filter_label(self.filter) + "]"@
                    &&& uptime@ == "   uptime "@ + decimal(uptime_secs as nat) + "s"@
                    &&& running == self.running
                    &&& paused@ == paused_text(self.scroll)
                    &&& mouse_off == !self.mouse_capture
                    &&& (self.restarts > 0 <==> restarts is Some)
                    &&& (restarts matches Some(t) ==> t@ == "   restarts: "@ + decimal(self.restarts as nat))
                    &&& (self.search_query@.len() > 0 <==> search is Some)
                    &&& (search matches Some(t) ==> t@ == "   search: "@ + debug_quoted(self.search_query@))
                },
                _ => false,
            }),
    {
        match &self.search_input {
            Some(buf) => StatusLine::Typing { input: buf.clone() },
            None => {
                let mut filter = cat("filter: [", self.filter.label());
                filter.append("]");
                let mut uptime = cat("   uptime ", decimal_string(uptime_secs).as_str());
                uptime.append("s");
                let paused = if self.scroll == 0 {
                    String::new()
                } else {
                    let mut p = cat("   paused -", decimal_string(self.scroll as u64).as_str());
                    p.append(" lines ([G] to resume)");
                    p
                };
                let restarts = if self.restarts > 0 {
                    Some(cat("   restarts: ", decimal_string(self.restarts as u64).as_str()))
                } else {
                    None
                };
                let search = if self.search_query.unicode_len() > 0 {
                    Some(cat("   search: ", debug_str(self.search_query.as_str()).as_str()))
                } else {
                    None
                };
                StatusLine::Normal {
                    filter,
                    uptime,
                    running: self.running,
                    paused,
                    mouse_off: !self.mouse_capture,
                    restarts,
                    search,
                }
            },
        }
    }
}

/// What the session log and the dashboard say around a restart.
pub const RESTART_MARKER: &'static str = "=== odx: restart requested ===";

pub const FORCED_STOP_NOTICE: &'static str = "odx: odoo-bin did not stop gracefully, forced shutdown";

} // verus!
