//! Output settings: when to color, when to show progress, what a check line says.
use vstd::prelude::*;
use crate::text::{cat3, owned};
use crate::tui::{paint, tone_prefix, Tone};

verus! {

/// How `--color` was given.
#[derive(Debug, Clone, Copy, PartialEq, Eq, Structural)]
pub enum ColorMode {
    Auto,
    Always,
    Never,
}

/// Output settings chosen on the command line.
#[derive(Debug, Clone, Copy)]
pub struct UiConfig {
    pub color: ColorMode,
    pub quiet: bool,
    pub json: bool,
    pub progress: bool,
}

impl Default for UiConfig {
    /// Automatic color, normal verbosity, human output, progress shown.
    fn default() -> (r: Self)
        ensures
            r.color == ColorMode::Auto,
            !r.quiet,
            !r.json,
            r.progress,
    {
        UiConfig { color: ColorMode::Auto, quiet: false, json: false, progress: true }
    }
}

/// Decides how the CLI talks to the user.
#[derive(Debug, Clone, Copy)]
pub struct Ui {
    cfg: UiConfig,
}

/// `--json` output is never colored; otherwise color is used when forced, or in
/// automatic mode on a terminal.
pub open spec fn color_wanted(cfg: UiConfig, stdout_tty: bool) -> bool {
    match cfg.color {
        ColorMode::Always => !cfg.json,
        ColorMode::Never => false,
        ColorMode::Auto => stdout_tty && !cfg.json,
    }
}

/// Spinners and bars only when enabled, not quiet, not `--json`, and stderr is a terminal.
pub open spec fn progress_wanted(cfg: UiConfig, stderr_tty: bool) -> bool {
    cfg.progress && !cfg.quiet && !cfg.json && stderr_tty
}

impl Ui {
    pub closed spec fn cfg(&self) -> UiConfig {
        self.cfg
    }

    pub fn new(cfg: UiConfig) -> (r: Self)
        ensures
            r.cfg() == cfg,
    {
        Ui { cfg }
    }

    pub fn config(&self) -> (r: &UiConfig)
        ensures
            *r == self.cfg(),
    {
        &self.cfg
    }

    /// `console::Term::stdout().is_term()`. Whether stdout is a terminal depends on
    /// how the process was started, so nothing is claimed of the answer.
    #[verifier::external_body]
    pub fn is_stdout_tty(&self) -> bool {
        console::Term::stdout().is_term()
    }

    /// `console::Term::stderr().is_term()`. Nothing is claimed of the answer.
    #[verifier::external_body]
    pub fn is_stderr_tty(&self) -> bool {
        console::Term::stderr().is_term()
    }

    /// The color decision for a known terminal state.
    pub fn color_decision(&self, stdout_tty: bool) -> (r: bool)
        ensures
            r == color_wanted(self.cfg(), stdout_tty),
    {
        match self.cfg.color {
            ColorMode::Always => !self.cfg.json,
            ColorMode::Never => false,
            ColorMode::Auto => stdout_tty && !self.cfg.json,
        }
    }

    /// Whether to color output; asks the terminal only in automatic mode.
    pub fn use_color(&self) -> (r: bool)
        ensures
            exists|tty: bool| r == color_wanted(self.cfg(), tty),
            self.cfg().color == ColorMode::Always && !self.cfg().json ==> r,
            self.cfg().color == ColorMode::Never ==> !r,
            self.cfg().json ==> !r,
    {
        match self.cfg.color {
            ColorMode::Always => {
                assert(color_wanted(self.cfg(), true) == !self.cfg().json);
                !self.cfg.json
            },
            ColorMode::Never => {
                assert(!color_wanted(self.cfg(), true));
                false
            },
            ColorMode::Auto => {
                let tty = self.is_stdout_tty();
                self.color_decision(tty)
            },
        }
    }

    /// The progress decision for a known terminal state.
    pub fn progress_decision(&self, stderr_tty: bool) -> (r: bool)
        ensures
            r == progress_wanted(self.cfg(), stderr_tty),
    {
        self.cfg.progress && !self.cfg.quiet && !self.cfg.json && stderr_tty
    }

    /// Whether to draw spinners and progress bars.
    pub fn use_progress(&self) -> (r: bool)
        ensures
            exists|tty: bool| r == progress_wanted(self.cfg(), tty),
            !self.cfg().progress || self.cfg().quiet || self.cfg().json ==> !r,
    {
        if self.cfg.progress && !self.cfg.quiet && !self.cfg.json {
            let tty = self.is_stderr_tty();
            self.progress_decision(tty)
        } else {
            assert(!progress_wanted(self.cfg(), true));
            false
        }
    }
}


/// Output is plain whatever the terminal: `--color never`, or `--json`.
pub open spec fn plain_only(cfg: UiConfig) -> bool {
    cfg.color == ColorMode::Never || cfg.json
}

/// `msg` as written in the given tone: plain, or wrapped in the tone's escapes.
pub open spec fn toned(msg: Seq<char>, tone: Tone) -> Set<Seq<char>> {
    set![msg, tone_prefix(tone) + msg + "\u{1b}[0m"@]
}

impl Ui {
    fn styled(&self, msg: &str, tone: Tone) -> (r: String)
        ensures
            toned(msg@, tone).contains(r@),
            plain_only(self.cfg()) ==> r@ == msg@,
    {
        if self.use_color() {
            paint(msg, tone)
        } else {
            owned(msg)
        }
    }

    /// What `info` prints on standard output: nothing with `--quiet` or `--json`.
    pub fn info_text(&self, msg: &str) -> (r: Option<String>)
        ensures
            (self.cfg().quiet || self.cfg().json) <==> r is None,
            r matches Some(t) ==> t@ == msg@,
    {
        if self.cfg.quiet || self.cfg.json {
            None
        } else {
            Some(owned(msg))
        }
    }

    /// What `warn` prints on standard error, in yellow: nothing with `--json` (warnings
    /// survive `--quiet`).
    pub fn warn_text(&self, msg: &str) -> (r: Option<String>)
        ensures
            self.cfg().json <==> r is None,
            r matches Some(t) ==> toned(msg@, Tone::Yellow).contains(t@),
            plain_only(self.cfg()) ==> (r matches Some(t) ==> t@ == msg@),
    {
        if self.cfg.json {
            None
        } else {
            Some(self.styled(msg, Tone::Yellow))
        }
    }

    /// What `error` prints on standard error, in bold red; errors are always printed.
    pub fn error_text(&self, msg: &str) -> (r: String)
        ensures
            toned(msg@, Tone::RedBold).contains(r@),
            plain_only(self.cfg()) ==> r@ == msg@,
    {
        self.styled(msg, Tone::RedBold)
    }

    /// What `success` prints on standard output, in green: nothing with `--quiet` or
    /// `--json`.
    pub fn success_text(&self, msg: &str) -> (r: Option<String>)
        ensures
            (self.cfg().quiet || self.cfg().json) <==> r is None,
            r matches Some(t) ==> toned(msg@, Tone::Green).contains(t@),
            plain_only(self.cfg()) ==> (r matches Some(t) ==> t@ == msg@),
    {
        if self.cfg.quiet || self.cfg.json {
            None
        } else {
            Some(self.styled(msg, Tone::Green))
        }
    }

    /// What `heading` prints on standard output, in bold: nothing with `--quiet` or
    /// `--json`.
    pub fn heading_text(&self, title: &str) -> (r: Option<String>)
        ensures
            (self.cfg().quiet || self.cfg().json) <==> r is None,
            r matches Some(t) ==> toned(title@, Tone::Bold).contains(t@),
            plain_only(self.cfg()) ==> (r matches Some(t) ==> t@ == title@),
    {
        if self.cfg.quiet || self.cfg.json {
            None
        } else {
            Some(self.styled(title, Tone::Bold))
        }
    }

    /// What a check prints on standard output: `[OK] label details` or
    /// `[FAIL] label details` (the tag in bold green or red), nothing with `--json`.
    pub fn check_text(&self, ok: bool, label: &str, details: Option<&str>) -> (r: Option<String>)
        ensures
            self.cfg().json <==> r is None,
            r matches Some(t) ==> exists|tag: Seq<char>| {
                &&& #[trigger] toned(check_tag(ok), check_tone(ok)).contains(tag)
                &&& t@ == "["@ + tag + "] "@ + label@ + check_suffix(details)
            },
            plain_only(self.cfg()) ==> (r matches Some(t) ==> t@ == "["@ + check_tag(ok) + "] "@ + label@
                + check_suffix(details)),
    {
        if self.cfg.json {
            return None;
        }
        let tag = if ok {
            self.styled("OK", Tone::GreenBold)
        } else {
            self.styled("FAIL", Tone::RedBold)
        };
        assert(toned(check_tag(ok), check_tone(ok)).contains(tag@));
        let mut line = cat3("[", tag.as_str(), "] ");
        line.append(label);
        let ghost head = line@;
        match details {
            Some(d) => {
                if d.unicode_len() > 0 {
                    line.append(" ");
                    line.append(d);
                    assert(line@ =~= head + (" "@ + d@));
                } else {
                    assert(line@ =~= head + Seq::<char>::empty());
                }
            },
            None => {
                assert(line@ =~= head + Seq::<char>::empty());
            },
        }
        assert(line@ == "["@ + tag@ + "] "@ + label@ + check_suffix(details));
        Some(line)
    }

    /// Whether a confirmation prompt may be shown: not with `--json`, and only on a
    /// terminal.
    pub fn prompt_allowed(&self, stdout_tty: bool) -> (r: Result<(), String>)
        ensures
            r is Ok <==> !self.cfg().json && stdout_tty,
            self.cfg().json ==> (r matches Err(e) && e@ == "Prompts are disabled in --json mode"@),
            !self.cfg().json && !stdout_tty ==> (r matches Err(e) && e@ == "Prompt requires an interactive terminal"@),
    {
        if self.cfg.json {
            return Err(owned("Prompts are disabled in --json mode"));
        }
        if !stdout_tty {
            return Err(owned("Prompt requires an interactive terminal"));
        }
        Ok(())
    }
}

/// The tag of a check.
pub open spec fn check_tag(ok: bool) -> Seq<char> {
    if ok {
        "OK"@
    } else {
        "FAIL"@
    }
}

pub open spec fn check_tone(ok: bool) -> Tone {
    if ok {
        Tone::GreenBold
    } else {
        Tone::RedBold
    }
}

/// What follows the label of a check: a space and the details, when there are any.
pub open spec fn check_suffix(details: Option<&str>) -> Seq<char> {
    match details {
        Some(d) => if d@.len() > 0 {
            " "@ + d@
        } else {
            Seq::empty()
        },
        None => Seq::empty(),
    }
}

} // verus!
