//! Presentation channels: the Log panel's stream, the error-modal
//! contract, condition pins, and the deferred refresh indicator.

use vstd::prelude::*;
use crate::app::{App, AppView};
use crate::model::{advisory_text, operation_label, Advisory, ChangeKind, ChangedFile, Head, Snapshot};
use crate::text::{cat, count_noun, count_noun_text, decimal, first_nonblank, first_nonblank_line, newline_pieces, opt_view, owned, same_text, usize_decimal};
use crate::view::conflicted_count;

verus! {

/// The deferred-indicator threshold, in milliseconds: refreshes shorter
/// than this show nothing.
pub const INDICATOR_DELAY: u64 = 500;

/// Log entries kept — enough history for the panel plus scrollback.
pub const LOG_CAP: usize = 200;

/// A log event's severity: three levels, fixed.
#[derive(Debug, Clone, Copy, PartialEq, Eq, Structural)]
pub enum Severity {
    /// `·` — routine: command echo, refresh ticks, soft no-ops.
    Info,
    /// `!` — automatic membership decisions worth spot-checking.
    Notice,
    /// `✗` — anything that produced an error modal, for the record.
    Error,
}

/// One immutable line of the Log panel's chronological stream.
#[derive(Debug, Clone, PartialEq, Eq)]
pub struct LogEntry {
    pub severity: Severity,
    pub text: String,
}

/// The error-modal contract: title names the operation, detail is
/// verbatim and scrollable, dismissed with `esc`/`enter`. Held outside
/// the overlay so a rejection modal can land on top of the restored
/// commit dialog.
#[derive(Debug, Clone, PartialEq, Eq)]
pub struct ErrorModal {
    pub title: String,
    pub detail: String,
    pub scroll: u16,
}

pub ghost struct LogEntryView {
    pub severity: Severity,
    pub text: Seq<char>,
}

pub ghost struct ErrorModalView {
    pub title: Seq<char>,
    pub detail: Seq<char>,
    pub scroll: u16,
}

impl View for LogEntry {
    type V = LogEntryView;

    open spec fn view(&self) -> LogEntryView {
        LogEntryView { severity: self.severity, text: self.text@ }
    }
}

impl View for ErrorModal {
    type V = ErrorModalView;

    open spec fn view(&self) -> ErrorModalView {
        ErrorModalView { title: self.title@, detail: self.detail@, scroll: self.scroll }
    }
}

pub open spec fn log_view(log: Seq<LogEntry>) -> Seq<LogEntryView> {
    log.map_values(|e: LogEntry| e@)
}

pub open spec fn opt_modal_view(m: Option<ErrorModal>) -> Option<ErrorModalView> {
    match m {
        Some(m) => Some(m@),
        None => None,
    }
}

/// The stream after appending one entry: the newest [`LOG_CAP`] kept.
pub open spec fn logged(log: Seq<LogEntryView>, severity: Severity, text: Seq<char>) -> Seq<LogEntryView> {
    let grown = log.push(LogEntryView { severity, text });
    if grown.len() > LOG_CAP { grown.skip(grown.len() - LOG_CAP) } else { grown }
}

/// A core advisory in the Log vocabulary: core's phrasing at `!`.
pub open spec fn advisory_entry_view(a: Advisory) -> LogEntryView {
    LogEntryView { severity: Severity::Notice, text: advisory_text(a) }
}

pub fn advisory_entry(advisory: &Advisory) -> (r: LogEntry)
    ensures
        r@ == advisory_entry_view(*advisory),
{
    LogEntry { severity: Severity::Notice, text: advisory.message() }
}

/// The stream after appending each advisory in order.
pub open spec fn logged_advisories(log: Seq<LogEntryView>, advisories: Seq<Advisory>) -> Seq<LogEntryView>
    decreases advisories.len(),
{
    if advisories.len() == 0 {
        log
    } else {
        let before = logged_advisories(log, advisories.drop_last());
        let e = advisory_entry_view(advisories.last());
        logged(before, e.severity, e.text)
    }
}

/// The operation guard's "why" tail.
pub open spec fn commit_disabled() -> Seq<char> {
    "commit disabled"@
}

/// The modal's log line: the title, then the detail's first non-blank
/// line when it has one.
pub open spec fn error_log_text(title: Seq<char>, detail: Seq<char>) -> Seq<char> {
    let first = first_nonblank(newline_pieces(detail));
    if first.len() == 0 { title } else { title + " — "@ + first }
}

/// A hard refresh failure: the in-flight refresh ends, and a failure
/// other than the last one takes the error-modal contract; an unchanged
/// failure repeats silently.
pub open spec fn refresh_failed(a: AppView, error: Seq<char>) -> AppView {
    if a.last_refresh_failure == Some(error) {
        AppView { refresh_started: None, ..a }
    } else {
        AppView {
            refresh_started: None,
            last_refresh_failure: Some(error),
            log: logged(a.log, Severity::Error, error_log_text("Refresh failed"@, error)),
            error_modal: Some(ErrorModalView { title: "Refresh failed"@, detail: error, scroll: 0 }),
            ..a
        }
    }
}

/// The watcher degraded: the pin set and its onset logged, once.
pub open spec fn watcher_degraded_state(a: AppView) -> AppView {
    if a.watcher_degraded {
        a
    } else {
        AppView {
            watcher_degraded: true,
            log: logged(a.log, Severity::Info, "watcher unavailable — falling back to polling"@),
            ..a
        }
    }
}

/// The watcher recovered: the pin cleared and the moment logged, once.
pub open spec fn watcher_recovered_state(a: AppView) -> AppView {
    if !a.watcher_degraded {
        a
    } else {
        AppView { watcher_degraded: false, log: logged(a.log, Severity::Info, "watcher recovered"@), ..a }
    }
}

/// The live condition set as pin lines, top of the Log panel:
/// condition-bound, self-clearing, never dismissable.
pub open spec fn pins_of(a: AppView) -> Seq<Seq<char>> {
    let operation = match a.snapshot {
        Some(s) => match s.operation {
            Some(op) => {
                let c = conflicted_count(s.files@);
                let tail = if c > 0 { decimal(c) + " conflicted"@ } else { commit_disabled() };
                seq![operation_label(op) + " in progress — "@ + tail]
            },
            None => Seq::empty(),
        },
        None => Seq::empty(),
    };
    let watcher = if a.watcher_degraded { seq!["watcher unavailable — polling"@] } else { Seq::empty() };
    let detached = match a.snapshot {
        Some(s) => if s.head is Detached { seq!["detached HEAD — commits belong to no branch"@] } else { Seq::empty() },
        None => Seq::empty(),
    };
    operation + watcher + detached
}

/// How many of `files` are quarantined.
pub fn count_conflicted(files: &Vec<ChangedFile>) -> (r: usize)
    ensures
        r == conflicted_count(files@),
{
    let mut n: usize = 0;
    let mut i: usize = 0;
    while i < files.len()
        invariant
            i <= files.len(),
            n == conflicted_count(files@.take(i as int)),
        decreases files.len() - i,
    {
        assert(files@.take(i + 1).drop_last() =~= files@.take(i as int));
        assert(files@.take(i + 1).last() == files@[i as int]);
        proof {
            crate::view::lemma_group_size_bounded(files@.take(i as int), None);
        }
        if files[i].kind == ChangeKind::Conflicted {
            n = n + 1;
        }
        i = i + 1;
    }
    assert(files@.take(files.len() as int) =~= files@);
    n
}

impl App {
    /// Append one event to the Log panel's stream, keeping a capped tail.
    pub fn push_log(&mut self, severity: Severity, text: &str)
        ensures
            final(self)@ == (AppView { log: logged(old(self)@.log, severity, text@), ..old(self)@ }),
    {
        let ghost grown = old(self)@.log.push(LogEntryView { severity, text: text@ });
        self.log.push(LogEntry { severity, text: owned(text) });
        assert(log_view(self.log@) =~= grown);
        let ghost mut dropped: int = 0;
        while self.log.len() > LOG_CAP
            invariant
                grown == old(self)@.log.push(LogEntryView { severity, text: text@ }),
                self@ == (AppView { log: self@.log, ..old(self)@ }),
                log_view(self.log@) =~= grown.skip(dropped),
                0 <= dropped <= grown.len(),
                dropped == grown.len() - self.log@.len(),
                grown.len() > LOG_CAP ==> self.log@.len() >= LOG_CAP,
                grown.len() <= LOG_CAP ==> dropped == 0,
            decreases self.log.len(),
        {
            let ghost before = self.log@;
            self.log.remove(0);
            assert(log_view(self.log@) =~= log_view(before).drop_first());
            proof {
                dropped = dropped + 1;
            }
            assert(grown.skip(dropped) =~= grown.skip(dropped - 1).drop_first());
        }
        proof {
            if grown.len() > LOG_CAP {
                assert(dropped == grown.len() - LOG_CAP);
            } else {
                assert(grown.skip(0) =~= grown);
            }
        }
        assert(log_view(self.log@) == logged(old(self)@.log, severity, text@));
    }

    /// Append core advisories in the Log vocabulary — the path every
    /// fail-soft outcome takes.
    pub fn push_advisories(&mut self, advisories: &Vec<Advisory>)
        ensures
            final(self)@ == (AppView { log: logged_advisories(old(self)@.log, advisories@), ..old(self)@ }),
    {
        let mut i: usize = 0;
        while i < advisories.len()
            invariant
                i <= advisories.len(),
                self@ == (AppView { log: logged_advisories(old(self)@.log, advisories@.take(i as int)), ..old(self)@ }),
            decreases advisories.len() - i,
        {
            assert(advisories@.take(i + 1).drop_last() =~= advisories@.take(i as int));
            let entry = advisory_entry(&advisories[i]);
            self.push_log(entry.severity, entry.text.as_str());
            i = i + 1;
        }
        assert(advisories@.take(advisories.len() as int) =~= advisories@);
    }

    /// The error-modal contract: title names the operation, detail is
    /// verbatim and scrollable; every modal is also logged at `✗` so the
    /// record survives dismissal.
    pub fn show_error(&mut self, title: &str, detail: &str)
        ensures
            final(self)@ == (AppView {
                log: logged(old(self)@.log, Severity::Error, error_log_text(title@, detail@)),
                error_modal: Some(ErrorModalView { title: title@, detail: detail@, scroll: 0 }),
                ..old(self)@
            }),
    {
        let first = first_nonblank_line(detail);
        let first_chars = crate::text::chars_of(first.as_str());
        let text = if first_chars.len() == 0 {
            owned(title)
        } else {
            let mut t = owned(title);
            t.append(" — ");
            t.append(first.as_str());
            t
        };
        self.push_log(Severity::Error, text.as_str());
        self.error_modal = Some(ErrorModal { title: owned(title), detail: owned(detail), scroll: 0 });
    }

    pub fn on_refresh_started(&mut self, now: u64)
        ensures
            final(self)@ == (AppView { refresh_started: Some(now), ..old(self)@ }),
    {
        self.refresh_started = Some(now);
    }

    /// A hard refresh failure: the error-modal contract, except that an
    /// unchanged failure repeats silently — a degraded engine polls every
    /// few seconds and re-modalling it each tick would interrupt.
    pub fn on_refresh_failed(&mut self, error: String)
        ensures
            final(self)@ == refresh_failed(old(self)@, error@),
    {
        self.refresh_started = None;
        let repeated = match &self.last_refresh_failure {
            Some(last) => same_text(last.as_str(), error.as_str()),
            None => false,
        };
        if repeated {
            return;
        }
        self.last_refresh_failure = Some(error.clone());
        self.show_error("Refresh failed", error.as_str());
    }

    /// The watcher degraded: pin the condition and log the moment it
    /// began.
    pub fn on_watcher_degraded(&mut self)
        ensures
            final(self)@ == watcher_degraded_state(old(self)@),
    {
        if self.watcher_degraded {
            return;
        }
        self.watcher_degraded = true;
        self.push_log(Severity::Info, "watcher unavailable — falling back to polling");
    }

    /// The watcher recovered: the pin self-clears, and the moment is
    /// logged like its onset.
    pub fn on_watcher_recovered(&mut self)
        ensures
            final(self)@ == watcher_recovered_state(old(self)@),
    {
        if !self.watcher_degraded {
            return;
        }
        self.watcher_degraded = false;
        self.push_log(Severity::Info, "watcher recovered");
    }

    /// The live condition set as pin lines.
    pub fn pins(&self) -> (r: Vec<String>)
        ensures
            crate::text::strings_view(r@) == pins_of(self@),
    {
        let mut pins: Vec<String> = Vec::new();
        let ghost a = self@;
        let ghost op_part: Seq<Seq<char>> = match a.snapshot {
            Some(s) => match s.operation {
                Some(op) => {
                    let c = conflicted_count(s.files@);
                    let tail = if c > 0 { decimal(c) + " conflicted"@ } else { commit_disabled() };
                    seq![operation_label(op) + " in progress — "@ + tail]
                },
                None => Seq::empty(),
            },
            None => Seq::empty(),
        };
        if let Some(snapshot) = &self.snapshot {
            if let Some(operation) = snapshot.operation {
                let conflicted = count_conflicted(&snapshot.files);
                let mut line = cat(operation.label(), " in progress — ");
                if conflicted > 0 {
                    line.append(usize_decimal(conflicted).as_str());
                    line.append(" conflicted");
                    assert(line@ =~= operation_label(operation) + " in progress — "@ + (decimal(conflicted as nat) + " conflicted"@));
                } else {
                    line.append("commit disabled");
                }
                pins.push(line);
            }
        }
        assert(crate::text::strings_view(pins@) =~= op_part);
        let ghost w_part: Seq<Seq<char>> = if a.watcher_degraded { seq!["watcher unavailable — polling"@] } else { Seq::empty() };
        if self.watcher_degraded {
            pins.push(owned("watcher unavailable — polling"));
        }
        assert(crate::text::strings_view(pins@) =~= op_part + w_part);
        let ghost d_part: Seq<Seq<char>> = match a.snapshot {
            Some(s) => if s.head is Detached { seq!["detached HEAD — commits belong to no branch"@] } else { Seq::empty() },
            None => Seq::empty(),
        };
        if let Some(snapshot) = &self.snapshot {
            if let Head::Detached { .. } = &snapshot.head {
                pins.push(owned("detached HEAD — commits belong to no branch"));
            }
        }
        assert(crate::text::strings_view(pins@) =~= op_part + w_part + d_part);
        pins
    }

    /// Whether the deferred refresh indicator shows: only once a refresh
    /// has been in flight past the threshold.
    pub fn indicator_visible(&self, now: u64) -> (r: bool)
        ensures
            r == (self.refresh_started matches Some(started) && now as int - started as int >= INDICATOR_DELAY as int),
    {
        match self.refresh_started {
            Some(started) => now >= started && now - started >= INDICATOR_DELAY,
            None => false,
        }
    }

    /// The instant the indicator becomes due, for the main loop's timer
    /// (saturating at the clock's end).
    pub fn indicator_deadline(&self) -> (r: Option<u64>)
        ensures
            match self.refresh_started {
                Some(started) => r == Some(
                    if started as int + INDICATOR_DELAY as int > u64::MAX as int { u64::MAX } else { (started + INDICATOR_DELAY) as u64 },
                ),
                None => r is None,
            },
    {
        match self.refresh_started {
            Some(started) => Some(started.saturating_add(INDICATOR_DELAY)),
            None => None,
        }
    }
}

} // verus!
