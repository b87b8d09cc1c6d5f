//! The log console model: a bounded scrollback of classified log lines,
//! and the message type a logging backend sends them through.

use vstd::prelude::*;

verus! {

broadcast use vstd::string::group_string_axioms;

/// A log line on its way from the logger to the console.
#[derive(Debug)]
pub enum LogType {
    Info(String),
    Warning(String),
    Error(String),
}

/// A log line as the console stores it.
#[derive(Debug, Clone)]
pub enum LogConsoleInput {
    Normal(String),
    Warning(String),
    Error(String),
}

/// The severity half of a stored log line, for specification purposes.
#[derive(Clone, Copy, Debug, PartialEq, Eq, Structural)]
pub enum LogKind {
    Normal,
    Warning,
    Error,
}

/// A stored line as a mathematical value: its severity and its text.
pub open spec fn entry_view(e: LogConsoleInput) -> (LogKind, Seq<char>) {
    match e {
        LogConsoleInput::Normal(s) => (LogKind::Normal, s@),
        LogConsoleInput::Warning(s) => (LogKind::Warning, s@),
        LogConsoleInput::Error(s) => (LogKind::Error, s@),
    }
}

/// The views of a whole scrollback, oldest first.
pub open spec fn entry_views(s: Seq<LogConsoleInput>) -> Seq<(LogKind, Seq<char>)> {
    s.map_values(|e: LogConsoleInput| entry_view(e))
}

/// A bounded scrollback of log lines: at most `max_inputs` entries are
/// kept, the oldest dropped first.
#[derive(Debug)]
pub struct LogConsole {
    logs_input: Vec<LogConsoleInput>,
    max_inputs: usize,
    font_size: u16,
}

impl LogConsole {
    /// The stored entries, oldest first.
    pub closed spec fn entries(&self) -> Seq<LogConsoleInput> {
        self.logs_input@
    }

    /// The stored entries as severity/text pairs, oldest first.
    pub open spec fn views(&self) -> Seq<(LogKind, Seq<char>)> {
        entry_views(self.entries())
    }

    /// The configured maximum number of entries.
    pub closed spec fn max_spec(&self) -> nat {
        self.max_inputs as nat
    }

    /// The scrollback never exceeds its maximum.
    pub open spec fn wf(&self) -> bool {
        self.entries().len() <= self.max_spec()
    }

    /// The scrollback views after appending a line and trimming to the
    /// maximum: the newest `max` entries of the extended scrollback.
    pub open spec fn pushed_view(&self, k: LogKind, t: Seq<char>) -> Seq<(LogKind, Seq<char>)> {
        let all = self.views().push((k, t));
        if all.len() <= self.max_spec() {
            all
        } else {
            all.skip(all.len() - self.max_spec())
        }
    }

    pub fn new(max_inputs: usize) -> (r: Self)
        ensures
            r.entries() =~= Seq::<LogConsoleInput>::empty(),
            r.max_spec() == max_inputs,
            r.wf(),
    {
        LogConsole { logs_input: Vec::with_capacity(max_inputs), max_inputs, font_size: 12 }
    }

    /// Appends an informational line, dropping the oldest entries past
    /// the maximum.
    pub fn log_message(&mut self, msg: &str)
        requires
            old(self).wf(),
        ensures
            final(self).views() == old(self).pushed_view(LogKind::Normal, msg@),
            final(self).max_spec() == old(self).max_spec(),
            final(self).wf(),
    {
        let entry = LogConsoleInput::Normal(msg.to_string());
        self.push_entry(entry);
    }

    /// Appends a warning line, dropping the oldest entries past the
    /// maximum.
    pub fn log_warning(&mut self, msg: &str)
        requires
            old(self).wf(),
        ensures
            final(self).views() == old(self).pushed_view(LogKind::Warning, msg@),
            final(self).max_spec() == old(self).max_spec(),
            final(self).wf(),
    {
        let entry = LogConsoleInput::Warning(msg.to_string());
        self.push_entry(entry);
    }

    /// Appends an error line, dropping the oldest entries past the
    /// maximum.
    pub fn log_error(&mut self, msg: &str)
        requires
            old(self).wf(),
        ensures
            final(self).views() == old(self).pushed_view(LogKind::Error, msg@),
            final(self).max_spec() == old(self).max_spec(),
            final(self).wf(),
    {
        let entry = LogConsoleInput::Error(msg.to_string());
        self.push_entry(entry);
    }

    fn push_entry(&mut self, entry: LogConsoleInput)
        requires
            old(self).wf(),
        ensures
            final(self).views() == old(self).pushed_view(
                entry_view(entry).0,
                entry_view(entry).1,
            ),
            final(self).max_spec() == old(self).max_spec(),
            final(self).wf(),
    {
        let ghost all = old(self).entries().push(entry);
        self.logs_input.push(entry);
        while self.logs_input.len() > self.max_inputs
            invariant
                self.max_inputs == old(self).max_inputs,
                self.logs_input@.len() <= all.len(),
                self.logs_input@ == all.skip(all.len() - self.logs_input@.len()),
                self.logs_input@.len() >= self.max_inputs || self.logs_input@.len() == all.len(),
            decreases self.logs_input@.len(),
        {
            self.logs_input.remove(0);
            proof {
                assert(self.logs_input@ =~= all.skip(all.len() - self.logs_input@.len()));
            }
        }
        proof {
            assert(all.skip(0) =~= all);
            let kept = self.logs_input@;
            assert(entry_views(all) =~= old(self).views().push(entry_view(entry)));
            if all.len() > self.max_inputs {
                assert(entry_views(kept) =~= entry_views(all).skip(
                    all.len() - self.max_inputs,
                ));
            }
        }
    }

    /// The stored entries, oldest first, for display.
    pub fn items(&self) -> (r: &Vec<LogConsoleInput>)
        ensures
            r@ == self.entries(),
    {
        &self.logs_input
    }

    /// The number of stored entries.
    pub fn len(&self) -> (n: usize)
        ensures
            n == self.entries().len(),
    {
        self.logs_input.len()
    }
}

impl Default for LogConsole {
    /// A console that keeps the last hundred lines.
    fn default() -> (r: Self)
        ensures
            r.entries() =~= Seq::<LogConsoleInput>::empty(),
            r.max_spec() == 100,
            r.wf(),
    {
        LogConsole::new(100)
    }
}

} // verus!
