//! The log screen (live output of a changing command).
use vstd::prelude::*;

use crate::state::search::opt_view;
use crate::winget::commands::arg_texts;

verus! {

/// Log screen: the output lines received so far and the final result.
#[derive(Debug, Clone, PartialEq, Eq)]
pub struct LogState {
    /// The stdout/stderr lines of the command, in the order received.
    pub lines: Vec<String>,
    /// The result shown once the command ended.
    pub result: Option<String>,
    /// Whether the command ended.
    pub done: bool,
}

/// The log screen as text.
#[verifier::ext_equal]
pub struct LogView {
    pub lines: Seq<Seq<char>>,
    pub result: Option<Seq<char>>,
    pub done: bool,
}

impl View for LogState {
    type V = LogView;

    open spec fn view(&self) -> LogView {
        LogView { lines: arg_texts(self.lines@), result: opt_view(self.result), done: self.done }
    }
}

impl LogView {
    /// A screen just opened: no lines, no result.
    pub open spec fn fresh() -> LogView {
        LogView { lines: Seq::empty(), result: None, done: false }
    }
}

impl LogState {
    /// A screen just opened.
    pub fn new() -> (r: Self)
        ensures
            r@ == LogView::fresh(),
    {
        let r = LogState { lines: Vec::new(), result: None, done: false };
        assert(r@ =~= LogView::fresh());
        r
    }

    /// Appends one output line.
    pub fn push_line(&mut self, line: String)
        ensures
            final(self)@ == (LogView { lines: old(self)@.lines.push(line@), ..old(self)@ }),
    {
        self.lines.push(line);
        assert(self@ =~= (LogView { lines: old(self)@.lines.push(line@), ..old(self)@ }));
    }

    /// Records the final result and marks the command as ended.
    pub fn finish(&mut self, result: String)
        ensures
            final(self)@ == (LogView { result: Some(result@), done: true, ..old(self)@ }),
    {
        self.result = Some(result);
        self.done = true;
    }
}

} // verus!
