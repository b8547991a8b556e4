//! The install screen.
use vstd::prelude::*;

use crate::state::search::opt_view;

verus! {

/// Install screen: the package id being typed, the id waiting for
/// confirmation, and the state of the operation.
#[derive(Debug, Clone, PartialEq, Eq)]
pub struct InstallState {
    pub input: String,
    /// The id waiting for confirmation (set once a valid input was entered).
    pub pending_confirm: Option<String>,
    pub loading: bool,
    pub message: Option<String>,
    pub error: Option<String>,
}

/// The install screen as text.
#[verifier::ext_equal]
pub struct InstallView {
    pub input: Seq<char>,
    pub pending_confirm: Option<Seq<char>>,
    pub loading: bool,
    pub message: Option<Seq<char>>,
    pub error: Option<Seq<char>>,
}

impl View for InstallState {
    type V = InstallView;

    open spec fn view(&self) -> InstallView {
        InstallView {
            input: self.input@,
            pending_confirm: opt_view(self.pending_confirm),
            loading: self.loading,
            message: opt_view(self.message),
            error: opt_view(self.error),
        }
    }
}

impl InstallView {
    /// A screen just opened: empty input, nothing pending, idle.
    pub open spec fn fresh() -> InstallView {
        InstallView {
            input: Seq::empty(),
            pending_confirm: None,
            loading: false,
            message: None,
            error: None,
        }
    }
}

impl InstallState {
    /// A screen just opened.
    pub fn new() -> (r: Self)
        ensures
            r@ == InstallView::fresh(),
    {
        let r = InstallState {
            input: String::new(),
            pending_confirm: None,
            loading: false,
            message: None,
            error: None,
        };
        assert(r@ =~= InstallView::fresh());
        r
    }

    /// Whether an install is running (keys are then ignored, so nothing is
    /// submitted twice).
    pub fn is_busy(&self) -> (r: bool)
        ensures
            r == self.loading,
    {
        self.loading
    }
}

} // verus!
