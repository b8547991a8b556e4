//! The search screen.
use vstd::prelude::*;

use crate::winget::models::{package_views, Package, PackageView};

verus! {

/// Search screen: the query being typed, the results, whether a search is
/// running, and the error to show.
#[derive(Debug, Clone, PartialEq, Eq)]
pub struct SearchState {
    pub query: String,
    pub results: Vec<Package>,
    pub loading: bool,
    pub error: Option<String>,
}

/// The search screen as text.
#[verifier::ext_equal]
pub struct SearchView {
    pub query: Seq<char>,
    pub results: Seq<PackageView>,
    pub loading: bool,
    pub error: Option<Seq<char>>,
}

/// The text of an optional string.
pub open spec fn opt_view(s: Option<String>) -> Option<Seq<char>> {
    match s {
        Some(t) => Some(t@),
        None => None,
    }
}

impl View for SearchState {
    type V = SearchView;

    open spec fn view(&self) -> SearchView {
        SearchView {
            query: self.query@,
            results: package_views(self.results@),
            loading: self.loading,
            error: opt_view(self.error),
        }
    }
}

impl SearchView {
    /// A screen just opened: empty query, no results, idle, no error.
    pub open spec fn fresh() -> SearchView {
        SearchView { query: Seq::empty(), results: Seq::empty(), loading: false, error: None }
    }
}

impl SearchState {
    /// A screen just opened.
    pub fn new() -> (r: Self)
        ensures
            r@ == SearchView::fresh(),
    {
        let r = SearchState {
            query: String::new(),
            results: Vec::new(),
            loading: false,
            error: None,
        };
        assert(r@ =~= SearchView::fresh());
        r
    }

    /// Clears the results and the error (called when the input changes).
    pub fn reset_results(&mut self)
        ensures
            final(self)@ == (SearchView { results: Seq::empty(), error: None, ..old(self)@ }),
    {
        self.results.clear();
        self.error = None;
        assert(self@ =~= (SearchView { results: Seq::empty(), error: None, ..old(self)@ }));
    }
}

} // verus!
