//! The uninstall screen.
use vstd::prelude::*;

use crate::state::search::opt_view;
use crate::state::{next_index, prev_index};
use crate::winget::models::{package_views, Package, PackageView};

verus! {

/// The uninstall in progress (so it is not submitted twice).
#[derive(Debug, Clone, Copy, PartialEq, Eq)]
pub struct UninstallAction {
    /// The position of the package in the list.
    pub index: usize,
}

/// Uninstall screen: the installed packages, the selected one, whether the
/// list is loading, the uninstall in progress and the last message.
#[derive(Debug, Clone, PartialEq, Eq)]
pub struct UninstallState {
    pub items: Vec<Package>,
    pub selected: usize,
    pub loading: bool,
    pub action: Option<UninstallAction>,
    pub message: Option<String>,
}

/// The uninstall screen as text.
#[verifier::ext_equal]
pub struct UninstallView {
    pub items: Seq<PackageView>,
    pub selected: usize,
    pub loading: bool,
    pub action: Option<UninstallAction>,
    pub message: Option<Seq<char>>,
}

impl View for UninstallState {
    type V = UninstallView;

    open spec fn view(&self) -> UninstallView {
        UninstallView {
            items: package_views(self.items@),
            selected: self.selected,
            loading: self.loading,
            action: self.action,
            message: opt_view(self.message),
        }
    }
}

impl UninstallView {
    /// A screen just opened: no packages, first row, idle.
    pub open spec fn fresh() -> UninstallView {
        UninstallView {
            items: Seq::empty(),
            selected: 0,
            loading: false,
            action: None,
            message: None,
        }
    }

    /// The screen with the selection moved down one row, wrapping around.
    pub open spec fn selected_next(self) -> UninstallView {
        if self.items.len() == 0 {
            self
        } else {
            UninstallView { selected: next_index(self.selected, self.items.len()), ..self }
        }
    }

    /// The screen with the selection moved up one row, wrapping around.
    pub open spec fn selected_prev(self) -> UninstallView {
        if self.items.len() == 0 {
            self
        } else {
            UninstallView { selected: prev_index(self.selected, self.items.len()), ..self }
        }
    }
}

impl UninstallState {
    /// A screen just opened.
    pub fn new() -> (r: Self)
        ensures
            r@ == UninstallView::fresh(),
    {
        let r = UninstallState {
            items: Vec::new(),
            selected: 0,
            loading: false,
            action: None,
            message: None,
        };
        assert(r@ =~= UninstallView::fresh());
        r
    }

    /// Moves the selection down one row, from the last back to the first.
    pub fn select_next(&mut self)
        requires
            old(self).items@.len() == 0 || old(self).selected < usize::MAX,
        ensures
            final(self)@ == old(self)@.selected_next(),
    {
        if self.items.len() == 0 {
            return;
        }
        self.selected = (self.selected + 1) % self.items.len();
    }

    /// Moves the selection up one row, from the first to the last.
    pub fn select_prev(&mut self)
        ensures
            final(self)@ == old(self)@.selected_prev(),
    {
        if self.items.len() == 0 {
            return;
        }
        self.selected = if self.selected == 0 {
            self.items.len() - 1
        } else {
            self.selected - 1
        };
    }
}

} // verus!
