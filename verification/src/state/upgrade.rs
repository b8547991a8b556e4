//! The upgrade screen.
use vstd::prelude::*;

use crate::state::search::opt_view;
use crate::state::{next_index, prev_index};
use crate::winget::models::{package_views, Package, PackageView};

verus! {

/// The upgrade in progress (so it is not submitted twice).
#[derive(Debug, Clone, Copy, PartialEq, Eq)]
pub enum UpgradeAction {
    /// Upgrade of the package at this position of the list.
    Selected(usize),
    /// Upgrade of all packages.
    All,
}

/// Upgrade screen: the upgradeable packages, the selected one, whether the
/// list is loading, the upgrade in progress and the last message.
#[derive(Debug, Clone, PartialEq, Eq)]
pub struct UpgradeState {
    pub items: Vec<Package>,
    pub selected: usize,
    pub loading: bool,
    pub action: Option<UpgradeAction>,
    /// The result of the last operation (success or failure).
    pub message: Option<String>,
}

/// The upgrade screen as text.
#[verifier::ext_equal]
pub struct UpgradeView {
    pub items: Seq<PackageView>,
    pub selected: usize,
    pub loading: bool,
    pub action: Option<UpgradeAction>,
    pub message: Option<Seq<char>>,
}

impl View for UpgradeState {
    type V = UpgradeView;

    open spec fn view(&self) -> UpgradeView {
        UpgradeView {
            items: package_views(self.items@),
            selected: self.selected,
            loading: self.loading,
            action: self.action,
            message: opt_view(self.message),
        }
    }
}

impl UpgradeView {
    /// A screen just opened: no packages, first row, idle.
    pub open spec fn fresh() -> UpgradeView {
        UpgradeView {
            items: Seq::empty(),
            selected: 0,
            loading: false,
            action: None,
            message: None,
        }
    }

    /// The screen with the selection moved down one row, wrapping around.
    pub open spec fn selected_next(self) -> UpgradeView {
        if self.items.len() == 0 {
            self
        } else {
            UpgradeView { selected: next_index(self.selected, self.items.len()), ..self }
        }
    }

    /// The screen with the selection moved up one row, wrapping around.
    pub open spec fn selected_prev(self) -> UpgradeView {
        if self.items.len() == 0 {
            self
        } else {
            UpgradeView { selected: prev_index(self.selected, self.items.len()), ..self }
        }
    }
}

impl UpgradeState {
    /// A screen just opened.
    pub fn new() -> (r: Self)
        ensures
            r@ == UpgradeView::fresh(),
    {
        let r = UpgradeState {
            items: Vec::new(),
            selected: 0,
            loading: false,
            action: None,
            message: None,
        };
        assert(r@ =~= UpgradeView::fresh());
        r
    }

    /// Moves the selection down one row, from the last back to the first.
    pub fn select_next(&mut self)
        requires
            old(self).items@.len() == 0 || old(self).selected < usize::MAX,
        ensures
            final(self)@ == old(self)@.selected_next(),
    {
        if self.items.len() == 0 {
            return;
        }
        self.selected = (self.selected + 1) % self.items.len();
    }

    /// Moves the selection up one row, from the first to the last.
    pub fn select_prev(&mut self)
        ensures
            final(self)@ == old(self)@.selected_prev(),
    {
        if self.items.len() == 0 {
            return;
        }
        self.selected = if self.selected == 0 {
            self.items.len() - 1
        } else {
            self.selected - 1
        };
    }
}

} // verus!
