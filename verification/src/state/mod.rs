//! The screens of the application and the events that background work
//! sends back.
pub mod install;
pub mod log;
pub mod search;
pub mod uninstall;
pub mod upgrade;

use vstd::prelude::*;

use crate::winget::error::WingetError;
use crate::winget::models::{package_views, Package, PackageView};

pub use install::{InstallState, InstallView};
pub use log::{LogState, LogView};
pub use search::{SearchState, SearchView};
pub use uninstall::{UninstallAction, UninstallState, UninstallView};
pub use upgrade::{UpgradeAction, UpgradeState, UpgradeView};

verus! {

/// The row below `selected` in a list of `len` rows, the first after the last.
pub open spec fn next_index(selected: usize, len: nat) -> usize {
    ((selected + 1) % (len as int)) as usize
}

/// The row above `selected` in a list of `len` rows, the last before the first.
pub open spec fn prev_index(selected: usize, len: nat) -> usize {
    if selected == 0 {
        (len - 1) as usize
    } else {
        (selected - 1) as usize
    }
}

/// The screen shown.
#[derive(Debug, Clone, PartialEq, Eq)]
pub enum AppState {
    MainMenu,
    Search(SearchState),
    Upgrade(UpgradeState),
    Install(InstallState),
    Uninstall(UninstallState),
    Log(LogState),
}

/// The screen shown, as text.
#[verifier::ext_equal]
pub enum AppStateView {
    MainMenu,
    Search(SearchView),
    Upgrade(UpgradeView),
    Install(InstallView),
    Uninstall(UninstallView),
    Log(LogView),
}

impl View for AppState {
    type V = AppStateView;

    open spec fn view(&self) -> AppStateView {
        match self {
            AppState::MainMenu => AppStateView::MainMenu,
            AppState::Search(s) => AppStateView::Search(s@),
            AppState::Upgrade(s) => AppStateView::Upgrade(s@),
            AppState::Install(s) => AppStateView::Install(s@),
            AppState::Uninstall(s) => AppStateView::Uninstall(s@),
            AppState::Log(s) => AppStateView::Log(s@),
        }
    }
}

/// What background work sends back.
#[derive(Debug)]
pub enum BackgroundEvent {
    SearchDone(Result<Vec<Package>, WingetError>),
    UpgradeListDone(Result<Vec<Package>, WingetError>),
    InstalledListDone(Result<Vec<Package>, WingetError>),
    ActionDone(Result<(), WingetError>),
    /// One stdout/stderr line of a running changing command.
    LogLine(String),
}

/// A package listing as the screens read it: the packages, or the text of
/// the error.
pub open spec fn listing_view(r: Result<Vec<Package>, WingetError>) -> Result<Seq<PackageView>, Seq<char>> {
    match r {
        Ok(v) => Ok(package_views(v@)),
        Err(e) => Err(e.spec_message()),
    }
}

/// The outcome of a changing command as the screens read it.
pub open spec fn outcome_view(r: Result<(), WingetError>) -> Result<(), Seq<char>> {
    match r {
        Ok(()) => Ok(()),
        Err(e) => Err(e.spec_message()),
    }
}

/// A background event as the screens read it.
pub enum BackgroundView {
    SearchDone(Result<Seq<PackageView>, Seq<char>>),
    UpgradeListDone(Result<Seq<PackageView>, Seq<char>>),
    InstalledListDone(Result<Seq<PackageView>, Seq<char>>),
    ActionDone(Result<(), Seq<char>>),
    LogLine(Seq<char>),
}

impl View for BackgroundEvent {
    type V = BackgroundView;

    open spec fn view(&self) -> BackgroundView {
        match self {
            BackgroundEvent::SearchDone(r) => BackgroundView::SearchDone(listing_view(*r)),
            BackgroundEvent::UpgradeListDone(r) => BackgroundView::UpgradeListDone(listing_view(*r)),
            BackgroundEvent::InstalledListDone(r) => BackgroundView::InstalledListDone(
                listing_view(*r),
            ),
            BackgroundEvent::ActionDone(r) => BackgroundView::ActionDone(outcome_view(*r)),
            BackgroundEvent::LogLine(l) => BackgroundView::LogLine(l@),
        }
    }
}

/// Law of the list screens: moving the selection keeps it on a row, and
/// moving down then up (or up then down) comes back to the same row.
pub proof fn lemma_selection_round_trip(selected: usize, len: nat)
    requires
        0 < len <= usize::MAX,
        selected < len,
    ensures
        next_index(selected, len) < len,
        prev_index(selected, len) < len,
        prev_index(next_index(selected, len), len) == selected,
        next_index(prev_index(selected, len), len) == selected,
{
    if selected + 1 < len {
        assert((selected + 1) % (len as int) == selected + 1) by (nonlinear_arith)
            requires selected + 1 < len;
    } else {
        assert((selected + 1) % (len as int) == 0) by (nonlinear_arith)
            requires selected + 1 == len;
    }
    if selected == 0 {
        assert(((len - 1) + 1) % (len as int) == 0) by (nonlinear_arith)
            requires len > 0;
    } else {
        assert(((selected - 1) + 1) % (len as int) == selected) by (nonlinear_arith)
            requires 0 < selected < len;
    }
}

} // verus!
