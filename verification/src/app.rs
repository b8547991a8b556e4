//! The application's state machine: from the current screen and an event to
//! the next screen and the outside work to start.
//!
//! The machine touches neither the terminal nor any process: it returns an
//! [`Effect`] that the runtime carries out (spawning a search after the
//! debounce delay, a listing, or a changing command), and the runtime hands
//! the results back as [`Event::Background`] events.
use vstd::prelude::*;
use vstd::string::*;

use crate::event::{Event, EventView, Key, KeyCode, KeyKind};
use crate::state::{
    AppState, AppStateView, BackgroundEvent, BackgroundView, InstallState, InstallView, LogState,
    LogView, SearchState, SearchView, UninstallState, UninstallView, UpgradeState, UpgradeView,
};
use crate::text::{lemma_trim_idempotent, pop_char, push_char, trim, trim_text};
use crate::winget::validate::{
    input_is_valid, input_problem, lemma_validation_of_trimmed, validate_package_input,
};

verus! {

/// Delay between the last keystroke in the search box and the search, in
/// milliseconds.
pub const SEARCH_DEBOUNCE_MILLIS: u64 = 300;

/// Outside work that a step asks for.
#[derive(Debug, Clone, PartialEq, Eq)]
pub enum Effect {
    /// Drop the pending search, if any.
    CancelSearch,
    /// Drop the pending search and schedule a search for this query after
    /// the debounce delay.
    ScheduleSearch(String),
    /// Load the upgradeable packages.
    LoadUpgradeable,
    /// Load the installed packages.
    LoadInstalled,
    /// Upgrade one package, or all for `None`.
    Upgrade(Option<String>),
    /// Install a package.
    Install(String),
    /// Uninstall a package.
    Uninstall(String),
}

/// An effect as text.
pub enum EffectView {
    CancelSearch,
    ScheduleSearch(Seq<char>),
    LoadUpgradeable,
    LoadInstalled,
    Upgrade(Option<Seq<char>>),
    Install(Seq<char>),
    Uninstall(Seq<char>),
}

impl View for Effect {
    type V = EffectView;

    open spec fn view(&self) -> EffectView {
        match self {
            Effect::CancelSearch => EffectView::CancelSearch,
            Effect::ScheduleSearch(q) => EffectView::ScheduleSearch(q@),
            Effect::LoadUpgradeable => EffectView::LoadUpgradeable,
            Effect::LoadInstalled => EffectView::LoadInstalled,
            Effect::Upgrade(Some(id)) => EffectView::Upgrade(Some(id@)),
            Effect::Upgrade(None) => EffectView::Upgrade(None),
            Effect::Install(id) => EffectView::Install(id@),
            Effect::Uninstall(id) => EffectView::Uninstall(id@),
        }
    }
}

/// The effect of a step, as text.
pub open spec fn effect_view(e: Option<Effect>) -> Option<EffectView> {
    match e {
        Some(x) => Some(x@),
        None => None,
    }
}

/// The application: the screen shown and whether it is to end.
pub struct App {
    pub state: AppState,
    pub should_quit: bool,
}

/// The application as text.
#[verifier::ext_equal]
pub struct AppView {
    pub state: AppStateView,
    pub should_quit: bool,
}

impl View for App {
    type V = AppView;

    open spec fn view(&self) -> AppView {
        AppView { state: self.state@, should_quit: self.should_quit }
    }
}

/// The text shown for a refused input with reason `m`.
pub open spec fn validation_text(m: Seq<char>) -> Seq<char> {
    "输入校验失败: "@ + m
}

/// The text of `s` with its last character removed (unchanged when empty).
pub open spec fn without_last(s: Seq<char>) -> Seq<char> {
    if s.len() == 0 {
        s
    } else {
        s.drop_last()
    }
}

/// The main menu: `s` search, `u` upgrades (loading the list), `i` install,
/// `x` uninstall (loading the list), `q` quit.
pub open spec fn main_menu_step(a: AppView, code: KeyCode) -> (AppView, Option<EffectView>) {
    if code == KeyCode::Char('s') {
        (AppView { state: AppStateView::Search(SearchView::fresh()), ..a }, None)
    } else if code == KeyCode::Char('u') {
        (
            AppView {
                state: AppStateView::Upgrade(UpgradeView { loading: true, ..UpgradeView::fresh() }),
                ..a
            },
            Some(EffectView::LoadUpgradeable),
        )
    } else if code == KeyCode::Char('i') {
        (AppView { state: AppStateView::Install(InstallView::fresh()), ..a }, None)
    } else if code == KeyCode::Char('x') {
        (
            AppView {
                state: AppStateView::Uninstall(
                    UninstallView { loading: true, ..UninstallView::fresh() },
                ),
                ..a
            },
            Some(EffectView::LoadInstalled),
        )
    } else if code == KeyCode::Char('q') {
        (AppView { should_quit: true, ..a }, None)
    } else {
        (a, None)
    }
}

/// The search screen after its query became `q`: the error is cleared; an
/// empty (trimmed) query clears the results and cancels the pending search;
/// a refused one shows why and cancels it; a valid one schedules a search
/// for the trimmed query.
pub open spec fn search_query_changed(s: SearchView, q: Seq<char>) -> (AppStateView, Option<EffectView>) {
    let t = trim(q);
    if t.len() == 0 {
        (
            AppStateView::Search(
                SearchView { query: q, results: Seq::empty(), loading: false, error: None },
            ),
            Some(EffectView::CancelSearch),
        )
    } else {
        match input_problem(t) {
            Some(m) => (
                AppStateView::Search(
                    SearchView { query: q, loading: false, error: Some(validation_text(m)), ..s },
                ),
                Some(EffectView::CancelSearch),
            ),
            None => (
                AppStateView::Search(SearchView { query: q, loading: true, error: None, ..s }),
                Some(EffectView::ScheduleSearch(t)),
            ),
        }
    }
}

/// The search screen: Esc or BackTab goes back (cancelling the pending
/// search); a character or Backspace edits the query.
pub open spec fn search_step(s: SearchView, code: KeyCode) -> (AppStateView, Option<EffectView>) {
    if code == KeyCode::Esc || code == KeyCode::BackTab {
        (AppStateView::MainMenu, Some(EffectView::CancelSearch))
    } else {
        match code {
            KeyCode::Char(c) => search_query_changed(s, s.query.push(c)),
            KeyCode::Backspace => search_query_changed(s, without_last(s.query)),
            _ => (AppStateView::Search(s), None),
        }
    }
}

/// The upgrade screen: Esc goes back; `u` upgrades the selected package and
/// `a` all of them (only while no list is loading and no upgrade was
/// started; the log screen then opens); `r` reloads the list; Up/`k` and
/// Down/`j` move the selection.
pub open spec fn upgrade_step(s: UpgradeView, code: KeyCode) -> (AppStateView, Option<EffectView>) {
    if code == KeyCode::Esc {
        (AppStateView::MainMenu, None)
    } else if code == KeyCode::Char('u') {
        if s.loading || s.action is Some || s.items.len() == 0 {
            (AppStateView::Upgrade(s), None)
        } else {
            (
                AppStateView::Log(LogView::fresh()),
                Some(EffectView::Upgrade(Some(s.items[s.selected as int].id))),
            )
        }
    } else if code == KeyCode::Char('a') {
        if s.loading || s.action is Some {
            (AppStateView::Upgrade(s), None)
        } else {
            (AppStateView::Log(LogView::fresh()), Some(EffectView::Upgrade(None)))
        }
    } else if code == KeyCode::Char('r') {
        (
            AppStateView::Upgrade(UpgradeView { loading: true, message: None, ..s }),
            Some(EffectView::LoadUpgradeable),
        )
    } else if code == KeyCode::Up || code == KeyCode::Char('k') {
        (AppStateView::Upgrade(s.selected_prev()), None)
    } else if code == KeyCode::Down || code == KeyCode::Char('j') {
        (AppStateView::Upgrade(s.selected_next()), None)
    } else {
        (AppStateView::Upgrade(s), None)
    }
}

/// Enter (or `y` while an id waits) on the install screen: the trimmed
/// input must be non-empty and valid; the first time it is put up for
/// confirmation, and when it is the id already waiting, the install starts
/// and the log screen opens.
pub open spec fn install_confirm_step(s: InstallView) -> (AppStateView, Option<EffectView>) {
    let t = trim(s.input);
    if s.loading {
        (AppStateView::Install(s), None)
    } else if t.len() == 0 {
        (AppStateView::Install(InstallView { error: Some("请输入包 Id"@), ..s }), None)
    } else {
        match input_problem(t) {
            Some(m) => (
                AppStateView::Install(InstallView { error: Some(validation_text(m)), ..s }),
                None,
            ),
            None => if s.pending_confirm == Some(t) {
                (AppStateView::Log(LogView::fresh()), Some(EffectView::Install(t)))
            } else {
                (
                    AppStateView::Install(
                        InstallView { pending_confirm: Some(t), error: None, ..s },
                    ),
                    None,
                )
            },
        }
    }
}

/// The install screen: Esc goes back; characters and Backspace edit the id
/// (dropping a pending confirmation), except `y` while an id waits, which
/// confirms; Enter confirms. While busy, editing keys do nothing.
pub open spec fn install_step(s: InstallView, code: KeyCode) -> (AppStateView, Option<EffectView>) {
    if code == KeyCode::Esc {
        (AppStateView::MainMenu, None)
    } else {
        match code {
            KeyCode::Char(c) => if s.loading {
                (AppStateView::Install(s), None)
            } else if c == 'y' && s.pending_confirm is Some {
                install_confirm_step(s)
            } else {
                (
                    AppStateView::Install(
                        InstallView {
                            input: s.input.push(c),
                            error: None,
                            pending_confirm: None,
                            ..s
                        },
                    ),
                    None,
                )
            },
            KeyCode::Backspace => if s.loading {
                (AppStateView::Install(s), None)
            } else {
                (
                    AppStateView::Install(
                        InstallView {
                            input: without_last(s.input),
                            error: None,
                            pending_confirm: None,
                            ..s
                        },
                    ),
                    None,
                )
            },
            KeyCode::Enter => install_confirm_step(s),
            _ => (AppStateView::Install(s), None),
        }
    }
}

/// The uninstall screen: Esc goes back; Enter uninstalls the selected
/// package (only while no list is loading and no uninstall was started; the
/// log screen then opens); `r` reloads the list; Up/`k` and Down/`j` move
/// the selection.
pub open spec fn uninstall_step(s: UninstallView, code: KeyCode) -> (AppStateView, Option<EffectView>) {
    if code == KeyCode::Esc {
        (AppStateView::MainMenu, None)
    } else if code == KeyCode::Enter {
        if s.loading || s.action is Some || s.items.len() == 0 {
            (AppStateView::Uninstall(s), None)
        } else {
            (
                AppStateView::Log(LogView::fresh()),
                Some(EffectView::Uninstall(s.items[s.selected as int].id)),
            )
        }
    } else if code == KeyCode::Char('r') {
        (
            AppStateView::Uninstall(UninstallView { loading: true, message: None, ..s }),
            Some(EffectView::LoadInstalled),
        )
    } else if code == KeyCode::Up || code == KeyCode::Char('k') {
        (AppStateView::Uninstall(s.selected_prev()), None)
    } else if code == KeyCode::Down || code == KeyCode::Char('j') {
        (AppStateView::Uninstall(s.selected_next()), None)
    } else {
        (AppStateView::Uninstall(s), None)
    }
}

/// The log screen: Esc goes back.
pub open spec fn log_step(s: LogView, code: KeyCode) -> (AppStateView, Option<EffectView>) {
    if code == KeyCode::Esc {
        (AppStateView::MainMenu, None)
    } else {
        (AppStateView::Log(s), None)
    }
}

/// A key: only presses count; Control-C quits from any screen; every other
/// press goes to the screen shown.
pub open spec fn key_step(a: AppView, k: Key) -> (AppView, Option<EffectView>) {
    if !(k.kind is Press) {
        (a, None)
    } else if k.ctrl && k.code == KeyCode::Char('c') {
        (AppView { should_quit: true, ..a }, None)
    } else {
        match a.state {
            AppStateView::MainMenu => main_menu_step(a, k.code),
            _ => {
                let (next, effect) = match a.state {
                    AppStateView::Search(s) => search_step(s, k.code),
                    AppStateView::Upgrade(s) => upgrade_step(s, k.code),
                    AppStateView::Install(s) => install_step(s, k.code),
                    AppStateView::Uninstall(s) => uninstall_step(s, k.code),
                    AppStateView::Log(s) => log_step(s, k.code),
                    AppStateView::MainMenu => (AppStateView::MainMenu, None),
                };
                (AppView { state: next, ..a }, effect)
            },
        }
    }
}

/// A background result updates the screen it belongs to, and only while
/// that screen is shown: search results, the upgradeable and the installed
/// lists, and the log's lines and final result.
pub open spec fn background_step(st: AppStateView, b: BackgroundView) -> AppStateView {
    match (st, b) {
        (AppStateView::Search(s), BackgroundView::SearchDone(r)) => AppStateView::Search(
            match r {
                Ok(p) => SearchView { loading: false, results: p, error: None, ..s },
                Err(m) => SearchView { loading: false, error: Some(m), ..s },
            },
        ),
        (AppStateView::Upgrade(s), BackgroundView::UpgradeListDone(r)) => AppStateView::Upgrade(
            match r {
                Ok(p) => UpgradeView { loading: false, items: p, message: None, ..s },
                Err(m) => UpgradeView { loading: false, message: Some("加载失败: "@ + m), ..s },
            },
        ),
        (
            AppStateView::Uninstall(s),
            BackgroundView::InstalledListDone(r),
        ) => AppStateView::Uninstall(
            match r {
                Ok(p) => UninstallView { loading: false, items: p, message: None, ..s },
                Err(m) => UninstallView { loading: false, message: Some("加载失败: "@ + m), ..s },
            },
        ),
        (AppStateView::Log(s), BackgroundView::ActionDone(r)) => AppStateView::Log(
            LogView {
                result: Some(
                    match r {
                        Ok(()) => "操作成功"@,
                        Err(m) => "操作失败: "@ + m,
                    },
                ),
                done: true,
                ..s
            },
        ),
        (AppStateView::Log(s), BackgroundView::LogLine(l)) => AppStateView::Log(
            LogView { lines: s.lines.push(l), ..s },
        ),
        _ => st,
    }
}

/// One step of the application. A resize changes nothing (the screen is
/// redrawn by the runtime); background events never ask for outside work.
pub open spec fn step(a: AppView, ev: EventView) -> (AppView, Option<EffectView>) {
    match ev {
        EventView::Key(k) => key_step(a, k),
        EventView::Resize(_, _) => (a, None),
        EventView::Background(b) => (AppView { state: background_step(a.state, b), ..a }, None),
    }
}

/// The events on which a step is defined: on the upgrade and uninstall
/// screens, starting on the selected package needs the selection to be a
/// row of the list (a reloaded shorter list can leave it past the end), and
/// moving down needs room to count one further.
pub open spec fn can_step(a: AppView, ev: EventView) -> bool {
    match ev {
        EventView::Key(k) => (k.kind is Press && !(k.ctrl && k.code == KeyCode::Char('c')))
            ==> match a.state {
            AppStateView::Upgrade(s) => {
                &&& (k.code == KeyCode::Char('u') && !s.loading && s.action is None
                    && s.items.len() > 0) ==> s.selected < s.items.len()
                &&& ((k.code == KeyCode::Down || k.code == KeyCode::Char('j')) && s.items.len()
                    > 0) ==> s.selected < usize::MAX
            },
            AppStateView::Uninstall(s) => {
                &&& (k.code == KeyCode::Enter && !s.loading && s.action is None && s.items.len()
                    > 0) ==> s.selected < s.items.len()
                &&& ((k.code == KeyCode::Down || k.code == KeyCode::Char('j')) && s.items.len()
                    > 0) ==> s.selected < usize::MAX
            },
            _ => true,
        },
        _ => true,
    }
}

/// An owned copy of a string slice.
fn owned(s: &str) -> (r: String)
    ensures
        r@ == s@,
{
    String::from_str(s)
}

fn on_main_menu(code: KeyCode) -> (r: (Option<AppState>, bool, Option<Effect>))
    ensures
        ({
            let a = AppView { state: AppStateView::MainMenu, should_quit: false };
            let (next, effect) = main_menu_step(a, code);
            &&& match r.0 {
                Some(st) => next.state == st@,
                None => next.state == AppStateView::MainMenu,
            }
            &&& next.should_quit == r.1
            &&& effect == effect_view(r.2)
        }),
{
    match code {
        KeyCode::Char('s') => (Some(AppState::Search(SearchState::new())), false, None),
        KeyCode::Char('u') => {
            let mut s = UpgradeState::new();
            s.loading = true;
            assert(s@ =~= UpgradeView { loading: true, ..UpgradeView::fresh() });
            (Some(AppState::Upgrade(s)), false, Some(Effect::LoadUpgradeable))
        },
        KeyCode::Char('i') => (Some(AppState::Install(InstallState::new())), false, None),
        KeyCode::Char('x') => {
            let mut s = UninstallState::new();
            s.loading = true;
            assert(s@ =~= UninstallView { loading: true, ..UninstallView::fresh() });
            (Some(AppState::Uninstall(s)), false, Some(Effect::LoadInstalled))
        },
        KeyCode::Char('q') => (None, true, None),
        _ => (None, false, None),
    }
}

fn on_search_query_changed(s: SearchState) -> (r: (AppState, Option<Effect>))
    ensures
        (r.0@, effect_view(r.1)) == search_query_changed(s@, s@.query),
{
    let mut s = s;
    let ghost q = s@.query;
    s.error = None;
    let query = owned(trim_text(s.query.as_str()));
    if query.as_str().is_empty() {
        s.results.clear();
        s.loading = false;
        assert(s@ =~= SearchView { query: q, results: Seq::empty(), loading: false, error: None });
        return (AppState::Search(s), Some(Effect::CancelSearch));
    }
    match validate_package_input(query.as_str()) {
        Err(e) => {
            s.error = Some(e.message());
            s.loading = false;
            (AppState::Search(s), Some(Effect::CancelSearch))
        },
        Ok(()) => {
            s.loading = true;
            (AppState::Search(s), Some(Effect::ScheduleSearch(query)))
        },
    }
}

fn on_search(s: SearchState, code: KeyCode) -> (r: (AppState, Option<Effect>))
    ensures
        (r.0@, effect_view(r.1)) == search_step(s@, code),
{
    let mut s = s;
    match code {
        KeyCode::Esc | KeyCode::BackTab => (AppState::MainMenu, Some(Effect::CancelSearch)),
        KeyCode::Char(c) => {
            push_char(&mut s.query, c);
            on_search_query_changed(s)
        },
        KeyCode::Backspace => {
            pop_char(&mut s.query);
            on_search_query_changed(s)
        },
        _ => (AppState::Search(s), None),
    }
}

fn on_upgrade(s: UpgradeState, code: KeyCode) -> (r: (AppState, Option<Effect>))
    requires
        (code == KeyCode::Char('u') && !s.loading && s.action is None && s@.items.len() > 0)
            ==> s.selected < s@.items.len(),
        ((code == KeyCode::Down || code == KeyCode::Char('j')) && s@.items.len() > 0)
            ==> s.selected < usize::MAX,
    ensures
        (r.0@, effect_view(r.1)) == upgrade_step(s@, code),
{
    let mut s = s;
    match code {
        KeyCode::Esc => (AppState::MainMenu, None),
        KeyCode::Char('u') => {
            if s.loading || s.action.is_some() || s.items.len() == 0 {
                return (AppState::Upgrade(s), None);
            }
            let id = s.items[s.selected].id.clone();
            (AppState::Log(LogState::new()), Some(Effect::Upgrade(Some(id))))
        },
        KeyCode::Char('a') => {
            if s.loading || s.action.is_some() {
                return (AppState::Upgrade(s), None);
            }
            (AppState::Log(LogState::new()), Some(Effect::Upgrade(None)))
        },
        KeyCode::Char('r') => {
            s.loading = true;
            s.message = None;
            (AppState::Upgrade(s), Some(Effect::LoadUpgradeable))
        },
        KeyCode::Up | KeyCode::Char('k') => {
            s.select_prev();
            (AppState::Upgrade(s), None)
        },
        KeyCode::Down | KeyCode::Char('j') => {
            s.select_next();
            (AppState::Upgrade(s), None)
        },
        _ => (AppState::Upgrade(s), None),
    }
}

fn on_install_confirm(s: InstallState) -> (r: (AppState, Option<Effect>))
    ensures
        (r.0@, effect_view(r.1)) == install_confirm_step(s@),
{
    let mut s = s;
    if s.is_busy() {
        return (AppState::Install(s), None);
    }
    let input = owned(trim_text(s.input.as_str()));
    if input.as_str().is_empty() {
        s.error = Some(owned("请输入包 Id"));
        return (AppState::Install(s), None);
    }
    if let Err(e) = validate_package_input(input.as_str()) {
        s.error = Some(e.message());
        return (AppState::Install(s), None);
    }
    let confirmed = match &s.pending_confirm {
        Some(p) => *p == input,
        None => false,
    };
    if confirmed {
        (AppState::Log(LogState::new()), Some(Effect::Install(input)))
    } else {
        s.pending_confirm = Some(input);
        s.error = None;
        (AppState::Install(s), None)
    }
}

fn on_install(s: InstallState, code: KeyCode) -> (r: (AppState, Option<Effect>))
    ensures
        (r.0@, effect_view(r.1)) == install_step(s@, code),
{
    let mut s = s;
    match code {
        KeyCode::Esc => (AppState::MainMenu, None),
        KeyCode::Char(c) => {
            if s.is_busy() {
                return (AppState::Install(s), None);
            }
            if c == 'y' && s.pending_confirm.is_some() {
                return on_install_confirm(s);
            }
            push_char(&mut s.input, c);
            s.error = None;
            s.pending_confirm = None;
            (AppState::Install(s), None)
        },
        KeyCode::Backspace => {
            if !s.is_busy() {
                pop_char(&mut s.input);
                s.error = None;
                s.pending_confirm = None;
            }
            (AppState::Install(s), None)
        },
        KeyCode::Enter => on_install_confirm(s),
        _ => (AppState::Install(s), None),
    }
}

fn on_uninstall(s: UninstallState, code: KeyCode) -> (r: (AppState, Option<Effect>))
    requires
        (code == KeyCode::Enter && !s.loading && s.action is None && s@.items.len() > 0)
            ==> s.selected < s@.items.len(),
        ((code == KeyCode::Down || code == KeyCode::Char('j')) && s@.items.len() > 0)
            ==> s.selected < usize::MAX,
    ensures
        (r.0@, effect_view(r.1)) == uninstall_step(s@, code),
{
    let mut s = s;
    match code {
        KeyCode::Esc => (AppState::MainMenu, None),
        KeyCode::Enter => {
            if s.loading || s.action.is_some() || s.items.len() == 0 {
                return (AppState::Uninstall(s), None);
            }
            let id = s.items[s.selected].id.clone();
            (AppState::Log(LogState::new()), Some(Effect::Uninstall(id)))
        },
        KeyCode::Char('r') => {
            s.loading = true;
            s.message = None;
            (AppState::Uninstall(s), Some(Effect::LoadInstalled))
        },
        KeyCode::Up | KeyCode::Char('k') => {
            s.select_prev();
            (AppState::Uninstall(s), None)
        },
        KeyCode::Down | KeyCode::Char('j') => {
            s.select_next();
            (AppState::Uninstall(s), None)
        },
        _ => (AppState::Uninstall(s), None),
    }
}

fn on_log(s: LogState, code: KeyCode) -> (r: (AppState, Option<Effect>))
    ensures
        (r.0@, effect_view(r.1)) == log_step(s@, code),
{
    match code {
        KeyCode::Esc => (AppState::MainMenu, None),
        _ => (AppState::Log(s), None),
    }
}

/// `prefix` followed by the message of `e`.
fn prefixed_message(prefix: &str, e: &crate::winget::error::WingetError) -> (r: String)
    ensures
        r@ == prefix@ + e.spec_message(),
{
    let mut m = owned(prefix);
    let t = e.message();
    m.append(t.as_str());
    m
}

fn on_background(st: AppState, bg: BackgroundEvent) -> (r: AppState)
    ensures
        r@ == background_step(st@, bg@),
{
    match (st, bg) {
        (AppState::Search(s), BackgroundEvent::SearchDone(result)) => {
            let mut s = s;
            s.loading = false;
            match result {
                Ok(pkgs) => {
                    s.results = pkgs;
                    s.error = None;
                },
                Err(e) => {
                    s.error = Some(e.message());
                },
            }
            AppState::Search(s)
        },
        (AppState::Upgrade(s), BackgroundEvent::UpgradeListDone(result)) => {
            let mut s = s;
            s.loading = false;
            match result {
                Ok(pkgs) => {
                    s.items = pkgs;
                    s.message = None;
                },
                Err(e) => {
                    s.message = Some(prefixed_message("加载失败: ", &e));
                },
            }
            AppState::Upgrade(s)
        },
        (AppState::Uninstall(s), BackgroundEvent::InstalledListDone(result)) => {
            let mut s = s;
            s.loading = false;
            match result {
                Ok(pkgs) => {
                    s.items = pkgs;
                    s.message = None;
                },
                Err(e) => {
                    s.message = Some(prefixed_message("加载失败: ", &e));
                },
            }
            AppState::Uninstall(s)
        },
        (AppState::Log(s), BackgroundEvent::ActionDone(result)) => {
            let mut s = s;
            let text = match result {
                Ok(()) => owned("操作成功"),
                Err(e) => prefixed_message("操作失败: ", &e),
            };
            s.finish(text);
            AppState::Log(s)
        },
        (AppState::Log(s), BackgroundEvent::LogLine(line)) => {
            let mut s = s;
            s.push_line(line);
            AppState::Log(s)
        },
        (st, _) => st,
    }
}

impl App {
    /// The application at start: the main menu.
    pub fn new() -> (r: App)
        ensures
            r@ == (AppView { state: AppStateView::MainMenu, should_quit: false }),
    {
        App { state: AppState::MainMenu, should_quit: false }
    }

    /// Whether [`App::update`] is defined on `event` in the current state
    /// (see [`can_step`]).
    pub fn can_update(&self, event: &Event) -> (r: bool)
        ensures
            r == can_step(self@, event@),
    {
        match event {
            Event::Key(k) => {
                let pressed = match k.kind {
                    KeyKind::Press => true,
                    _ => false,
                };
                let ctrl_c = k.ctrl && match k.code {
                    KeyCode::Char('c') => true,
                    _ => false,
                };
                if !pressed || ctrl_c {
                    return true;
                }
                let down = match k.code {
                    KeyCode::Down | KeyCode::Char('j') => true,
                    _ => false,
                };
                match &self.state {
                    AppState::Upgrade(s) => {
                        let start = match k.code {
                            KeyCode::Char('u') => true,
                            _ => false,
                        };
                        let busy = s.loading || s.action.is_some();
                        let n = s.items.len();
                        (!(start && !busy && n > 0) || s.selected < n) && (!(down && n > 0)
                            || s.selected < usize::MAX)
                    },
                    AppState::Uninstall(s) => {
                        let start = match k.code {
                            KeyCode::Enter => true,
                            _ => false,
                        };
                        let busy = s.loading || s.action.is_some();
                        let n = s.items.len();
                        (!(start && !busy && n > 0) || s.selected < n) && (!(down && n > 0)
                            || s.selected < usize::MAX)
                    },
                    _ => true,
                }
            },
            _ => true,
        }
    }

    /// One step: the state after `event`, and the outside work to start
    /// (see [`step`]).
    pub fn update(&mut self, event: Event) -> (r: Option<Effect>)
        requires
            can_step(old(self)@, event@),
        ensures
            (final(self)@, effect_view(r)) == step(old(self)@, event@),
    {
        match event {
            Event::Key(k) => self.handle_key(k),
            Event::Resize(_, _) => None,
            Event::Background(bg) => {
                let mut st = AppState::MainMenu;
                std::mem::swap(&mut st, &mut self.state);
                self.state = on_background(st, bg);
                None
            },
        }
    }

    fn handle_key(&mut self, key: Key) -> (r: Option<Effect>)
        requires
            can_step(old(self)@, EventView::Key(key)),
        ensures
            (final(self)@, effect_view(r)) == key_step(old(self)@, key),
    {
        match key.kind {
            KeyKind::Press => {},
            _ => return None,
        }
        if key.ctrl {
            if let KeyCode::Char('c') = key.code {
                self.should_quit = true;
                return None;
            }
        }
        let mut st = AppState::MainMenu;
        std::mem::swap(&mut st, &mut self.state);
        match st {
            AppState::MainMenu => {
                let (next, quit, effect) = on_main_menu(key.code);
                match next {
                    Some(n) => {
                        self.state = n;
                    },
                    None => {},
                }
                if quit {
                    self.should_quit = true;
                }
                effect
            },
            AppState::Search(s) => {
                let (next, effect) = on_search(s, key.code);
                self.state = next;
                effect
            },
            AppState::Upgrade(s) => {
                let (next, effect) = on_upgrade(s, key.code);
                self.state = next;
                effect
            },
            AppState::Install(s) => {
                let (next, effect) = on_install(s, key.code);
                self.state = next;
                effect
            },
            AppState::Uninstall(s) => {
                let (next, effect) = on_uninstall(s, key.code);
                self.state = next;
                effect
            },
            AppState::Log(s) => {
                let (next, effect) = on_log(s, key.code);
                self.state = next;
                effect
            },
        }
    }
}

/// Law: every edit of the search query supersedes the pending search: it
/// is cancelled, and a new one is scheduled exactly when the trimmed query
/// is non-empty and valid.
pub proof fn lemma_query_edit_supersedes_pending_search(a: AppView, k: Key)
    requires
        k.kind is Press,
        !(k.ctrl && k.code == KeyCode::Char('c')),
        a.state is Search,
        k.code is Char || k.code is Backspace,
    ensures
        ({
            let q = step(a, EventView::Key(k)).0.state->Search_0.query;
            &&& step(a, EventView::Key(k)).0.state is Search
            &&& step(a, EventView::Key(k)).1 == if trim(q).len() > 0 && input_is_valid(trim(q)) {
                Some(EffectView::ScheduleSearch(trim(q)))
            } else {
                Some(EffectView::CancelSearch)
            }
        }),
{
}

/// A press of `code`, without Control.
pub open spec fn press(code: KeyCode) -> Key {
    Key { code, ctrl: false, kind: KeyKind::Press }
}

/// Law: `u` on an idle upgrade screen upgrades the package on the selected
/// row (and `a` all packages), opening a fresh log screen.
pub proof fn lemma_upgrade_starts_on_the_selected_row(a: AppView, s: UpgradeView)
    requires
        a.state == AppStateView::Upgrade(s),
        !s.loading,
        s.action is None,
        s.selected < s.items.len(),
    ensures
        step(a, EventView::Key(press(KeyCode::Char('u')))) == (
            AppView { state: AppStateView::Log(LogView::fresh()), ..a },
            Some(EffectView::Upgrade(Some(s.items[s.selected as int].id))),
        ),
        step(a, EventView::Key(press(KeyCode::Char('a')))) == (
            AppView { state: AppStateView::Log(LogView::fresh()), ..a },
            Some(EffectView::Upgrade(None::<Seq<char>>)),
        ),
{
}

/// Law: Enter on an idle uninstall screen uninstalls the package on the
/// selected row, opening a fresh log screen.
pub proof fn lemma_uninstall_starts_on_the_selected_row(a: AppView, s: UninstallView)
    requires
        a.state == AppStateView::Uninstall(s),
        !s.loading,
        s.action is None,
        s.selected < s.items.len(),
    ensures
        step(a, EventView::Key(press(KeyCode::Enter))) == (
            AppView { state: AppStateView::Log(LogView::fresh()), ..a },
            Some(EffectView::Uninstall(s.items[s.selected as int].id)),
        ),
{
}

/// The row below `sel` in a list of `len` rows: the next one, or the first
/// after the last.
pub open spec fn row_below(sel: usize, len: nat) -> usize {
    if sel + 1 < len {
        (sel + 1) as usize
    } else {
        0
    }
}

/// The row above `sel` in a list of `len` rows: the previous one, or the
/// last before the first.
pub open spec fn row_above(sel: usize, len: nat) -> usize {
    if sel == 0 {
        (len - 1) as usize
    } else {
        (sel - 1) as usize
    }
}

proof fn lemma_next_prev_rows(sel: usize, len: nat)
    requires
        sel < len,
    ensures
        crate::state::next_index(sel, len) == row_below(sel, len),
        crate::state::prev_index(sel, len) == row_above(sel, len),
{
    if sel + 1 < len {
        assert((sel + 1) % (len as int) == sel + 1) by (nonlinear_arith)
            requires
                sel + 1 < len,
        ;
    } else {
        assert((sel + 1) % (len as int) == 0) by (nonlinear_arith)
            requires
                sel + 1 == len,
        ;
    }
}

/// Law: on the upgrade screen Down/`j` moves the selection one row down
/// and Up/`k` one row up, wrapping around; nothing else changes and
/// nothing starts.
pub proof fn lemma_upgrade_selection_keys(a: AppView, s: UpgradeView, k: Key)
    requires
        a.state == AppStateView::Upgrade(s),
        s.selected < s.items.len(),
        k.kind is Press,
        !k.ctrl,
    ensures
        (k.code == KeyCode::Down || k.code == KeyCode::Char('j')) ==> step(a, EventView::Key(k))
            == (
            AppView {
                state: AppStateView::Upgrade(
                    UpgradeView { selected: row_below(s.selected, s.items.len()), ..s },
                ),
                ..a
            },
            None::<EffectView>,
        ),
        (k.code == KeyCode::Up || k.code == KeyCode::Char('k')) ==> step(a, EventView::Key(k))
            == (
            AppView {
                state: AppStateView::Upgrade(
                    UpgradeView { selected: row_above(s.selected, s.items.len()), ..s },
                ),
                ..a
            },
            None::<EffectView>,
        ),
{
    lemma_next_prev_rows(s.selected, s.items.len());
}

/// Law: on the uninstall screen Down/`j` moves the selection one row down
/// and Up/`k` one row up, wrapping around; nothing else changes and
/// nothing starts.
pub proof fn lemma_uninstall_selection_keys(a: AppView, s: UninstallView, k: Key)
    requires
        a.state == AppStateView::Uninstall(s),
        s.selected < s.items.len(),
        k.kind is Press,
        !k.ctrl,
    ensures
        (k.code == KeyCode::Down || k.code == KeyCode::Char('j')) ==> step(a, EventView::Key(k))
            == (
            AppView {
                state: AppStateView::Uninstall(
                    UninstallView { selected: row_below(s.selected, s.items.len()), ..s },
                ),
                ..a
            },
            None::<EffectView>,
        ),
        (k.code == KeyCode::Up || k.code == KeyCode::Char('k')) ==> step(a, EventView::Key(k))
            == (
            AppView {
                state: AppStateView::Uninstall(
                    UninstallView { selected: row_above(s.selected, s.items.len()), ..s },
                ),
                ..a
            },
            None::<EffectView>,
        ),
{
    lemma_next_prev_rows(s.selected, s.items.len());
}

/// Law: an edit of the search query (a character appended, or the last one
/// removed by Backspace) leaves the edited query on the search screen; when
/// its trimmed form is empty, the results and the error are cleared,
/// nothing is loading, and the pending search is cancelled.
pub proof fn lemma_blank_query_clears_results(a: AppView, s: SearchView, k: Key)
    requires
        a.state == AppStateView::Search(s),
        k.kind is Press,
        !k.ctrl,
        k.code is Char || k.code is Backspace,
    ensures
        ({
            let q = match k.code {
                KeyCode::Char(c) => s.query.push(c),
                _ => if s.query.len() == 0 {
                    s.query
                } else {
                    s.query.drop_last()
                },
            };
            let (next, effect) = step(a, EventView::Key(k));
            &&& next.state matches AppStateView::Search(v) && v.query == q
            &&& trim(q).len() == 0 ==> next.state == AppStateView::Search(
                SearchView { query: q, results: Seq::empty(), loading: false, error: None },
            ) && effect == Some(EffectView::CancelSearch)
        }),
{
}

/// Whether two screens are the same screen (whatever they show).
pub open spec fn same_screen(x: AppStateView, y: AppStateView) -> bool {
    match (x, y) {
        (AppStateView::MainMenu, AppStateView::MainMenu) => true,
        (AppStateView::Search(_), AppStateView::Search(_)) => true,
        (AppStateView::Upgrade(_), AppStateView::Upgrade(_)) => true,
        (AppStateView::Install(_), AppStateView::Install(_)) => true,
        (AppStateView::Uninstall(_), AppStateView::Uninstall(_)) => true,
        (AppStateView::Log(_), AppStateView::Log(_)) => true,
        _ => false,
    }
}

/// Whether an effect starts a changing command.
pub open spec fn is_change(e: EffectView) -> bool {
    match e {
        EffectView::Upgrade(_) | EffectView::Install(_) | EffectView::Uninstall(_) => true,
        _ => false,
    }
}

/// Law: Control-C quits from every screen, leaving the screen as it is.
pub proof fn lemma_ctrl_c_quits(a: AppView, k: Key)
    requires
        k.kind is Press,
        k.ctrl,
        k.code == KeyCode::Char('c'),
    ensures
        step(a, EventView::Key(k)) == (AppView { should_quit: true, ..a }, None::<EffectView>),
{
}

/// Law: only key presses count; a repeated or released key changes nothing.
pub proof fn lemma_only_presses_count(a: AppView, k: Key)
    requires
        !(k.kind is Press),
    ensures
        step(a, EventView::Key(k)) == (a, None::<EffectView>),
{
}

/// Law: Esc goes back to the main menu from every other screen and starts
/// nothing; leaving the search screen cancels the pending search.
pub proof fn lemma_esc_returns_to_main_menu(a: AppView, k: Key)
    requires
        k.kind is Press,
        k.code == KeyCode::Esc,
        !(a.state is MainMenu),
    ensures
        step(a, EventView::Key(k)).0 == (AppView { state: AppStateView::MainMenu, ..a }),
        step(a, EventView::Key(k)).1 == if a.state is Search {
            Some(EffectView::CancelSearch)
        } else {
            None
        },
{
}

/// Law: a resize changes nothing.
pub proof fn lemma_resize_changes_nothing(a: AppView, w: u16, h: u16)
    ensures
        step(a, EventView::Resize(w, h)) == (a, None::<EffectView>),
{
}

/// Law: a background result starts nothing, leaves the same screen shown,
/// and never ends the application.
pub proof fn lemma_background_keeps_screen(a: AppView, b: BackgroundView)
    ensures
        step(a, EventView::Background(b)).1 is None,
        same_screen(step(a, EventView::Background(b)).0.state, a.state),
        step(a, EventView::Background(b)).0.should_quit == a.should_quit,
{
}

/// Law: a search or an install is only ever started for text that passes
/// validation, which is then the trimmed text (so the command layer accepts
/// it as it is); an upgrade or uninstall of one package names a package of
/// the list shown.
pub proof fn lemma_requests_carry_valid_input(a: AppView, ev: EventView)
    requires
        can_step(a, ev),
    ensures
        match step(a, ev).1 {
            Some(EffectView::ScheduleSearch(q)) => input_is_valid(q) && trim(q) == q,
            Some(EffectView::Install(id)) => input_is_valid(id) && trim(id) == id,
            Some(EffectView::Upgrade(Some(id))) => a.state matches AppStateView::Upgrade(s)
                && exists|i: int| 0 <= i < s.items.len() && s.items[i].id == id,
            Some(EffectView::Uninstall(id)) => a.state matches AppStateView::Uninstall(s)
                && exists|i: int| 0 <= i < s.items.len() && s.items[i].id == id,
            _ => true,
        },
{
    match ev {
        EventView::Key(k) => {
            match a.state {
                AppStateView::Search(s) => {
                    let q = match k.code {
                        KeyCode::Char(c) => s.query.push(c),
                        _ => without_last(s.query),
                    };
                    lemma_trim_idempotent(q);
                    lemma_validation_of_trimmed(q);
                },
                AppStateView::Install(s) => {
                    lemma_trim_idempotent(s.input);
                    lemma_validation_of_trimmed(s.input);
                },
                AppStateView::Upgrade(s) => {
                    if s.items.len() > 0 && s.selected < s.items.len() {
                        let i = s.selected as int;
                        assert(0 <= i < s.items.len() && s.items[i].id == s.items[i].id);
                    }
                },
                AppStateView::Uninstall(s) => {
                    if s.items.len() > 0 && s.selected < s.items.len() {
                        let i = s.selected as int;
                        assert(0 <= i < s.items.len() && s.items[i].id == s.items[i].id);
                    }
                },
                _ => {},
            }
        },
        _ => {},
    }
}

/// Law: an install only starts once confirmed: the id must already be the
/// one waiting for confirmation, that is, the trimmed input.
pub proof fn lemma_install_needs_confirmation(a: AppView, ev: EventView)
    ensures
        step(a, ev).1 matches Some(EffectView::Install(id)) ==> a.state matches AppStateView::Install(
            s,
        ) && s.pending_confirm == Some(id) && trim(s.input) == id && !s.loading,
{
}

/// Law: starting a changing command opens a fresh log screen, and the log
/// screen starts nothing, so a command cannot be submitted twice from one
/// screen; nor is an upgrade started while the upgrade list loads or
/// after one was started.
pub proof fn lemma_no_double_submit(a: AppView, ev: EventView)
    ensures
        step(a, ev).1 matches Some(e) && is_change(e) ==> step(a, ev).0.state == AppStateView::Log(
            LogView::fresh(),
        ),
        a.state is Log ==> step(a, ev).1 is None,
        (a.state matches AppStateView::Upgrade(s) && (s.loading || s.action is Some)) ==> !(step(
            a,
            ev,
        ).1 matches Some(e) && is_change(e)),
        (a.state matches AppStateView::Uninstall(s) && (s.loading || s.action is Some)) ==> !(step(
            a,
            ev,
        ).1 matches Some(e) && is_change(e)),
{
}

/// Law: the log screen keeps every output line, in the order received.
pub proof fn lemma_log_keeps_lines_in_order(s: LogView, lines: Seq<Seq<char>>)
    ensures
        log_after_lines(AppStateView::Log(s), lines) == AppStateView::Log(
            LogView { lines: s.lines + lines, ..s },
        ),
    decreases lines.len(),
{
    if lines.len() == 0 {
        assert(s.lines + lines =~= s.lines);
        assert(LogView { lines: s.lines + lines, ..s } =~= s);
    } else {
        lemma_log_keeps_lines_in_order(s, lines.drop_last());
        assert(s.lines + lines =~= (s.lines + lines.drop_last()).push(lines.last()));
    }
}

/// The screen after a series of output lines arrive, in order.
pub open spec fn log_after_lines(st: AppStateView, lines: Seq<Seq<char>>) -> AppStateView
    decreases lines.len(),
{
    if lines.len() == 0 {
        st
    } else {
        background_step(log_after_lines(st, lines.drop_last()), BackgroundView::LogLine(lines.last()))
    }
}

} // verus!
