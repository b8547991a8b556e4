use wingetui::app::{App, Effect};
use wingetui::event::{Event, Key, KeyCode, KeyKind};
use wingetui::state::{
    AppState, BackgroundEvent, InstallState, LogState, SearchState, UninstallState, UpgradeState,
};
use wingetui::winget::error::WingetError;
use wingetui::winget::models::Package;

fn key(code: KeyCode) -> Event {
    Event::Key(Key::new(code))
}

fn ctrl_c() -> Event {
    Event::Key(Key::with_ctrl(KeyCode::Char('c')))
}

fn app() -> App {
    App::new()
}

fn pkg(id: &str) -> Package {
    Package {
        id: id.to_string(),
        name: id.to_string(),
        version: "1.0".to_string(),
        available_version: Some("2.0".to_string()),
        source: Some("winget".to_string()),
    }
}

fn typed(a: &mut App, text: &str) -> Option<Effect> {
    let mut last = None;
    for c in text.chars() {
        last = a.update(key(KeyCode::Char(c)));
    }
    last
}

#[test]
fn main_menu_search_key_goes_to_search() {
    let mut a = app();
    a.update(key(KeyCode::Char('s')));
    assert_eq!(a.state, AppState::Search(SearchState::new()));
}

#[test]
fn main_menu_upgrade_key_goes_to_upgrade() {
    let mut a = app();
    let effect = a.update(key(KeyCode::Char('u')));
    match &a.state {
        AppState::Upgrade(s) => {
            assert!(s.loading);
        }
        other => panic!("expected Upgrade, got {other:?}"),
    }
    assert_eq!(effect, Some(Effect::LoadUpgradeable));
}

#[test]
fn main_menu_install_key_goes_to_install() {
    let mut a = app();
    a.update(key(KeyCode::Char('i')));
    assert_eq!(a.state, AppState::Install(InstallState::new()));
}

#[test]
fn main_menu_uninstall_key_goes_to_uninstall() {
    let mut a = app();
    let effect = a.update(key(KeyCode::Char('x')));
    match &a.state {
        AppState::Uninstall(s) => {
            assert!(s.loading);
        }
        other => panic!("expected Uninstall, got {other:?}"),
    }
    assert_eq!(effect, Some(Effect::LoadInstalled));
}

#[test]
fn main_menu_q_quits() {
    let mut a = app();
    a.update(key(KeyCode::Char('q')));
    assert!(a.should_quit);
}

#[test]
fn ctrl_c_quits_from_any_state() {
    let mut a = app();
    a.update(key(KeyCode::Char('s')));
    assert_eq!(a.state, AppState::Search(SearchState::new()));
    a.update(ctrl_c());
    assert!(a.should_quit);
}

#[test]
fn unknown_main_menu_key_stays() {
    let mut a = app();
    a.update(key(KeyCode::Char('z')));
    assert_eq!(a.state, AppState::MainMenu);
}

#[test]
fn esc_from_search_returns_to_main_menu() {
    let mut a = app();
    a.update(key(KeyCode::Char('s')));
    let effect = a.update(key(KeyCode::Esc));
    assert_eq!(a.state, AppState::MainMenu);
    assert_eq!(effect, Some(Effect::CancelSearch));
}

#[test]
fn esc_from_upgrade_returns_to_main_menu() {
    let mut a = app();
    a.update(key(KeyCode::Char('u')));
    a.update(key(KeyCode::Esc));
    assert_eq!(a.state, AppState::MainMenu);
}

#[test]
fn esc_from_install_returns_to_main_menu() {
    let mut a = app();
    a.update(key(KeyCode::Char('i')));
    a.update(key(KeyCode::Esc));
    assert_eq!(a.state, AppState::MainMenu);
}

#[test]
fn esc_from_uninstall_returns_to_main_menu() {
    let mut a = app();
    a.update(key(KeyCode::Char('x')));
    a.update(key(KeyCode::Esc));
    assert_eq!(a.state, AppState::MainMenu);
}

#[test]
fn esc_from_log_returns_to_main_menu() {
    let mut a = app();
    a.state = AppState::Log(LogState::new());
    a.update(key(KeyCode::Esc));
    assert_eq!(a.state, AppState::MainMenu);
}

#[test]
fn resize_event_does_not_crash_or_change_state() {
    let mut a = app();
    a.update(key(KeyCode::Char('s')));
    a.update(Event::Resize(100, 40));
    assert_eq!(a.state, AppState::Search(SearchState::new()));
    assert!(!a.should_quit);
}

#[test]
fn background_search_done_updates_results() {
    let mut a = app();
    a.update(key(KeyCode::Char('s')));
    let pkg = Package {
        id: "Microsoft.PowerShell".to_string(),
        name: "PowerShell".to_string(),
        version: "7.4.5".to_string(),
        available_version: None,
        source: Some("winget".to_string()),
    };
    a.update(Event::Background(BackgroundEvent::SearchDone(Ok(vec![pkg]))));
    match a.state {
        AppState::Search(s) => {
            assert_eq!(s.results.len(), 1);
            assert_eq!(s.results[0].id, "Microsoft.PowerShell");
            assert!(!s.loading);
        }
        other => panic!("expected Search, got {other:?}"),
    }
}

#[test]
fn background_log_line_appends_to_log_state() {
    let mut a = app();
    a.state = AppState::Log(LogState::new());
    a.update(Event::Background(BackgroundEvent::LogLine(
        "installing...".to_string(),
    )));
    match a.state {
        AppState::Log(s) => {
            assert_eq!(s.lines, vec!["installing..."]);
        }
        other => panic!("expected Log, got {other:?}"),
    }
}

#[test]
fn background_action_done_marks_log_finished() {
    let mut a = app();
    a.state = AppState::Log(LogState::new());
    a.update(Event::Background(BackgroundEvent::ActionDone(Ok(()))));
    match a.state {
        AppState::Log(s) => {
            assert!(s.done);
            assert_eq!(s.result.as_deref(), Some("操作成功"));
        }
        other => panic!("expected Log, got {other:?}"),
    }
}

#[test]
fn released_and_repeated_keys_are_ignored() {
    let mut a = app();
    a.update(Event::Key(Key {
        code: KeyCode::Char('s'),
        ctrl: false,
        kind: KeyKind::Release,
    }));
    a.update(Event::Key(Key {
        code: KeyCode::Char('q'),
        ctrl: false,
        kind: KeyKind::Repeat,
    }));
    assert_eq!(a.state, AppState::MainMenu);
    assert!(!a.should_quit);
}

#[test]
fn typing_schedules_a_search_for_the_trimmed_query() {
    let mut a = app();
    a.update(key(KeyCode::Char('s')));
    let effect = typed(&mut a, " pow");
    assert_eq!(effect, Some(Effect::ScheduleSearch("pow".to_string())));
    match &a.state {
        AppState::Search(s) => {
            assert_eq!(s.query, " pow");
            assert!(s.loading);
        }
        other => panic!("expected Search, got {other:?}"),
    }
    a.update(Event::Background(BackgroundEvent::SearchDone(Ok(vec![pkg(
        "Microsoft.PowerShell",
    )]))));
    match &a.state {
        AppState::Search(s) => {
            assert_eq!(s.results[0].id, "Microsoft.PowerShell");
            assert!(!s.loading);
        }
        other => panic!("expected Search, got {other:?}"),
    }
}

#[test]
fn blank_query_cancels_and_clears() {
    let mut a = app();
    a.update(key(KeyCode::Char('s')));
    typed(&mut a, "a");
    let effect = a.update(key(KeyCode::Backspace));
    assert_eq!(effect, Some(Effect::CancelSearch));
    assert_eq!(a.state, AppState::Search(SearchState::new()));
    let effect = a.update(key(KeyCode::Char(' ')));
    assert_eq!(effect, Some(Effect::CancelSearch));
}

#[test]
fn over_long_query_shows_error_and_starts_nothing() {
    let mut a = app();
    a.update(key(KeyCode::Char('s')));
    let effect = typed(&mut a, &"a".repeat(201));
    assert_eq!(effect, Some(Effect::CancelSearch));
    match &a.state {
        AppState::Search(s) => {
            assert_eq!(s.error.as_deref(), Some("输入校验失败: 输入超过 200 字符"));
            assert!(!s.loading);
        }
        other => panic!("expected Search, got {other:?}"),
    }
}

#[test]
fn control_char_query_shows_error() {
    let mut a = app();
    a.update(key(KeyCode::Char('s')));
    let effect = typed(&mut a, "a\u{1}");
    assert_eq!(effect, Some(Effect::CancelSearch));
    match &a.state {
        AppState::Search(s) => {
            assert_eq!(s.error.as_deref(), Some("输入校验失败: 输入包含控制字符"));
        }
        other => panic!("expected Search, got {other:?}"),
    }
}

#[test]
fn search_failure_shows_message() {
    let mut a = app();
    a.update(key(KeyCode::Char('s')));
    typed(&mut a, "zzz");
    a.update(Event::Background(BackgroundEvent::SearchDone(Err(WingetError::NotFound))));
    match &a.state {
        AppState::Search(s) => {
            assert_eq!(s.error.as_deref(), Some("未找到匹配的包"));
            assert!(!s.loading);
        }
        other => panic!("expected Search, got {other:?}"),
    }
}

#[test]
fn upgrade_selected_then_all() {
    let mut a = app();
    a.update(key(KeyCode::Char('u')));
    // While loading, nothing can be started.
    assert_eq!(a.update(key(KeyCode::Char('u'))), None);
    a.update(Event::Background(BackgroundEvent::UpgradeListDone(Ok(vec![
        pkg("Git.Git"),
        pkg("Microsoft.PowerShell"),
    ]))));
    a.update(key(KeyCode::Down));
    let effect = a.update(key(KeyCode::Char('u')));
    assert_eq!(
        effect,
        Some(Effect::Upgrade(Some("Microsoft.PowerShell".to_string())))
    );
    assert_eq!(a.state, AppState::Log(LogState::new()));
    // On the log screen, upgrade keys do nothing.
    assert_eq!(a.update(key(KeyCode::Char('u'))), None);
    assert_eq!(a.update(key(KeyCode::Char('a'))), None);
    a.update(Event::Background(BackgroundEvent::LogLine("upgrading".to_string())));
    a.update(Event::Background(BackgroundEvent::ActionDone(Err(
        WingetError::CommandFailed {
            code: 1,
            stderr: "simulated upgrade failure".to_string(),
        },
    ))));
    match &a.state {
        AppState::Log(s) => {
            assert_eq!(s.lines, vec!["upgrading"]);
            assert_eq!(
                s.result.as_deref(),
                Some("操作失败: 命令执行失败 (code=1): simulated upgrade failure")
            );
        }
        other => panic!("expected Log, got {other:?}"),
    }
    a.update(key(KeyCode::Esc));
    a.update(key(KeyCode::Char('u')));
    a.update(Event::Background(BackgroundEvent::UpgradeListDone(Ok(vec![pkg("Git.Git")]))));
    assert_eq!(a.update(key(KeyCode::Char('a'))), Some(Effect::Upgrade(None)));
}

#[test]
fn upgrade_list_failure_shows_message_and_reload_clears_it() {
    let mut a = app();
    a.update(key(KeyCode::Char('u')));
    a.update(Event::Background(BackgroundEvent::UpgradeListDone(Err(WingetError::Timeout))));
    match &a.state {
        AppState::Upgrade(s) => {
            assert_eq!(s.message.as_deref(), Some("加载失败: 命令执行超时"));
            assert!(!s.loading);
        }
        other => panic!("expected Upgrade, got {other:?}"),
    }
    assert_eq!(a.update(key(KeyCode::Char('r'))), Some(Effect::LoadUpgradeable));
    match &a.state {
        AppState::Upgrade(s) => {
            assert!(s.message.is_none());
            assert!(s.loading);
        }
        other => panic!("expected Upgrade, got {other:?}"),
    }
}

#[test]
fn install_needs_confirmation() {
    let mut a = app();
    a.update(key(KeyCode::Char('i')));
    typed(&mut a, "Git.Git");
    assert_eq!(a.update(key(KeyCode::Enter)), None);
    match &a.state {
        AppState::Install(s) => assert_eq!(s.pending_confirm.as_deref(), Some("Git.Git")),
        other => panic!("expected Install, got {other:?}"),
    }
    let effect = a.update(key(KeyCode::Char('y')));
    assert_eq!(effect, Some(Effect::Install("Git.Git".to_string())));
    assert_eq!(a.state, AppState::Log(LogState::new()));
}

#[test]
fn install_edit_drops_the_pending_confirmation() {
    let mut a = app();
    a.update(key(KeyCode::Char('i')));
    typed(&mut a, "Git.Git");
    a.update(key(KeyCode::Enter));
    a.update(key(KeyCode::Backspace));
    match &a.state {
        AppState::Install(s) => {
            assert_eq!(s.input, "Git.Gi");
            assert!(s.pending_confirm.is_none());
        }
        other => panic!("expected Install, got {other:?}"),
    }
    assert_eq!(a.update(key(KeyCode::Enter)), None);
    assert_eq!(
        a.update(key(KeyCode::Enter)),
        Some(Effect::Install("Git.Gi".to_string()))
    );
}

#[test]
fn install_rejects_empty_and_invalid_input() {
    let mut a = app();
    a.update(key(KeyCode::Char('i')));
    a.update(key(KeyCode::Enter));
    match &a.state {
        AppState::Install(s) => assert_eq!(s.error.as_deref(), Some("请输入包 Id")),
        other => panic!("expected Install, got {other:?}"),
    }
    typed(&mut a, &"a".repeat(201));
    assert_eq!(a.update(key(KeyCode::Enter)), None);
    match &a.state {
        AppState::Install(s) => {
            assert_eq!(s.error.as_deref(), Some("输入校验失败: 输入超过 200 字符"));
            assert!(s.pending_confirm.is_none());
        }
        other => panic!("expected Install, got {other:?}"),
    }
}

#[test]
fn uninstall_selected_package() {
    let mut a = app();
    a.update(key(KeyCode::Char('x')));
    assert_eq!(a.update(key(KeyCode::Enter)), None);
    a.update(Event::Background(BackgroundEvent::InstalledListDone(Ok(vec![
        pkg("Microsoft.PowerShell"),
        pkg("Git.Git"),
    ]))));
    a.update(key(KeyCode::Char('k')));
    let effect = a.update(key(KeyCode::Enter));
    assert_eq!(effect, Some(Effect::Uninstall("Git.Git".to_string())));
    assert_eq!(a.state, AppState::Log(LogState::new()));
}

#[test]
fn background_results_for_other_screens_are_ignored() {
    let mut a = app();
    a.update(key(KeyCode::Char('i')));
    a.update(Event::Background(BackgroundEvent::SearchDone(Ok(vec![pkg("x")]))));
    a.update(Event::Background(BackgroundEvent::LogLine("x".to_string())));
    assert_eq!(a.state, AppState::Install(InstallState::new()));
}

#[test]
fn a_step_past_the_list_is_refused_by_can_update() {
    let mut a = app();
    let mut s = UpgradeState::new();
    s.items = vec![pkg("a")];
    s.selected = 3;
    a.state = AppState::Upgrade(s);
    assert!(!a.can_update(&key(KeyCode::Char('u'))));
    assert!(a.can_update(&key(KeyCode::Char('a'))));
    let mut x = UninstallState::new();
    x.items = vec![pkg("a")];
    x.selected = 1;
    a.state = AppState::Uninstall(x);
    assert!(!a.can_update(&key(KeyCode::Enter)));
    assert!(a.can_update(&key(KeyCode::Esc)));
}
