use wingetui::display::{
    input_line, install_status, log_result, search_body, uninstall_body, upgrade_body, Body,
    Notice, Tone,
};
use wingetui::state::{InstallState, LogState, SearchState, UninstallState, UpgradeState};
use wingetui::winget::models::Package;

fn pkg(id: &str, avail: Option<&str>) -> Package {
    Package {
        id: id.to_string(),
        name: format!("{id} app"),
        version: "1.0".to_string(),
        available_version: avail.map(str::to_string),
        source: None,
    }
}

fn notice(text: &str, tone: Tone) -> Body {
    Body::Notice(Notice {
        text: text.to_string(),
        tone,
    })
}

#[test]
fn input_line_prefixes_the_text() {
    assert_eq!(input_line(&"git".to_string()), "> git");
}

#[test]
fn search_body_follows_the_screen() {
    let mut s = SearchState::new();
    assert_eq!(search_body(&s), notice("无结果", Tone::Plain));
    s.error = Some("boom".to_string());
    assert_eq!(search_body(&s), notice("错误: boom", Tone::Failure));
    s.loading = true;
    assert_eq!(search_body(&s), notice("加载中...", Tone::Plain));
    s.loading = false;
    s.error = None;
    s.results = vec![pkg("Git.Git", None)];
    assert_eq!(
        search_body(&s),
        Body::Rows(vec!["Git.Git  Git.Git app  1.0".to_string()])
    );
}

#[test]
fn upgrade_rows_mark_the_selection() {
    let mut s = UpgradeState::new();
    assert_eq!(upgrade_body(&s), notice("没有可升级的包", Tone::Plain));
    s.message = Some("加载失败: x".to_string());
    assert_eq!(upgrade_body(&s), notice("加载失败: x", Tone::Failure));
    s.items = vec![pkg("A", Some("2.0")), pkg("B", None)];
    s.selected = 1;
    assert_eq!(
        upgrade_body(&s),
        Body::Rows(vec![
            "  A  A app  1.0 -> 2.0".to_string(),
            "> B  B app  1.0 -> ?".to_string(),
        ])
    );
    s.loading = true;
    assert_eq!(upgrade_body(&s), notice("加载可升级列表...", Tone::Plain));
}

#[test]
fn uninstall_rows_mark_the_selection() {
    let mut s = UninstallState::new();
    assert_eq!(uninstall_body(&s), notice("没有已安装的包", Tone::Plain));
    s.items = vec![pkg("A", None)];
    assert_eq!(uninstall_body(&s), Body::Rows(vec!["> A  A app  1.0".to_string()]));
    s.loading = true;
    assert_eq!(uninstall_body(&s), notice("加载已安装列表...", Tone::Plain));
}

#[test]
fn install_and_log_status_lines() {
    let mut s = InstallState::new();
    let n = install_status(&s);
    assert_eq!((n.text.as_str(), n.tone), ("输入包 Id 后按 Enter 安装", Tone::Hint));
    s.message = Some("ok".to_string());
    assert_eq!(install_status(&s).tone, Tone::Success);
    s.loading = true;
    assert_eq!(install_status(&s).text, "安装中...");
    s.error = Some("bad".to_string());
    assert_eq!(install_status(&s).text, "错误: bad");

    let mut l = LogState::new();
    assert_eq!(log_result(&l).text, "执行中...");
    l.finish("操作成功".to_string());
    let n = log_result(&l);
    assert_eq!((n.text.as_str(), n.tone), ("操作成功", Tone::Success));
}
