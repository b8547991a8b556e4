use wingetui::winget::error::WingetError;
use wingetui::winget::outcome::{
    action_outcome, decode_output, install_plan, join_with_newlines, query_packages,
    search_plan, uninstall_plan, upgrade_plan, ProcessOutput,
};

fn run(code: Option<i32>, stdout: &[u8], stderr: &[u8]) -> ProcessOutput {
    ProcessOutput {
        code,
        stdout: stdout.to_vec(),
        stderr: stderr.to_vec(),
    }
}

#[test]
fn invalid_input_is_refused_before_any_command() {
    assert!(matches!(search_plan("\u{0000}bad"), Err(WingetError::Validation(_))));
    assert!(matches!(install_plan(""), Err(WingetError::Validation(_))));
    assert!(matches!(uninstall_plan("   "), Err(WingetError::Validation(_))));
    assert!(matches!(upgrade_plan(Some("a\nb")), Err(WingetError::Validation(_))));
}

#[test]
fn valid_input_gives_the_argument_list() {
    assert_eq!(search_plan("powershell").unwrap()[2], "powershell");
    assert_eq!(upgrade_plan(None).unwrap()[1], "--all");
    assert_eq!(upgrade_plan(Some("Git.Git")).unwrap()[2], "Git.Git");
    assert_eq!(install_plan("Git.Git").unwrap()[0], "install");
    assert_eq!(uninstall_plan("Git.Git").unwrap()[0], "uninstall");
}

#[test]
fn failed_query_reports_code_and_stderr() {
    let r = query_packages(&run(Some(1), b"", b"mock-winget: simulated search failure"));
    assert_eq!(
        r,
        Err(WingetError::CommandFailed {
            code: 1,
            stderr: "mock-winget: simulated search failure".to_string()
        })
    );
    let r = query_packages(&run(None, b"", b""));
    assert!(matches!(r, Err(WingetError::CommandFailed { code: -1, .. })));
}

#[test]
fn empty_listing_is_not_found() {
    let table = b"Name Id Version Source\n----------------------\n";
    let r = query_packages(&run(Some(0), table, b""));
    assert_eq!(r, Err(WingetError::NotFound));
}

#[test]
fn successful_query_lists_packages() {
    let out = b"Name Id      Version Available Source\n-------------------------------------\nGit  Git.Git 2.45.1  2.46.0    winget\n1 upgrades available.\n";
    let pkgs = query_packages(&run(Some(0), out, b"")).unwrap();
    assert_eq!(pkgs.len(), 1);
    assert_eq!(pkgs[0].available_version.as_deref(), Some("2.46.0"));
}

#[test]
fn malformed_output_is_parse_error() {
    let r = query_packages(&run(Some(0), b"{ not a table }", b""));
    assert!(matches!(r, Err(WingetError::Parse(_))));
    let r = query_packages(&run(Some(0), b"Name   Id\n----", b""));
    assert_eq!(r, Err(WingetError::Parse("表头缺少名称、Id 或版本列".to_string())));
}

#[test]
fn stderr_bytes_are_decoded_lossily() {
    let r = query_packages(&run(Some(2), b"", b"bad \xff byte"));
    match r {
        Err(WingetError::CommandFailed { code, stderr }) => {
            assert_eq!(code, 2);
            assert_eq!(stderr, "bad \u{fffd} byte");
        }
        other => panic!("expected CommandFailed, got {other:?}"),
    }
}

#[test]
fn action_outcome_joins_stderr_lines() {
    assert_eq!(action_outcome(Some(0), &vec!["x".to_string()]), Ok(()));
    let lines = vec!["first".to_string(), "second".to_string()];
    assert_eq!(
        action_outcome(Some(3), &lines),
        Err(WingetError::CommandFailed {
            code: 3,
            stderr: "first\nsecond".to_string()
        })
    );
    assert!(matches!(
        action_outcome(None, &Vec::new()),
        Err(WingetError::CommandFailed { code: -1, .. })
    ));
    assert_eq!(join_with_newlines(&Vec::new()), "");
}

#[test]
fn error_messages_match_their_display_text() {
    assert_eq!(
        WingetError::Validation("输入为空".to_string()).message(),
        "输入校验失败: 输入为空"
    );
    assert_eq!(WingetError::NotFound.message(), "未找到匹配的包");
    assert_eq!(WingetError::Timeout.message(), "命令执行超时");
    assert_eq!(WingetError::Io("x".to_string()).message(), "IO 错误: x");
    assert_eq!(WingetError::Parse("y".to_string()).message(), "JSON 解析失败: y");
    assert_eq!(
        WingetError::CommandFailed {
            code: -5,
            stderr: "boom".to_string()
        }
        .message(),
        "命令执行失败 (code=-5): boom"
    );
}

#[test]
fn a_run_without_exit_code_zero_fails() {
    let table = b"Name Id Version\n---------------\nA    A  1\n";
    let r = query_packages(&run(Some(0), table, b""));
    assert!(r.is_ok());
    let r = query_packages(&run(Some(3), table, b""));
    assert!(matches!(r, Err(WingetError::CommandFailed { code: 3, .. })));
    assert!(matches!(
        action_outcome(Some(1), &Vec::new()),
        Err(WingetError::CommandFailed { code: 1, .. })
    ));
}

#[test]
fn stdout_falls_back_to_gbk() {
    // "Git 版本" in GBK: 版 = B0 E6, 本 = B1 BE.
    let gbk = b"Git \xb0\xe6\xb1\xbe";
    assert_eq!(decode_output(gbk), "Git 版本");
    assert_eq!(decode_output("版本".as_bytes()), "版本");
    assert_eq!(decode_output(b""), "");
}

#[test]
fn search_gbk_output_decodes_and_parses() {
    // A winget table under a Chinese locale, in GBK: 名称 ID 版本 源.
    let mut bytes: Vec<u8> = Vec::new();
    bytes.extend_from_slice(b"\xc3\xfb\xb3\xc6       ID                   \xb0\xe6\xb1\xbe   \xd4\xb4\r\n");
    bytes.extend_from_slice(b"----------------------------------------------\r\n");
    bytes.extend_from_slice(b"PowerShell Microsoft.PowerShell 7.4.5  winget\r\n");
    bytes.extend_from_slice(b"Git        Git.Git              2.45.1 winget\r\n");
    let pkgs = query_packages(&run(Some(0), &bytes, b"")).expect("gbk search should succeed");
    assert_eq!(pkgs.len(), 2);
    assert_eq!(pkgs[0].id, "Microsoft.PowerShell");
    assert_eq!(pkgs[0].name, "PowerShell");
    assert_eq!(pkgs[1].id, "Git.Git");
    assert_eq!(pkgs[1].source.as_deref(), Some("winget"));
}

#[test]
fn table_error_reason_is_shown() {
    match query_packages(&run(Some(0), b"No package found matching input criteria.", b"")) {
        Err(e) => assert_eq!(e.message(), "JSON 解析失败: 输出中没有表格"),
        other => panic!("expected Parse, got {other:?}"),
    }
}
