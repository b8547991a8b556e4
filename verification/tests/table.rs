use wingetui::winget::error::WingetError;
use wingetui::winget::table::parse_table;

const SEARCH_TABLE: &str = "\
Name               Id                         Version Match    Source
----------------------------------------------------------------------
PowerShell         Microsoft.PowerShell       7.4.5            winget
Git                Git.Git                    2.45.1  Tag: git winget
Visual Studio Code Microsoft.VisualStudioCode 1.90.0  Tag: git winget
";

#[test]
fn search_returns_fixture_packages() {
    let pkgs = parse_table(SEARCH_TABLE).expect("search should succeed");
    assert_eq!(pkgs.len(), 3);
    assert_eq!(pkgs[0].id, "Microsoft.PowerShell");
    assert_eq!(pkgs[0].name, "PowerShell");
    assert_eq!(pkgs[0].version, "7.4.5");
    assert_eq!(pkgs[0].source.as_deref(), Some("winget"));
    assert_eq!(pkgs[0].available_version, None);
    assert_eq!(pkgs[2].name, "Visual Studio Code");
    assert_eq!(pkgs[1].version, "2.45.1");
}

#[test]
fn upgrade_table_reads_available_and_stops_before_footer() {
    let text = "\
Name       Id                   Version Available Source
---------------------------------------------------------
Git        Git.Git              2.45.1  2.46.0    winget
PowerShell Microsoft.PowerShell 7.4.4   7.4.5     winget
2 upgrades available.
";
    let pkgs = parse_table(text).unwrap();
    assert_eq!(pkgs.len(), 2);
    assert_eq!(pkgs[0].id, "Git.Git");
    assert_eq!(pkgs[0].available_version.as_deref(), Some("2.46.0"));
    assert_eq!(pkgs[1].version, "7.4.4");
}

#[test]
fn wide_characters_take_two_columns() {
    let text = "\
名称     ID       版本  可用  源
--------------------------------
记事本++ Notepad  8.6   8.7   winget
微信     Tencent  3.9         winget
";
    let pkgs = parse_table(text).unwrap();
    assert_eq!(pkgs.len(), 2);
    assert_eq!(pkgs[0].name, "记事本++");
    assert_eq!(pkgs[0].id, "Notepad");
    assert_eq!(pkgs[0].available_version.as_deref(), Some("8.7"));
    assert_eq!(pkgs[1].name, "微信");
    assert_eq!(pkgs[1].id, "Tencent");
    assert_eq!(pkgs[1].available_version, None);
    assert_eq!(pkgs[1].source.as_deref(), Some("winget"));
}

#[test]
fn progress_output_before_the_header_is_dropped() {
    let text = "   - \r   \\ \r   | \rName Id  Version\r\n----------------\r\nA    A.B 1.0\r\n\r\nlater text\r\n";
    let pkgs = parse_table(text).unwrap();
    assert_eq!(pkgs.len(), 1);
    assert_eq!(pkgs[0].id, "A.B");
    assert_eq!(pkgs[0].name, "A");
    assert_eq!(pkgs[0].source, None);
}

#[test]
fn rows_without_id_or_too_short_are_skipped() {
    let text = "Name  Id    Version\n------------------\nA     X.Y   1\nshort\nB           2\n";
    let pkgs = parse_table(text).unwrap();
    assert_eq!(pkgs.len(), 1);
    assert_eq!(pkgs[0].id, "X.Y");
}

#[test]
fn table_errors() {
    assert_eq!(
        parse_table("no table here"),
        Err(WingetError::Parse("输出中没有表格".to_string()))
    );
    assert_eq!(
        parse_table("-----\nName Id Version"),
        Err(WingetError::Parse("表格缺少表头".to_string()))
    );
    assert_eq!(
        parse_table("Name Version\n------------\n"),
        Err(WingetError::Parse("表头缺少名称、Id 或版本列".to_string()))
    );
    assert_eq!(parse_table("Name Id Version\n---\n"), Ok(Vec::new()));
}
