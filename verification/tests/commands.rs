use wingetui::winget::commands::{
    install_args, list_installed_args, list_upgradeable_args, search_args, uninstall_args,
    upgrade_all_args, upgrade_id_args,
};

#[test]
fn search_argv_matches_spec() {
    assert_eq!(
        search_args("powershell"),
        vec![
            "search",
            "--query",
            "powershell",
            "--disable-interactivity",
            "--accept-source-agreements",
        ]
    );
}

#[test]
fn list_upgradeable_argv_matches_spec() {
    assert_eq!(
        list_upgradeable_args(),
        vec!["upgrade", "--disable-interactivity", "--accept-source-agreements",]
    );
}

#[test]
fn list_installed_argv_matches_spec() {
    assert_eq!(
        list_installed_args(),
        vec!["list", "--disable-interactivity", "--accept-source-agreements",]
    );
}

#[test]
fn query_argv_has_no_output_json() {
    for args in [
        search_args("powershell"),
        list_upgradeable_args(),
        list_installed_args(),
    ] {
        assert!(
            !args.iter().any(|a| a == "--output" || a == "json"),
            "查询类参数不得含 --output json: {args:?}"
        );
    }
}

#[test]
fn upgrade_id_argv_matches_spec() {
    assert_eq!(
        upgrade_id_args("Microsoft.PowerShell"),
        vec![
            "upgrade",
            "--id",
            "Microsoft.PowerShell",
            "--silent",
            "--accept-package-agreements",
            "--accept-source-agreements",
            "--disable-interactivity",
        ]
    );
}

#[test]
fn upgrade_all_argv_matches_spec() {
    assert_eq!(
        upgrade_all_args(),
        vec![
            "upgrade",
            "--all",
            "--silent",
            "--accept-package-agreements",
            "--accept-source-agreements",
            "--disable-interactivity",
        ]
    );
}

#[test]
fn install_argv_matches_spec() {
    assert_eq!(
        install_args("Git.Git"),
        vec![
            "install",
            "--id",
            "Git.Git",
            "--silent",
            "--accept-package-agreements",
            "--accept-source-agreements",
            "--disable-interactivity",
        ]
    );
}

#[test]
fn uninstall_argv_matches_spec() {
    assert_eq!(
        uninstall_args("Git.Git"),
        vec![
            "uninstall",
            "--id",
            "Git.Git",
            "--silent",
            "--accept-package-agreements",
            "--accept-source-agreements",
            "--disable-interactivity",
        ]
    );
}

#[test]
fn no_shell_concatenation_for_hostile_query() {
    let args = search_args("x & del C:\\Windows & echo pwned");
    assert!(args.contains(&"x & del C:\\Windows & echo pwned".to_string()));
    assert!(!args.iter().any(|a| a.contains("cmd")));
}

#[test]
fn query_term_is_one_unchanged_argument() {
    let args = search_args("  a b  ");
    assert_eq!(args.len(), 5);
    assert_eq!(args[2], "  a b  ");
}

#[test]
fn json_named_query_is_the_only_json_argument() {
    let args = search_args("json");
    assert_eq!(args.iter().filter(|a| a.as_str() == "json").count(), 1);
    assert!(!args.iter().any(|a| a == "--output"));
}
