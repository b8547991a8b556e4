//! Argument lists of winget commands.
//!
//! Each argument is a separate element of the list that is handed to the
//! process: nothing is ever joined into a shell command line.
use vstd::prelude::*;
use vstd::string::*;

verus! {

/// The texts of a list of arguments.
pub open spec fn arg_texts(v: Seq<String>) -> Seq<Seq<char>> {
    v.map_values(|s: String| s@)
}

/// Flags added to every query command (they keep a first run from waiting
/// on the source agreement prompt). Queries carry no `--output json`: the
/// winget release in use refuses that flag; what a query prints is its text
/// table (see the table reader).
pub open spec fn query_flags() -> Seq<Seq<char>> {
    seq!["--disable-interactivity"@, "--accept-source-agreements"@]
}

/// Flags added to every changing command (run without interaction).
pub open spec fn action_flags() -> Seq<Seq<char>> {
    seq![
        "--silent"@,
        "--accept-package-agreements"@,
        "--accept-source-agreements"@,
        "--disable-interactivity"@,
    ]
}

fn push_arg(args: &mut Vec<String>, a: &str)
    ensures
        arg_texts(final(args)@) == arg_texts(old(args)@).push(a@),
{
    args.push(String::from_str(a));
    assert(arg_texts(args@) =~= arg_texts(old(args)@).push(a@));
}

fn push_query_flags(args: &mut Vec<String>)
    ensures
        arg_texts(final(args)@) == arg_texts(old(args)@) + query_flags(),
{
    push_arg(args, "--disable-interactivity");
    push_arg(args, "--accept-source-agreements");
    assert(arg_texts(args@) =~= arg_texts(old(args)@) + query_flags());
}

fn push_action_flags(args: &mut Vec<String>)
    ensures
        arg_texts(final(args)@) == arg_texts(old(args)@) + action_flags(),
{
    push_arg(args, "--silent");
    push_arg(args, "--accept-package-agreements");
    push_arg(args, "--accept-source-agreements");
    push_arg(args, "--disable-interactivity");
    assert(arg_texts(args@) =~= arg_texts(old(args)@) + action_flags());
}

fn start_args(first: &str) -> (r: Vec<String>)
    ensures
        arg_texts(r@) == seq![first@],
{
    let mut args: Vec<String> = Vec::new();
    assert(arg_texts(args@) =~= Seq::<Seq<char>>::empty());
    push_arg(&mut args, first);
    assert(arg_texts(args@) =~= seq![first@]);
    args
}

/// `winget search --query <query>` (a query).
pub fn search_args(query: &str) -> (r: Vec<String>)
    ensures
        arg_texts(r@) == seq!["search"@, "--query"@, query@] + query_flags(),
{
    let mut args = start_args("search");
    push_arg(&mut args, "--query");
    push_arg(&mut args, query);
    push_query_flags(&mut args);
    assert(arg_texts(args@) =~= seq!["search"@, "--query"@, query@] + query_flags());
    args
}

/// `winget upgrade` listing the upgradeable packages (a query).
pub fn list_upgradeable_args() -> (r: Vec<String>)
    ensures
        arg_texts(r@) == seq!["upgrade"@] + query_flags(),
{
    let mut args = start_args("upgrade");
    push_query_flags(&mut args);
    args
}

/// `winget list` listing the installed packages (a query).
pub fn list_installed_args() -> (r: Vec<String>)
    ensures
        arg_texts(r@) == seq!["list"@] + query_flags(),
{
    let mut args = start_args("list");
    push_query_flags(&mut args);
    args
}

fn id_action_args(verb: &str, id: &str) -> (r: Vec<String>)
    ensures
        arg_texts(r@) == seq![verb@, "--id"@, id@] + action_flags(),
{
    let mut args = start_args(verb);
    push_arg(&mut args, "--id");
    push_arg(&mut args, id);
    push_action_flags(&mut args);
    assert(arg_texts(args@) =~= seq![verb@, "--id"@, id@] + action_flags());
    args
}

/// `winget upgrade --id <id>` (a change).
pub fn upgrade_id_args(id: &str) -> (r: Vec<String>)
    ensures
        arg_texts(r@) == seq!["upgrade"@, "--id"@, id@] + action_flags(),
{
    id_action_args("upgrade", id)
}

/// `winget upgrade --all` (a change).
pub fn upgrade_all_args() -> (r: Vec<String>)
    ensures
        arg_texts(r@) == seq!["upgrade"@, "--all"@] + action_flags(),
{
    let mut args = start_args("upgrade");
    push_arg(&mut args, "--all");
    push_action_flags(&mut args);
    assert(arg_texts(args@) =~= seq!["upgrade"@, "--all"@] + action_flags());
    args
}

/// `winget install --id <id>` (a change).
pub fn install_args(id: &str) -> (r: Vec<String>)
    ensures
        arg_texts(r@) == seq!["install"@, "--id"@, id@] + action_flags(),
{
    id_action_args("install", id)
}

/// `winget uninstall --id <id>` (a change).
pub fn uninstall_args(id: &str) -> (r: Vec<String>)
    ensures
        arg_texts(r@) == seq!["uninstall"@, "--id"@, id@] + action_flags(),
{
    id_action_args("uninstall", id)
}

/// Law: a query never asks winget for JSON output (the release in use
/// refuses `--output json`); no argument of a query is `--output` or `json`
/// unless the search term itself is.
pub proof fn lemma_queries_ask_no_json_output(query: Seq<char>)
    requires
        query != "--output"@,
        query != "json"@,
    ensures
        ({
            let lists = seq![
                seq!["search"@, "--query"@, query] + query_flags(),
                seq!["upgrade"@] + query_flags(),
                seq!["list"@] + query_flags(),
            ];
            forall|i: int, j: int|
                0 <= i < 3 && 0 <= j < lists[i].len() ==> #[trigger] lists[i][j] != "--output"@
                    && lists[i][j] != "json"@
        }),
{
    reveal_strlit("--output");
    reveal_strlit("json");
    reveal_strlit("search");
    reveal_strlit("--query");
    reveal_strlit("upgrade");
    reveal_strlit("list");
    reveal_strlit("--disable-interactivity");
    reveal_strlit("--accept-source-agreements");
    let lists = seq![
        seq!["search"@, "--query"@, query] + query_flags(),
        seq!["upgrade"@] + query_flags(),
        seq!["list"@] + query_flags(),
    ];
    assert forall|i: int, j: int|
        0 <= i < 3 && 0 <= j < lists[i].len() implies #[trigger] lists[i][j] != "--output"@
        && lists[i][j] != "json"@ by {
        let x = lists[i][j];
        assert(x == query || x.len() != 8 && x.len() != 4 || x == "list"@);
        if x == "list"@ {
            assert(x[0] != "json"@[0]);
        }
    }
}

} // verus!
