//! What each screen shows, as text: the input line, the list rows, and the
//! status notice with its tone. Drawing it on the terminal is left to the
//! runtime.
use vstd::prelude::*;
use vstd::string::*;

use crate::state::{InstallState, LogState, SearchState, UninstallState, UpgradeState};
use crate::state::search::opt_view;
use crate::winget::models::{Package, PackageView};

verus! {

/// How a notice is shown.
#[derive(Debug, Clone, Copy, PartialEq, Eq)]
pub enum Tone {
    /// Default style.
    Plain,
    /// An error (shown red).
    Failure,
    /// Work in progress (shown yellow).
    Busy,
    /// A success or a result (shown green).
    Success,
    /// A hint (shown dark gray).
    Hint,
}

/// A line of text with its tone.
#[derive(Debug, Clone, PartialEq, Eq)]
pub struct Notice {
    pub text: String,
    pub tone: Tone,
}

/// The main area of a screen: a notice, or the rows of a list.
#[derive(Debug, Clone, PartialEq, Eq)]
pub enum Body {
    Notice(Notice),
    Rows(Vec<String>),
}

/// A body as text.
pub enum BodyView {
    Notice(Seq<char>, Tone),
    Rows(Seq<Seq<char>>),
}

/// The texts of a list of strings.
pub open spec fn texts(v: Seq<String>) -> Seq<Seq<char>> {
    v.map_values(|s: String| s@)
}

impl View for Body {
    type V = BodyView;

    open spec fn view(&self) -> BodyView {
        match self {
            Body::Notice(n) => BodyView::Notice(n.text@, n.tone),
            Body::Rows(r) => BodyView::Rows(texts(r@)),
        }
    }
}

fn owned(s: &str) -> (r: String)
    ensures
        r@ == s@,
{
    String::from_str(s)
}

fn notice(text: &str, tone: Tone) -> (r: Notice)
    ensures
        r.text@ == text@,
        r.tone == tone,
{
    Notice { text: owned(text), tone }
}

/// The input line of a screen: `"> "` and the text typed.
pub fn input_line(typed: &String) -> (r: String)
    ensures
        r@ == "> "@ + typed@,
{
    let mut r = owned("> ");
    r.append(typed.as_str());
    r
}

/// `prefix` followed by `s`.
fn prefixed(prefix: &str, s: &String) -> (r: String)
    ensures
        r@ == prefix@ + s@,
{
    let mut r = owned(prefix);
    r.append(s.as_str());
    r
}

/// The columns of a package row: id, name and version, two spaces apart.
pub open spec fn package_columns(p: PackageView) -> Seq<char> {
    p.id + "  "@ + p.name + "  "@ + p.version
}

fn columns(p: &Package) -> (r: String)
    ensures
        r@ == package_columns(p@),
{
    let mut r = owned(p.id.as_str());
    r.append("  ");
    r.append(p.name.as_str());
    r.append("  ");
    r.append(p.version.as_str());
    r
}

/// A search result row.
pub open spec fn search_row(p: PackageView) -> Seq<char> {
    package_columns(p)
}

/// The marker of a list row: `">"` on the selected one, a space elsewhere.
pub open spec fn marker(i: int, selected: usize) -> Seq<char> {
    if i == selected {
        ">"@
    } else {
        " "@
    }
}

/// An upgrade row: marker, columns, and the version it goes to (`"?"`
/// where unknown).
pub open spec fn upgrade_row(p: PackageView, i: int, selected: usize) -> Seq<char> {
    marker(i, selected) + " "@ + package_columns(p) + " -> "@ + match p.available_version {
        Some(v) => v,
        None => "?"@,
    }
}

/// An uninstall row: marker and columns.
pub open spec fn uninstall_row(p: PackageView, i: int, selected: usize) -> Seq<char> {
    marker(i, selected) + " "@ + package_columns(p)
}

fn marked(i: usize, selected: usize, p: &Package) -> (r: String)
    ensures
        r@ == marker(i as int, selected) + " "@ + package_columns(p@),
{
    let mut r = if i == selected {
        owned(">")
    } else {
        owned(" ")
    };
    r.append(" ");
    let c = columns(p);
    r.append(c.as_str());
    r
}

/// The body of the search screen: a loading notice, the error, a "no
/// results" notice, or the result rows.
pub open spec fn search_body_view(s: crate::state::SearchView) -> BodyView {
    if s.loading {
        BodyView::Notice("加载中..."@, Tone::Plain)
    } else if s.error is Some {
        BodyView::Notice("错误: "@ + s.error->0, Tone::Failure)
    } else if s.results.len() == 0 {
        BodyView::Notice("无结果"@, Tone::Plain)
    } else {
        BodyView::Rows(s.results.map_values(|p: PackageView| search_row(p)))
    }
}

/// The body of the search screen.
pub fn search_body(s: &SearchState) -> (r: Body)
    ensures
        r@ == search_body_view(s@),
{
    if s.loading {
        return Body::Notice(notice("加载中...", Tone::Plain));
    }
    if let Some(err) = &s.error {
        return Body::Notice(Notice { text: prefixed("错误: ", err), tone: Tone::Failure });
    }
    if s.results.len() == 0 {
        return Body::Notice(notice("无结果", Tone::Plain));
    }
    let n = s.results.len();
    let mut rows: Vec<String> = Vec::new();
    let ghost ps = s@.results;
    for i in 0..n
        invariant
            n == s.results@.len() == ps.len(),
            ps == crate::winget::models::package_views(s.results@),
            texts(rows@) == ps.take(i as int).map_values(|p: PackageView| search_row(p)),
    {
        let ghost before = rows@;
        let row = columns(&s.results[i]);
        assert(ps[i as int] == s.results@[i as int]@);
        rows.push(row);
        assert(texts(rows@) =~= texts(before).push(row@));
        assert(texts(rows@) =~= ps.take(i + 1).map_values(|p: PackageView| search_row(p)));
    }
    assert(ps.take(n as int) =~= ps);
    Body::Rows(rows)
}

/// The status line of the install screen: the error, the install in
/// progress, the last message, or the hint.
pub open spec fn install_status_view(s: crate::state::InstallView) -> (Seq<char>, Tone) {
    if s.error is Some {
        ("错误: "@ + s.error->0, Tone::Failure)
    } else if s.loading {
        ("安装中..."@, Tone::Busy)
    } else if s.message is Some {
        (s.message->0, Tone::Success)
    } else {
        ("输入包 Id 后按 Enter 安装"@, Tone::Hint)
    }
}

/// The status line of the install screen.
pub fn install_status(s: &InstallState) -> (r: Notice)
    ensures
        (r.text@, r.tone) == install_status_view(s@),
{
    if let Some(err) = &s.error {
        Notice { text: prefixed("错误: ", err), tone: Tone::Failure }
    } else if s.loading {
        notice("安装中...", Tone::Busy)
    } else if let Some(msg) = &s.message {
        Notice { text: msg.clone(), tone: Tone::Success }
    } else {
        notice("输入包 Id 后按 Enter 安装", Tone::Hint)
    }
}

/// The result line of the log screen: the result once the command ended,
/// otherwise a notice that it runs.
pub open spec fn log_result_view(s: crate::state::LogView) -> (Seq<char>, Tone) {
    match s.result {
        Some(r) => (r, Tone::Success),
        None => ("执行中..."@, Tone::Busy),
    }
}

/// The result line of the log screen.
pub fn log_result(s: &LogState) -> (r: Notice)
    ensures
        (r.text@, r.tone) == log_result_view(s@),
{
    match &s.result {
        Some(r) => Notice { text: r.clone(), tone: Tone::Success },
        None => notice("执行中...", Tone::Busy),
    }
}

/// The body of the upgrade screen: a loading notice, the message (or a
/// "nothing to upgrade" notice) for an empty list, or the rows.
pub open spec fn upgrade_body_view(s: crate::state::UpgradeView) -> BodyView {
    if s.loading {
        BodyView::Notice("加载可升级列表..."@, Tone::Plain)
    } else if s.items.len() == 0 {
        match s.message {
            Some(m) => BodyView::Notice(m, Tone::Failure),
            None => BodyView::Notice("没有可升级的包"@, Tone::Plain),
        }
    } else {
        BodyView::Rows(
            Seq::new(s.items.len(), |i: int| upgrade_row(s.items[i], i, s.selected)),
        )
    }
}

/// The body of the upgrade screen.
pub fn upgrade_body(s: &UpgradeState) -> (r: Body)
    ensures
        r@ == upgrade_body_view(s@),
{
    if s.loading {
        return Body::Notice(notice("加载可升级列表...", Tone::Plain));
    }
    let n = s.items.len();
    if n == 0 {
        return match &s.message {
            Some(m) => Body::Notice(Notice { text: m.clone(), tone: Tone::Failure }),
            None => Body::Notice(notice("没有可升级的包", Tone::Plain)),
        };
    }
    let ghost v = s@;
    let mut rows: Vec<String> = Vec::new();
    for i in 0..n
        invariant
            n == s.items@.len() == v.items.len(),
            v == s@,
            texts(rows@) == Seq::new(i as nat, |j: int| upgrade_row(v.items[j], j, v.selected)),
    {
        let ghost before = rows@;
        let p = &s.items[i];
        assert(v.items[i as int] == p@);
        let mut row = marked(i, s.selected, p);
        row.append(" -> ");
        match &p.available_version {
            Some(a) => row.append(a.as_str()),
            None => row.append("?"),
        }
        rows.push(row);
        assert(texts(rows@) =~= texts(before).push(row@));
        assert(texts(rows@) =~= Seq::new(
            (i + 1) as nat,
            |j: int| upgrade_row(v.items[j], j, v.selected),
        ));
    }
    Body::Rows(rows)
}

/// The body of the uninstall screen: a loading notice, the message (or a
/// "nothing installed" notice) for an empty list, or the rows.
pub open spec fn uninstall_body_view(s: crate::state::UninstallView) -> BodyView {
    if s.loading {
        BodyView::Notice("加载已安装列表..."@, Tone::Plain)
    } else if s.items.len() == 0 {
        match s.message {
            Some(m) => BodyView::Notice(m, Tone::Failure),
            None => BodyView::Notice("没有已安装的包"@, Tone::Plain),
        }
    } else {
        BodyView::Rows(
            Seq::new(s.items.len(), |i: int| uninstall_row(s.items[i], i, s.selected)),
        )
    }
}

/// The body of the uninstall screen.
pub fn uninstall_body(s: &UninstallState) -> (r: Body)
    ensures
        r@ == uninstall_body_view(s@),
{
    if s.loading {
        return Body::Notice(notice("加载已安装列表...", Tone::Plain));
    }
    let n = s.items.len();
    if n == 0 {
        return match &s.message {
            Some(m) => Body::Notice(Notice { text: m.clone(), tone: Tone::Failure }),
            None => Body::Notice(notice("没有已安装的包", Tone::Plain)),
        };
    }
    let ghost v = s@;
    let mut rows: Vec<String> = Vec::new();
    for i in 0..n
        invariant
            n == s.items@.len() == v.items.len(),
            v == s@,
            texts(rows@) == Seq::new(i as nat, |j: int| uninstall_row(v.items[j], j, v.selected)),
    {
        let ghost before = rows@;
        assert(v.items[i as int] == s.items@[i as int]@);
        let row = marked(i, s.selected, &s.items[i]);
        rows.push(row);
        assert(texts(rows@) =~= texts(before).push(row@));
        assert(texts(rows@) =~= Seq::new(
            (i + 1) as nat,
            |j: int| uninstall_row(v.items[j], j, v.selected),
        ));
    }
    Body::Rows(rows)
}

} // verus!
