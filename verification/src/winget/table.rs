//! Reading winget's text table: the listing that `search`, `list` and
//! `upgrade` print.
//!
//! The table is a header line, a rule of dashes, then one line per package
//! until a blank line or the end. Columns are found by the header's words
//! (English or Chinese labels) and split by display width, so a wide (CJK)
//! character takes two columns. A carriage return inside a line (progress
//! output) leaves only what follows it.
use vstd::prelude::*;
use vstd::string::*;

use crate::text::{chars_of, push_char, trim, trim_bounds};
use crate::winget::error::WingetError;
use crate::winget::models::{package_views, Package, PackageView};
use crate::winget::parser::listing_matches;

verus! {

// ---------------------------------------------------------------------------
// Display width

/// The displayed width that unicode-width gives `c` (`None` for a control
/// character).
pub uninterp spec fn char_width(c: char) -> Option<usize>;

/// `UnicodeWidthChar::width` of unicode-width. Claimed: the result is
/// [`char_width`] of the character, and a width is at most 3 (the crate's
/// tables hold widths 0 to 2, and 3 for one letter).
#[verifier::external_body]
pub(crate) fn display_width(c: char) -> (r: Option<usize>)
    ensures
        r == char_width(c),
        r matches Some(w) ==> w <= 3,
{
    unicode_width::UnicodeWidthChar::width(c)
}

/// The columns a character takes (none for a control character).
pub open spec fn columns_of(c: char) -> nat {
    match char_width(c) {
        Some(w) => w as nat,
        None => 0,
    }
}

/// `n`, or `u64::MAX` where it is larger.
pub open spec fn capped(n: nat) -> nat {
    if n > u64::MAX {
        u64::MAX as nat
    } else {
        n
    }
}

/// The display column where character `i` of `l` starts: the width of the
/// characters before it (capped at `u64::MAX`).
pub open spec fn offset(l: Seq<char>, i: int) -> nat
    decreases i,
{
    if i <= 0 {
        0
    } else {
        capped(offset(l, i - 1) + columns_of(l[i - 1]))
    }
}

/// The first index from `i` on whose character starts at column `x` or
/// later (the length where there is none).
pub open spec fn index_at(l: Seq<char>, x: nat, i: int) -> int
    decreases l.len() - i,
{
    if i >= l.len() || offset(l, i) >= x {
        i
    } else {
        index_at(l, x, i + 1)
    }
}

/// A column of the table: the display column where it starts, and where
/// the next column starts (none for the last one).
pub struct ColumnView {
    pub start: nat,
    pub end: Option<nat>,
}

/// The text of `l` in column `c`, trimmed: the characters that start within
/// the column.
pub open spec fn cell(l: Seq<char>, c: ColumnView) -> Seq<char> {
    let lo = index_at(l, c.start, 0);
    let hi = match c.end {
        Some(e) => if index_at(l, e, 0) < lo {
            lo
        } else {
            index_at(l, e, 0)
        },
        None => l.len() as int,
    };
    trim(l.subrange(lo, hi))
}

/// The text of `l` in an optional column, where it is not empty.
pub open spec fn opt_cell(l: Seq<char>, c: Option<ColumnView>) -> Option<Seq<char>> {
    match c {
        Some(col) => if cell(l, col).len() == 0 {
            None
        } else {
            Some(cell(l, col))
        },
        None => None,
    }
}

// ---------------------------------------------------------------------------
// The header

/// The end of the word that starts at `i` (the next space or the end).
pub open spec fn word_end(h: Seq<char>, i: int) -> int
    decreases h.len() - i,
{
    if i < 0 || i >= h.len() || h[i] == ' ' {
        i
    } else {
        word_end(h, i + 1)
    }
}

/// Whether a word of `h` starts at `i`.
pub open spec fn is_word_start(h: Seq<char>, i: int) -> bool {
    0 <= i < h.len() && h[i] != ' ' && (i == 0 || h[i - 1] == ' ')
}

/// The first index from `i` on where a word labelled `en` or `zh` starts.
pub open spec fn find_label(h: Seq<char>, en: Seq<char>, zh: Seq<char>, i: int) -> Option<int>
    decreases h.len() - i,
{
    if i < 0 || i >= h.len() {
        None
    } else if is_word_start(h, i) && (h.subrange(i, word_end(h, i)) == en || h.subrange(
        i,
        word_end(h, i),
    ) == zh) {
        Some(i)
    } else {
        find_label(h, en, zh, i + 1)
    }
}

/// The first index from `i` on that is not a space.
pub open spec fn non_space_from(h: Seq<char>, i: int) -> Option<int>
    decreases h.len() - i,
{
    if i < 0 || i >= h.len() {
        None
    } else if h[i] != ' ' {
        Some(i)
    } else {
        non_space_from(h, i + 1)
    }
}

/// The column labelled `en` or `zh` in header `h`: it starts where the
/// label starts and ends where the next header word starts.
pub open spec fn column(h: Seq<char>, en: Seq<char>, zh: Seq<char>) -> Option<ColumnView> {
    match find_label(h, en, zh, 0) {
        Some(i) => Some(
            ColumnView {
                start: offset(h, i),
                end: match non_space_from(h, word_end(h, i)) {
                    Some(j) => Some(offset(h, j)),
                    None => None,
                },
            },
        ),
        None => None,
    }
}

/// The columns a listing reads.
pub struct ColumnsView {
    pub name: ColumnView,
    pub id: ColumnView,
    pub version: ColumnView,
    pub available: Option<ColumnView>,
    pub source: Option<ColumnView>,
}

/// The columns of header `h`: name, id and version must be there;
/// available version and source are read where they are.
pub open spec fn header_columns(h: Seq<char>) -> Option<ColumnsView> {
    match (
        column(h, "Name"@, "名称"@),
        column(h, "Id"@, "ID"@),
        column(h, "Version"@, "版本"@),
    ) {
        (Some(n), Some(i), Some(v)) => Some(
            ColumnsView {
                name: n,
                id: i,
                version: v,
                available: column(h, "Available"@, "可用"@),
                source: column(h, "Source"@, "源"@),
            },
        ),
        _ => None,
    }
}

// ---------------------------------------------------------------------------
// Lines

/// The lines of `s`, split at each `'\n'` (a text without one is one line).
pub open spec fn split_lines(s: Seq<char>) -> Seq<Seq<char>>
    decreases s.len(),
{
    if s.len() == 0 {
        seq![Seq::empty()]
    } else {
        let p = split_lines(s.drop_last());
        if s.last() == '\n' {
            p.push(Seq::empty())
        } else {
            p.update(p.len() - 1, p.last().push(s.last()))
        }
    }
}

/// What follows the last `'\r'` of `l` (all of `l` without one).
pub open spec fn after_cr(l: Seq<char>) -> Seq<char>
    decreases l.len(),
{
    if l.len() == 0 {
        l
    } else if l.last() == '\r' {
        Seq::empty()
    } else {
        after_cr(l.drop_last()).push(l.last())
    }
}

/// A line as the terminal shows it: without a final `'\r'`, and only what
/// follows an earlier `'\r'`.
pub open spec fn clean_line(l: Seq<char>) -> Seq<char> {
    if l.len() > 0 && l.last() == '\r' {
        after_cr(l.drop_last())
    } else {
        after_cr(l)
    }
}

/// The lines of a text as the terminal shows them.
pub open spec fn screen_lines(s: Seq<char>) -> Seq<Seq<char>> {
    split_lines(s).map_values(|l: Seq<char>| clean_line(l))
}

/// Whether `l` is a rule: dashes only, at least one.
pub open spec fn is_rule(l: Seq<char>) -> bool {
    l.len() > 0 && forall|k: int| 0 <= k < l.len() ==> l[k] == '-'
}

/// The first rule line from index `i` on.
pub open spec fn first_rule(ls: Seq<Seq<char>>, i: int) -> Option<int>
    decreases ls.len() - i,
{
    if i < 0 || i >= ls.len() {
        None
    } else if is_rule(ls[i]) {
        Some(i)
    } else {
        first_rule(ls, i + 1)
    }
}

/// The first blank line from index `i` on (the number of lines where there
/// is none): the table's rows end there.
pub open spec fn rows_end(ls: Seq<Seq<char>>, i: int) -> int
    decreases ls.len() - i,
{
    if i < 0 || i >= ls.len() || trim(ls[i]).len() == 0 {
        i
    } else {
        rows_end(ls, i + 1)
    }
}

// ---------------------------------------------------------------------------
// Rows

/// Whether a column boundary of `l` falls at a space: the character just
/// before the first one that starts at column `x` or later is a space (or
/// there is none before it).
pub open spec fn space_before(l: Seq<char>, x: nat) -> bool {
    let i = index_at(l, x, 0);
    i <= 0 || l[i - 1] == ' '
}

/// The package a row describes: the row must reach the version column, be
/// split by spaces where the id and version columns start (which a footer
/// such as "2 upgrades available." is not), and have an id; empty optional
/// cells are none.
pub open spec fn row_package(l: Seq<char>, c: ColumnsView) -> Option<PackageView> {
    if offset(l, l.len() as int) < c.version.start || !space_before(l, c.id.start)
        || !space_before(l, c.version.start) || cell(l, c.id).len() == 0 {
        None
    } else {
        Some(
            PackageView {
                id: cell(l, c.id),
                name: cell(l, c.name),
                version: cell(l, c.version),
                available_version: opt_cell(l, c.available),
                source: opt_cell(l, c.source),
            },
        )
    }
}

/// The packages of a series of rows, in order.
pub open spec fn row_packages(rows: Seq<Seq<char>>, c: ColumnsView) -> Seq<PackageView>
    decreases rows.len(),
{
    if rows.len() == 0 {
        Seq::empty()
    } else {
        let rest = row_packages(rows.drop_last(), c);
        match row_package(rows.last(), c) {
            Some(p) => rest.push(p),
            None => rest,
        }
    }
}

/// What [`parse_table`] gives for a text: the packages of the first table,
/// or the `Parse` reason (no rule, no header before it, or a header without
/// the name, id or version column).
pub open spec fn table_listing(s: Seq<char>) -> Result<Seq<PackageView>, Seq<char>> {
    let ls = screen_lines(s);
    match first_rule(ls, 0) {
        None => Err("输出中没有表格"@),
        Some(k) => if k == 0 {
            Err("表格缺少表头"@)
        } else {
            match header_columns(ls[k - 1]) {
                None => Err("表头缺少名称、Id 或版本列"@),
                Some(c) => Ok(row_packages(ls.subrange(k + 1, rows_end(ls, k + 1)), c)),
            }
        },
    }
}

// ---------------------------------------------------------------------------
// Reading

/// The texts of a list of character vectors.
pub open spec fn char_texts(v: Seq<Vec<char>>) -> Seq<Seq<char>> {
    v.map_values(|x: Vec<char>| x@)
}

fn split_text(v: &Vec<char>) -> (r: Vec<Vec<char>>)
    ensures
        char_texts(r@) == split_lines(v@),
{
    let mut out: Vec<Vec<char>> = Vec::new();
    let mut cur: Vec<char> = Vec::new();
    let mut i: usize = 0;
    assert(char_texts(out@).push(cur@) =~= split_lines(v@.take(0)));
    while i < v.len()
        invariant
            i <= v@.len(),
            char_texts(out@).push(cur@) == split_lines(v@.take(i as int)),
        decreases v@.len() - i,
    {
        let ghost before = char_texts(out@).push(cur@);
        assert(v@.take(i + 1).drop_last() =~= v@.take(i as int));
        assert(v@.take(i + 1).last() == v@[i as int]);
        if v[i] == '\n' {
            let ghost old_out = out@;
            out.push(cur);
            cur = Vec::new();
            assert(char_texts(out@) =~= char_texts(old_out).push(before.last()));
            assert(char_texts(out@).push(cur@) =~= before.push(Seq::empty()));
        } else {
            let ghost old_cur = cur@;
            cur.push(v[i]);
            assert(char_texts(out@).push(cur@) =~= before.update(
                before.len() - 1,
                before.last().push(v@[i as int]),
            ));
        }
        i = i + 1;
    }
    let ghost fin = char_texts(out@).push(cur@);
    let ghost old_out = out@;
    out.push(cur);
    assert(char_texts(out@) =~= fin);
    assert(v@.take(v@.len() as int) =~= v@);
    out
}

fn clean(l: &Vec<char>) -> (r: Vec<char>)
    ensures
        r@ == clean_line(l@),
{
    let n = l.len();
    let m = if n > 0 && l[n - 1] == '\r' {
        n - 1
    } else {
        n
    };
    proof {
        if n > 0 && l@[n - 1] == '\r' {
            assert(l@.drop_last() =~= l@.take(m as int));
        } else {
            assert(l@ =~= l@.take(m as int));
        }
    }
    let mut start: usize = 0;
    let mut i: usize = 0;
    assert(l@.take(0) =~= l@.subrange(0, 0));
    while i < m
        invariant
            start <= i <= m <= n == l@.len(),
            after_cr(l@.take(i as int)) == l@.subrange(start as int, i as int),
        decreases m - i,
    {
        assert(l@.take(i + 1).drop_last() =~= l@.take(i as int));
        assert(l@.take(i + 1).last() == l@[i as int]);
        if l[i] == '\r' {
            start = i + 1;
            assert(l@.subrange(start as int, i + 1) =~= Seq::<char>::empty());
        } else {
            assert(l@.subrange(start as int, i + 1) =~= l@.subrange(start as int, i as int).push(
                l@[i as int],
            ));
        }
        i = i + 1;
    }
    let mut r: Vec<char> = Vec::new();
    let mut j: usize = start;
    while j < m
        invariant
            start <= j <= m <= l@.len(),
            r@ == l@.subrange(start as int, j as int),
        decreases m - j,
    {
        r.push(l[j]);
        assert(r@ =~= l@.subrange(start as int, j + 1));
        j = j + 1;
    }
    r
}

/// The lines of `text` as the terminal shows them (see [`screen_lines`]).
pub fn screen_lines_of(text: &str) -> (r: Vec<Vec<char>>)
    ensures
        char_texts(r@) == screen_lines(text@),
{
    let v = chars_of(text);
    let raw = split_text(&v);
    let ghost raws = split_lines(text@);
    let mut out: Vec<Vec<char>> = Vec::new();
    let mut k: usize = 0;
    while k < raw.len()
        invariant
            k <= raw@.len(),
            char_texts(raw@) == raws,
            raws == split_lines(text@),
            char_texts(out@) == raws.take(k as int).map_values(|l: Seq<char>| clean_line(l)),
        decreases raw@.len() - k,
    {
        let c = clean(&raw[k]);
        assert(raws[k as int] == raw@[k as int]@);
        let ghost cv = c@;
        let ghost old_out = out@;
        out.push(c);
        assert(char_texts(out@) =~= char_texts(old_out).push(cv));
        assert(raws.take(k + 1).map_values(|l: Seq<char>| clean_line(l)) =~= raws.take(
            k as int,
        ).map_values(|l: Seq<char>| clean_line(l)).push(clean_line(raws[k as int])));
        assert(char_texts(out@) =~= raws.take(k + 1).map_values(|l: Seq<char>| clean_line(l)));
        k = k + 1;
    }
    assert(raws.take(raw@.len() as int) =~= raws);
    out
}

fn offsets(l: &Vec<char>) -> (r: Vec<u64>)
    ensures
        r@.len() == l@.len() + 1,
        forall|k: int| 0 <= k <= l@.len() ==> r@[k] == offset(l@, k),
{
    let mut r: Vec<u64> = Vec::new();
    r.push(0);
    let mut acc: u64 = 0;
    let mut i: usize = 0;
    while i < l.len()
        invariant
            i <= l@.len(),
            r@.len() == i + 1,
            acc == offset(l@, i as int),
            forall|k: int| 0 <= k <= i ==> r@[k] == offset(l@, k),
        decreases l@.len() - i,
    {
        let w: u64 = match display_width(l[i]) {
            Some(w) => w as u64,
            None => 0,
        };
        assert(w == columns_of(l@[i as int]));
        acc = if acc > u64::MAX - w {
            u64::MAX
        } else {
            acc + w
        };
        assert(offset(l@, i + 1) == capped(offset(l@, i as int) + columns_of(l@[i as int])));
        r.push(acc);
        i = i + 1;
    }
    r
}

/// An offset table of a line.
pub open spec fn offsets_of(offs: Seq<u64>, l: Seq<char>) -> bool {
    &&& offs.len() == l.len() + 1
    &&& forall|k: int| 0 <= k <= l.len() ==> offs[k] == offset(l, k)
}

fn index_at_exec(l: &Vec<char>, offs: &Vec<u64>, x: u64) -> (r: usize)
    requires
        offsets_of(offs@, l@),
    ensures
        r == index_at(l@, x as nat, 0),
        r <= l@.len(),
{
    let mut i: usize = 0;
    while i < l.len() && offs[i] < x
        invariant
            i <= l@.len(),
            offsets_of(offs@, l@),
            index_at(l@, x as nat, 0) == index_at(l@, x as nat, i as int),
        decreases l@.len() - i,
    {
        i = i + 1;
    }
    i
}

/// A column of the table, in display columns.
struct Column {
    start: u64,
    end: Option<u64>,
}

impl View for Column {
    type V = ColumnView;

    closed spec fn view(&self) -> ColumnView {
        ColumnView {
            start: self.start as nat,
            end: match self.end {
                Some(e) => Some(e as nat),
                None => None,
            },
        }
    }
}

/// The columns a listing reads.
struct Columns {
    name: Column,
    id: Column,
    version: Column,
    available: Option<Column>,
    source: Option<Column>,
}

spec fn opt_column_view(c: Option<Column>) -> Option<ColumnView> {
    match c {
        Some(x) => Some(x@),
        None => None,
    }
}

impl View for Columns {
    type V = ColumnsView;

    closed spec fn view(&self) -> ColumnsView {
        ColumnsView {
            name: self.name@,
            id: self.id@,
            version: self.version@,
            available: opt_column_view(self.available),
            source: opt_column_view(self.source),
        }
    }
}

fn string_of(v: &Vec<char>, a: usize, b: usize) -> (r: String)
    requires
        a <= b <= v@.len(),
    ensures
        r@ == v@.subrange(a as int, b as int),
{
    let mut r = String::new();
    let mut j: usize = a;
    while j < b
        invariant
            a <= j <= b <= v@.len(),
            r@ == v@.subrange(a as int, j as int),
        decreases b - j,
    {
        push_char(&mut r, v[j]);
        assert(r@ =~= v@.subrange(a as int, j + 1));
        j = j + 1;
    }
    r
}

fn cell_text(l: &Vec<char>, offs: &Vec<u64>, c: &Column) -> (r: String)
    requires
        offsets_of(offs@, l@),
    ensures
        r@ == cell(l@, c@),
{
    let lo = index_at_exec(l, offs, c.start);
    let hi = match c.end {
        Some(e) => {
            let h = index_at_exec(l, offs, e);
            if h < lo {
                lo
            } else {
                h
            }
        },
        None => l.len(),
    };
    let mut sub: Vec<char> = Vec::new();
    let mut j: usize = lo;
    while j < hi
        invariant
            lo <= j <= hi <= l@.len(),
            sub@ == l@.subrange(lo as int, j as int),
        decreases hi - j,
    {
        sub.push(l[j]);
        assert(sub@ =~= l@.subrange(lo as int, j + 1));
        j = j + 1;
    }
    let (a, b) = trim_bounds(&sub);
    string_of(&sub, a, b)
}

fn opt_cell_text(l: &Vec<char>, offs: &Vec<u64>, c: &Option<Column>) -> (r: Option<String>)
    requires
        offsets_of(offs@, l@),
    ensures
        match r {
            Some(t) => opt_cell(l@, opt_column_view(*c)) == Some(t@),
            None => opt_cell(l@, opt_column_view(*c)) is None,
        },
{
    match c {
        Some(col) => {
            let t = cell_text(l, offs, col);
            if t.as_str().is_empty() {
                None
            } else {
                Some(t)
            }
        },
        None => None,
    }
}

fn word_end_exec(h: &Vec<char>, i: usize) -> (r: usize)
    requires
        i <= h@.len(),
    ensures
        r == word_end(h@, i as int),
        i <= r <= h@.len(),
{
    let mut j: usize = i;
    while j < h.len() && h[j] != ' '
        invariant
            i <= j <= h@.len(),
            word_end(h@, i as int) == word_end(h@, j as int),
        decreases h@.len() - j,
    {
        j = j + 1;
    }
    j
}

fn range_eq(h: &Vec<char>, a: usize, b: usize, w: &Vec<char>) -> (r: bool)
    requires
        a <= b <= h@.len(),
    ensures
        r == (h@.subrange(a as int, b as int) == w@),
{
    if b - a != w.len() {
        return false;
    }
    let mut k: usize = 0;
    while k < w.len()
        invariant
            b - a == w@.len(),
            a <= b <= h@.len(),
            k <= w@.len(),
            forall|t: int| 0 <= t < k ==> h@[a + t] == w@[t],
        decreases w@.len() - k,
    {
        if h[a + k] != w[k] {
            assert(h@.subrange(a as int, b as int)[k as int] != w@[k as int]);
            return false;
        }
        k = k + 1;
    }
    assert(h@.subrange(a as int, b as int) =~= w@);
    true
}

fn find_label_exec(h: &Vec<char>, en: &Vec<char>, zh: &Vec<char>) -> (r: Option<usize>)
    ensures
        match r {
            Some(i) => find_label(h@, en@, zh@, 0) == Some(i as int) && i < h@.len(),
            None => find_label(h@, en@, zh@, 0) is None,
        },
{
    let mut i: usize = 0;
    while i < h.len()
        invariant
            i <= h@.len(),
            find_label(h@, en@, zh@, 0) == find_label(h@, en@, zh@, i as int),
        decreases h@.len() - i,
    {
        let start = h[i] != ' ' && (i == 0 || h[i - 1] == ' ');
        if start {
            let e = word_end_exec(h, i);
            if range_eq(h, i, e, en) || range_eq(h, i, e, zh) {
                return Some(i);
            }
        }
        i = i + 1;
    }
    None
}

fn non_space_exec(h: &Vec<char>, i: usize) -> (r: Option<usize>)
    requires
        i <= h@.len(),
    ensures
        match r {
            Some(j) => non_space_from(h@, i as int) == Some(j as int) && j < h@.len(),
            None => non_space_from(h@, i as int) is None,
        },
{
    let mut j: usize = i;
    while j < h.len()
        invariant
            i <= j <= h@.len(),
            non_space_from(h@, i as int) == non_space_from(h@, j as int),
        decreases h@.len() - j,
    {
        if h[j] != ' ' {
            return Some(j);
        }
        j = j + 1;
    }
    None
}

fn column_exec(h: &Vec<char>, offs: &Vec<u64>, en: &str, zh: &str) -> (r: Option<Column>)
    requires
        offsets_of(offs@, h@),
    ensures
        opt_column_view(r) == column(h@, en@, zh@),
{
    let en_chars = chars_of(en);
    let zh_chars = chars_of(zh);
    match find_label_exec(h, &en_chars, &zh_chars) {
        Some(i) => {
            let e = word_end_exec(h, i);
            let end = match non_space_exec(h, e) {
                Some(j) => Some(offs[j]),
                None => None,
            };
            Some(Column { start: offs[i], end })
        },
        None => None,
    }
}

fn header_columns_exec(h: &Vec<char>) -> (r: Option<Columns>)
    ensures
        match r {
            Some(c) => header_columns(h@) == Some(c@),
            None => header_columns(h@) is None,
        },
{
    let offs = offsets(h);
    let name = column_exec(h, &offs, "Name", "名称");
    let id = column_exec(h, &offs, "Id", "ID");
    let version = column_exec(h, &offs, "Version", "版本");
    match (name, id, version) {
        (Some(n), Some(i), Some(v)) => {
            let available = column_exec(h, &offs, "Available", "可用");
            let source = column_exec(h, &offs, "Source", "源");
            Some(Columns { name: n, id: i, version: v, available, source })
        },
        _ => None,
    }
}

fn space_before_exec(l: &Vec<char>, offs: &Vec<u64>, x: u64) -> (r: bool)
    requires
        offsets_of(offs@, l@),
    ensures
        r == space_before(l@, x as nat),
{
    let i = index_at_exec(l, offs, x);
    i == 0 || l[i - 1] == ' '
}

fn row_package_exec(l: &Vec<char>, c: &Columns) -> (r: Option<Package>)
    ensures
        match r {
            Some(p) => row_package(l@, c@) == Some(p@),
            None => row_package(l@, c@) is None,
        },
{
    let offs = offsets(l);
    if offs[l.len()] < c.version.start {
        return None;
    }
    if !space_before_exec(l, &offs, c.id.start) || !space_before_exec(l, &offs, c.version.start) {
        return None;
    }
    let id = cell_text(l, &offs, &c.id);
    if id.as_str().is_empty() {
        return None;
    }
    let name = cell_text(l, &offs, &c.name);
    let version = cell_text(l, &offs, &c.version);
    let available_version = opt_cell_text(l, &offs, &c.available);
    let source = opt_cell_text(l, &offs, &c.source);
    Some(Package { id, name, version, available_version, source })
}

fn is_rule_exec(l: &Vec<char>) -> (r: bool)
    ensures
        r == is_rule(l@),
{
    if l.len() == 0 {
        return false;
    }
    let mut k: usize = 0;
    while k < l.len()
        invariant
            k <= l@.len(),
            forall|t: int| 0 <= t < k ==> l@[t] == '-',
        decreases l@.len() - k,
    {
        if l[k] != '-' {
            return false;
        }
        k = k + 1;
    }
    true
}

fn is_blank(l: &Vec<char>) -> (r: bool)
    ensures
        r == (trim(l@).len() == 0),
{
    let (a, b) = trim_bounds(l);
    a == b
}

/// Reads the packages out of winget's text table (see [`table_listing`]).
pub fn parse_table(text: &str) -> (r: Result<Vec<Package>, WingetError>)
    ensures
        listing_matches(r, table_listing(text@)),
{
    let ls = screen_lines_of(text);
    let ghost lv = screen_lines(text@);
    let n = ls.len();
    let mut k: usize = 0;
    while k < n && !is_rule_exec(&ls[k])
        invariant
            k <= n == ls@.len(),
            char_texts(ls@) == lv,
            first_rule(lv, 0) == first_rule(lv, k as int),
        decreases n - k,
    {
        assert(lv[k as int] == ls@[k as int]@);
        k = k + 1;
    }
    if k == n {
        return Err(WingetError::Parse(String::from_str("输出中没有表格")));
    }
    assert(lv[k as int] == ls@[k as int]@);
    if k == 0 {
        return Err(WingetError::Parse(String::from_str("表格缺少表头")));
    }
    assert(lv[k - 1] == ls@[k - 1]@);
    let cols = match header_columns_exec(&ls[k - 1]) {
        Some(c) => c,
        None => {
            return Err(WingetError::Parse(String::from_str("表头缺少名称、Id 或版本列")));
        },
    };
    let mut e: usize = k + 1;
    while e < n && !is_blank(&ls[e])
        invariant
            k + 1 <= e <= n == ls@.len(),
            char_texts(ls@) == lv,
            rows_end(lv, k + 1) == rows_end(lv, e as int),
        decreases n - e,
    {
        assert(lv[e as int] == ls@[e as int]@);
        e = e + 1;
    }
    proof {
        if e < n {
            assert(lv[e as int] == ls@[e as int]@);
        }
    }
    let ghost rows = lv.subrange(k + 1, e as int);
    let mut out: Vec<Package> = Vec::new();
    let mut j: usize = k + 1;
    assert(rows.take(0) =~= Seq::<Seq<char>>::empty());
    while j < e
        invariant
            k + 1 <= j <= e <= n == ls@.len(),
            char_texts(ls@) == lv,
            rows == lv.subrange(k + 1, e as int),
            package_views(out@) == row_packages(rows.take(j - (k + 1)), cols@),
        decreases e - j,
    {
        let ghost i = j - (k + 1);
        assert(rows.take(i + 1).drop_last() =~= rows.take(i));
        assert(rows.take(i + 1).last() == ls@[j as int]@);
        match row_package_exec(&ls[j], &cols) {
            Some(p) => {
                let ghost before = out@;
                out.push(p);
                assert(package_views(out@) =~= package_views(before).push(p@));
            },
            None => {},
        }
        j = j + 1;
    }
    assert(rows.take(e - (k + 1)) =~= rows);
    Ok(out)
}

/// The columns with the optional ones (available version, source) left out.
pub open spec fn required_only(c: ColumnsView) -> ColumnsView {
    ColumnsView { available: None, source: None, ..c }
}

/// Law: the optional columns never decide whether a row is read. A row
/// gives a package with them exactly when it gives one without them, with
/// the same id, name and version; the source is the text of the source
/// cell, none where that cell is empty (and likewise the available
/// version), never an empty text.
pub proof fn lemma_optional_cells_never_drop_a_row(l: Seq<char>, c: ColumnsView)
    ensures
        row_package(l, c) is Some <==> row_package(l, required_only(c)) is Some,
        row_package(l, c) matches Some(p) ==> {
            let q = row_package(l, required_only(c))->0;
            &&& p.id == q.id && p.name == q.name && p.version == q.version
            &&& q.source is None && q.available_version is None
            &&& p.id == cell(l, c.id) && p.name == cell(l, c.name) && p.version == cell(l, c.version)
            &&& p.id.len() > 0
            &&& match c.source {
                Some(sc) => (p.source is None <==> cell(l, sc).len() == 0) && (p.source matches Some(
                    t,
                ) ==> t == cell(l, sc)),
                None => p.source is None,
            }
            &&& match c.available {
                Some(ac) => (p.available_version is None <==> cell(l, ac).len() == 0)
                    && (p.available_version matches Some(t) ==> t == cell(l, ac)),
                None => p.available_version is None,
            }
        },
{
}

/// Law: a table yields as many packages with its optional columns as
/// without them: no row is dropped for an empty source or available cell.
pub proof fn lemma_optional_cells_keep_the_count(rows: Seq<Seq<char>>, c: ColumnsView)
    ensures
        row_packages(rows, c).len() == row_packages(rows, required_only(c)).len(),
    decreases rows.len(),
{
    if rows.len() > 0 {
        lemma_optional_cells_keep_the_count(rows.drop_last(), c);
        lemma_optional_cells_never_drop_a_row(rows.last(), c);
    }
}

} // verus!
