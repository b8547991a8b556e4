//! Reading winget's package listing out of a JSON document.
//!
//! Lenient: a missing field becomes its default, a missing `Matches` list an
//! empty result, and a match without a `Package` object is skipped; only a
//! document that is not JSON, whose top level is not an object, or whose
//! `Matches` is not a list, is refused with `Parse`.
use vstd::prelude::*;
use vstd::string::*;

use crate::winget::error::WingetError;
use crate::winget::json::{parsed_json, read_json, Json};
use crate::winget::models::{package_views, Package, PackageView};

verus! {

/// The value of the first member of `entries` named `key`.
pub open spec fn member(entries: Seq<(String, Json)>, key: Seq<char>) -> Option<Json>
    decreases entries.len(),
{
    if entries.len() == 0 {
        None
    } else if entries[0].0@ == key {
        Some(entries[0].1)
    } else {
        member(entries.drop_first(), key)
    }
}

/// The text of member `key` where it is a string; `None` where it is
/// missing or not a string.
pub open spec fn str_member(entries: Seq<(String, Json)>, key: Seq<char>) -> Option<Seq<char>> {
    match member(entries, key) {
        Some(Json::Str(s)) => Some(s@),
        _ => None,
    }
}

/// The text, or the empty text.
pub open spec fn or_empty(s: Option<Seq<char>>) -> Seq<char> {
    match s {
        Some(t) => t,
        None => Seq::empty(),
    }
}

/// The package that one match describes: its `Package` member must be an
/// object; `Id`, `Name`, `Version` default to the empty text,
/// `AvailableVersion` and `Source` to none.
pub open spec fn match_package(item: Json) -> Option<PackageView> {
    match item {
        Json::Object(entries) => match member(entries@, "Package"@) {
            Some(Json::Object(p)) => Some(
                PackageView {
                    id: or_empty(str_member(p@, "Id"@)),
                    name: or_empty(str_member(p@, "Name"@)),
                    version: or_empty(str_member(p@, "Version"@)),
                    available_version: str_member(p@, "AvailableVersion"@),
                    source: str_member(p@, "Source"@),
                },
            ),
            _ => None,
        },
        _ => None,
    }
}

/// The packages of a list of matches, in order, skipping the matches that
/// describe none.
pub open spec fn match_packages(items: Seq<Json>) -> Seq<PackageView>
    decreases items.len(),
{
    if items.len() == 0 {
        Seq::empty()
    } else {
        let rest = match_packages(items.drop_last());
        match match_package(items.last()) {
            Some(p) => rest.push(p),
            None => rest,
        }
    }
}

/// What [`packages_from_json`] gives for a document: `Ok` with the packages,
/// or `Err` with the `Parse` reason.
pub open spec fn listing_of(root: Json) -> Result<Seq<PackageView>, Seq<char>> {
    match root {
        Json::Object(entries) => match member(entries@, "Matches"@) {
            None => Ok(Seq::empty()),
            Some(Json::Array(items)) => Ok(match_packages(items@)),
            Some(_) => Err("Matches 字段不是数组"@),
        },
        _ => Err("JSON 顶层不是对象"@),
    }
}

/// Whether `r` is what [`listing_of`] says: the same packages, or a `Parse`
/// error with the same reason.
pub open spec fn listing_matches(r: Result<Vec<Package>, WingetError>, l: Result<Seq<PackageView>, Seq<char>>) -> bool {
    match l {
        Ok(ps) => r matches Ok(v) && package_views(v@) == ps,
        Err(m) => r matches Err(e) && e matches WingetError::Parse(t) && t@ == m,
    }
}

fn find_member<'a>(entries: &'a Vec<(String, Json)>, key: &String) -> (r: Option<&'a Json>)
    ensures
        r is None <==> member(entries@, key@) is None,
        r matches Some(v) ==> member(entries@, key@) == Some(*v),
{
    let n = entries.len();
    let mut i: usize = 0;
    assert(entries@.subrange(0, n as int) =~= entries@);
    while i < n
        invariant
            i <= n == entries@.len(),
            member(entries@, key@) == member(entries@.subrange(i as int, n as int), key@),
        decreases n - i,
    {
        assert(entries@.subrange(i as int, n as int).drop_first() =~= entries@.subrange(
            i + 1,
            n as int,
        ));
        if entries[i].0 == *key {
            return Some(&entries[i].1);
        }
        i = i + 1;
    }
    None
}

fn find_str(entries: &Vec<(String, Json)>, key: &str) -> (r: Option<String>)
    ensures
        match r {
            Some(s) => str_member(entries@, key@) == Some(s@),
            None => str_member(entries@, key@) is None,
        },
{
    let k = String::from_str(key);
    match find_member(entries, &k) {
        Some(Json::Str(s)) => Some(s.clone()),
        _ => None,
    }
}

fn text_or_empty(s: Option<String>) -> (r: String)
    ensures
        r@ == or_empty(crate::winget::models::opt_text(s)),
{
    match s {
        Some(t) => t,
        None => String::new(),
    }
}

fn package_of_match(item: &Json) -> (r: Option<Package>)
    ensures
        match r {
            Some(p) => match_package(*item) == Some(p@),
            None => match_package(*item) is None,
        },
{
    match item {
        Json::Object(entries) => {
            let k = String::from_str("Package");
            match find_member(entries, &k) {
                Some(Json::Object(p)) => {
                    let id = text_or_empty(find_str(p, "Id"));
                    let name = text_or_empty(find_str(p, "Name"));
                    let version = text_or_empty(find_str(p, "Version"));
                    let available_version = find_str(p, "AvailableVersion");
                    let source = find_str(p, "Source");
                    Some(Package { id, name, version, available_version, source })
                },
                _ => None,
            }
        },
        _ => None,
    }
}

fn packages_of_matches(items: &Vec<Json>) -> (r: Vec<Package>)
    ensures
        package_views(r@) == match_packages(items@),
{
    let n = items.len();
    let mut out: Vec<Package> = Vec::new();
    let mut i: usize = 0;
    while i < n
        invariant
            i <= n == items@.len(),
            package_views(out@) == match_packages(items@.take(i as int)),
        decreases n - i,
    {
        assert(items@.take(i + 1).drop_last() =~= items@.take(i as int));
        match package_of_match(&items[i]) {
            Some(p) => {
                let ghost before = out@;
                out.push(p);
                assert(package_views(out@) =~= package_views(before).push(p@));
            },
            None => {},
        }
        i = i + 1;
    }
    assert(items@.take(n as int) =~= items@);
    out
}

/// The packages listed in a winget JSON document (see [`listing_of`]).
pub fn packages_from_json(root: &Json) -> (r: Result<Vec<Package>, WingetError>)
    ensures
        listing_matches(r, listing_of(*root)),
{
    match root {
        Json::Object(entries) => {
            let k = String::from_str("Matches");
            match find_member(entries, &k) {
                None => {
                    let v: Vec<Package> = Vec::new();
                    assert(package_views(v@) =~= Seq::empty());
                    Ok(v)
                },
                Some(Json::Array(items)) => Ok(packages_of_matches(items)),
                Some(_) => Err(WingetError::Parse(String::from_str("Matches 字段不是数组"))),
            }
        },
        _ => Err(WingetError::Parse(String::from_str("JSON 顶层不是对象"))),
    }
}

/// Reads the package list out of the stdout of a winget query: text that is
/// not JSON gives `Parse` with serde_json's reason after a fixed prefix;
/// otherwise the result is [`packages_from_json`] of the document.
pub fn parse_packages(output: &str) -> (r: Result<Vec<Package>, WingetError>)
    ensures
        match parsed_json(output@) {
            Err(d) => r matches Err(e) && e matches WingetError::Parse(m) && m@ == "无法解析 JSON: "@
                + d,
            Ok(root) => listing_matches(r, listing_of(root)),
        },
{
    match read_json(output) {
        Ok(root) => packages_from_json(&root),
        Err(detail) => {
            let mut m = String::from_str("无法解析 JSON: ");
            m.append(detail.as_str());
            Err(WingetError::Parse(m))
        },
    }
}

/// Law: a match that describes a package gives the texts of its `Package`
/// object's members: `Id`, `Name` and `Version` (the installed version,
/// whatever `AvailableVersion` holds) as they are, empty where missing or
/// not a string; `AvailableVersion` and `Source` as they are, none where
/// missing or not a string.
pub proof fn lemma_match_fields_come_from_their_members(item: Json)
    ensures
        match_package(item) matches Some(p) ==> item matches Json::Object(entries) && member(
            entries@,
            "Package"@,
        ) matches Some(Json::Object(obj)) && {
            &&& p.version == (match member(obj@, "Version"@) {
                Some(Json::Str(v)) => v@,
                _ => Seq::empty(),
            })
            &&& p.id == (match member(obj@, "Id"@) {
                Some(Json::Str(v)) => v@,
                _ => Seq::empty(),
            })
            &&& p.name == (match member(obj@, "Name"@) {
                Some(Json::Str(v)) => v@,
                _ => Seq::empty(),
            })
            &&& p.available_version == (match member(obj@, "AvailableVersion"@) {
                Some(Json::Str(v)) => Some(v@),
                _ => None,
            })
            &&& p.source == (match member(obj@, "Source"@) {
                Some(Json::Str(v)) => Some(v@),
                _ => None,
            })
        },
        (item matches Json::Object(entries) && member(entries@, "Package"@) matches Some(
            Json::Object(obj),
        )) ==> match_package(item) is Some,
{
}

} // verus!
