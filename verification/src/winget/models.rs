//! The package model.
use vstd::prelude::*;

verus! {

/// A winget package.
#[derive(Debug, Clone, PartialEq, Eq)]
pub struct Package {
    /// The winget id, such as "Microsoft.PowerShell".
    pub id: String,
    /// The package name.
    pub name: String,
    /// The installed version; for a search, the matching version.
    pub version: String,
    /// The version it can be upgraded to (set only in the upgrade listing).
    pub available_version: Option<String>,
    /// The source (such as winget or msstore).
    pub source: Option<String>,
}

/// A package as text.
pub struct PackageView {
    pub id: Seq<char>,
    pub name: Seq<char>,
    pub version: Seq<char>,
    pub available_version: Option<Seq<char>>,
    pub source: Option<Seq<char>>,
}

/// The text of an optional string.
pub open spec fn opt_text(s: Option<String>) -> Option<Seq<char>> {
    match s {
        Some(t) => Some(t@),
        None => None,
    }
}

impl View for Package {
    type V = PackageView;

    open spec fn view(&self) -> PackageView {
        PackageView {
            id: self.id@,
            name: self.name@,
            version: self.version@,
            available_version: opt_text(self.available_version),
            source: opt_text(self.source),
        }
    }
}

/// The packages of a list, as text.
pub open spec fn package_views(v: Seq<Package>) -> Seq<PackageView> {
    v.map_values(|p: Package| p@)
}

} // verus!
