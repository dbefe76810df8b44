//! Names of the entries that the routine owns in the application-data
//! directory.

use vstd::prelude::*;

verus! {

/// A cache directory below the application-data directory.
#[derive(Clone, Copy, Debug, PartialEq, Eq, Structural)]
pub enum CacheDir {
    /// The embedded web view's state: local storage, indexed data, its cache.
    Webview,
    /// The general-purpose cache.
    Cache,
}

impl CacheDir {
    /// The directory's name below the application-data directory.
    pub open spec fn name_spec(self) -> Seq<char> {
        match self {
            CacheDir::Webview => "webview"@,
            CacheDir::Cache => "cache"@,
        }
    }

    /// The directory's name below the application-data directory.
    pub fn name(self) -> (n: &'static str)
        ensures
            n@ == self.name_spec(),
    {
        match self {
            CacheDir::Webview => "webview",
            CacheDir::Cache => "cache",
        }
    }
}

/// The name of the version marker below the application-data directory.
pub open spec fn marker_name_spec() -> Seq<char> {
    ".app_version"@
}

/// The name of the version marker below the application-data directory.
pub fn marker_name() -> (n: &'static str)
    ensures
        n@ == marker_name_spec(),
{
    ".app_version"
}

} // verus!
