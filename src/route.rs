//! The dispatch table: which handler answers a method and a path.
use vstd::prelude::*;
use crate::text::{str_eq, trim_slashes, trimmed};

verus! {

/// The handler that answers a request.
pub enum Route {
    /// Store a reference given as `{name, url}`.
    PostReference,
    /// Store the reference that a registry webhook names.
    AzureHook,
    /// Add a name to a category.
    AddOfficial,
    /// List the references of a category.
    ListOfficial,
    /// Remove a name from a category.
    RemoveOfficial,
    /// Render the badge of the reference stored under the key.
    Badge(String),
    /// No handler.
    NotFound,
}

/// The route that a method and a path select. Methods and paths match
/// case and all, with or without leading and trailing slashes on the path;
/// any other GET path is a badge lookup of the path without its outer slashes.
pub open spec fn routes_to(method: Seq<char>, path: Seq<char>, r: Route) -> bool {
    let p = trimmed(path);
    if method == "POST"@ && p == "api/reference"@ {
        r is PostReference
    } else if method == "POST"@ && p == "api/azurehook"@ {
        r is AzureHook
    } else if method == "POST"@ && p == "category"@ {
        r is AddOfficial
    } else if method == "GET"@ && p == "category"@ {
        r is ListOfficial
    } else if method == "DELETE"@ && p == "category"@ {
        r is RemoveOfficial
    } else if method == "GET"@ {
        r matches Route::Badge(key) && key@ == trimmed(path)
    } else {
        r is NotFound
    }
}

/// Selects the handler for a request.
pub fn route(method: &str, path: &str) -> (r: Route)
    ensures
        routes_to(method@, path@, r),
{
    let post = str_eq(method, "POST");
    let get = str_eq(method, "GET");
    let key = trim_slashes(path);
    let category = str_eq(key.as_str(), "category");
    if post && str_eq(key.as_str(), "api/reference") {
        Route::PostReference
    } else if post && str_eq(key.as_str(), "api/azurehook") {
        Route::AzureHook
    } else if post && category {
        Route::AddOfficial
    } else if get && category {
        Route::ListOfficial
    } else if str_eq(method, "DELETE") && category {
        Route::RemoveOfficial
    } else if get {
        Route::Badge(key)
    } else {
        Route::NotFound
    }
}

} // verus!
