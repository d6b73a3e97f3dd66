//! Quit detection: Swinsian posts nothing when it quits, so the system's
//! app-termination notification is watched instead.

use vstd::prelude::*;
use crate::text::{opt_str, str_eq};

verus! {

/// Swinsian's bundle identifier.
pub const SWINSIAN_BUNDLE_ID: &'static str = "com.swinsian.Swinsian";

/// Swinsian's display name.
pub const SWINSIAN_APP_NAME: &'static str = "Swinsian";

/// Observes app terminations and reports `Stopped` when Swinsian quits.
pub struct WorkspaceWatcher;

/// Whether a terminated app with this bundle identifier and display name
/// (either may be unknown) is Swinsian: either one matches.
pub open spec fn is_swinsian(bundle_id: Option<Seq<char>>, name: Option<Seq<char>>) -> bool {
    bundle_id == Some(SWINSIAN_BUNDLE_ID@) || name == Some(SWINSIAN_APP_NAME@)
}

/// Recognizes Swinsian among terminated apps (see [`is_swinsian`]).
pub fn terminated_app_is_swinsian(bundle_id: Option<&str>, name: Option<&str>) -> (r: bool)
    ensures
        r == is_swinsian(opt_str(bundle_id), opt_str(name)),
{
    let by_bundle = match bundle_id {
        Some(id) => str_eq(id, SWINSIAN_BUNDLE_ID),
        None => false,
    };
    let by_name = match name {
        Some(n) => str_eq(n, SWINSIAN_APP_NAME),
        None => false,
    };
    by_bundle || by_name
}

/// An app that quits with Swinsian's bundle identifier is Swinsian,
/// whatever its name; one named Swinsian is Swinsian, whatever its bundle
/// identifier; an app with neither is not. So knowing more about an app
/// that matches never makes it stop matching.
pub proof fn law_either_identity_recognizes_swinsian(
    bundle_id: Option<Seq<char>>,
    name: Option<Seq<char>>,
)
    ensures
        is_swinsian(Some(SWINSIAN_BUNDLE_ID@), name),
        is_swinsian(bundle_id, Some(SWINSIAN_APP_NAME@)),
        bundle_id != Some(SWINSIAN_BUNDLE_ID@) && name != Some(SWINSIAN_APP_NAME@) ==> !is_swinsian(
            bundle_id,
            name,
        ),
        is_swinsian(bundle_id, None) ==> is_swinsian(bundle_id, name),
        is_swinsian(None, name) ==> is_swinsian(bundle_id, name),
{
}

} // verus!
