//! What the three orchestration patterns — enumerate-all, targeted-delete
//! and bulk-delete — decide and assemble. The filesystem walking is the
//! driver's; every lookup, classification and aggregation step is here.

use vstd::prelude::*;
use vstd::string::*;
use crate::errors::AccessError;
use crate::registry::{BrowserDescriptor, Browsers, find_browser};
use crate::store::Passwords;

verus! {

/// One profile's enumerated credentials.
#[derive(Debug)]
pub struct ProfileData {
    pub profile_name: String,
    pub passwords: Vec<Passwords>,
}

/// One browser's enumerated profiles.
#[derive(Debug)]
pub struct BrowserData {
    pub browser: String,
    pub profiles: Vec<ProfileData>,
}

/// Pick the registry entry a targeted operation names. This is a pure
/// lookup over registry data: an unknown browser name fails with
/// `BrowserNotFound` here, before any filesystem access occurs.
pub fn select_browser(browsers: &Vec<BrowserDescriptor>, browser_name: &str) -> (r: Result<
    BrowserDescriptor,
    AccessError,
>)
    ensures
        r is Ok <==> exists|i: int|
            0 <= i < browsers@.len() && browsers@[i].name@ == browser_name@,
        r matches Ok(d) ==> exists|i: int|
            {
                &&& 0 <= i < browsers@.len()
                &&& browsers@[i].name@ == browser_name@
                &&& forall|j: int| 0 <= j < i ==> browsers@[j].name@ != browser_name@
                &&& d.name@ == browsers@[i].name@
                &&& d.relative_path@ == browsers@[i].relative_path@
                &&& d.root_kind == browsers@[i].root_kind
                &&& d.stores_credentials_per_profile == browsers@[i].stores_credentials_per_profile
            },
        r matches Err(e) ==> (e matches AccessError::BrowserNotFound { browser }
            && browser@ == browser_name@ && forall|j: int|
            0 <= j < browsers@.len() ==> browsers@[j].name@ != browser_name@),
{
    match find_browser(browsers, browser_name) {
        Some(i) => {
            let d = browsers[i].duplicate();
            proof {
                assert(0 <= i < browsers@.len() && browsers@[i as int].name@ == browser_name@);
            }
            Ok(d)
        },
        None => Err(AccessError::BrowserNotFound { browser: browser_name.to_owned() }),
    }
}

/// The browser's install directory: its registry-relative path joined to
/// the environment-resolved root.
pub fn install_path(resolved: &Browsers, separator: &str) -> (r: String)
    ensures
        r@ == resolved.root@ + separator@ + resolved.path@,
{
    resolved.root.clone().concat(separator).concat(resolved.path.as_str())
}

/// Assemble one profile's slice of the enumerate-all report.
pub fn profile_report(profile_name: &str, passwords: Vec<Passwords>) -> (r: ProfileData)
    ensures
        r.profile_name@ == profile_name@,
        r.passwords == passwords,
{
    ProfileData { profile_name: profile_name.to_owned(), passwords }
}

/// Assemble one browser's slice of the enumerate-all report.
pub fn browser_report(browser_name: &str, profiles: Vec<ProfileData>) -> (r: BrowserData)
    ensures
        r.browser@ == browser_name@,
        r.profiles == profiles,
{
    BrowserData { browser: browser_name.to_owned(), profiles }
}

} // verus!
