use vstd::prelude::*;

use crate::model::{HealthCheckPath, WebAppsInfo, DEFAULT_HEALTH_CHECK_PATH};

verus! {

/// The path of the first override at index `i` or later whose application
/// name is `name`, if there is one.
pub open spec fn path_from(list: Seq<HealthCheckPath>, name: Seq<char>, i: int) -> Option<Seq<char>>
    decreases list.len() - i,
{
    if i < 0 || i >= list.len() {
        None
    } else if list[i].web_apps_name@ == name {
        Some(list[i].path@)
    } else {
        path_from(list, name, i + 1)
    }
}

/// The path of the first override in `list` for the application `name`.
pub open spec fn override_path(list: Seq<HealthCheckPath>, name: Seq<char>) -> Option<Seq<char>> {
    path_from(list, name, 0)
}

/// The path probed on the application `name`: its first override, or the
/// default path.
pub open spec fn effective_path(list: Seq<HealthCheckPath>, name: Seq<char>) -> Seq<char> {
    match override_path(list, name) {
        Some(p) => p,
        None => DEFAULT_HEALTH_CHECK_PATH@,
    }
}

/// The full health-check URL of `info`: `https://`, its host, its path.
pub open spec fn resolved_url(info: WebAppsInfo, list: Seq<HealthCheckPath>) -> Seq<char> {
    "https://"@ + info.web_apps_url@ + effective_path(list, info.web_apps_name@)
}

/// An optional string seen as optional text.
pub open spec fn string_opt_view(o: Option<String>) -> Option<Seq<char>> {
    match o {
        Some(s) => Some(s@),
        None => None,
    }
}

proof fn lemma_path_from_reaches(list: Seq<HealthCheckPath>, name: Seq<char>, k: int, i: int)
    requires
        0 <= k <= i < list.len(),
        list[i].web_apps_name@ == name,
        forall|j: int| k <= j < i ==> list[j].web_apps_name@ != name,
    ensures
        path_from(list, name, k) == Some(list[i].path@),
    decreases i - k,
{
    if k < i {
        lemma_path_from_reaches(list, name, k + 1, i);
    }
}

proof fn lemma_path_from_absent(list: Seq<HealthCheckPath>, name: Seq<char>, k: int)
    requires
        0 <= k <= list.len(),
        forall|j: int| k <= j < list.len() ==> list[j].web_apps_name@ != name,
    ensures
        path_from(list, name, k) is None,
    decreases list.len() - k,
{
    if k < list.len() {
        lemma_path_from_absent(list, name, k + 1);
    }
}

/// When entry `i` is the first override naming the application, the path
/// probed is that entry's path, whatever later entries for the same name say.
pub proof fn lemma_first_override_wins(list: Seq<HealthCheckPath>, name: Seq<char>, i: int)
    requires
        0 <= i < list.len(),
        list[i].web_apps_name@ == name,
        forall|j: int| 0 <= j < i ==> list[j].web_apps_name@ != name,
    ensures
        effective_path(list, name) == list[i].path@,
{
    lemma_path_from_reaches(list, name, 0, i);
}

/// When no override names the application, the path probed is the default.
pub proof fn lemma_default_without_override(list: Seq<HealthCheckPath>, name: Seq<char>)
    requires
        forall|j: int| 0 <= j < list.len() ==> list[j].web_apps_name@ != name,
    ensures
        effective_path(list, name) == DEFAULT_HEALTH_CHECK_PATH@,
{
    lemma_path_from_absent(list, name, 0);
}

/// Resolution is a function of the application's name and host and of the
/// override list: resolving the same pair twice gives the same URL, and the
/// display name and version play no part.
pub proof fn lemma_resolution_repeatable(a: WebAppsInfo, b: WebAppsInfo, list: Seq<HealthCheckPath>)
    requires
        a.web_apps_name@ == b.web_apps_name@,
        a.web_apps_url@ == b.web_apps_url@,
    ensures
        resolved_url(a, list) == resolved_url(b, list),
{
}

/// Finds the first override for `name` by a scan from the front.
fn find_override(list: &Vec<HealthCheckPath>, name: &str) -> (r: Option<String>)
    ensures
        string_opt_view(r) == override_path(list@, name@),
{
    let wanted = String::from_str(name);
    let mut i: usize = 0;
    while i < list.len()
        invariant
            i <= list@.len(),
            wanted@ == name@,
            path_from(list@, name@, 0) == path_from(list@, name@, i as int),
        decreases list.len() - i,
    {
        if list[i].web_apps_name == wanted {
            return Some(list[i].path.clone());
        }
        i = i + 1;
    }
    None
}

/// The path of the first override for the application `webapps_name`.
pub fn health_check_path(health_check: Vec<HealthCheckPath>, webapps_name: &str) -> (r: Option<String>)
    ensures
        string_opt_view(r) == override_path(health_check@, webapps_name@),
{
    find_override(&health_check, webapps_name)
}

/// Builds the URL of `info` from `list` without taking ownership of it.
fn resolve_url(info: &WebAppsInfo, list: &Vec<HealthCheckPath>) -> (r: String)
    ensures
        r@ == resolved_url(*info, list@),
{
    let path = match find_override(list, info.web_apps_name.as_str()) {
        Some(p) => p,
        None => String::from_str(DEFAULT_HEALTH_CHECK_PATH),
    };
    let mut url = String::from_str("https://");
    url.append(info.web_apps_url.as_str());
    url.append(path.as_str());
    url
}

/// The health-check URL of `webapps_info`: `https://`, its host, then the
/// path of its first override in `health_check_path_list`, or the default
/// path when it has none.
pub fn health_check_url(webapps_info: &WebAppsInfo, health_check_path_list: Vec<HealthCheckPath>) -> (r: String)
    ensures
        r@ == resolved_url(*webapps_info, health_check_path_list@),
{
    resolve_url(webapps_info, &health_check_path_list)
}

} // verus!
