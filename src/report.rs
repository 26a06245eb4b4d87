use vstd::prelude::*;

use crate::model::WebAppsInfo;
use crate::resolve::string_opt_view;
use crate::version::{get_version_from_json, json_string_member};

verus! {

/// What came back from probing one application.
pub enum ProbeOutcome {
    /// The request completed; `body` is the response body, whatever the
    /// HTTP status.
    Success { body: String },
    /// The request failed in transport; `cause` says why.
    Failure { cause: String },
}

/// `app` with its version set to `version`, its identity untouched.
pub open spec fn with_version(app: WebAppsInfo, version: Option<String>) -> WebAppsInfo {
    WebAppsInfo { app_version: version, ..app }
}

/// The report for `apps` given the version found for each of them, row `i`
/// belonging to `apps[i]`.
pub open spec fn report(apps: Seq<WebAppsInfo>, versions: Seq<Option<String>>) -> Seq<WebAppsInfo> {
    Seq::new(apps.len(), |i: int| with_version(apps[i], versions[i]))
}

/// The version learnt from one probe: absent after a transport failure,
/// else what the body reports.
pub fn probed_version(outcome: &ProbeOutcome) -> (r: Option<String>)
    ensures
        match *outcome {
            ProbeOutcome::Success { body } => string_opt_view(r) == json_string_member(body@, "version"@),
            ProbeOutcome::Failure { .. } => r is None,
        },
{
    match outcome {
        ProbeOutcome::Success { body } => get_version_from_json(body.as_str()),
        ProbeOutcome::Failure { .. } => None,
    }
}

fn copy_version(v: &Option<String>) -> (r: Option<String>)
    ensures
        r == *v,
{
    match v {
        Some(s) => Some(s.clone()),
        None => None,
    }
}

/// Joins each application with the version found for it, by position: row
/// `i` of the result is `apps[i]` carrying `versions[i]`, so the report
/// follows the order of `apps` whatever order the probes finished in.
pub fn attach_versions(apps: Vec<WebAppsInfo>, versions: Vec<Option<String>>) -> (r: Vec<WebAppsInfo>)
    requires
        apps@.len() == versions@.len(),
    ensures
        r@ == report(apps@, versions@),
        r@.len() == apps@.len(),
        forall|i: int|
            0 <= i < apps@.len() ==> {
                &&& #[trigger] r@[i].web_apps_name == apps@[i].web_apps_name
                &&& r@[i].web_apps_url == apps@[i].web_apps_url
                &&& r@[i].app_name == apps@[i].app_name
                &&& r@[i].app_version == versions@[i]
            },
{
    let mut rows: Vec<WebAppsInfo> = Vec::new();
    let mut i: usize = 0;
    while i < apps.len()
        invariant
            i <= apps@.len(),
            apps@.len() == versions@.len(),
            rows@ =~= report(apps@, versions@).subrange(0, i as int),
        decreases apps.len() - i,
    {
        let app = &apps[i];
        let row = WebAppsInfo {
            web_apps_name: app.web_apps_name.clone(),
            web_apps_url: app.web_apps_url.clone(),
            app_name: app.app_name.clone(),
            app_version: copy_version(&versions[i]),
        };
        rows.push(row);
        i = i + 1;
    }
    rows
}

/// Every application gets exactly one row, in input order, with its name,
/// host and display name as they were.
pub proof fn lemma_report_keeps_applications(apps: Seq<WebAppsInfo>, versions: Seq<Option<String>>)
    requires
        apps.len() == versions.len(),
    ensures
        report(apps, versions).len() == apps.len(),
        forall|i: int|
            0 <= i < apps.len() ==> {
                &&& #[trigger] report(apps, versions)[i].web_apps_name == apps[i].web_apps_name
                &&& report(apps, versions)[i].web_apps_url == apps[i].web_apps_url
                &&& report(apps, versions)[i].app_name == apps[i].app_name
            },
{
}

/// A failed probe of application `x`, which yields no version (see
/// `probed_version`), leaves its row without a version and changes no other
/// row: every other application keeps the row it would have
/// had, and none is dropped.
pub proof fn lemma_failure_isolation(apps: Seq<WebAppsInfo>, versions: Seq<Option<String>>, x: int)
    requires
        apps.len() == versions.len(),
        0 <= x < apps.len(),
    ensures
        ({
            let failed = versions.update(x, None);
            &&& report(apps, failed).len() == report(apps, versions).len()
            &&& report(apps, failed)[x].app_version is None
            &&& report(apps, failed)[x].web_apps_name == apps[x].web_apps_name
            &&& forall|i: int| 0 <= i < apps.len() && i != x ==> #[trigger] report(apps, failed)[i] == report(apps, versions)[i]
        }),
{
}

} // verus!
