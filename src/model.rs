use vstd::prelude::*;

verus! {

/// The path probed on an application that has no override of its own.
pub const DEFAULT_HEALTH_CHECK_PATH: &'static str = "/api/health";

/// One web application of the fleet.
///
/// `app_version` is absent until the application has been probed, and stays
/// absent when the probe or the version extraction fails.
#[derive(Clone, Debug)]
pub struct WebAppsInfo {
    /// Identity of the application; unique within a run.
    pub web_apps_name: String,
    /// Host (authority) of the application, without a scheme.
    pub web_apps_url: String,
    /// Human-readable name; informational only.
    pub app_name: String,
    /// Version the application reported about itself, if any.
    pub app_version: Option<String>,
}

/// A health-check path that replaces the default for one application.
#[derive(Clone, Debug)]
pub struct HealthCheckPath {
    /// Name of the application this override applies to (exact match).
    pub web_apps_name: String,
    /// The path to probe, beginning with `/`.
    pub path: String,
}

} // verus!
