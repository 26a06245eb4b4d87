//! Liveness probing of a fleet of web applications: health-check URL
//! resolution, version extraction from probe responses, and the
//! order-preserving assembly of the per-application report.
mod model;
mod report;
mod resolve;
mod version;

pub use model::{HealthCheckPath, WebAppsInfo, DEFAULT_HEALTH_CHECK_PATH};
pub use resolve::{
    effective_path, health_check_path, health_check_url, lemma_default_without_override, lemma_first_override_wins,
    lemma_resolution_repeatable, override_path, path_from, resolved_url, string_opt_view,
};
pub use report::{
    attach_versions, lemma_failure_isolation, lemma_report_keeps_applications, probed_version,
    report, with_version, ProbeOutcome,
};
pub use version::{get_version_from_json, json_string_member};
