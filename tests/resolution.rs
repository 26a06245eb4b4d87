use webapps_health::{health_check_path, health_check_url, HealthCheckPath, WebAppsInfo};

fn override_of(name: &str, path: &str) -> HealthCheckPath {
    HealthCheckPath {
        web_apps_name: name.to_string(),
        path: path.to_string(),
    }
}

fn app(name: &str, host: &str, display: &str) -> WebAppsInfo {
    WebAppsInfo {
        web_apps_name: name.to_string(),
        web_apps_url: host.to_string(),
        app_name: display.to_string(),
        app_version: None,
    }
}

#[test]
fn test_health_check_path() {
    let health_check = vec![
        HealthCheckPath {
            web_apps_name: "webapp1".to_string(),
            path: "/health".to_string(),
        },
        HealthCheckPath {
            web_apps_name: "webapp2".to_string(),
            path: "/status".to_string(),
        },
    ];

    assert_eq!(
        health_check_path(health_check.clone(), "webapp1"),
        Some("/health".to_string())
    );
    assert_eq!(
        health_check_path(health_check.clone(), "webapp2"),
        Some("/status".to_string())
    );
    assert_eq!(health_check_path(health_check.clone(), "webapp3"), None);
}

#[test]
fn test_health_check_url() {
    let webapps_info = WebAppsInfo {
        web_apps_name: "webapp1".to_string(),
        web_apps_url: "example.com".to_string(),
        app_name: "テスト用アプリ1".to_string(),
        app_version: None,
    };

    let health_check_path_list = vec![
        HealthCheckPath {
            web_apps_name: "webapp1".to_string(),
            path: "/health".to_string(),
        },
        HealthCheckPath {
            web_apps_name: "webapp2".to_string(),
            path: "/status".to_string(),
        },
    ];

    assert_eq!(
        health_check_url(&webapps_info, health_check_path_list.clone()),
        "https://example.com/health".to_string()
    );

    let webapps_info = WebAppsInfo {
        web_apps_name: "webapp2".to_string(),
        web_apps_url: "example.com".to_string(),
        app_name: "テスト用アプリ2".to_string(),
        app_version: None,
    };

    assert_eq!(
        health_check_url(&webapps_info, health_check_path_list.clone()),
        "https://example.com/status".to_string()
    );

    let webapps_info = WebAppsInfo {
        web_apps_name: "webapp3".to_string(),
        web_apps_url: "example.com".to_string(),
        app_name: "テスト用アプリ3".to_string(),
        app_version: None,
    };

    assert_eq!(
        health_check_url(&webapps_info, health_check_path_list.clone()),
        "https://example.com/api/health".to_string()
    );
}

#[test]
fn first_override_wins_over_later_duplicates() {
    let list = vec![
        override_of("other", "/nope"),
        override_of("svc", "/first"),
        override_of("svc", "/second"),
    ];
    assert_eq!(health_check_path(list.clone(), "svc"), Some("/first".to_string()));
    assert_eq!(
        health_check_url(&app("svc", "svc.internal:8443", "Service"), list),
        "https://svc.internal:8443/first".to_string()
    );
}

#[test]
fn empty_override_list_uses_default_path() {
    assert_eq!(health_check_path(Vec::new(), "svc"), None);
    assert_eq!(
        health_check_url(&app("svc", "host.test", "Service"), Vec::new()),
        "https://host.test/api/health".to_string()
    );
}

#[test]
fn name_match_is_exact() {
    let list = vec![override_of("WebApp1", "/upper"), override_of("webapp", "/prefix")];
    assert_eq!(health_check_path(list.clone(), "webapp1"), None);
    assert_eq!(
        health_check_url(&app("webapp1", "example.com", "App1"), list),
        "https://example.com/api/health".to_string()
    );
}

#[test]
fn malformed_host_is_passed_through() {
    assert_eq!(
        health_check_url(&app("x", "not a host", "X"), vec![override_of("x", "/h")]),
        "https://not a host/h".to_string()
    );
}

#[test]
fn resolving_twice_gives_the_same_url() {
    let list = vec![override_of("webapp2", "/status")];
    let a = app("webapp2", "example.com", "App2");
    let mut b = app("webapp2", "example.com", "Another display name");
    b.app_version = Some("9.9".to_string());
    let first = health_check_url(&a, list.clone());
    let second = health_check_url(&a, list.clone());
    assert_eq!(first, second);
    assert_eq!(health_check_url(&b, list), first);
}

#[test]
fn end_to_end_urls() {
    let list = vec![override_of("webapp1", "/health"), override_of("webapp2", "/status")];
    let apps = vec![
        app("webapp1", "example.com", "App1"),
        app("webapp2", "example.com", "App2"),
        app("webapp3", "example.com", "App3"),
    ];
    let urls: Vec<String> = apps.iter().map(|a| health_check_url(a, list.clone())).collect();
    assert_eq!(
        urls,
        vec![
            "https://example.com/health".to_string(),
            "https://example.com/status".to_string(),
            "https://example.com/api/health".to_string(),
        ]
    );
}
