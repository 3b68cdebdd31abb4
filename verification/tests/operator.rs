use trp_proxy::operator::config::{ConfigError, Setting};
use trp_proxy::operator::metrics::{
    is_failure, query_url, usage_for, usage_from_captures, usage_query, Sample, Usage,
    CONSUMER_PATTERN, FEATURE,
};
use trp_proxy::text::push_signed_decimal;

fn sample(consumer: Option<&str>, network: Option<&str>, tier: Option<&str>) -> Sample {
    Sample {
        consumer: consumer.map(str::to_string),
        network: network.map(str::to_string),
        tier: tier.map(str::to_string),
    }
}

fn usage(project: &str, resource_name: &str, tier: &str) -> Usage {
    Usage {
        project: project.to_string(),
        resource_name: resource_name.to_string(),
        tier: tier.to_string(),
    }
}

#[test]
fn usage_query_formula() {
    assert_eq!(
        usage_query(30, 1700000000),
        "sum by (consumer, network, tier) (increase(trp_proxy_http_total_request{status_code!~\"401|429|503\"}[30s] @ 1700000000))"
    );
    assert_eq!(
        usage_query(0, -5),
        "sum by (consumer, network, tier) (increase(trp_proxy_http_total_request{status_code!~\"401|429|503\"}[0s] @ -5))"
    );
}

#[test]
fn usage_query_agrees_with_formatting() {
    for (window, at) in [(1i64, 2i64), (-1, 0), (i64::MAX, i64::MIN), (60, 1735689600)] {
        let expected = format!(
            "sum by (consumer, network, tier) (increase(trp_proxy_http_total_request{{status_code!~\"401|429|503\"}}[{window}s] @ {at}))"
        );
        assert_eq!(usage_query(window, at), expected);
    }
}

#[test]
fn signed_decimal_writes_sign_and_digits() {
    for n in [0i64, 1, -1, 9, -10, 12345, -12345, i64::MAX, i64::MIN, i64::MIN + 1] {
        let mut out = String::from("n=");
        push_signed_decimal(&mut out, n);
        assert_eq!(out, format!("n={n}"));
    }
}

#[test]
fn query_url_formula() {
    assert_eq!(query_url("http://prometheus/api/v1", "up"), "http://prometheus/api/v1/query?query=up");
    assert_eq!(query_url("", ""), "/query?query=");
}

#[test]
fn failure_statuses_are_client_and_server_errors() {
    assert!(!is_failure(200));
    assert!(!is_failure(302));
    assert!(!is_failure(399));
    assert!(is_failure(400));
    assert!(is_failure(404));
    assert!(is_failure(499));
    assert!(is_failure(500));
    assert!(is_failure(599));
    assert!(!is_failure(600));
    assert!(!is_failure(0));
}

#[test]
fn usage_is_billed_to_project_and_port() {
    assert_eq!(
        usage_for(&sample(Some("prj-acme.port-a"), Some("mainnet"), Some("free"))),
        Some(usage("acme", "port-a", "free"))
    );
    // The project runs up to the last dot that something follows.
    assert_eq!(
        usage_for(&sample(Some("prj-acme.eu.port-a"), Some("mainnet"), Some("free"))),
        Some(usage("acme.eu", "port-a", "free"))
    );
    assert_eq!(
        usage_for(&sample(Some("ns/prj-acme.port-a"), Some("mainnet"), Some("paid"))),
        Some(usage("acme", "port-a", "paid"))
    );
}

#[test]
fn usage_of_other_labels_is_billed_to_nobody() {
    assert_eq!(usage_for(&sample(Some("acme.port-a"), Some("mainnet"), Some("free"))), None);
    assert_eq!(usage_for(&sample(Some("prj-acme"), Some("mainnet"), Some("free"))), None);
    assert_eq!(usage_for(&sample(Some("prj-.port-a"), Some("mainnet"), Some("free"))), None);
    assert_eq!(usage_for(&sample(Some("prj-acme."), Some("mainnet"), Some("free"))), None);
    assert_eq!(usage_for(&sample(Some("."), Some("mainnet"), Some("free"))), None);
}

#[test]
fn usage_without_a_label_is_billed_to_nobody() {
    assert_eq!(usage_for(&sample(None, Some("mainnet"), Some("free"))), None);
    assert_eq!(usage_for(&sample(Some("prj-acme.port-a"), None, Some("free"))), None);
    assert_eq!(usage_for(&sample(Some("prj-acme.port-a"), Some("mainnet"), None)), None);
    assert_eq!(usage_for(&sample(None, None, None)), None);
}

#[test]
fn usage_from_captures_reads_groups_one_and_two() {
    let groups = Some(vec![
        Some("prj-acme.port-a".to_string()),
        Some("acme".to_string()),
        Some("port-a".to_string()),
    ]);
    assert_eq!(usage_from_captures(&groups, "free"), Some(usage("acme", "port-a", "free")));
    assert_eq!(usage_from_captures(&None, "free"), None);
    assert_eq!(usage_from_captures(&Some(vec![Some("x".to_string())]), "free"), None);
    let absent = Some(vec![Some("x".to_string()), None, Some("b".to_string())]);
    assert_eq!(usage_from_captures(&absent, "free"), None);
    let absent = Some(vec![Some("x".to_string()), Some("a".to_string()), None]);
    assert_eq!(usage_from_captures(&absent, "free"), None);
}

#[test]
fn constants_of_the_collector() {
    assert_eq!(FEATURE, "TrpPort");
    assert_eq!(CONSUMER_PATTERN, r"prj-(.+)\.(.+)");
}

#[test]
fn operator_config_error_messages() {
    assert_eq!(ConfigError::Missing(Setting::MetricsDelay).message(), "METRICS_DELAY must be set");
    assert_eq!(ConfigError::Invalid(Setting::MetricsDelay).message(), "METRICS_DELAY must be a number");
    assert_eq!(ConfigError::Missing(Setting::PrometheusUrl).message(), "PROMETHEUS_URL must be set");
    assert_eq!(ConfigError::Missing(Setting::PrometheusUrl).setting(), Setting::PrometheusUrl);
    assert_eq!(ConfigError::Invalid(Setting::DnsZone).setting(), Setting::DnsZone);
}
