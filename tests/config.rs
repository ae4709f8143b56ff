use smokeping::config::{classify_listing, conclude_write_check, is_network_issue, BucketListing, InfluxConfig, InfluxSetupError};
use smokeping::database::{database_url, sqlite_file_path};
use smokeping::routes::{delete_status, static_route, StaticRoute};
use smokeping::supervisor::targets_to_probe;
use smokeping::target::{default_probe_type, Model, TargetInput};

fn s(x: &str) -> Option<String> {
    Some(x.to_string())
}

#[test]
fn config_requires_url_and_token() {
    let e = InfluxConfig::from_env(None, s("t"), None, None).unwrap_err();
    assert_eq!(e, InfluxSetupError::ConfigError("INFLUXDB_URL environment variable not set".to_string()));
    let e = InfluxConfig::from_env(s("u"), None, None, None).unwrap_err();
    assert_eq!(e.message(), "InfluxDB configuration error: INFLUXDB_TOKEN environment variable not set");
    let c = InfluxConfig::from_env(s("http://x"), s("tok"), None, s("b")).unwrap();
    assert_eq!(c.url, "http://x");
    assert_eq!(c.token, "tok");
    assert_eq!(c.org, "smokeping");
    assert_eq!(c.bucket, "b");
    assert_eq!(InfluxSetupError::ClientError("x".to_string()).message(), "InfluxDB client error: x");
}

#[test]
fn setup_decisions() {
    assert!(is_network_issue("HTTP 503 Service Unavailable here"));
    assert!(is_network_issue("via proxy"));
    assert!(is_network_issue("tcp connect: connection refused"));
    assert!(!is_network_issue("401 unauthorized"));
    let names = vec!["a".to_string(), "smokeping".to_string()];
    assert_eq!(classify_listing(&Ok(names.clone()), "smokeping"), BucketListing::Found);
    assert_eq!(classify_listing(&Ok(names), "other"), BucketListing::Missing);
    assert_eq!(classify_listing(&Err("proxy error".to_string()), "b"), BucketListing::NetworkIssue);
    assert_eq!(classify_listing(&Err("bad token".to_string()), "b"), BucketListing::Failed);
    assert_eq!(conclude_write_check(&Ok(()), "b"), Ok(()));
    assert_eq!(conclude_write_check(&Err("connection refused".to_string()), "b"), Ok(()));
    assert_eq!(
        conclude_write_check(&Err("forbidden".to_string()), "b"),
        Err(InfluxSetupError::ClientError(
            "Failed to verify write access to bucket 'b': forbidden. Please ensure the bucket exists and the token has write permissions.".to_string()
        ))
    );
}

#[test]
fn database_paths() {
    assert_eq!(database_url(None), "sqlite::memory:");
    assert_eq!(database_url(s("sqlite://x.db")), "sqlite://x.db");
    assert_eq!(sqlite_file_path("sqlite::memory:"), None);
    assert_eq!(sqlite_file_path("postgres://h/db"), None);
    assert_eq!(sqlite_file_path("sqlite:///var/lib/a.db"), s("/var/lib/a.db"));
    assert_eq!(sqlite_file_path("sqlite://data/a.db"), s("data/a.db"));
    assert_eq!(sqlite_file_path("sqlite:a.db"), s("a.db"));
}

#[test]
fn routes_decisions() {
    assert_eq!(delete_status(1), 204);
    assert_eq!(delete_status(0), 404);
    assert_eq!(static_route("/api/nothing"), StaticRoute::ApiNotFound);
    assert_eq!(
        static_route("/assets/app.js"),
        StaticRoute::Asset { path: "assets/app.js".to_string(), content_type: "text/javascript".to_string() }
    );
    match static_route("/dashboard") {
        StaticRoute::Asset { path, content_type } => {
            assert_eq!(path, "dashboard");
            assert_eq!(content_type, "application/octet-stream");
        }
        other => panic!("unexpected {:?}", other),
    }
}

fn model(id: i32, active: bool) -> Model {
    Model {
        id,
        name: format!("n{}", id),
        host: "1.1.1.1".to_string(),
        probe_type: "icmp".to_string(),
        probe_interval_secs: 1,
        is_active: active,
        created_at_micros: 5,
    }
}

#[test]
fn supervisor_starts_active_targets() {
    let picked = targets_to_probe::<String>(Ok(vec![model(1, true), model(2, false), model(3, true)]));
    let ids: Vec<i32> = picked.iter().map(|m| m.id).collect();
    assert_eq!(ids, vec![1, 3]);
    assert!(targets_to_probe::<String>(Err("down".to_string())).is_empty());
}

#[test]
fn target_input_applies() {
    assert_eq!(default_probe_type(), "icmp");
    let input = TargetInput {
        name: "gw".to_string(),
        host: "10.0.0.1".to_string(),
        probe_type: default_probe_type(),
        probe_interval_secs: 30,
        is_active: false,
    };
    let mut m = model(9, true);
    m.apply_input(&input);
    assert_eq!(m.id, 9);
    assert_eq!(m.created_at_micros, 5);
    assert_eq!(m.name, "gw");
    assert_eq!(m.probe_interval_secs, 30);
    assert!(!m.is_active);
    let n = Model::from_input(4, &input, 77);
    assert_eq!(n.id, 4);
    assert_eq!(n.host, "10.0.0.1");
    assert_eq!(n.created_at_micros, 77);
}
