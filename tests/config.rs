use otel_journal_gatewayd_forwarder::config::{
    parse_duration, Config, ConfigError, EnvSettings, FileSettings, Source,
};
use std::time::Duration;

fn source(name: &str, url: &str) -> Source {
    Source { name: name.to_string(), url: url.to_string(), units: Vec::new(), labels: Vec::new() }
}

fn config(endpoint: &str, sources: Vec<Source>) -> Config {
    Config {
        otlp_endpoint: endpoint.to_string(),
        poll_interval: Duration::from_secs(5),
        batch_size: 500,
        cursor_dir: "/tmp".to_string(),
        sources,
    }
}

#[test]
fn test_parse_duration() {
    assert_eq!(parse_duration("5s").unwrap(), Duration::from_secs(5));
    assert_eq!(parse_duration("10m").unwrap(), Duration::from_secs(600));
    assert_eq!(parse_duration("1h").unwrap(), Duration::from_secs(3600));
}

#[test]
fn bad_duration_is_an_invalid_poll_interval() {
    assert!(matches!(
        parse_duration("soon"),
        Err(ConfigError::InvalidValue { field: "poll_interval", .. })
    ));
}

#[test]
fn valid_configuration_passes() {
    let c = config("https://collector:4318", vec![source("a", "http://a:19531")]);
    assert!(c.validate().is_ok());
}

#[test]
fn endpoint_must_be_http() {
    let c = config("collector:4318", vec![source("a", "http://a:19531")]);
    assert!(matches!(c.validate(), Err(ConfigError::InvalidValue { field: "otlp_endpoint", .. })));
}

#[test]
fn sources_need_a_name_and_http_url() {
    let c = config("http://c", vec![source("a", "http://a"), source("", "http://b")]);
    assert!(matches!(c.validate(), Err(ConfigError::InvalidValue { field: "source.name", .. })));
    let c = config("http://c", vec![source("b", "ftp://b")]);
    match c.validate() {
        Err(ConfigError::InvalidValue { field: "source.url", message }) => {
            assert_eq!(message, "invalid URL for source 'b': must be HTTP(S)")
        }
        other => panic!("unexpected {:?}", other),
    }
}

#[test]
fn environment_overrides_file_settings() {
    let file = FileSettings {
        otlp_endpoint: Some("http://localhost:4318".to_string()),
        poll_interval: Some("10s".to_string()),
        batch_size: Some(1000),
        cursor_dir: None,
        sources: vec![source("test-host", "http://localhost:19531")],
    };
    let env = EnvSettings {
        otlp_endpoint: Some("http://other:4318".to_string()),
        batch_size: Some("20".to_string()),
        ..EnvSettings::default()
    };
    let c = Config::from_settings(file, env).unwrap();
    assert_eq!(c.otlp_endpoint, "http://other:4318");
    assert_eq!(c.poll_interval, Duration::from_secs(10));
    assert_eq!(c.batch_size, 20);
    assert_eq!(c.cursor_dir, "/var/lib/otel-journal-gatewayd-forwarder");
    assert_eq!(c.sources.len(), 1);
}

#[test]
fn file_settings_and_defaults() {
    let file = FileSettings {
        otlp_endpoint: Some("http://localhost:4318".to_string()),
        sources: vec![source("test-host", "http://localhost:19531")],
        ..FileSettings::default()
    };
    let c = Config::from_settings(file, EnvSettings::default()).unwrap();
    assert_eq!(c.poll_interval, Duration::from_secs(5));
    assert_eq!(c.batch_size, 500);
}

#[test]
fn missing_endpoint_bad_batch_and_no_sources_are_refused() {
    let r = Config::from_settings(FileSettings::default(), EnvSettings::default());
    assert!(matches!(r, Err(ConfigError::MissingField("otlp_endpoint"))));
    let file = FileSettings { otlp_endpoint: Some("http://c".to_string()), ..FileSettings::default() };
    assert!(matches!(Config::from_settings(file, EnvSettings::default()), Err(ConfigError::NoSources)));
    let file = FileSettings {
        otlp_endpoint: Some("http://c".to_string()),
        sources: vec![source("a", "http://a")],
        ..FileSettings::default()
    };
    let env = EnvSettings { batch_size: Some("many".to_string()), ..EnvSettings::default() };
    assert!(matches!(
        Config::from_settings(file, env),
        Err(ConfigError::InvalidValue { field: "batch_size", .. })
    ));
}
