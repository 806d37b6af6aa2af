use wallet::config::{
    access_secret, auth_required, migration_database_url, parse_port, refresh_secret, Config,
    ConfigError,
};

#[test]
fn defaults_fill_unset_values() {
    let c = Config::from_env_values(None, None, None, None).unwrap();
    assert_eq!(c.database_url, "sqlite:./wallet.db");
    assert_eq!(c.jwt_secret, "your-secret-key");
    assert_eq!(c.server_host, "127.0.0.1");
    assert_eq!(c.server_port, 9999);
}

#[test]
fn given_values_are_kept() {
    let c = Config::from_env_values(
        Some("sqlite::memory:".to_string()),
        Some("s3".to_string()),
        Some("0.0.0.0".to_string()),
        Some("8080".to_string()),
    )
    .unwrap();
    assert_eq!(c.database_url, "sqlite::memory:");
    assert_eq!(c.jwt_secret, "s3");
    assert_eq!(c.server_host, "0.0.0.0");
    assert_eq!(c.server_port, 8080);
}

#[test]
fn malformed_port_is_refused() {
    for p in ["", "+", "abc", "80a", "-1", "65536", " 80", "99999999999"] {
        let r = Config::from_env_values(None, None, None, Some(p.to_string()));
        assert_eq!(r, Err(ConfigError::InvalidPort), "port {:?}", p);
    }
}

#[test]
fn port_reads_like_std() {
    for p in ["0", "1", "+80", "65535", "00080", "9999"] {
        assert_eq!(parse_port(p), p.parse::<u16>().ok(), "port {:?}", p);
    }
    for p in ["", "+", "65536", "-0", "1_000", "٣"] {
        assert_eq!(parse_port(p), None, "port {:?}", p);
        assert_eq!(p.parse::<u16>().ok(), None);
    }
}

#[test]
fn require_auth_truthy_values() {
    assert!(auth_required(Some("true")));
    assert!(auth_required(Some("TRUE")));
    assert!(auth_required(Some("True")));
    assert!(auth_required(Some("1")));
    assert!(!auth_required(Some("false")));
    assert!(!auth_required(Some("yes")));
    assert!(!auth_required(Some("true ")));
    assert!(!auth_required(Some("")));
    assert!(!auth_required(None));
}

#[test]
fn secrets_fall_back_in_order() {
    assert_eq!(access_secret(None), "your-secret-key");
    assert_eq!(access_secret(Some("a".to_string())), "a");
    assert_eq!(refresh_secret(Some("r".to_string()), Some("a".to_string())), "r");
    assert_eq!(refresh_secret(None, Some("a".to_string())), "a");
    assert_eq!(refresh_secret(None, None), "your-secret-key");
}

#[test]
fn migration_run_targets_parent_directory_by_default() {
    assert_eq!(migration_database_url(None), "sqlite:../wallet.db");
    assert_eq!(migration_database_url(Some("sqlite::memory:".to_string())), "sqlite::memory:");
}
