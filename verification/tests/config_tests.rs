use session_auth::config::app_config::{AppConfig, Environment};

fn full() -> Environment {
    Environment {
        jwt_secret: Some("0123456789abcdef0123456789abcdef".to_string()),
        mongo_uri: Some("mongodb://db:27017".to_string()),
        mongo_db: Some("auth".to_string()),
        redis_uri: Some("redis://cache:6379".to_string()),
        jwt_exp_hours: Some("48".to_string()),
        app_host: Some("127.0.0.1".to_string()),
        app_port: Some("9090".to_string()),
        ssl_cert_path: Some("/etc/ssl/cert.pem".to_string()),
        ssl_key_path: Some("/etc/ssl/key.pem".to_string()),
        ssl_cert_exists: true,
        ssl_key_exists: true,
    }
}

fn refusal(env: &Environment) -> String {
    AppConfig::from_env(env).unwrap_err()
}

#[test]
fn full_environment_gives_its_settings() {
    let cfg = AppConfig::from_env(&full()).unwrap();
    assert_eq!(
        cfg,
        AppConfig {
            mongo_uri: "mongodb://db:27017".to_string(),
            mongo_db: "auth".to_string(),
            redis_uri: "redis://cache:6379".to_string(),
            jwt_secret: "0123456789abcdef0123456789abcdef".to_string(),
            jwt_exp_hours: 48,
            host: "127.0.0.1".to_string(),
            port: 9090,
            ssl_cert_path: Some("/etc/ssl/cert.pem".to_string()),
            ssl_key_path: Some("/etc/ssl/key.pem".to_string()),
        }
    );
}

#[test]
fn missing_optional_values_take_their_defaults() {
    let env = Environment {
        jwt_exp_hours: None,
        app_host: None,
        app_port: None,
        ssl_cert_path: None,
        ssl_key_path: None,
        ssl_cert_exists: false,
        ssl_key_exists: false,
        ..full()
    };
    let cfg = AppConfig::from_env(&env).unwrap();
    assert_eq!(cfg.jwt_exp_hours, 24);
    assert_eq!(cfg.host, "0.0.0.0");
    assert_eq!(cfg.port, 8080);
    assert_eq!(cfg.ssl_cert_path, None);
    assert_eq!(cfg.ssl_key_path, None);
}

#[test]
fn secret_is_required() {
    let env = Environment { jwt_secret: None, ..full() };
    assert_eq!(refusal(&env), "JWT_SECRET is required");
}

#[test]
fn secret_of_31_bytes_is_too_short_and_32_are_enough() {
    let short = Environment { jwt_secret: Some("a".repeat(31)), ..full() };
    assert_eq!(refusal(&short), "JWT_SECRET must be at least 32 characters");
    let enough = Environment { jwt_secret: Some("a".repeat(32)), ..full() };
    assert!(AppConfig::from_env(&enough).is_ok());
}

#[test]
fn secret_length_is_counted_in_bytes() {
    let env = Environment { jwt_secret: Some("é".repeat(16)), ..full() };
    assert!(AppConfig::from_env(&env).is_ok());
    let env = Environment { jwt_secret: Some("é".repeat(15)), ..full() };
    assert_eq!(refusal(&env), "JWT_SECRET must be at least 32 characters");
}

#[test]
fn store_addresses_are_required() {
    assert_eq!(refusal(&Environment { mongo_uri: None, ..full() }), "MONGO_URI is required");
    assert_eq!(refusal(&Environment { mongo_db: None, ..full() }), "MONGO_DB is required");
    assert_eq!(refusal(&Environment { redis_uri: None, ..full() }), "REDIS_URI is required");
}

#[test]
fn lifetime_must_be_a_number() {
    for text in ["", "abc", "1.5", " 24", "24h", "9223372036854775808"] {
        let env = Environment { jwt_exp_hours: Some(text.to_string()), ..full() };
        assert_eq!(refusal(&env), "JWT_EXP_HOURS must be a valid number", "{:?}", text);
    }
}

#[test]
fn lifetime_must_be_positive() {
    for text in ["0", "-1", "-24"] {
        let env = Environment { jwt_exp_hours: Some(text.to_string()), ..full() };
        assert_eq!(refusal(&env), "JWT_EXP_HOURS must be positive", "{:?}", text);
    }
    let env = Environment { jwt_exp_hours: Some("+1".to_string()), ..full() };
    assert_eq!(AppConfig::from_env(&env).unwrap().jwt_exp_hours, 1);
}

#[test]
fn port_must_be_a_port_number() {
    for text in ["", "http", "65536", "-1", "80 "] {
        let env = Environment { app_port: Some(text.to_string()), ..full() };
        assert_eq!(refusal(&env), "APP_PORT must be a valid port number", "{:?}", text);
    }
    let env = Environment { app_port: Some("65535".to_string()), ..full() };
    assert_eq!(AppConfig::from_env(&env).unwrap().port, 65535);
}

#[test]
fn certificate_files_must_exist_where_they_are_named() {
    let env = Environment { ssl_cert_exists: false, ..full() };
    assert_eq!(refusal(&env), "SSL certificate file not found: /etc/ssl/cert.pem");
    let env = Environment { ssl_key_exists: false, ..full() };
    assert_eq!(refusal(&env), "SSL key file not found: /etc/ssl/key.pem");
    let env = Environment { ssl_cert_path: None, ssl_cert_exists: false, ..full() };
    assert!(AppConfig::from_env(&env).is_ok());
}

#[test]
fn first_failing_check_is_the_one_reported() {
    let env = Environment {
        jwt_secret: Some("short".to_string()),
        mongo_uri: None,
        jwt_exp_hours: Some("x".to_string()),
        ..full()
    };
    assert_eq!(refusal(&env), "JWT_SECRET must be at least 32 characters");
    let env = Environment {
        jwt_exp_hours: Some("0".to_string()),
        app_port: Some("x".to_string()),
        ssl_cert_exists: false,
        ..full()
    };
    assert_eq!(refusal(&env), "JWT_EXP_HOURS must be positive");
}

#[test]
fn settings_follow_from_what_the_numbers_were_read_as() {
    let env = full();
    assert_eq!(AppConfig::from_parsed(&env, Some(7), Some(1)).unwrap().jwt_exp_hours, 7);
    assert_eq!(AppConfig::from_parsed(&env, Some(7), Some(1)).unwrap().port, 1);
    assert_eq!(
        AppConfig::from_parsed(&env, None, Some(1)).unwrap_err(),
        "JWT_EXP_HOURS must be a valid number"
    );
    assert_eq!(
        AppConfig::from_parsed(&env, Some(1), None).unwrap_err(),
        "APP_PORT must be a valid port number"
    );
}
