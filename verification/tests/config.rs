use auth_core::config::{AppConfig, ConfigSource};

fn full() -> ConfigSource {
    ConfigSource {
        server_address: Some("0.0.0.0".to_string()),
        server_port: Some("9000".to_string()),
        database_url: Some("postgres://db/app".to_string()),
        jwt_secret: Some("secret".to_string()),
        jwt_access_expiration_min: Some("5".to_string()),
        jwt_refresh_expiration_days: Some("30".to_string()),
        resend_api_key: Some("re_key".to_string()),
        app_url: Some("https://app.example".to_string()),
        email_from: Some("noreply@app.example".to_string()),
    }
}

fn minimal() -> ConfigSource {
    ConfigSource {
        server_address: None,
        server_port: None,
        database_url: Some("postgres://db/app".to_string()),
        jwt_secret: Some("secret".to_string()),
        jwt_access_expiration_min: None,
        jwt_refresh_expiration_days: None,
        resend_api_key: Some("re_key".to_string()),
        app_url: None,
        email_from: None,
    }
}

#[test]
fn every_value_is_taken_where_it_is_set() {
    assert_eq!(
        AppConfig::from_source(full()),
        Ok(AppConfig {
            server_address: "0.0.0.0".to_string(),
            server_port: 9000,
            database_url: "postgres://db/app".to_string(),
            jwt_secret: "secret".to_string(),
            jwt_access_expiration_min: 5,
            jwt_refresh_expiration_days: 30,
            resend_api_key: "re_key".to_string(),
            app_url: "https://app.example".to_string(),
            email_from: "noreply@app.example".to_string(),
        })
    );
}

#[test]
fn defaults_stand_in_for_what_is_not_set() {
    assert_eq!(
        AppConfig::from_source(minimal()),
        Ok(AppConfig {
            server_address: "127.0.0.1".to_string(),
            server_port: 8080,
            database_url: "postgres://db/app".to_string(),
            jwt_secret: "secret".to_string(),
            jwt_access_expiration_min: 15,
            jwt_refresh_expiration_days: 7,
            resend_api_key: "re_key".to_string(),
            app_url: "http://localhost:3000".to_string(),
            email_from: "onboarding@resend.dev".to_string(),
        })
    );
}

#[test]
fn what_must_be_set_is_asked_for() {
    let complaint = |source: ConfigSource| AppConfig::from_source(source).unwrap_err();
    assert_eq!(complaint(ConfigSource { database_url: None, ..full() }), "DATABASE_URL must be set");
    assert_eq!(complaint(ConfigSource { jwt_secret: None, ..full() }), "JWT_SECRET must be set");
    assert_eq!(complaint(ConfigSource { resend_api_key: None, ..full() }), "RESEND_API_KEY must be set");
}

#[test]
fn numbers_must_be_numbers() {
    let complaint = |source: ConfigSource| AppConfig::from_source(source).unwrap_err();
    for port in ["", "http", "65536", "-1", "80 "] {
        assert_eq!(
            complaint(ConfigSource { server_port: Some(port.to_string()), ..full() }),
            "SERVER_PORT must be a valid u16"
        );
    }
    assert_eq!(
        complaint(ConfigSource { jwt_access_expiration_min: Some("soon".to_string()), ..full() }),
        "JWT_ACCESS_EXPIRATION_MIN must be a valid number"
    );
    assert_eq!(
        complaint(ConfigSource {
            jwt_refresh_expiration_days: Some("9223372036854775808".to_string()),
            ..full()
        }),
        "JWT_REFRESH_EXPIRATION_DAYS must be a valid number"
    );
    let negative = ConfigSource { jwt_access_expiration_min: Some("-3".to_string()), ..full() };
    assert_eq!(AppConfig::from_source(negative).unwrap().jwt_access_expiration_min, -3);
    let plus = ConfigSource { server_port: Some("+81".to_string()), ..full() };
    assert_eq!(AppConfig::from_source(plus).unwrap().server_port, 81);
}

#[test]
fn the_first_complaint_wins() {
    let source = ConfigSource {
        server_port: Some("x".to_string()),
        database_url: None,
        jwt_secret: None,
        ..full()
    };
    assert_eq!(AppConfig::from_source(source).unwrap_err(), "SERVER_PORT must be a valid u16");
    let source = ConfigSource {
        jwt_secret: None,
        jwt_access_expiration_min: Some("x".to_string()),
        ..full()
    };
    assert_eq!(AppConfig::from_source(source).unwrap_err(), "JWT_SECRET must be set");
}
