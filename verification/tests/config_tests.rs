use dashboard_auth::config::{AxumConfig, Config, DatabaseConfig, JwtConfig};
use dashboard_auth::state::JWTConfigState;

fn sample_jwt() -> JwtConfig {
    JwtConfig::new(
        "dashboard-users".to_string(),
        "dashboard-server".to_string(),
        "dashboard-login".to_string(),
        "SECRET-REDACTED".to_string(),
    )
}

fn sample_config() -> Config {
    Config::new(
        sample_jwt(),
        AxumConfig::new("0.0.0.0:3500".to_string()),
        DatabaseConfig::new(
            "postgres://localhost:5432/dashboard".to_string(),
            "admin".to_string(),
            "hunter2".to_string(),
        ),
    )
}

#[test]
fn jwt_config_getters_return_stored_values() {
    let jwt = sample_jwt();
    assert_eq!(jwt.get_aud(), "dashboard-users");
    assert_eq!(jwt.get_iss(), "dashboard-server");
    assert_eq!(jwt.get_sub(), "dashboard-login");
    assert_eq!(jwt.get_secret(), "SECRET-REDACTED");
}

#[test]
fn jwt_config_getters_are_repeatable() {
    let jwt = sample_jwt();
    assert_eq!(jwt.get_aud(), jwt.get_aud());
    let copy = jwt.duplicate();
    assert_eq!(copy.get_aud(), jwt.get_aud());
    assert_eq!(copy.get_iss(), jwt.get_iss());
    assert_eq!(copy.get_sub(), jwt.get_sub());
    assert_eq!(copy.get_secret(), jwt.get_secret());
}

#[test]
fn config_hands_out_copies_of_its_parts() {
    let config = sample_config();
    let jwt = config.get_jwt_config();
    assert_eq!(jwt.get_aud(), "dashboard-users");
    assert_eq!(jwt.get_secret(), "SECRET-REDACTED");
    let axum = config.get_axum_config();
    assert_eq!(axum.get_addr(), "0.0.0.0:3500");
    let db = config.get_database_config();
    assert_eq!(db.get_url(), "postgres://localhost:5432/dashboard");
    assert_eq!(db.get_user(), "admin");
    assert_eq!(db.get_password(), "hunter2");
    // the configuration itself is unchanged by handing out copies
    assert_eq!(config.get_jwt_config().get_iss(), "dashboard-server");
    assert_eq!(config.get_axum_config().get_addr(), "0.0.0.0:3500");
}

#[test]
fn empty_strings_are_kept() {
    let jwt = JwtConfig::new(String::new(), String::new(), String::new(), String::new());
    assert_eq!(jwt.get_aud(), "");
    assert_eq!(jwt.get_secret(), "");
    assert_eq!(AxumConfig::new(String::new()).get_addr(), "");
}

#[test]
fn state_keeps_the_jwt_settings() {
    let state = JWTConfigState::new(sample_jwt());
    assert_eq!(state.jwt_config.get_sub(), "dashboard-login");
    let copy = state.duplicate();
    assert_eq!(copy.jwt_config.get_aud(), "dashboard-users");
    assert_eq!(copy.jwt_config.get_secret(), "SECRET-REDACTED");
}
