use ndl::config::BlueskyConfig;
use ndl::config::Config;
use ndl::config::ConfigError;
use ndl::config::LoadPlan;
use ndl::config::LoginPlan;
use ndl::config::DEFAULT_OAUTH_ENDPOINT;

#[test]
fn test_config_preserves_bluesky_on_threads_update() {
    // Create a config with both Threads and Bluesky
    let mut config = Config {
        access_token: Some("old_threads_token".to_string()),
        client_id: None,
        client_secret: None,
        auth_server: None,
        bluesky: Some(BlueskyConfig {
            identifier: "user.bsky.social".to_string(),
            password: "secret".to_string(),
            session: Some("session_data".to_string()),
        }),
    };

    // Simulate updating Threads token (what login does)
    config.access_token = Some("new_threads_token".to_string());

    // Verify Bluesky config is still present
    assert!(config.has_bluesky());
    assert!(config.has_threads());
    assert_eq!(
        config.bluesky.as_ref().unwrap().identifier,
        "user.bsky.social"
    );
}

#[test]
fn empty_config_has_nothing() {
    let config = Config::empty();
    assert!(!config.has_bluesky());
    assert!(!config.has_threads());
    assert!(!config.has_credentials());
}

#[test]
fn credentials_need_both_id_and_secret() {
    let mut config = Config::empty();
    config.client_id = Some("id".to_string());
    assert!(!config.has_credentials());
    config.client_secret = Some("secret".to_string());
    assert!(config.has_credentials());
}

#[test]
fn paths_under_a_given_home() {
    assert_eq!(Config::dir_in(Some("/home/u/.config")).unwrap(), "/home/u/.config/ndl");
    assert_eq!(
        Config::path_in(Some("/home/u/.config")).unwrap(),
        "/home/u/.config/ndl/config.json"
    );
    assert_eq!(
        Config::legacy_path_in(Some("/home/u/.config")).unwrap(),
        "/home/u/.config/ndl/config.toml"
    );
}

#[test]
fn no_home_is_no_config_dir() {
    assert!(matches!(Config::path_in(None), Err(ConfigError::NoConfigDir)));
    assert_eq!(
        ConfigError::NoConfigDir.message(),
        "Could not determine config directory"
    );
    assert_eq!(ConfigError::Io("denied".to_string()).message(), "IO error: denied");
    assert_eq!(
        ConfigError::JsonParse("eof".to_string()).message(),
        "JSON parse error: eof"
    );
}

#[test]
fn load_plan_prefers_json_then_legacy() {
    assert_eq!(Config::load_plan(true, true), LoadPlan::ReadJson);
    assert_eq!(Config::load_plan(true, false), LoadPlan::ReadJson);
    assert_eq!(Config::load_plan(false, true), LoadPlan::MigrateLegacy);
    assert_eq!(Config::load_plan(false, false), LoadPlan::UseDefault);
}

#[test]
fn paths_under_the_users_config_dir() {
    match Config::dir() {
        Ok(dir) => {
            assert!(dir.ends_with("/ndl"));
            assert_eq!(Config::path().unwrap(), format!("{}/config.json", dir));
            assert_eq!(Config::legacy_path().unwrap(), format!("{}/config.toml", dir));
        }
        Err(e) => {
            assert!(matches!(e, ConfigError::NoConfigDir));
            assert!(matches!(Config::path(), Err(ConfigError::NoConfigDir)));
            assert!(matches!(Config::legacy_path(), Err(ConfigError::NoConfigDir)));
        }
    }
}

fn text(s: &str) -> Option<String> {
    Some(s.to_string())
}

#[test]
fn login_goes_through_the_relay_by_default() {
    let config = Config::empty();
    assert_eq!(DEFAULT_OAUTH_ENDPOINT, "https://ndl.pgray.dev");
    match config.plan_login(None, None, None).unwrap() {
        LoginPlan::Hosted { auth_server } => assert_eq!(auth_server, "https://ndl.pgray.dev"),
        other => panic!("unexpected {:?}", other),
    }
    let mut config = Config::empty();
    config.auth_server = text("https://configured.example");
    match config.plan_login(None, text("id"), text("secret")).unwrap() {
        LoginPlan::Hosted { auth_server } => assert_eq!(auth_server, "https://configured.example"),
        other => panic!("unexpected {:?}", other),
    }
    match config.plan_login(text("https://env.example"), None, None).unwrap() {
        LoginPlan::Hosted { auth_server } => assert_eq!(auth_server, "https://env.example"),
        other => panic!("unexpected {:?}", other),
    }
}

#[test]
fn an_empty_relay_address_asks_for_the_local_flow() {
    let mut config = Config::empty();
    config.auth_server = text("https://configured.example");
    assert_eq!(
        config.plan_login(text(""), None, None).unwrap_err(),
        "Missing client_id. Set NDL_CLIENT_ID or add to config."
    );
    assert_eq!(
        config.plan_login(text(""), text("env-id"), None).unwrap_err(),
        "Missing client_secret. Set NDL_CLIENT_SECRET or add to config."
    );
    assert_eq!(
        config.plan_login(text(""), None, text("env-secret")).unwrap_err(),
        "Missing client_id. Set NDL_CLIENT_ID or add to config."
    );
    match config.plan_login(text(""), text("env-id"), text("env-secret")).unwrap() {
        LoginPlan::Local { client_id, client_secret } => {
            assert_eq!(client_id, "env-id");
            assert_eq!(client_secret, "env-secret");
        }
        other => panic!("unexpected {:?}", other),
    }
    config.client_id = text("cfg-id");
    match config.plan_login(text(""), text("env-id"), text("env-secret")).unwrap() {
        LoginPlan::Local { client_id, client_secret } => {
            assert_eq!(client_id, "cfg-id");
            assert_eq!(client_secret, "env-secret");
        }
        other => panic!("unexpected {:?}", other),
    }
    let mut config = Config::empty();
    config.auth_server = text("");
    config.client_id = text("cfg-id");
    config.client_secret = text("cfg-secret");
    assert!(matches!(config.plan_login(None, None, None), Ok(LoginPlan::Local { .. })));
}

#[test]
fn a_login_is_recorded_and_forgotten() {
    let mut config = Config::empty();
    config.auth_server = text("https://relay.example");
    config.bluesky = Some(BlueskyConfig {
        identifier: "user.bsky.social".to_string(),
        password: "secret".to_string(),
        session: None,
    });
    let hosted = LoginPlan::Hosted { auth_server: "https://relay.example".to_string() };
    config.record_login(&hosted, "tok".to_string());
    assert_eq!(config.access_token.as_deref(), Some("tok"));
    assert_eq!(config.client_id, None);
    assert_eq!(config.client_secret, None);
    assert!(config.has_bluesky());

    let local = LoginPlan::Local { client_id: "id".to_string(), client_secret: "s".to_string() };
    config.record_login(&local, "tok2".to_string());
    assert_eq!(config.access_token.as_deref(), Some("tok2"));
    assert_eq!(config.client_id.as_deref(), Some("id"));
    assert_eq!(config.client_secret.as_deref(), Some("s"));
    assert_eq!(config.auth_server.as_deref(), Some("https://relay.example"));
    assert!(config.has_credentials());

    config.forget_login();
    assert!(!config.has_threads());
    assert!(config.has_credentials());
    assert!(config.has_bluesky());
    assert_eq!(config.bluesky.as_ref().unwrap().identifier, "user.bsky.social");
}
