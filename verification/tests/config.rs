use rustpond::config::{CliArgs, Config, ConfigError, Environment, Platform};

fn no_args() -> CliArgs {
    CliArgs { android: false, app_id: None, key_id: None, issuer_id: None, private_key: None, service_account: None }
}

fn no_env() -> Environment {
    Environment {
        app_store_app_id: None,
        google_play_package_name: None,
        app_store_connect_key_id: None,
        app_store_connect_issuer_id: None,
        app_store_connect_private_key_path: None,
        google_play_service_account_path: None,
        openai_api_key: None,
    }
}

fn some(s: &str) -> Option<String> {
    Some(s.to_string())
}

#[test]
fn ios_is_configured_from_arguments() {
    let args = CliArgs {
        app_id: some("123"),
        key_id: some("KEY"),
        issuer_id: some("ISS"),
        private_key: some("/keys/k.pem"),
        ..no_args()
    };
    assert_eq!(
        Config::from_args_and_env(&args, &no_env()),
        Ok(Config {
            platform: Platform::Ios,
            app_id: "123".to_string(),
            key_id: some("KEY"),
            issuer_id: some("ISS"),
            private_key_path: some("/keys/k.pem"),
            service_account_path: None,
            openai_api_key: None,
        })
    );
}

#[test]
fn arguments_win_over_the_environment() {
    let args = CliArgs { app_id: some("from-arg"), key_id: some("arg-key"), ..no_args() };
    let env = Environment {
        app_store_app_id: some("from-env"),
        app_store_connect_key_id: some("env-key"),
        app_store_connect_issuer_id: some("env-iss"),
        app_store_connect_private_key_path: some("env.pem"),
        google_play_package_name: some("com.example"),
        google_play_service_account_path: some("sa.json"),
        openai_api_key: some("key-for-test"),
    };
    let config = Config::from_args_and_env(&args, &env).unwrap();
    assert_eq!(config.platform, Platform::Ios);
    assert_eq!(config.app_id, "from-arg");
    assert_eq!(config.key_id, some("arg-key"));
    assert_eq!(config.issuer_id, some("env-iss"));
    assert_eq!(config.private_key_path, some("env.pem"));
    assert_eq!(config.service_account_path, None);
    assert_eq!(config.openai_api_key, some("key-for-test"));
}

#[test]
fn android_is_configured_from_the_environment() {
    let args = CliArgs { android: true, ..no_args() };
    let env = Environment {
        app_store_app_id: some("ios-id"),
        google_play_package_name: some("com.example.app"),
        google_play_service_account_path: some("/sa.json"),
        app_store_connect_key_id: some("ignored"),
        ..no_env()
    };
    assert_eq!(
        Config::from_args_and_env(&args, &env),
        Ok(Config {
            platform: Platform::Android,
            app_id: "com.example.app".to_string(),
            key_id: None,
            issuer_id: None,
            private_key_path: None,
            service_account_path: some("/sa.json"),
            openai_api_key: None,
        })
    );
}

#[test]
fn each_missing_setting_is_named() {
    let full = CliArgs {
        app_id: some("1"),
        key_id: some("k"),
        issuer_id: some("i"),
        private_key: some("p"),
        ..no_args()
    };
    assert_eq!(Config::from_args_and_env(&no_args(), &no_env()), Err(ConfigError::AppId));
    assert_eq!(
        Config::from_args_and_env(&CliArgs { key_id: None, ..CliArgs { app_id: some("1"), issuer_id: some("i"), private_key: some("p"), ..no_args() } }, &no_env()),
        Err(ConfigError::KeyId)
    );
    assert_eq!(
        Config::from_args_and_env(&CliArgs { app_id: some("1"), key_id: some("k"), private_key: some("p"), ..no_args() }, &no_env()),
        Err(ConfigError::IssuerId)
    );
    assert_eq!(
        Config::from_args_and_env(&CliArgs { app_id: some("1"), key_id: some("k"), issuer_id: some("i"), ..no_args() }, &no_env()),
        Err(ConfigError::PrivateKey)
    );
    assert!(Config::from_args_and_env(&full, &no_env()).is_ok());
    let android = CliArgs { android: true, ..no_args() };
    assert_eq!(Config::from_args_and_env(&android, &no_env()), Err(ConfigError::PackageName));
    assert_eq!(
        Config::from_args_and_env(&CliArgs { android: true, app_id: some("com.x"), ..no_args() }, &no_env()),
        Err(ConfigError::ServiceAccount)
    );
}

#[test]
fn the_app_identifier_is_looked_for_first() {
    let args = CliArgs { key_id: None, ..no_args() };
    let env = Environment { app_store_connect_key_id: some("k"), ..no_env() };
    assert_eq!(Config::from_args_and_env(&args, &env), Err(ConfigError::AppId));
}

#[test]
fn errors_have_their_messages() {
    assert_eq!(
        ConfigError::AppId.message(),
        "App ID is required. Use --app-id or set APP_STORE_APP_ID environment variable"
    );
    assert_eq!(
        ConfigError::PackageName.message(),
        "Package name is required. Use --app-id or set GOOGLE_PLAY_PACKAGE_NAME environment variable"
    );
    assert_eq!(
        ConfigError::KeyId.message(),
        "Key ID is required for iOS. Use --key-id or set APP_STORE_CONNECT_KEY_ID environment variable"
    );
    assert_eq!(
        ConfigError::IssuerId.message(),
        "Issuer ID is required for iOS. Use --issuer-id or set APP_STORE_CONNECT_ISSUER_ID environment variable"
    );
    assert_eq!(
        ConfigError::PrivateKey.message(),
        "Private key path is required for iOS. Use --private-key or set APP_STORE_CONNECT_PRIVATE_KEY_PATH environment variable"
    );
    assert_eq!(
        ConfigError::ServiceAccount.message(),
        "Service account path is required for Android. Use --service-account or set GOOGLE_PLAY_SERVICE_ACCOUNT_PATH environment variable"
    );
}

#[test]
fn a_configuration_is_cloned_whole() {
    let config = Config {
        platform: Platform::Android,
        app_id: "com.x".to_string(),
        key_id: some("k"),
        issuer_id: None,
        private_key_path: some("p"),
        service_account_path: some("s"),
        openai_api_key: some("o"),
    };
    assert_eq!(config.clone(), config);
}
