//! Which store the session talks to and with which credentials, resolved
//! from command-line arguments and environment variables.

use vstd::prelude::*;
use vstd::string::StringExecFns;
use crate::review::clone_text;

verus! {

/// The store a session works against.
#[derive(Clone, Copy, Debug, PartialEq, Eq, Structural)]
pub enum Platform {
    Ios,
    Android,
}

/// The settings of one session.
#[derive(Debug, PartialEq, Eq)]
pub struct Config {
    pub platform: Platform,
    pub app_id: String,
    pub key_id: Option<String>,
    pub issuer_id: Option<String>,
    pub private_key_path: Option<String>,
    pub service_account_path: Option<String>,
    pub openai_api_key: Option<String>,
}

/// What a `Config` holds.
pub struct ConfigView {
    pub platform: Platform,
    pub app_id: Seq<char>,
    pub key_id: Option<Seq<char>>,
    pub issuer_id: Option<Seq<char>>,
    pub private_key_path: Option<Seq<char>>,
    pub service_account_path: Option<Seq<char>>,
    pub openai_api_key: Option<Seq<char>>,
}

impl View for Config {
    type V = ConfigView;

    open spec fn view(&self) -> ConfigView {
        ConfigView {
            platform: self.platform,
            app_id: self.app_id@,
            key_id: self.key_id.deep_view(),
            issuer_id: self.issuer_id.deep_view(),
            private_key_path: self.private_key_path.deep_view(),
            service_account_path: self.service_account_path.deep_view(),
            openai_api_key: self.openai_api_key.deep_view(),
        }
    }
}

impl Clone for Config {
    fn clone(&self) -> (r: Config)
        ensures
            r@ == self@,
    {
        Config {
            platform: self.platform,
            app_id: self.app_id.clone(),
            key_id: clone_text(&self.key_id),
            issuer_id: clone_text(&self.issuer_id),
            private_key_path: clone_text(&self.private_key_path),
            service_account_path: clone_text(&self.service_account_path),
            openai_api_key: clone_text(&self.openai_api_key),
        }
    }
}

/// The values given on the command line.
#[derive(Debug, PartialEq, Eq)]
pub struct CliArgs {
    pub android: bool,
    pub app_id: Option<String>,
    pub key_id: Option<String>,
    pub issuer_id: Option<String>,
    pub private_key: Option<String>,
    pub service_account: Option<String>,
}

/// The environment variables a session consults, each absent or set.
#[derive(Debug, PartialEq, Eq)]
pub struct Environment {
    pub app_store_app_id: Option<String>,
    pub google_play_package_name: Option<String>,
    pub app_store_connect_key_id: Option<String>,
    pub app_store_connect_issuer_id: Option<String>,
    pub app_store_connect_private_key_path: Option<String>,
    pub google_play_service_account_path: Option<String>,
    pub openai_api_key: Option<String>,
}

/// The setting that is missing from both the arguments and the environment.
#[derive(Clone, Copy, Debug, PartialEq, Eq, Structural)]
pub enum ConfigError {
    AppId,
    PackageName,
    KeyId,
    IssuerId,
    PrivateKey,
    ServiceAccount,
}

impl ConfigError {
    /// The message shown for this error.
    pub open spec fn text(self) -> Seq<char> {
        match self {
            ConfigError::AppId => "App ID is required. Use --app-id or set APP_STORE_APP_ID environment variable"@,
            ConfigError::PackageName => "Package name is required. Use --app-id or set GOOGLE_PLAY_PACKAGE_NAME environment variable"@,
            ConfigError::KeyId => "Key ID is required for iOS. Use --key-id or set APP_STORE_CONNECT_KEY_ID environment variable"@,
            ConfigError::IssuerId => "Issuer ID is required for iOS. Use --issuer-id or set APP_STORE_CONNECT_ISSUER_ID environment variable"@,
            ConfigError::PrivateKey => "Private key path is required for iOS. Use --private-key or set APP_STORE_CONNECT_PRIVATE_KEY_PATH environment variable"@,
            ConfigError::ServiceAccount => "Service account path is required for Android. Use --service-account or set GOOGLE_PLAY_SERVICE_ACCOUNT_PATH environment variable"@,
        }
    }

    /// The message shown for this error.
    pub fn message(&self) -> (s: String)
        ensures
            s@ == self.text(),
    {
        match self {
            ConfigError::AppId => String::from_str(
                "App ID is required. Use --app-id or set APP_STORE_APP_ID environment variable",
            ),
            ConfigError::PackageName => String::from_str(
                "Package name is required. Use --app-id or set GOOGLE_PLAY_PACKAGE_NAME environment variable",
            ),
            ConfigError::KeyId => String::from_str(
                "Key ID is required for iOS. Use --key-id or set APP_STORE_CONNECT_KEY_ID environment variable",
            ),
            ConfigError::IssuerId => String::from_str(
                "Issuer ID is required for iOS. Use --issuer-id or set APP_STORE_CONNECT_ISSUER_ID environment variable",
            ),
            ConfigError::PrivateKey => String::from_str(
                "Private key path is required for iOS. Use --private-key or set APP_STORE_CONNECT_PRIVATE_KEY_PATH environment variable",
            ),
            ConfigError::ServiceAccount => String::from_str(
                "Service account path is required for Android. Use --service-account or set GOOGLE_PLAY_SERVICE_ACCOUNT_PATH environment variable",
            ),
        }
    }
}

/// The first of two optional values that is present.
pub open spec fn first_present(a: Option<Seq<char>>, b: Option<Seq<char>>) -> Option<Seq<char>> {
    if a is Some {
        a
    } else {
        b
    }
}

fn first_of(a: &Option<String>, b: &Option<String>) -> (r: Option<String>)
    ensures
        r.deep_view() == first_present(a.deep_view(), b.deep_view()),
{
    match a {
        Some(s) => Some(s.clone()),
        None => clone_text(b),
    }
}

/// The configuration that the arguments and the environment give, or the
/// first setting found missing: an argument wins over its variable; the app
/// identifier is looked for first, then the credentials of the platform.
pub open spec fn resolved(args: CliArgs, env: Environment) -> Result<ConfigView, ConfigError> {
    let openai_api_key = env.openai_api_key.deep_view();
    if args.android {
        let app_id = first_present(args.app_id.deep_view(), env.google_play_package_name.deep_view());
        let account = first_present(
            args.service_account.deep_view(),
            env.google_play_service_account_path.deep_view(),
        );
        if app_id is None {
            Err(ConfigError::PackageName)
        } else if account is None {
            Err(ConfigError::ServiceAccount)
        } else {
            Ok(
                ConfigView {
                    platform: Platform::Android,
                    app_id: app_id->0,
                    key_id: None,
                    issuer_id: None,
                    private_key_path: None,
                    service_account_path: account,
                    openai_api_key,
                },
            )
        }
    } else {
        let app_id = first_present(args.app_id.deep_view(), env.app_store_app_id.deep_view());
        let key_id = first_present(args.key_id.deep_view(), env.app_store_connect_key_id.deep_view());
        let issuer_id = first_present(
            args.issuer_id.deep_view(),
            env.app_store_connect_issuer_id.deep_view(),
        );
        let private_key = first_present(
            args.private_key.deep_view(),
            env.app_store_connect_private_key_path.deep_view(),
        );
        if app_id is None {
            Err(ConfigError::AppId)
        } else if key_id is None {
            Err(ConfigError::KeyId)
        } else if issuer_id is None {
            Err(ConfigError::IssuerId)
        } else if private_key is None {
            Err(ConfigError::PrivateKey)
        } else {
            Ok(
                ConfigView {
                    platform: Platform::Ios,
                    app_id: app_id->0,
                    key_id,
                    issuer_id,
                    private_key_path: private_key,
                    service_account_path: None,
                    openai_api_key,
                },
            )
        }
    }
}

impl Config {
    /// Resolves the configuration from the command line and the environment.
    pub fn from_args_and_env(args: &CliArgs, env: &Environment) -> (r: Result<Config, ConfigError>)
        ensures
            match resolved(*args, *env) {
                Ok(c) => r matches Ok(config) && config@ == c,
                Err(e) => r == Err::<Config, ConfigError>(e),
            },
    {
        let openai_api_key = clone_text(&env.openai_api_key);
        if args.android {
            let app_id = match first_of(&args.app_id, &env.google_play_package_name) {
                Some(id) => id,
                None => {
                    return Err(ConfigError::PackageName);
                },
            };
            let account = first_of(&args.service_account, &env.google_play_service_account_path);
            if account.is_none() {
                return Err(ConfigError::ServiceAccount);
            }
            Ok(
                Config {
                    platform: Platform::Android,
                    app_id,
                    key_id: None,
                    issuer_id: None,
                    private_key_path: None,
                    service_account_path: account,
                    openai_api_key,
                },
            )
        } else {
            let app_id = match first_of(&args.app_id, &env.app_store_app_id) {
                Some(id) => id,
                None => {
                    return Err(ConfigError::AppId);
                },
            };
            let key_id = first_of(&args.key_id, &env.app_store_connect_key_id);
            if key_id.is_none() {
                return Err(ConfigError::KeyId);
            }
            let issuer_id = first_of(&args.issuer_id, &env.app_store_connect_issuer_id);
            if issuer_id.is_none() {
                return Err(ConfigError::IssuerId);
            }
            let private_key = first_of(&args.private_key, &env.app_store_connect_private_key_path);
            if private_key.is_none() {
                return Err(ConfigError::PrivateKey);
            }
            Ok(
                Config {
                    platform: Platform::Ios,
                    app_id,
                    key_id,
                    issuer_id,
                    private_key_path: private_key,
                    service_account_path: None,
                    openai_api_key,
                },
            )
        }
    }
}

} // verus!
